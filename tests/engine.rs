use rue::cpu::{alu, branch_taken, Cpu};
use rue::decode::{decode, imm_b, imm_i, imm_j, imm_s, imm_u, sign_extend};
use rue::dispatch::{dispatch, AluOp, BranchCond, Halt, LoadKind, Op};
use rue::mem::{Mem, MEM_LEN};
use rue::regs::RegFile;

fn r_type(funct7: u32, rs2: u32, rs1: u32, funct3: u32, rd: u32, opcode: u32) -> u32 {
    (funct7 << 25) | (rs2 << 20) | (rs1 << 15) | (funct3 << 12) | (rd << 7) | opcode
}

fn i_type(imm: i32, rs1: u32, funct3: u32, rd: u32, opcode: u32) -> u32 {
    (((imm as u32) & 0xfff) << 20) | (rs1 << 15) | (funct3 << 12) | (rd << 7) | opcode
}

fn s_type(imm: i32, rs2: u32, rs1: u32, funct3: u32, opcode: u32) -> u32 {
    let imm = imm as u32;
    (((imm >> 5) & 0x7f) << 25)
        | (rs2 << 20)
        | (rs1 << 15)
        | (funct3 << 12)
        | ((imm & 0x1f) << 7)
        | opcode
}

fn b_type(imm: i32, rs2: u32, rs1: u32, funct3: u32) -> u32 {
    let imm = imm as u32;
    (((imm >> 12) & 1) << 31)
        | (((imm >> 5) & 0x3f) << 25)
        | (rs2 << 20)
        | (rs1 << 15)
        | (funct3 << 12)
        | (((imm >> 1) & 0xf) << 8)
        | (((imm >> 11) & 1) << 7)
        | 0x63
}

fn j_type(imm: i32, rd: u32) -> u32 {
    let imm = imm as u32;
    (((imm >> 20) & 1) << 31)
        | (((imm >> 1) & 0x3ff) << 21)
        | (((imm >> 11) & 1) << 20)
        | (((imm >> 12) & 0xff) << 12)
        | (rd << 7)
        | 0x6f
}

fn addi(rd: u32, rs1: u32, imm: i32) -> u32 {
    i_type(imm, rs1, 0, rd, 0x13)
}

fn image(words: &[u32]) -> Vec<u8> {
    let mut out = Vec::new();
    for w in words {
        out.extend_from_slice(&w.to_le_bytes());
    }
    out
}

fn run_image(bytes: Vec<u8>) -> (Cpu, Option<Halt>) {
    let mut cpu = Cpu::from_buf(bytes);
    let halt = cpu.run(1000);
    (cpu, halt)
}

#[test]
fn register_write_then_read() {
    let mut regs = RegFile::new();
    regs.write(3, 42);
    assert_eq!(regs.read(3), 42);
    regs.write(31, 0xffff_ffff);
    assert_eq!(regs.read(31), 0xffff_ffff);
    regs.write(0, 7);
    assert_eq!(regs.read(0), 0);
}

#[test]
fn writes_to_x0_are_discarded_by_the_engine() {
    let (cpu, _) = run_image(image(&[addi(0, 0, 5), addi(1, 0, 3)]));
    assert_eq!(cpu.reg(0), 0);
    assert_eq!(cpu.reg(1), 3);
}

#[test]
fn add_and_sub_wrap_around() {
    assert_eq!(alu(AluOp::Add, 0xffff_ffff, 2), 1);
    assert_eq!(alu(AluOp::Add, 5, 7), 12);
    assert_eq!(alu(AluOp::Sub, 0, 1), 0xffff_ffff);
    assert_eq!(alu(AluOp::Sub, 10, 3), 7);
}

#[test]
fn store_word_then_load_word() {
    let mut mem = Mem::from_buf(vec![]);
    mem.store_word(100, 0xdead_beef);
    assert_eq!(mem.load_word(100), 0xdead_beef);
    assert_eq!(mem.load_byte(100), 0xef);
    assert_eq!(mem.load_byte(103), 0xde);
    assert_eq!(mem.load_half(102), 0xdead);
}

#[test]
fn store_word_wraps_past_the_end() {
    let mut mem = Mem::from_buf(vec![]);
    mem.store_word(4094, 0x1122_3344);
    assert_eq!(mem.load_word(4094), 0x1122_3344);
    assert_eq!(mem.load_byte(4094), 0x44);
    assert_eq!(mem.load_byte(4095), 0x33);
    assert_eq!(mem.load_byte(0), 0x22);
    assert_eq!(mem.load_byte(1), 0x11);
    assert_eq!(mem.load_word(4094 + MEM_LEN), 0x1122_3344);
}

#[test]
fn store_half_wraps_past_the_end() {
    let mut mem = Mem::from_buf(vec![]);
    mem.store_half(4095, 0xabcd);
    assert_eq!(mem.load_byte(4095), 0xcd);
    assert_eq!(mem.load_byte(0), 0xab);
    assert_eq!(mem.load_half(4095), 0xabcd);
    mem.store_byte(4096 + 7, 0x5a);
    assert_eq!(mem.load_byte(7), 0x5a);
}

#[test]
fn image_is_loaded_and_padded_with_zeros() {
    let mem = Mem::from_buf(vec![1, 2, 3]);
    assert_eq!(mem.len(), 4096);
    assert_eq!(mem.load_byte(0), 1);
    assert_eq!(mem.load_byte(2), 3);
    assert_eq!(mem.load_byte(3), 0);
    assert_eq!(mem.load_word(0), 0x0003_0201);
}

#[test]
fn oversized_image_is_truncated() {
    let buf: Vec<u8> = (0..5000u32).map(|i| (i % 251) as u8).collect();
    let mem = Mem::from_buf(buf);
    assert_eq!(mem.len(), 4096);
    assert_eq!(mem.load_byte(4095), (4095 % 251) as u8);
    assert_eq!(mem.load_byte(4096), 0);
}

#[test]
fn lb_sign_extends_and_lbu_zero_extends() {
    let mut words = vec![
        i_type(64, 0, 0, 1, 0x03),
        i_type(64, 0, 4, 2, 0x03),
        i_type(64, 0, 1, 3, 0x03),
        i_type(64, 0, 5, 4, 0x03),
    ];
    words.resize(16, 0);
    words.push(0x0000_80ff);
    let (cpu, _) = run_image(image(&words));
    assert_eq!(cpu.reg(1), 0xffff_ffff);
    assert_eq!(cpu.reg(1) as i32, -1);
    assert_eq!(cpu.reg(2), 0x0000_00ff);
    assert_eq!(cpu.reg(3), 0xffff_80ff);
    assert_eq!(cpu.reg(4), 0x0000_80ff);
}

#[test]
fn shift_amount_uses_low_five_bits() {
    assert_eq!(alu(AluOp::Sll, 1, 33), 2);
    assert_eq!(alu(AluOp::Sll, 1, 33), alu(AluOp::Sll, 1, 1));
    assert_eq!(alu(AluOp::Sll, 3, 32), 3);
    assert_eq!(alu(AluOp::Srl, 0x8000_0000, 63), 1);
    assert_eq!(alu(AluOp::Sra, 0x8000_0000, 31), 0xffff_ffff);
    let (cpu, _) = run_image(image(&[
        addi(1, 0, 1),
        addi(2, 0, 33),
        r_type(0, 2, 1, 1, 3, 0x33),
    ]));
    assert_eq!(cpu.reg(3), 2);
}

#[test]
fn beq_target_is_relative_to_its_own_address() {
    let words = [
        addi(1, 0, 1),
        b_type(8, 1, 1, 0),
        addi(2, 0, 99),
        addi(3, 0, 7),
    ];
    let mut cpu = Cpu::from_buf(image(&words));
    assert_eq!(cpu.step(), None);
    assert_eq!(cpu.pc(), 4);
    assert_eq!(cpu.step(), None);
    assert_eq!(cpu.pc(), 12);
    assert_eq!(cpu.step(), None);
    assert_eq!(cpu.reg(2), 0);
    assert_eq!(cpu.reg(3), 7);
}

#[test]
fn branches_not_taken_fall_through() {
    let words = [
        addi(1, 0, -1),
        addi(2, 0, 1),
        b_type(8, 2, 1, 0),
        b_type(8, 2, 1, 5),
        b_type(8, 2, 1, 6),
    ];
    let mut cpu = Cpu::from_buf(image(&words));
    for expected in [4u32, 8, 12, 16, 20] {
        assert_eq!(cpu.step(), None);
        assert_eq!(cpu.pc(), expected);
    }
}

#[test]
fn branch_conditions() {
    assert!(branch_taken(BranchCond::Blt, 0xffff_ffff, 1));
    assert!(!branch_taken(BranchCond::Bltu, 0xffff_ffff, 1));
    assert!(branch_taken(BranchCond::Bge, 1, 0xffff_ffff));
    assert!(branch_taken(BranchCond::Bgeu, 0xffff_ffff, 1));
    assert!(branch_taken(BranchCond::Bne, 1, 2));
    assert!(!branch_taken(BranchCond::Beq, 1, 2));
}

#[test]
fn jal_links_the_following_address() {
    let mut cpu = Cpu::from_buf(image(&[addi(0, 0, 0), j_type(16, 1)]));
    assert_eq!(cpu.step(), None);
    assert_eq!(cpu.step(), None);
    assert_eq!(cpu.reg(1), 8);
    assert_eq!(cpu.pc(), 20);
}

#[test]
fn jalr_links_and_clears_bit_zero() {
    let words = [addi(5, 0, 0x31), i_type(0, 5, 0, 6, 0x67)];
    let mut cpu = Cpu::from_buf(image(&words));
    assert_eq!(cpu.step(), None);
    assert_eq!(cpu.step(), None);
    assert_eq!(cpu.reg(6), 8);
    assert_eq!(cpu.pc(), 0x30);
}

#[test]
fn addi_addi_add_scenario() {
    let (cpu, halt) = run_image(image(&[
        addi(1, 0, 5),
        addi(2, 0, 7),
        r_type(0, 2, 1, 0, 3, 0x33),
    ]));
    assert_eq!(halt, Some(Halt::DecodeError { opcode: 0, funct3: 0, funct7: 0 }));
    assert_eq!(cpu.reg(1), 5);
    assert_eq!(cpu.reg(2), 7);
    assert_eq!(cpu.reg(3), 12);
    let regs = cpu.registers();
    assert_eq!(regs.len(), 32);
    assert_eq!(regs[3], 12);
}

#[test]
fn lui_scenario() {
    let (cpu, _) = run_image(image(&[(0x10000 << 12) | (5 << 7) | 0x37]));
    assert_eq!(cpu.reg(5), 0x1000_0000);
}

#[test]
fn auipc_adds_its_own_address() {
    let (cpu, _) = run_image(image(&[addi(0, 0, 0), (1 << 12) | (7 << 7) | 0x17]));
    assert_eq!(cpu.reg(7), 0x1004);
}

#[test]
fn store_then_load_scenario() {
    let (cpu, _) = run_image(image(&[
        addi(1, 0, -291),
        s_type(256, 1, 0, 2, 0x23),
        i_type(256, 0, 2, 2, 0x03),
    ]));
    assert_eq!(cpu.reg(2), cpu.reg(1));
    assert_eq!(cpu.reg(2) as i32, -291);
    assert_eq!(cpu.mem().load_word(256) as i32, -291);
}

#[test]
fn sb_and_sh_store_low_bytes() {
    let (cpu, _) = run_image(image(&[
        addi(1, 0, -2),
        s_type(200, 1, 0, 0, 0x23),
        s_type(210, 1, 0, 1, 0x23),
    ]));
    assert_eq!(cpu.mem().load_word(200), 0x0000_00fe);
    assert_eq!(cpu.mem().load_word(210), 0x0000_fffe);
}

#[test]
fn unknown_opcode_is_a_decode_error() {
    let (cpu, halt) = run_image(image(&[addi(1, 0, 1), 0xffff_ffff]));
    assert_eq!(halt, Some(Halt::DecodeError { opcode: 0x7f, funct3: 7, funct7: 0x7f }));
    assert_eq!(cpu.pc(), 4);
    assert_eq!(cpu.reg(1), 1);
}

#[test]
fn undefined_funct_is_a_decode_error() {
    assert_eq!(
        dispatch(r_type(1, 2, 1, 0, 3, 0x33)),
        Err(Halt::DecodeError { opcode: 0x33, funct3: 0, funct7: 1 })
    );
    assert_eq!(
        dispatch(i_type(0x401, 1, 1, 2, 0x13)),
        Err(Halt::DecodeError { opcode: 0x13, funct3: 1, funct7: 0x20 })
    );
    assert_eq!(
        dispatch(i_type(0, 1, 3, 2, 0x03)),
        Err(Halt::DecodeError { opcode: 0x03, funct3: 3, funct7: 0 })
    );
    assert_eq!(
        dispatch(s_type(0, 1, 2, 4, 0x23)),
        Err(Halt::DecodeError { opcode: 0x23, funct3: 4, funct7: 0 })
    );
    assert_eq!(
        dispatch(b_type(0, 1, 2, 2)),
        Err(Halt::DecodeError { opcode: 0x63, funct3: 2, funct7: 0 })
    );
}

#[test]
fn misaligned_pc_is_an_alignment_fault() {
    let (cpu, halt) = run_image(image(&[j_type(6, 0)]));
    assert_eq!(halt, Some(Halt::AlignmentFault { pc: 6 }));
    assert_eq!(cpu.pc(), 6);
}

#[test]
fn system_halts_and_fence_continues() {
    let (cpu, halt) = run_image(image(&[0x0000_000f, addi(1, 0, 2), 0x0000_0073, addi(1, 0, 9)]));
    assert_eq!(halt, Some(Halt::SystemCall));
    assert_eq!(cpu.reg(1), 2);
    assert_eq!(cpu.pc(), 12);
}

#[test]
fn slt_and_sltu_are_distinct() {
    let (cpu, _) = run_image(image(&[
        addi(1, 0, -1),
        addi(2, 0, 1),
        r_type(0, 2, 1, 2, 3, 0x33),
        r_type(0, 2, 1, 3, 4, 0x33),
    ]));
    assert_eq!(cpu.reg(3), 1);
    assert_eq!(cpu.reg(4), 0);
}

#[test]
fn immediate_alu_operations() {
    let (cpu, _) = run_image(image(&[
        addi(1, 0, -16),
        i_type(0x402, 1, 5, 2, 0x13),
        i_type(28, 1, 5, 3, 0x13),
        i_type(4, 1, 1, 4, 0x13),
        i_type(-1, 1, 3, 5, 0x13),
        i_type(-1, 1, 2, 6, 0x13),
        i_type(0xf0, 1, 7, 7, 0x13),
        i_type(-1, 1, 4, 8, 0x13),
        i_type(0x3, 1, 6, 9, 0x13),
    ]));
    assert_eq!(cpu.reg(2) as i32, -4);
    assert_eq!(cpu.reg(3), 0xf);
    assert_eq!(cpu.reg(4), 0xffff_ff00);
    // sltiu compares with the zero-extended immediate 0xfff.
    assert_eq!(cpu.reg(5), 0);
    assert_eq!(cpu.reg(6), 1);
    assert_eq!(cpu.reg(7), 0xf0);
    assert_eq!(cpu.reg(8), 15);
    assert_eq!(cpu.reg(9), 0xffff_fff3);
}

#[test]
fn register_alu_operations() {
    assert_eq!(alu(AluOp::Xor, 0b1100, 0b1010), 0b0110);
    assert_eq!(alu(AluOp::Or, 0b1100, 0b1010), 0b1110);
    assert_eq!(alu(AluOp::And, 0b1100, 0b1010), 0b1000);
    assert_eq!(alu(AluOp::Slt, 0x8000_0000, 0), 1);
    assert_eq!(alu(AluOp::Sltu, 0x8000_0000, 0), 0);
    assert_eq!(alu(AluOp::Sra, 0xffff_fff0, 2), 0xffff_fffc);
    assert_eq!(alu(AluOp::Srl, 0xffff_fff0, 2), 0x3fff_fffc);
}

#[test]
fn decode_splits_fields() {
    let w = r_type(0x20, 7, 6, 5, 4, 0x33);
    let f = decode(w);
    assert_eq!(f.opcode, 0x33);
    assert_eq!(f.rd, 4);
    assert_eq!(f.funct3, 5);
    assert_eq!(f.rs1, 6);
    assert_eq!(f.rs2, 7);
    assert_eq!(f.funct7, 0x20);
}

#[test]
fn immediates_are_reassembled_and_sign_extended() {
    assert_eq!(imm_i(i_type(-5, 1, 0, 2, 0x13)), (-5i32) as u32);
    assert_eq!(imm_i(i_type(2047, 1, 0, 2, 0x13)), 2047);
    assert_eq!(imm_s(s_type(-300, 1, 2, 2, 0x23)), (-300i32) as u32);
    assert_eq!(imm_s(s_type(100, 1, 2, 2, 0x23)), 100);
    assert_eq!(imm_b(b_type(8, 1, 1, 0)), 8);
    assert_eq!(imm_b(b_type(-4096, 1, 1, 0)), (-4096i32) as u32);
    assert_eq!(imm_b(b_type(2050, 1, 1, 0)), 2050);
    assert_eq!(imm_u(0x1234_5037), 0x1234_5000);
    assert_eq!(imm_j(j_type(16, 1)), 16);
    assert_eq!(imm_j(j_type(-2, 1)), (-2i32) as u32);
    assert_eq!(imm_j(j_type(0x7_f802, 1)), 0x7_f802);
    assert_eq!(sign_extend(0xff, 0x100), 0xffff_ffff);
    assert_eq!(sign_extend(0x7f, 0x100), 0x7f);
}

#[test]
fn dispatch_resolves_operations() {
    assert_eq!(
        dispatch(addi(1, 2, -3)),
        Ok(Op::AluImm { op: AluOp::Add, rd: 1, rs1: 2, imm: (-3i32) as u32 })
    );
    assert_eq!(
        dispatch(r_type(0x20, 3, 2, 0, 1, 0x33)),
        Ok(Op::Alu { op: AluOp::Sub, rd: 1, rs1: 2, rs2: 3 })
    );
    assert_eq!(
        dispatch(i_type(-8, 2, 0, 1, 0x03)),
        Ok(Op::Load { kind: LoadKind::Lb, rd: 1, rs1: 2, imm: (-8i32) as u32 })
    );
    assert_eq!(dispatch(0x0000_0073), Ok(Op::System));
    assert_eq!(dispatch(0x0000_000f), Ok(Op::Fence));
}

#[test]
fn pc_wraps_at_the_end_of_memory() {
    let mut words = vec![0u32; MEM_LEN / 4];
    words[0] = j_type(4092, 0);
    words[MEM_LEN / 4 - 1] = addi(1, 0, 1);
    let mut cpu = Cpu::from_buf(image(&words));
    assert_eq!(cpu.step(), None);
    assert_eq!(cpu.pc(), 4092);
    assert_eq!(cpu.step(), None);
    assert_eq!(cpu.pc(), 0);
    assert_eq!(cpu.reg(1), 1);
}

#[test]
fn run_stops_after_the_step_limit() {
    let mut cpu = Cpu::from_buf(image(&[j_type(0, 0)]));
    assert_eq!(cpu.run(10), None);
    assert_eq!(cpu.pc(), 0);
    assert_eq!(cpu.run(0), None);
}
