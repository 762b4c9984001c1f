use vstd::prelude::*;

use crate::decode::{
    funct3_of, funct7_of, imm_b_spec, imm_i_spec, imm_j_spec, opcode_of, rd_of, rs1_of, rs2_of,
    sext, sign_extend, signed, to_word, OPCODE_AUIPC, OPCODE_BRANCH, OPCODE_FENCE, OPCODE_JAL,
    OPCODE_JALR, OPCODE_LOAD, OPCODE_LUI, OPCODE_OP, OPCODE_OP_IMM, OPCODE_STORE, OPCODE_SYSTEM,
};
use crate::dispatch::{dispatch, dispatch_spec, op_regs_valid, AluOp, BranchCond, Halt, LoadKind, Op, StoreKind};
use crate::mem::{
    image_spec, load_byte_spec, load_half_spec, load_word_spec, store_byte_spec, store_half_spec,
    store_word_spec, Mem, MEM_LEN,
};
use crate::regs::{read_spec, write_spec, RegFile, NUM_REGS};

verus! {

/// What an ALU operation computes from its two operands. Shifts use only
/// the low 5 bits of the second operand.
pub open spec fn alu_spec(op: AluOp, a: u32, b: u32) -> u32 {
    match op {
        AluOp::Add => to_word(a + b),
        AluOp::Sub => to_word(a - b),
        AluOp::Sll => a << (b % 32),
        AluOp::Slt => if signed(a) < signed(b) {
            1
        } else {
            0
        },
        AluOp::Sltu => if a < b {
            1
        } else {
            0
        },
        AluOp::Xor => a ^ b,
        AluOp::Srl => a >> (b % 32),
        AluOp::Sra => ((a as i32) >> (b % 32)) as u32,
        AluOp::Or => a | b,
        AluOp::And => a & b,
    }
}

pub open spec fn branch_taken_spec(cond: BranchCond, a: u32, b: u32) -> bool {
    match cond {
        BranchCond::Beq => a == b,
        BranchCond::Bne => a != b,
        BranchCond::Blt => signed(a) < signed(b),
        BranchCond::Bge => signed(a) >= signed(b),
        BranchCond::Bltu => a < b,
        BranchCond::Bgeu => a >= b,
    }
}

/// The word that a load of the given kind puts in its destination register.
pub open spec fn load_spec(kind: LoadKind, m: Seq<u8>, addr: u32) -> u32 {
    match kind {
        LoadKind::Lb => to_word(sext(load_byte_spec(m, addr as int) as int, 0x100)),
        LoadKind::Lh => to_word(sext(load_half_spec(m, addr as int) as int, 0x1_0000)),
        LoadKind::Lw => load_word_spec(m, addr as int),
        LoadKind::Lbu => load_byte_spec(m, addr as int) as u32,
        LoadKind::Lhu => load_half_spec(m, addr as int) as u32,
    }
}

/// Memory after a store of the given kind of the low bytes of `v`.
pub open spec fn store_spec(kind: StoreKind, m: Seq<u8>, addr: u32, v: u32) -> Seq<u8> {
    match kind {
        StoreKind::Sb => store_byte_spec(m, addr as int, (v % 0x100) as u8),
        StoreKind::Sh => store_half_spec(m, addr as int, (v % 0x1_0000) as u16),
        StoreKind::Sw => store_word_spec(m, addr as int, v),
    }
}

/// The architectural state of the engine.
pub struct CpuState {
    pub regs: Seq<u32>,
    pub pc: u32,
    pub mem: Seq<u8>,
}

pub open spec fn state_wf(s: CpuState) -> bool {
    &&& s.regs.len() == NUM_REGS
    &&& s.regs[0] == 0
    &&& s.mem.len() == MEM_LEN
}

/// All registers zero, the program counter at 0, the image loaded at 0.
pub open spec fn initial_spec(image: Seq<u8>) -> CpuState {
    CpuState { regs: Seq::new(NUM_REGS as nat, |i: int| 0u32), pc: 0, mem: image_spec(image) }
}

/// Address of the next instruction when no control transfer happens: the
/// fetch address plus 4, reduced modulo the memory capacity.
pub open spec fn fall_through(pc: u32) -> u32 {
    ((pc + 4) % (MEM_LEN as int)) as u32
}

/// The state after executing `op`, fetched at `s.pc`. Branch and jump
/// targets are relative to that fetch address.
pub open spec fn exec_spec(s: CpuState, op: Op) -> CpuState {
    let next = fall_through(s.pc);
    let x = s.regs;
    match op {
        Op::Alu { op, rd, rs1, rs2 } => CpuState {
            regs: write_spec(
                x,
                rd as int,
                alu_spec(op, read_spec(x, rs1 as int), read_spec(x, rs2 as int)),
            ),
            pc: next,
            mem: s.mem,
        },
        Op::AluImm { op, rd, rs1, imm } => CpuState {
            regs: write_spec(x, rd as int, alu_spec(op, read_spec(x, rs1 as int), imm)),
            pc: next,
            mem: s.mem,
        },
        Op::Load { kind, rd, rs1, imm } => CpuState {
            regs: write_spec(
                x,
                rd as int,
                load_spec(kind, s.mem, to_word(read_spec(x, rs1 as int) + imm)),
            ),
            pc: next,
            mem: s.mem,
        },
        Op::Store { kind, rs1, rs2, imm } => CpuState {
            regs: x,
            pc: next,
            mem: store_spec(
                kind,
                s.mem,
                to_word(read_spec(x, rs1 as int) + imm),
                read_spec(x, rs2 as int),
            ),
        },
        Op::Branch { cond, rs1, rs2, imm } => CpuState {
            regs: x,
            pc: if branch_taken_spec(cond, read_spec(x, rs1 as int), read_spec(x, rs2 as int)) {
                to_word(s.pc + imm)
            } else {
                next
            },
            mem: s.mem,
        },
        Op::Jal { rd, imm } => CpuState {
            regs: write_spec(x, rd as int, to_word(s.pc + 4)),
            pc: to_word(s.pc + imm),
            mem: s.mem,
        },
        Op::Jalr { rd, rs1, imm } => {
            let target = to_word(read_spec(x, rs1 as int) + imm);
            CpuState {
                regs: write_spec(x, rd as int, to_word(s.pc + 4)),
                pc: (target - target % 2) as u32,
                mem: s.mem,
            }
        },
        Op::Lui { rd, imm } => CpuState { regs: write_spec(x, rd as int, imm), pc: next, mem: s.mem },
        Op::Auipc { rd, imm } => CpuState {
            regs: write_spec(x, rd as int, to_word(s.pc + imm)),
            pc: next,
            mem: s.mem,
        },
        Op::Fence | Op::System => CpuState { regs: x, pc: next, mem: s.mem },
    }
}

/// One fetch-decode-execute cycle: the new state, and the reason to halt if
/// the engine stops. A fault leaves the state as it was.
pub open spec fn step_spec(s: CpuState) -> (CpuState, Option<Halt>) {
    if s.pc % 4 != 0 {
        (s, Some(Halt::AlignmentFault { pc: s.pc }))
    } else {
        match dispatch_spec(load_word_spec(s.mem, s.pc as int)) {
            Err(h) => (s, Some(h)),
            Ok(op) => (exec_spec(s, op), if op is System {
                Some(Halt::SystemCall)
            } else {
                None
            }),
        }
    }
}

/// At most `n` cycles, stopping at the first halt.
pub open spec fn run_spec(s: CpuState, n: nat) -> (CpuState, Option<Halt>)
    decreases n,
{
    if n == 0 {
        (s, None)
    } else {
        let (t, h) = step_spec(s);
        if h is Some {
            (t, h)
        } else {
            run_spec(t, (n - 1) as nat)
        }
    }
}

proof fn lemma_fall_through(pc: u32)
    ensures
        (pc.wrapping_add(4) % (MEM_LEN as u32)) as u32 == fall_through(pc),
{
    if pc + 4 > u32::MAX {
        vstd::arithmetic::div_mod::lemma_mod_multiples_vanish(-0x10_0000, pc + 4, 0x1000);
    }
}

proof fn lemma_wrapping_add(a: u32, b: u32)
    ensures
        a.wrapping_add(b) == to_word(a + b),
{
}

/// Clearing bit 0 of a word.
fn clear_low_bit(t: u32) -> (r: u32)
    ensures
        r == t - t % 2,
{
    assert(t & 0xffff_fffe == t - t % 2) by (bit_vector);
    t & 0xffff_fffe
}

/// Signed comparison of two machine words.
fn lt_signed(a: u32, b: u32) -> (r: bool)
    ensures
        r == (signed(a) < signed(b)),
{
    let a_neg = a >= 0x8000_0000;
    let b_neg = b >= 0x8000_0000;
    if a_neg != b_neg {
        a_neg
    } else {
        a < b
    }
}

pub fn alu(op: AluOp, a: u32, b: u32) -> (r: u32)
    ensures
        r == alu_spec(op, a, b),
{
    match op {
        AluOp::Add => a.wrapping_add(b),
        AluOp::Sub => a.wrapping_sub(b),
        AluOp::Sll => a << (b % 32),
        AluOp::Slt => if lt_signed(a, b) {
            1
        } else {
            0
        },
        AluOp::Sltu => if a < b {
            1
        } else {
            0
        },
        AluOp::Xor => a ^ b,
        AluOp::Srl => a >> (b % 32),
        AluOp::Sra => ((a as i32) >> (b % 32)) as u32,
        AluOp::Or => a | b,
        AluOp::And => a & b,
    }
}

pub fn branch_taken(cond: BranchCond, a: u32, b: u32) -> (r: bool)
    ensures
        r == branch_taken_spec(cond, a, b),
{
    match cond {
        BranchCond::Beq => a == b,
        BranchCond::Bne => a != b,
        BranchCond::Blt => lt_signed(a, b),
        BranchCond::Bge => !lt_signed(a, b),
        BranchCond::Bltu => a < b,
        BranchCond::Bgeu => a >= b,
    }
}

fn load(mem: &Mem, kind: LoadKind, addr: u32) -> (r: u32)
    requires
        mem.wf(),
    ensures
        r == load_spec(kind, mem@, addr),
{
    let a = addr as usize;
    match kind {
        LoadKind::Lb => sign_extend(mem.load_byte(a) as u32, 0x100),
        LoadKind::Lh => sign_extend(mem.load_half(a) as u32, 0x1_0000),
        LoadKind::Lw => mem.load_word(a),
        LoadKind::Lbu => mem.load_byte(a) as u32,
        LoadKind::Lhu => mem.load_half(a) as u32,
    }
}

fn store(mem: &mut Mem, kind: StoreKind, addr: u32, v: u32)
    requires
        old(mem).wf(),
    ensures
        final(mem).wf(),
        final(mem)@ == store_spec(kind, old(mem)@, addr, v),
{
    let a = addr as usize;
    match kind {
        StoreKind::Sb => mem.store_byte(a, (v % 0x100) as u8),
        StoreKind::Sh => mem.store_half(a, (v % 0x1_0000) as u16),
        StoreKind::Sw => mem.store_word(a, v),
    }
}

/// The execution engine: a register file, a program counter and a memory,
/// owned for the engine's whole lifetime.
pub struct Cpu {
    regs: RegFile,
    pc: u32,
    mem: Mem,
}

impl View for Cpu {
    type V = CpuState;

    closed spec fn view(&self) -> CpuState {
        CpuState { regs: self.regs@, pc: self.pc, mem: self.mem@ }
    }
}

impl Cpu {
    pub open spec fn wf(&self) -> bool {
        state_wf(self@)
    }

    proof fn lemma_parts_wf(&self)
        requires
            self.wf(),
        ensures
            self.regs.wf(),
            self.mem.wf(),
    {
    }

    /// An engine at reset over the given memory.
    pub fn from_mem(mem: Mem) -> (r: Self)
        requires
            mem.wf(),
        ensures
            r.wf(),
            r@ == (CpuState { regs: Seq::new(NUM_REGS as nat, |i: int| 0u32), pc: 0, mem: mem@ }),
    {
        let regs = RegFile::new();
        let r = Cpu { regs, pc: 0, mem };
        assert(r@.regs =~= Seq::new(NUM_REGS as nat, |i: int| 0u32));
        r
    }

    /// An engine at reset with `buf` loaded at address 0 (truncated to the
    /// memory capacity).
    pub fn from_buf(buf: Vec<u8>) -> (r: Self)
        ensures
            r.wf(),
            r@ == initial_spec(buf@),
    {
        Self::from_mem(Mem::from_buf(buf))
    }

    /// Value of register `i`.
    pub fn reg(&self, i: usize) -> (r: u32)
        requires
            self.wf(),
            i < NUM_REGS,
        ensures
            r == self@.regs[i as int],
    {
        proof {
            self.lemma_parts_wf();
        }
        self.regs.read(i)
    }

    /// The 32 registers in index order.
    pub fn registers(&self) -> (r: Vec<u32>)
        requires
            self.wf(),
        ensures
            r@ == self@.regs,
    {
        proof {
            self.lemma_parts_wf();
        }
        let mut out: Vec<u32> = Vec::new();
        let mut i: usize = 0;
        while i < NUM_REGS
            invariant
                self.wf(),
                i <= NUM_REGS,
                out@ =~= self@.regs.subrange(0, i as int),
            decreases NUM_REGS - i,
        {
            out.push(self.regs.read(i));
            i = i + 1;
        }
        out
    }

    pub fn pc(&self) -> (r: u32)
        ensures
            r == self@.pc,
    {
        self.pc
    }

    pub fn mem(&self) -> (r: &Mem)
        requires
            self.wf(),
        ensures
            r.wf(),
            r@ == self@.mem,
    {
        &self.mem
    }

    /// Moves the program counter to the next instruction in sequence.
    fn advance(&mut self)
        requires
            old(self).wf(),
        ensures
            final(self).wf(),
            final(self)@ == (CpuState { pc: fall_through(old(self)@.pc), ..old(self)@ }),
    {
        proof {
            lemma_fall_through(self.pc);
        }
        self.pc = self.pc.wrapping_add(4) % (MEM_LEN as u32);
    }

    /// Register-only operations: the ALU groups, `lui` and `auipc`.
    fn exec_compute(&mut self, op: Op)
        requires
            old(self).wf(),
            op_regs_valid(op),
            op is Alu || op is AluImm || op is Lui || op is Auipc,
        ensures
            final(self).wf(),
            final(self)@ == exec_spec(old(self)@, op),
    {
        let pc = self.pc;
        let v = match op {
            Op::Alu { op, rs1, rs2, .. } => alu(op, self.regs.read(rs1), self.regs.read(rs2)),
            Op::AluImm { op, rs1, imm, .. } => alu(op, self.regs.read(rs1), imm),
            Op::Lui { imm, .. } => imm,
            Op::Auipc { imm, .. } => pc.wrapping_add(imm),
            _ => 0,
        };
        let rd = match op {
            Op::Alu { rd, .. } | Op::AluImm { rd, .. } | Op::Lui { rd, .. } | Op::Auipc { rd, .. } => rd,
            _ => 0,
        };
        self.advance();
        self.regs.write(rd, v);
    }

    /// Loads and stores.
    fn exec_memory(&mut self, op: Op)
        requires
            old(self).wf(),
            op_regs_valid(op),
            op is Load || op is Store,
        ensures
            final(self).wf(),
            final(self)@ == exec_spec(old(self)@, op),
    {
        match op {
            Op::Load { kind, rd, rs1, imm } => {
                let base = self.regs.read(rs1);
                proof {
                    lemma_wrapping_add(base, imm);
                }
                let v = load(&self.mem, kind, base.wrapping_add(imm));
                self.advance();
                self.regs.write(rd, v);
            },
            Op::Store { kind, rs1, rs2, imm } => {
                let base = self.regs.read(rs1);
                proof {
                    lemma_wrapping_add(base, imm);
                }
                let v = self.regs.read(rs2);
                self.advance();
                store(&mut self.mem, kind, base.wrapping_add(imm), v);
            },
            _ => {},
        }
    }

    /// Branches and jumps: their targets are relative to the fetch address.
    fn exec_control(&mut self, op: Op)
        requires
            old(self).wf(),
            op_regs_valid(op),
            op is Branch || op is Jal || op is Jalr,
        ensures
            final(self).wf(),
            final(self)@ == exec_spec(old(self)@, op),
    {
        let pc = self.pc;
        proof {
            lemma_wrapping_add(pc, 4);
        }
        match op {
            Op::Branch { cond, rs1, rs2, imm } => {
                proof {
                    lemma_wrapping_add(pc, imm);
                }
                let taken = branch_taken(cond, self.regs.read(rs1), self.regs.read(rs2));
                if taken {
                    self.pc = pc.wrapping_add(imm);
                } else {
                    self.advance();
                }
            },
            Op::Jal { rd, imm } => {
                proof {
                    lemma_wrapping_add(pc, imm);
                }
                self.regs.write(rd, pc.wrapping_add(4));
                self.pc = pc.wrapping_add(imm);
            },
            Op::Jalr { rd, rs1, imm } => {
                let base = self.regs.read(rs1);
                proof {
                    lemma_wrapping_add(base, imm);
                }
                let target = clear_low_bit(base.wrapping_add(imm));
                self.regs.write(rd, pc.wrapping_add(4));
                self.pc = target;
            },
            _ => {},
        }
    }

    /// Executes `op`, fetched at the current program counter.
    fn execute(&mut self, op: Op)
        requires
            old(self).wf(),
            op_regs_valid(op),
        ensures
            final(self).wf(),
            final(self)@ == exec_spec(old(self)@, op),
    {
        match op {
            Op::Alu { .. } | Op::AluImm { .. } | Op::Lui { .. } | Op::Auipc { .. } => {
                self.exec_compute(op)
            },
            Op::Load { .. } | Op::Store { .. } => self.exec_memory(op),
            Op::Branch { .. } | Op::Jal { .. } | Op::Jalr { .. } => self.exec_control(op),
            Op::Fence | Op::System => self.advance(),
        }
    }

    /// Runs one fetch-decode-execute cycle. Returns the reason to halt, or
    /// `None` while the engine keeps running.
    pub fn step(&mut self) -> (r: Option<Halt>)
        requires
            old(self).wf(),
        ensures
            final(self).wf(),
            (final(self)@, r) == step_spec(old(self)@),
    {
        let pc = self.pc;
        if pc % 4 != 0 {
            return Some(Halt::AlignmentFault { pc });
        }
        let w = self.mem.load_word(pc as usize);
        match dispatch(w) {
            Err(h) => Some(h),
            Ok(op) => {
                self.execute(op);
                match op {
                    Op::System => Some(Halt::SystemCall),
                    _ => None,
                }
            },
        }
    }

    /// Runs at most `max_steps` cycles, stopping at the first halt. Returns
    /// the halt reason, or `None` if the engine is still running.
    pub fn run(&mut self, max_steps: u64) -> (r: Option<Halt>)
        requires
            old(self).wf(),
        ensures
            final(self).wf(),
            (final(self)@, r) == run_spec(old(self)@, max_steps as nat),
    {
        let mut i: u64 = 0;
        while i < max_steps
            invariant
                self.wf(),
                i <= max_steps,
                run_spec(self@, (max_steps - i) as nat) == run_spec(old(self)@, max_steps as nat),
            decreases max_steps - i,
        {
            match self.step() {
                Some(h) => {
                    return Some(h);
                },
                None => {},
            }
            i = i + 1;
        }
        None
    }
}

/// Addition and subtraction wrap around modulo 2^32 and never fault.
pub proof fn lemma_add_sub_wrap(a: u32, b: u32)
    ensures
        alu_spec(AluOp::Add, a, b) == (a + b) % 0x1_0000_0000,
        alu_spec(AluOp::Sub, a, b) == (a - b) % 0x1_0000_0000,
{
}

/// Shifts use only the low 5 bits of the shift amount: shifting by `y` is
/// shifting by `y mod 32`.
pub proof fn lemma_shift_amount_masked(x: u32, y: u32)
    ensures
        alu_spec(AluOp::Sll, x, y) == alu_spec(AluOp::Sll, x, y % 32),
        alu_spec(AluOp::Srl, x, y) == alu_spec(AluOp::Srl, x, y % 32),
        alu_spec(AluOp::Sra, x, y) == alu_spec(AluOp::Sra, x, y % 32),
{
}

/// `lb` of the byte 0xff gives the all-ones word, `lbu` gives 0xff.
pub proof fn lemma_load_byte_extension(m: Seq<u8>, addr: u32)
    requires
        load_byte_spec(m, addr as int) == 0xff,
    ensures
        load_spec(LoadKind::Lb, m, addr) == 0xffff_ffff,
        load_spec(LoadKind::Lbu, m, addr) == 0xff,
{
}

/// A `beq` at address A whose operands are equal moves the program counter
/// to A plus the branch offset (not to A + 4 plus the offset).
pub proof fn lemma_beq_target(s: CpuState, w: u32)
    requires
        state_wf(s),
        s.pc % 4 == 0,
        load_word_spec(s.mem, s.pc as int) == w,
        opcode_of(w) == OPCODE_BRANCH,
        funct3_of(w) == 0,
        read_spec(s.regs, rs1_of(w) as int) == read_spec(s.regs, rs2_of(w) as int),
    ensures
        step_spec(s).1 is None,
        step_spec(s).0.pc == to_word(s.pc + imm_b_spec(w)),
        step_spec(s).0.regs == s.regs,
        step_spec(s).0.mem == s.mem,
{
}

/// A `jal` at address A writes A + 4 to its destination register and moves
/// the program counter to A plus the jump offset.
pub proof fn lemma_jal_link(s: CpuState, w: u32)
    requires
        state_wf(s),
        s.pc % 4 == 0,
        load_word_spec(s.mem, s.pc as int) == w,
        opcode_of(w) == OPCODE_JAL,
        rd_of(w) != 0,
    ensures
        step_spec(s).1 is None,
        step_spec(s).0.regs[rd_of(w) as int] == to_word(s.pc + 4),
        step_spec(s).0.pc == to_word(s.pc + imm_j_spec(w)),
{
}

/// A `jalr` at address A writes A + 4 to its destination register and moves
/// the program counter to the base register plus the offset, bit 0 cleared.
pub proof fn lemma_jalr_link(s: CpuState, w: u32)
    requires
        state_wf(s),
        s.pc % 4 == 0,
        load_word_spec(s.mem, s.pc as int) == w,
        opcode_of(w) == OPCODE_JALR,
        funct3_of(w) == 0,
        rd_of(w) != 0,
    ensures
        step_spec(s).1 is None,
        step_spec(s).0.regs[rd_of(w) as int] == to_word(s.pc + 4),
        step_spec(s).0.pc == ({
            let t = to_word(read_spec(s.regs, rs1_of(w) as int) + imm_i_spec(w));
            (t - t % 2) as u32
        }),
{
}

/// The opcodes that name an instruction group.
pub open spec fn opcode_defined(opcode: u32) -> bool {
    opcode == OPCODE_LOAD || opcode == OPCODE_FENCE || opcode == OPCODE_OP_IMM || opcode
        == OPCODE_AUIPC || opcode == OPCODE_STORE || opcode == OPCODE_OP || opcode == OPCODE_LUI
        || opcode == OPCODE_BRANCH || opcode == OPCODE_JALR || opcode == OPCODE_JAL || opcode
        == OPCODE_SYSTEM
}

/// An instruction whose opcode names no group halts the engine with a
/// decode error that reports its opcode and function fields, and changes
/// nothing.
pub proof fn lemma_unknown_opcode_halts(s: CpuState, w: u32)
    requires
        s.pc % 4 == 0,
        load_word_spec(s.mem, s.pc as int) == w,
        !opcode_defined(opcode_of(w)),
    ensures
        step_spec(s) == (
        s,
        Some(Halt::DecodeError { opcode: opcode_of(w), funct3: funct3_of(w), funct7: funct7_of(w) }),
    ),
{
}

/// Each cycle keeps the state well formed: register 0 stays zero and the
/// memory keeps its capacity.
pub proof fn lemma_step_keeps_wf(s: CpuState)
    requires
        state_wf(s),
    ensures
        state_wf(step_spec(s).0),
{
}

} // verus!
