use vstd::prelude::*;

use crate::decode::{
    decode, funct3_of, funct7_of, imm_b, imm_b_spec, imm_i, imm_i_spec, imm_j, imm_j_spec, imm_s,
    imm_s_spec, imm_u, imm_u_spec, opcode_of, rd_of, rs1_of, rs2_of, OPCODE_AUIPC, OPCODE_BRANCH,
    OPCODE_FENCE, OPCODE_JAL, OPCODE_JALR, OPCODE_LOAD, OPCODE_LUI, OPCODE_OP, OPCODE_OP_IMM,
    OPCODE_STORE, OPCODE_SYSTEM,
};

verus! {

/// The register-register and register-immediate ALU operations.
#[derive(Clone, Copy, Debug, PartialEq, Eq, Structural)]
pub enum AluOp {
    Add,
    Sub,
    Sll,
    Slt,
    Sltu,
    Xor,
    Srl,
    Sra,
    Or,
    And,
}

#[derive(Clone, Copy, Debug, PartialEq, Eq, Structural)]
pub enum LoadKind {
    Lb,
    Lh,
    Lw,
    Lbu,
    Lhu,
}

#[derive(Clone, Copy, Debug, PartialEq, Eq, Structural)]
pub enum StoreKind {
    Sb,
    Sh,
    Sw,
}

#[derive(Clone, Copy, Debug, PartialEq, Eq, Structural)]
pub enum BranchCond {
    Beq,
    Bne,
    Blt,
    Bge,
    Bltu,
    Bgeu,
}

/// One decoded operation, with its register indices and its immediate
/// already extended to a machine word.
#[derive(Clone, Copy, Debug, PartialEq, Eq, Structural)]
pub enum Op {
    Alu { op: AluOp, rd: usize, rs1: usize, rs2: usize },
    AluImm { op: AluOp, rd: usize, rs1: usize, imm: u32 },
    Load { kind: LoadKind, rd: usize, rs1: usize, imm: u32 },
    Store { kind: StoreKind, rs1: usize, rs2: usize, imm: u32 },
    Branch { cond: BranchCond, rs1: usize, rs2: usize, imm: u32 },
    Jal { rd: usize, imm: u32 },
    Jalr { rd: usize, rs1: usize, imm: u32 },
    Lui { rd: usize, imm: u32 },
    Auipc { rd: usize, imm: u32 },
    Fence,
    System,
}

/// Why the engine stopped.
#[derive(Clone, Copy, Debug, PartialEq, Eq, Structural)]
pub enum Halt {
    /// The program counter was not a multiple of 4 at fetch.
    AlignmentFault { pc: u32 },
    /// No operation is defined for these opcode and function fields.
    DecodeError { opcode: u32, funct3: u32, funct7: u32 },
    /// A SYSTEM instruction (environment call or break) was executed.
    SystemCall,
}

pub open spec fn alu_op_spec(funct3: u32, funct7: u32) -> Option<AluOp> {
    if funct7 == 0 {
        if funct3 == 0 {
            Some(AluOp::Add)
        } else if funct3 == 1 {
            Some(AluOp::Sll)
        } else if funct3 == 2 {
            Some(AluOp::Slt)
        } else if funct3 == 3 {
            Some(AluOp::Sltu)
        } else if funct3 == 4 {
            Some(AluOp::Xor)
        } else if funct3 == 5 {
            Some(AluOp::Srl)
        } else if funct3 == 6 {
            Some(AluOp::Or)
        } else if funct3 == 7 {
            Some(AluOp::And)
        } else {
            None
        }
    } else if funct7 == 0x20 {
        if funct3 == 0 {
            Some(AluOp::Sub)
        } else if funct3 == 5 {
            Some(AluOp::Sra)
        } else {
            None
        }
    } else {
        None
    }
}

/// In the immediate group `funct7` is part of the immediate, except for the
/// shifts, where it must be zero (or 0x20 for `srai`).
pub open spec fn alu_imm_op_spec(funct3: u32, funct7: u32) -> Option<AluOp> {
    if funct3 == 0 {
        Some(AluOp::Add)
    } else if funct3 == 2 {
        Some(AluOp::Slt)
    } else if funct3 == 3 {
        Some(AluOp::Sltu)
    } else if funct3 == 4 {
        Some(AluOp::Xor)
    } else if funct3 == 6 {
        Some(AluOp::Or)
    } else if funct3 == 7 {
        Some(AluOp::And)
    } else if funct3 == 1 && funct7 == 0 {
        Some(AluOp::Sll)
    } else if funct3 == 5 && funct7 == 0 {
        Some(AluOp::Srl)
    } else if funct3 == 5 && funct7 == 0x20 {
        Some(AluOp::Sra)
    } else {
        None
    }
}

/// Second operand of an immediate ALU operation: the shift amount for the
/// shifts, the zero-extended immediate for `sltiu`, the sign-extended one
/// otherwise.
pub open spec fn alu_imm_operand_spec(op: AluOp, w: u32) -> u32 {
    match op {
        AluOp::Sll | AluOp::Srl | AluOp::Sra => rs2_of(w),
        AluOp::Sltu => w / 0x10_0000,
        _ => imm_i_spec(w),
    }
}

pub open spec fn load_kind_spec(funct3: u32) -> Option<LoadKind> {
    if funct3 == 0 {
        Some(LoadKind::Lb)
    } else if funct3 == 1 {
        Some(LoadKind::Lh)
    } else if funct3 == 2 {
        Some(LoadKind::Lw)
    } else if funct3 == 4 {
        Some(LoadKind::Lbu)
    } else if funct3 == 5 {
        Some(LoadKind::Lhu)
    } else {
        None
    }
}

pub open spec fn store_kind_spec(funct3: u32) -> Option<StoreKind> {
    if funct3 == 0 {
        Some(StoreKind::Sb)
    } else if funct3 == 1 {
        Some(StoreKind::Sh)
    } else if funct3 == 2 {
        Some(StoreKind::Sw)
    } else {
        None
    }
}

pub open spec fn branch_cond_spec(funct3: u32) -> Option<BranchCond> {
    if funct3 == 0 {
        Some(BranchCond::Beq)
    } else if funct3 == 1 {
        Some(BranchCond::Bne)
    } else if funct3 == 4 {
        Some(BranchCond::Blt)
    } else if funct3 == 5 {
        Some(BranchCond::Bge)
    } else if funct3 == 6 {
        Some(BranchCond::Bltu)
    } else if funct3 == 7 {
        Some(BranchCond::Bgeu)
    } else {
        None
    }
}

pub open spec fn decode_error_spec(w: u32) -> Halt {
    Halt::DecodeError { opcode: opcode_of(w), funct3: funct3_of(w), funct7: funct7_of(w) }
}

/// The operation that an instruction word encodes, or the decode error that
/// names its opcode and function fields.
pub open spec fn dispatch_spec(w: u32) -> Result<Op, Halt> {
    let opcode = opcode_of(w);
    let funct3 = funct3_of(w);
    let rd = rd_of(w) as usize;
    let rs1 = rs1_of(w) as usize;
    let rs2 = rs2_of(w) as usize;
    if opcode == OPCODE_OP {
        match alu_op_spec(funct3, funct7_of(w)) {
            Some(op) => Ok(Op::Alu { op, rd, rs1, rs2 }),
            None => Err(decode_error_spec(w)),
        }
    } else if opcode == OPCODE_OP_IMM {
        match alu_imm_op_spec(funct3, funct7_of(w)) {
            Some(op) => Ok(Op::AluImm { op, rd, rs1, imm: alu_imm_operand_spec(op, w) }),
            None => Err(decode_error_spec(w)),
        }
    } else if opcode == OPCODE_LOAD {
        match load_kind_spec(funct3) {
            Some(kind) => Ok(Op::Load { kind, rd, rs1, imm: imm_i_spec(w) }),
            None => Err(decode_error_spec(w)),
        }
    } else if opcode == OPCODE_STORE {
        match store_kind_spec(funct3) {
            Some(kind) => Ok(Op::Store { kind, rs1, rs2, imm: imm_s_spec(w) }),
            None => Err(decode_error_spec(w)),
        }
    } else if opcode == OPCODE_BRANCH {
        match branch_cond_spec(funct3) {
            Some(cond) => Ok(Op::Branch { cond, rs1, rs2, imm: imm_b_spec(w) }),
            None => Err(decode_error_spec(w)),
        }
    } else if opcode == OPCODE_JAL {
        Ok(Op::Jal { rd, imm: imm_j_spec(w) })
    } else if opcode == OPCODE_JALR && funct3 == 0 {
        Ok(Op::Jalr { rd, rs1, imm: imm_i_spec(w) })
    } else if opcode == OPCODE_LUI {
        Ok(Op::Lui { rd, imm: imm_u_spec(w) })
    } else if opcode == OPCODE_AUIPC {
        Ok(Op::Auipc { rd, imm: imm_u_spec(w) })
    } else if opcode == OPCODE_FENCE {
        Ok(Op::Fence)
    } else if opcode == OPCODE_SYSTEM {
        Ok(Op::System)
    } else {
        Err(decode_error_spec(w))
    }
}

/// The register indices that an operation names.
pub open spec fn op_regs_valid(op: Op) -> bool {
    match op {
        Op::Alu { rd, rs1, rs2, .. } => rd < 32 && rs1 < 32 && rs2 < 32,
        Op::AluImm { rd, rs1, .. } => rd < 32 && rs1 < 32,
        Op::Load { rd, rs1, .. } => rd < 32 && rs1 < 32,
        Op::Store { rs1, rs2, .. } => rs1 < 32 && rs2 < 32,
        Op::Branch { rs1, rs2, .. } => rs1 < 32 && rs2 < 32,
        Op::Jal { rd, .. } => rd < 32,
        Op::Jalr { rd, rs1, .. } => rd < 32 && rs1 < 32,
        Op::Lui { rd, .. } => rd < 32,
        Op::Auipc { rd, .. } => rd < 32,
        Op::Fence | Op::System => true,
    }
}

pub fn alu_op(funct3: u32, funct7: u32) -> (r: Option<AluOp>)
    ensures
        r == alu_op_spec(funct3, funct7),
{
    match (funct3, funct7) {
        (0, 0x00) => Some(AluOp::Add),
        (0, 0x20) => Some(AluOp::Sub),
        (1, 0x00) => Some(AluOp::Sll),
        (2, 0x00) => Some(AluOp::Slt),
        (3, 0x00) => Some(AluOp::Sltu),
        (4, 0x00) => Some(AluOp::Xor),
        (5, 0x00) => Some(AluOp::Srl),
        (5, 0x20) => Some(AluOp::Sra),
        (6, 0x00) => Some(AluOp::Or),
        (7, 0x00) => Some(AluOp::And),
        _ => None,
    }
}

pub fn alu_imm_op(funct3: u32, funct7: u32) -> (r: Option<AluOp>)
    ensures
        r == alu_imm_op_spec(funct3, funct7),
{
    match funct3 {
        0 => Some(AluOp::Add),
        2 => Some(AluOp::Slt),
        3 => Some(AluOp::Sltu),
        4 => Some(AluOp::Xor),
        6 => Some(AluOp::Or),
        7 => Some(AluOp::And),
        1 => if funct7 == 0 {
            Some(AluOp::Sll)
        } else {
            None
        },
        5 => if funct7 == 0 {
            Some(AluOp::Srl)
        } else if funct7 == 0x20 {
            Some(AluOp::Sra)
        } else {
            None
        },
        _ => None,
    }
}

pub fn load_kind(funct3: u32) -> (r: Option<LoadKind>)
    ensures
        r == load_kind_spec(funct3),
{
    match funct3 {
        0 => Some(LoadKind::Lb),
        1 => Some(LoadKind::Lh),
        2 => Some(LoadKind::Lw),
        4 => Some(LoadKind::Lbu),
        5 => Some(LoadKind::Lhu),
        _ => None,
    }
}

pub fn store_kind(funct3: u32) -> (r: Option<StoreKind>)
    ensures
        r == store_kind_spec(funct3),
{
    match funct3 {
        0 => Some(StoreKind::Sb),
        1 => Some(StoreKind::Sh),
        2 => Some(StoreKind::Sw),
        _ => None,
    }
}

pub fn branch_cond(funct3: u32) -> (r: Option<BranchCond>)
    ensures
        r == branch_cond_spec(funct3),
{
    match funct3 {
        0 => Some(BranchCond::Beq),
        1 => Some(BranchCond::Bne),
        4 => Some(BranchCond::Blt),
        5 => Some(BranchCond::Bge),
        6 => Some(BranchCond::Bltu),
        7 => Some(BranchCond::Bgeu),
        _ => None,
    }
}

/// Resolves an instruction word to its operation.
pub fn dispatch(w: u32) -> (r: Result<Op, Halt>)
    ensures
        r == dispatch_spec(w),
        r is Ok ==> op_regs_valid(r->Ok_0),
{
    let f = decode(w);
    let err = Halt::DecodeError { opcode: f.opcode, funct3: f.funct3, funct7: f.funct7 };
    if f.opcode == OPCODE_OP {
        match alu_op(f.funct3, f.funct7) {
            Some(op) => Ok(Op::Alu { op, rd: f.rd, rs1: f.rs1, rs2: f.rs2 }),
            None => Err(err),
        }
    } else if f.opcode == OPCODE_OP_IMM {
        match alu_imm_op(f.funct3, f.funct7) {
            Some(op) => {
                let imm = match op {
                    AluOp::Sll | AluOp::Srl | AluOp::Sra => f.rs2 as u32,
                    AluOp::Sltu => {
                        assert(w >> 20 == w / 0x10_0000) by (bit_vector);
                        w >> 20
                    },
                    _ => imm_i(w),
                };
                Ok(Op::AluImm { op, rd: f.rd, rs1: f.rs1, imm })
            },
            None => Err(err),
        }
    } else if f.opcode == OPCODE_LOAD {
        match load_kind(f.funct3) {
            Some(kind) => Ok(Op::Load { kind, rd: f.rd, rs1: f.rs1, imm: imm_i(w) }),
            None => Err(err),
        }
    } else if f.opcode == OPCODE_STORE {
        match store_kind(f.funct3) {
            Some(kind) => Ok(Op::Store { kind, rs1: f.rs1, rs2: f.rs2, imm: imm_s(w) }),
            None => Err(err),
        }
    } else if f.opcode == OPCODE_BRANCH {
        match branch_cond(f.funct3) {
            Some(cond) => Ok(Op::Branch { cond, rs1: f.rs1, rs2: f.rs2, imm: imm_b(w) }),
            None => Err(err),
        }
    } else if f.opcode == OPCODE_JAL {
        Ok(Op::Jal { rd: f.rd, imm: imm_j(w) })
    } else if f.opcode == OPCODE_JALR && f.funct3 == 0 {
        Ok(Op::Jalr { rd: f.rd, rs1: f.rs1, imm: imm_i(w) })
    } else if f.opcode == OPCODE_LUI {
        Ok(Op::Lui { rd: f.rd, imm: imm_u(w) })
    } else if f.opcode == OPCODE_AUIPC {
        Ok(Op::Auipc { rd: f.rd, imm: imm_u(w) })
    } else if f.opcode == OPCODE_FENCE {
        Ok(Op::Fence)
    } else if f.opcode == OPCODE_SYSTEM {
        Ok(Op::System)
    } else {
        Err(err)
    }
}

} // verus!
