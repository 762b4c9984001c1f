use vstd::prelude::*;

verus! {

pub const OPCODE_LOAD: u32 = 0x03;
pub const OPCODE_FENCE: u32 = 0x0f;
pub const OPCODE_OP_IMM: u32 = 0x13;
pub const OPCODE_AUIPC: u32 = 0x17;
pub const OPCODE_STORE: u32 = 0x23;
pub const OPCODE_OP: u32 = 0x33;
pub const OPCODE_LUI: u32 = 0x37;
pub const OPCODE_BRANCH: u32 = 0x63;
pub const OPCODE_JALR: u32 = 0x67;
pub const OPCODE_JAL: u32 = 0x6f;
pub const OPCODE_SYSTEM: u32 = 0x73;

/// `x` reduced to a machine word (two's-complement wraparound).
pub open spec fn to_word(x: int) -> u32 {
    (x % 0x1_0000_0000) as u32
}

/// Value of `v`, a field of `width` possible values (a power of two), read
/// as a two's-complement number.
pub open spec fn sext(v: int, width: int) -> int {
    if v >= width / 2 {
        v - width
    } else {
        v
    }
}

/// A machine word read as a signed number.
pub open spec fn signed(w: u32) -> int {
    sext(w as int, 0x1_0000_0000)
}

pub open spec fn opcode_of(w: u32) -> u32 {
    w % 0x80
}

pub open spec fn rd_of(w: u32) -> u32 {
    w / 0x80 % 0x20
}

pub open spec fn funct3_of(w: u32) -> u32 {
    w / 0x1000 % 0x8
}

pub open spec fn rs1_of(w: u32) -> u32 {
    w / 0x8000 % 0x20
}

pub open spec fn rs2_of(w: u32) -> u32 {
    w / 0x10_0000 % 0x20
}

pub open spec fn funct7_of(w: u32) -> u32 {
    w / 0x200_0000
}

/// I-type immediate: bits 31..20, sign-extended.
pub open spec fn imm_i_spec(w: u32) -> u32 {
    to_word(sext((w / 0x10_0000) as int, 0x1000))
}

/// S-type immediate: bits 31..25 above bits 11..7, sign-extended.
pub open spec fn imm_s_spec(w: u32) -> u32 {
    to_word(sext(funct7_of(w) * 0x20 + rd_of(w), 0x1000))
}

/// B-type immediate: offset bits 12, 11, 10..5 and 4..1 taken from bits
/// 31, 7, 30..25 and 11..8; bit 0 is zero; sign-extended.
pub open spec fn imm_b_spec(w: u32) -> u32 {
    to_word(
        sext(
            (w / 0x8000_0000) * 0x1000 + (w / 0x80 % 2) * 0x800 + (w / 0x200_0000 % 0x40) * 0x20
                + (w / 0x100 % 0x10) * 2,
            0x2000,
        ),
    )
}

/// U-type immediate: bits 31..12 in place, the low 12 bits zero.
pub open spec fn imm_u_spec(w: u32) -> u32 {
    (w / 0x1000 * 0x1000) as u32
}

/// J-type immediate: offset bits 20, 19..12, 11 and 10..1 taken from bits
/// 31, 19..12, 20 and 30..21; bit 0 is zero; sign-extended.
pub open spec fn imm_j_spec(w: u32) -> u32 {
    to_word(
        sext(
            (w / 0x8000_0000) * 0x10_0000 + (w / 0x1000 % 0x100) * 0x1000 + (w / 0x10_0000 % 2)
                * 0x800 + (w / 0x20_0000 % 0x400) * 2,
            0x20_0000,
        ),
    )
}

/// The fixed fields of an instruction word.
#[derive(Clone, Copy, Debug, PartialEq, Eq, Structural)]
pub struct Fields {
    pub opcode: u32,
    pub rd: usize,
    pub funct3: u32,
    pub rs1: usize,
    pub rs2: usize,
    pub funct7: u32,
}

/// Splits an instruction word into its fixed fields. Never fails.
pub fn decode(w: u32) -> (r: Fields)
    ensures
        r.opcode == opcode_of(w),
        r.rd == rd_of(w),
        r.funct3 == funct3_of(w),
        r.rs1 == rs1_of(w),
        r.rs2 == rs2_of(w),
        r.funct7 == funct7_of(w),
        r.rd < 32 && r.rs1 < 32 && r.rs2 < 32,
{
    assert(w & 0x7f == w % 0x80) by (bit_vector);
    assert((w >> 7) & 0x1f == w / 0x80 % 0x20) by (bit_vector);
    assert((w >> 12) & 0x7 == w / 0x1000 % 0x8) by (bit_vector);
    assert((w >> 15) & 0x1f == w / 0x8000 % 0x20) by (bit_vector);
    assert((w >> 20) & 0x1f == w / 0x10_0000 % 0x20) by (bit_vector);
    assert(w >> 25 == w / 0x200_0000) by (bit_vector);
    Fields {
        opcode: w & 0x7f,
        rd: ((w >> 7) & 0x1f) as usize,
        funct3: (w >> 12) & 0x7,
        rs1: ((w >> 15) & 0x1f) as usize,
        rs2: ((w >> 20) & 0x1f) as usize,
        funct7: w >> 25,
    }
}

/// Sign-extends `v`, a field of `width` possible values, to a machine word.
pub fn sign_extend(v: u32, width: u32) -> (r: u32)
    requires
        v < width,
        width % 2 == 0,
    ensures
        r == to_word(sext(v as int, width as int)),
{
    if v >= width / 2 {
        v + (u32::MAX - width) + 1
    } else {
        v
    }
}

pub fn imm_i(w: u32) -> (r: u32)
    ensures
        r == imm_i_spec(w),
{
    assert(w >> 20 == w / 0x10_0000) by (bit_vector);
    sign_extend(w >> 20, 0x1000)
}

pub fn imm_s(w: u32) -> (r: u32)
    ensures
        r == imm_s_spec(w),
{
    let v = ((w >> 25) << 5) | ((w >> 7) & 0x1f);
    assert(((w >> 25) << 5) | ((w >> 7) & 0x1f) == (w / 0x200_0000) * 0x20 + w / 0x80 % 0x20)
        by (bit_vector);
    assert(((w >> 25) << 5) | ((w >> 7) & 0x1f) < 0x1000) by (bit_vector);
    sign_extend(v, 0x1000)
}

pub fn imm_b(w: u32) -> (r: u32)
    ensures
        r == imm_b_spec(w),
{
    let v = ((w >> 31) << 12) | (((w >> 7) & 1) << 11) | (((w >> 25) & 0x3f) << 5) | (((w >> 8)
        & 0xf) << 1);
    assert(((w >> 31) << 12) | (((w >> 7) & 1) << 11) | (((w >> 25) & 0x3f) << 5) | (((w >> 8)
        & 0xf) << 1) == (w / 0x8000_0000) * 0x1000 + (w / 0x80 % 2) * 0x800 + (w / 0x200_0000
        % 0x40) * 0x20 + (w / 0x100 % 0x10) * 2) by (bit_vector);
    assert(((w >> 31) << 12) | (((w >> 7) & 1) << 11) | (((w >> 25) & 0x3f) << 5) | (((w >> 8)
        & 0xf) << 1) < 0x2000) by (bit_vector);
    sign_extend(v, 0x2000)
}

pub fn imm_u(w: u32) -> (r: u32)
    ensures
        r == imm_u_spec(w),
{
    assert(w & 0xffff_f000 == w / 0x1000 * 0x1000) by (bit_vector);
    w & 0xffff_f000
}

pub fn imm_j(w: u32) -> (r: u32)
    ensures
        r == imm_j_spec(w),
{
    let v = ((w >> 31) << 20) | (((w >> 12) & 0xff) << 12) | (((w >> 20) & 1) << 11) | (((w
        >> 21) & 0x3ff) << 1);
    assert(((w >> 31) << 20) | (((w >> 12) & 0xff) << 12) | (((w >> 20) & 1) << 11) | (((w
        >> 21) & 0x3ff) << 1) == (w / 0x8000_0000) * 0x10_0000 + (w / 0x1000 % 0x100) * 0x1000
        + (w / 0x10_0000 % 2) * 0x800 + (w / 0x20_0000 % 0x400) * 2) by (bit_vector);
    assert(((w >> 31) << 20) | (((w >> 12) & 0xff) << 12) | (((w >> 20) & 1) << 11) | (((w
        >> 21) & 0x3ff) << 1) < 0x20_0000) by (bit_vector);
    sign_extend(v, 0x20_0000)
}

} // verus!
