//! The decoder: from a 32-bit instruction word to the instruction it
//! encodes.

use vstd::prelude::*;
use crate::cpu::alu::AluOp;
use crate::cpu::cpu::Xlen;
use crate::cpu::encoding::{field, get_field};

verus! {

#[derive(Clone, Copy, Debug, PartialEq, Eq, Structural)]
pub enum BranchKind {
    Eq,
    Ne,
    Lt,
    Ge,
    Ltu,
    Geu,
}

/// The width of a memory access.
#[derive(Clone, Copy, Debug, PartialEq, Eq, Structural)]
pub enum Width {
    B,
    H,
    W,
    D,
}

#[derive(Clone, Copy, Debug, PartialEq, Eq, Structural)]
pub enum CsrOp {
    ReadWrite,
    ReadSet,
    ReadClear,
}

#[derive(Clone, Copy, Debug, PartialEq, Eq, Structural)]
pub enum AmoOp {
    Swap,
    Add,
    Xor,
    And,
    Or,
    Min,
    Max,
    Minu,
    Maxu,
}

/// How a sign-injection takes the sign of its second operand.
#[derive(Clone, Copy, Debug, PartialEq, Eq, Structural)]
pub enum SignKind {
    Copy,
    Negate,
    Xor,
}

/// A decoded instruction. Immediates are sign-extended 64-bit words;
/// register fields are register numbers below 32.
#[derive(Clone, Copy, Debug, PartialEq, Eq, Structural)]
pub enum Instr {
    Lui { rd: u8, imm: u64 },
    Auipc { rd: u8, imm: u64 },
    Jal { rd: u8, imm: u64 },
    Jalr { rd: u8, rs1: u8, imm: u64 },
    Branch { kind: BranchKind, rs1: u8, rs2: u8, imm: u64 },
    Load { width: Width, signed: bool, rd: u8, rs1: u8, imm: u64 },
    Store { width: Width, rs1: u8, rs2: u8, imm: u64 },
    /// Register-immediate arithmetic; `word` marks the `.w` variants. For
    /// the shifts `imm` is the shift amount.
    OpImm { op: AluOp, rd: u8, rs1: u8, imm: u64, word: bool },
    /// Register-register arithmetic; `word` marks the `.w` variants.
    Op { op: AluOp, rd: u8, rs1: u8, rs2: u8, word: bool },
    Fence,
    FenceI,
    Ecall,
    Ebreak,
    Sret,
    Mret,
    Wfi,
    SfenceVma { rs1: u8, rs2: u8 },
    /// A CSR access; `source` is a register number, or the immediate itself
    /// where `immediate` is set.
    Csr { op: CsrOp, rd: u8, source: u8, immediate: bool, csr: u16 },
    LoadReserved { width: Width, rd: u8, rs1: u8 },
    StoreConditional { width: Width, rd: u8, rs1: u8, rs2: u8 },
    Amo { op: AmoOp, width: Width, rd: u8, rs1: u8, rs2: u8 },
    FpLoad { width: Width, rd: u8, rs1: u8, imm: u64 },
    FpStore { width: Width, rs1: u8, rs2: u8, imm: u64 },
    /// Moves the bits of a floating-point register to an integer register.
    FpToInt { width: Width, rd: u8, rs1: u8 },
    /// Moves the bits of an integer register to a floating-point register.
    IntToFp { width: Width, rd: u8, rs1: u8 },
    FpSign { kind: SignKind, width: Width, rd: u8, rs1: u8, rs2: u8 },
}

pub const ECALL: u32 = 0x0000_0073;

pub const EBREAK_WORD: u32 = 0x0010_0073;

pub const SRET: u32 = 0x1020_0073;

pub const MRET: u32 = 0x3020_0073;

pub const WFI: u32 = 0x1050_0073;

/// The 64-bit word that denotes the same signed number as the
/// two's-complement field `value` of `span` values.
pub open spec fn sign_extend(value: int, span: int) -> u64 {
    if value >= span / 2 {
        (value + 0x1_0000_0000_0000_0000 - span) as u64
    } else {
        value as u64
    }
}

pub fn extend_sign(value: u64, span: u64) -> (r: u64)
    requires
        value < span,
    ensures
        r == sign_extend(value as int, span as int),
{
    if value >= span / 2 {
        u64::MAX - span + 1 + value
    } else {
        value
    }
}

/// Bits 6:0.
pub open spec fn opcode_of(w: u32) -> u32 {
    (w % 0x80) as u32
}

pub fn read_opcode(w: u32) -> (r: u32)
    ensures
        r == opcode_of(w),
        r < 128,
{
    (w % 0x80) as u32
}

/// Bits 11:7.
pub open spec fn rd_of(w: u32) -> u8 {
    (field(w as int, 0x80, 32)) as u8
}

pub fn read_rd(w: u32) -> (r: u8)
    ensures
        r == rd_of(w),
        r < 32,
{
    (get_field(w, 0x80, 32)) as u8
}

/// Bits 14:12.
pub open spec fn funct3_of(w: u32) -> u32 {
    (field(w as int, 0x1000, 8)) as u32
}

pub fn read_funct3(w: u32) -> (r: u32)
    ensures
        r == funct3_of(w),
        r < 8,
{
    (get_field(w, 0x1000, 8)) as u32
}

/// Bits 19:15.
pub open spec fn rs1_of(w: u32) -> u8 {
    (field(w as int, 0x8000, 32)) as u8
}

pub fn read_rs1(w: u32) -> (r: u8)
    ensures
        r == rs1_of(w),
        r < 32,
{
    (get_field(w, 0x8000, 32)) as u8
}

/// Bits 24:20.
pub open spec fn rs2_of(w: u32) -> u8 {
    (field(w as int, 0x10_0000, 32)) as u8
}

pub fn read_rs2(w: u32) -> (r: u8)
    ensures
        r == rs2_of(w),
        r < 32,
{
    (get_field(w, 0x10_0000, 32)) as u8
}

/// Bits 31:25.
pub open spec fn funct7_of(w: u32) -> u32 {
    (w / 0x200_0000) as u32
}

pub fn read_funct7(w: u32) -> (r: u32)
    ensures
        r == funct7_of(w),
        r < 128,
{
    (w / 0x200_0000) as u32
}

/// The I-type immediate: bits 31:20.
pub open spec fn imm_i(w: u32) -> u64 {
    sign_extend(w as int / 0x10_0000, 0x1000)
}

pub fn read_imm_i(w: u32) -> (r: u64)
    ensures
        r == imm_i(w),
{
    extend_sign((w / 0x10_0000) as u64, 0x1000)
}

/// The S-type immediate: `imm[11:5]` in bits 31:25, `imm[4:0]` in bits 11:7.
pub open spec fn imm_s(w: u32) -> u64 {
    sign_extend((w as int / 0x200_0000) * 32 + field(w as int, 0x80, 32), 0x1000)
}

pub fn read_imm_s(w: u32) -> (r: u64)
    ensures
        r == imm_s(w),
{
    extend_sign(((w / 0x200_0000) * 32 + get_field(w, 0x80, 32)) as u64, 0x1000)
}

/// The B-type immediate: `imm[12|10:5]` in bits 31:25, `imm[4:1|11]` in bits 11:7.
pub open spec fn imm_b(w: u32) -> u64 {
    sign_extend(
        (w as int / 0x8000_0000) * 0x1000 + field(w as int, 0x200_0000, 64) * 0x20 + field(
            w as int,
            0x100,
            16,
        ) * 2 + field(w as int, 0x80, 2) * 0x800,
        0x2000,
    )
}

pub fn read_imm_b(w: u32) -> (r: u64)
    ensures
        r == imm_b(w),
{
    extend_sign(
        ((w / 0x8000_0000) * 0x1000 + get_field(w, 0x200_0000, 64) * 0x20 + get_field(w, 0x100, 16)
            * 2 + get_field(w, 0x80, 2) * 0x800) as u64,
        0x2000,
    )
}

/// The U-type immediate: bits 31:12 over twelve zero bits, sign-extended from 32 bits.
pub open spec fn imm_u(w: u32) -> u64 {
    sign_extend((w as int / 0x1000) * 0x1000, 0x1_0000_0000)
}

pub fn read_imm_u(w: u32) -> (r: u64)
    ensures
        r == imm_u(w),
{
    extend_sign(((w / 0x1000) as u64) * 0x1000, 0x1_0000_0000)
}

/// The J-type immediate: `imm[20|10:1|11|19:12]` in bits 31:12.
pub open spec fn imm_j(w: u32) -> u64 {
    sign_extend(
        (w as int / 0x8000_0000) * 0x10_0000 + field(w as int, 0x20_0000, 1024) * 2 + field(
            w as int,
            0x10_0000,
            2,
        ) * 0x800 + field(w as int, 0x1000, 256) * 0x1000,
        0x20_0000,
    )
}

pub fn read_imm_j(w: u32) -> (r: u64)
    ensures
        r == imm_j(w),
{
    extend_sign(
        ((w / 0x8000_0000) * 0x10_0000 + get_field(w, 0x20_0000, 1024) * 2 + get_field(
            w,
            0x10_0000,
            2,
        ) * 0x800 + get_field(w, 0x1000, 256) * 0x1000) as u64,
        0x20_0000,
    )
}

/// The shift amount of a shift by immediate: bits 25:20.
pub open spec fn shamt(w: u32) -> u64 {
    field(w as int, 0x10_0000, 64) as u64
}

pub fn read_shamt(w: u32) -> (r: u64)
    ensures
        r == shamt(w),
{
    get_field(w, 0x10_0000, 64) as u64
}

/// The CSR number: bits 31:20.
pub open spec fn csr_number(w: u32) -> u64 {
    (w as int / 0x10_0000) as u64
}

pub fn read_csr_number(w: u32) -> (r: u64)
    ensures
        r == csr_number(w),
{
    (w / 0x10_0000) as u64
}

/// Conditional branches.
pub open spec fn decode_branch_spec(w: u32) -> Option<Instr> {
    let f3 = funct3_of(w);
    let kind = if f3 == 0 {
        Some(BranchKind::Eq)
    } else if f3 == 1 {
        Some(BranchKind::Ne)
    } else if f3 == 4 {
        Some(BranchKind::Lt)
    } else if f3 == 5 {
        Some(BranchKind::Ge)
    } else if f3 == 6 {
        Some(BranchKind::Ltu)
    } else if f3 == 7 {
        Some(BranchKind::Geu)
    } else {
        None
    };
    match kind {
        Some(kind) => Some(Instr::Branch { kind, rs1: rs1_of(w), rs2: rs2_of(w), imm: imm_b(w) }),
        None => None,
    }
}

pub fn decode_branch(w: u32) -> (r: Option<Instr>)
    ensures
        r == decode_branch_spec(w),
{
    let f3 = read_funct3(w);
    let kind = if f3 == 0 {
        Some(BranchKind::Eq)
    } else if f3 == 1 {
        Some(BranchKind::Ne)
    } else if f3 == 4 {
        Some(BranchKind::Lt)
    } else if f3 == 5 {
        Some(BranchKind::Ge)
    } else if f3 == 6 {
        Some(BranchKind::Ltu)
    } else if f3 == 7 {
        Some(BranchKind::Geu)
    } else {
        None
    };
    match kind {
        Some(kind) => Some(Instr::Branch { kind, rs1: read_rs1(w), rs2: read_rs2(w), imm: read_imm_b(w) }),
        None => None,
    }
}

/// Loads. The doubleword load and the unsigned word load exist with 64-bit registers only.
pub open spec fn decode_load_spec(w: u32, xlen: Xlen) -> Option<Instr> {
    let f3 = funct3_of(w);
    let rd = rd_of(w);
    let rs1 = rs1_of(w);
    let imm = imm_i(w);
    if f3 == 0 {
        Some(Instr::Load { width: Width::B, signed: true, rd, rs1, imm })
    } else if f3 == 1 {
        Some(Instr::Load { width: Width::H, signed: true, rd, rs1, imm })
    } else if f3 == 2 {
        Some(Instr::Load { width: Width::W, signed: true, rd, rs1, imm })
    } else if f3 == 3 && xlen == Xlen::X64 {
        Some(Instr::Load { width: Width::D, signed: true, rd, rs1, imm })
    } else if f3 == 4 {
        Some(Instr::Load { width: Width::B, signed: false, rd, rs1, imm })
    } else if f3 == 5 {
        Some(Instr::Load { width: Width::H, signed: false, rd, rs1, imm })
    } else if f3 == 6 && xlen == Xlen::X64 {
        Some(Instr::Load { width: Width::W, signed: false, rd, rs1, imm })
    } else {
        None
    }
}

pub fn decode_load(w: u32, xlen: Xlen) -> (r: Option<Instr>)
    ensures
        r == decode_load_spec(w, xlen),
{
    let f3 = read_funct3(w);
    let rd = read_rd(w);
    let rs1 = read_rs1(w);
    let imm = read_imm_i(w);
    if f3 == 0 {
        Some(Instr::Load { width: Width::B, signed: true, rd, rs1, imm })
    } else if f3 == 1 {
        Some(Instr::Load { width: Width::H, signed: true, rd, rs1, imm })
    } else if f3 == 2 {
        Some(Instr::Load { width: Width::W, signed: true, rd, rs1, imm })
    } else if f3 == 3 && xlen == Xlen::X64 {
        Some(Instr::Load { width: Width::D, signed: true, rd, rs1, imm })
    } else if f3 == 4 {
        Some(Instr::Load { width: Width::B, signed: false, rd, rs1, imm })
    } else if f3 == 5 {
        Some(Instr::Load { width: Width::H, signed: false, rd, rs1, imm })
    } else if f3 == 6 && xlen == Xlen::X64 {
        Some(Instr::Load { width: Width::W, signed: false, rd, rs1, imm })
    } else {
        None
    }
}

/// Stores. The doubleword store exists with 64-bit registers only.
pub open spec fn decode_store_spec(w: u32, xlen: Xlen) -> Option<Instr> {
    let f3 = funct3_of(w);
    let rs1 = rs1_of(w);
    let rs2 = rs2_of(w);
    let imm = imm_s(w);
    if f3 == 0 {
        Some(Instr::Store { width: Width::B, rs1, rs2, imm })
    } else if f3 == 1 {
        Some(Instr::Store { width: Width::H, rs1, rs2, imm })
    } else if f3 == 2 {
        Some(Instr::Store { width: Width::W, rs1, rs2, imm })
    } else if f3 == 3 && xlen == Xlen::X64 {
        Some(Instr::Store { width: Width::D, rs1, rs2, imm })
    } else {
        None
    }
}

pub fn decode_store(w: u32, xlen: Xlen) -> (r: Option<Instr>)
    ensures
        r == decode_store_spec(w, xlen),
{
    let f3 = read_funct3(w);
    let rs1 = read_rs1(w);
    let rs2 = read_rs2(w);
    let imm = read_imm_s(w);
    if f3 == 0 {
        Some(Instr::Store { width: Width::B, rs1, rs2, imm })
    } else if f3 == 1 {
        Some(Instr::Store { width: Width::H, rs1, rs2, imm })
    } else if f3 == 2 {
        Some(Instr::Store { width: Width::W, rs1, rs2, imm })
    } else if f3 == 3 && xlen == Xlen::X64 {
        Some(Instr::Store { width: Width::D, rs1, rs2, imm })
    } else {
        None
    }
}

/// Register-immediate arithmetic. A shift amount has six bits with 64-bit registers and five with 32-bit registers.
pub open spec fn decode_op_imm_spec(w: u32, xlen: Xlen) -> Option<Instr> {
    let f3 = funct3_of(w);
    let rd = rd_of(w);
    let rs1 = rs1_of(w);
    let imm = imm_i(w);
    let shamt = shamt(w);
    let funct6 = w / 0x400_0000;
    let legal_shift = xlen == Xlen::X64 || shamt < 32;
    if f3 == 0 {
        Some(Instr::OpImm { op: AluOp::Add, rd, rs1, imm, word: false })
    } else if f3 == 2 {
        Some(Instr::OpImm { op: AluOp::Slt, rd, rs1, imm, word: false })
    } else if f3 == 3 {
        Some(Instr::OpImm { op: AluOp::Sltu, rd, rs1, imm, word: false })
    } else if f3 == 4 {
        Some(Instr::OpImm { op: AluOp::Xor, rd, rs1, imm, word: false })
    } else if f3 == 6 {
        Some(Instr::OpImm { op: AluOp::Or, rd, rs1, imm, word: false })
    } else if f3 == 7 {
        Some(Instr::OpImm { op: AluOp::And, rd, rs1, imm, word: false })
    } else if f3 == 1 && funct6 == 0 && legal_shift {
        Some(Instr::OpImm { op: AluOp::Sll, rd, rs1, imm: shamt, word: false })
    } else if f3 == 5 && funct6 == 0 && legal_shift {
        Some(Instr::OpImm { op: AluOp::Srl, rd, rs1, imm: shamt, word: false })
    } else if f3 == 5 && funct6 == 0x10 && legal_shift {
        Some(Instr::OpImm { op: AluOp::Sra, rd, rs1, imm: shamt, word: false })
    } else {
        None
    }
}

pub fn decode_op_imm(w: u32, xlen: Xlen) -> (r: Option<Instr>)
    ensures
        r == decode_op_imm_spec(w, xlen),
{
    let f3 = read_funct3(w);
    let rd = read_rd(w);
    let rs1 = read_rs1(w);
    let imm = read_imm_i(w);
    let shamt = read_shamt(w);
    let funct6 = w / 0x400_0000;
    let legal_shift = xlen == Xlen::X64 || shamt < 32;
    if f3 == 0 {
        Some(Instr::OpImm { op: AluOp::Add, rd, rs1, imm, word: false })
    } else if f3 == 2 {
        Some(Instr::OpImm { op: AluOp::Slt, rd, rs1, imm, word: false })
    } else if f3 == 3 {
        Some(Instr::OpImm { op: AluOp::Sltu, rd, rs1, imm, word: false })
    } else if f3 == 4 {
        Some(Instr::OpImm { op: AluOp::Xor, rd, rs1, imm, word: false })
    } else if f3 == 6 {
        Some(Instr::OpImm { op: AluOp::Or, rd, rs1, imm, word: false })
    } else if f3 == 7 {
        Some(Instr::OpImm { op: AluOp::And, rd, rs1, imm, word: false })
    } else if f3 == 1 && funct6 == 0 && legal_shift {
        Some(Instr::OpImm { op: AluOp::Sll, rd, rs1, imm: shamt, word: false })
    } else if f3 == 5 && funct6 == 0 && legal_shift {
        Some(Instr::OpImm { op: AluOp::Srl, rd, rs1, imm: shamt, word: false })
    } else if f3 == 5 && funct6 == 0x10 && legal_shift {
        Some(Instr::OpImm { op: AluOp::Sra, rd, rs1, imm: shamt, word: false })
    } else {
        None
    }
}

/// Register-immediate arithmetic on words, with 64-bit registers only.
pub open spec fn decode_op_imm_32_spec(w: u32, xlen: Xlen) -> Option<Instr> {
    let f3 = funct3_of(w);
    let rd = rd_of(w);
    let rs1 = rs1_of(w);
    let f7 = funct7_of(w);
    let shamt = rs2_of(w) as u64;
    if xlen == Xlen::X32 {
        None
    } else if f3 == 0 {
        Some(Instr::OpImm { op: AluOp::Add, rd, rs1, imm: imm_i(w), word: true })
    } else if f3 == 1 && f7 == 0 {
        Some(Instr::OpImm { op: AluOp::Sll, rd, rs1, imm: shamt, word: true })
    } else if f3 == 5 && f7 == 0 {
        Some(Instr::OpImm { op: AluOp::Srl, rd, rs1, imm: shamt, word: true })
    } else if f3 == 5 && f7 == 0x20 {
        Some(Instr::OpImm { op: AluOp::Sra, rd, rs1, imm: shamt, word: true })
    } else {
        None
    }
}

pub fn decode_op_imm_32(w: u32, xlen: Xlen) -> (r: Option<Instr>)
    ensures
        r == decode_op_imm_32_spec(w, xlen),
{
    let f3 = read_funct3(w);
    let rd = read_rd(w);
    let rs1 = read_rs1(w);
    let f7 = read_funct7(w);
    let shamt = read_rs2(w) as u64;
    if xlen == Xlen::X32 {
        None
    } else if f3 == 0 {
        Some(Instr::OpImm { op: AluOp::Add, rd, rs1, imm: read_imm_i(w), word: true })
    } else if f3 == 1 && f7 == 0 {
        Some(Instr::OpImm { op: AluOp::Sll, rd, rs1, imm: shamt, word: true })
    } else if f3 == 5 && f7 == 0 {
        Some(Instr::OpImm { op: AluOp::Srl, rd, rs1, imm: shamt, word: true })
    } else if f3 == 5 && f7 == 0x20 {
        Some(Instr::OpImm { op: AluOp::Sra, rd, rs1, imm: shamt, word: true })
    } else {
        None
    }
}

/// The register-register operation that `funct7` and `funct3` select.
pub open spec fn alu_op_spec(f7: u32, f3: u32) -> Option<AluOp> {
    if f7 == 0 {
        if f3 == 0 {
            Some(AluOp::Add)
        } else if f3 == 1 {
            Some(AluOp::Sll)
        } else if f3 == 2 {
            Some(AluOp::Slt)
        } else if f3 == 3 {
            Some(AluOp::Sltu)
        } else if f3 == 4 {
            Some(AluOp::Xor)
        } else if f3 == 5 {
            Some(AluOp::Srl)
        } else if f3 == 6 {
            Some(AluOp::Or)
        } else if f3 == 7 {
            Some(AluOp::And)
        } else {
            None
        }
    } else if f7 == 0x20 {
        if f3 == 0 {
            Some(AluOp::Sub)
        } else if f3 == 5 {
            Some(AluOp::Sra)
        } else {
            None
        }
    } else if f7 == 1 {
        if f3 == 0 {
            Some(AluOp::Mul)
        } else if f3 == 1 {
            Some(AluOp::Mulh)
        } else if f3 == 2 {
            Some(AluOp::Mulhsu)
        } else if f3 == 3 {
            Some(AluOp::Mulhu)
        } else if f3 == 4 {
            Some(AluOp::Div)
        } else if f3 == 5 {
            Some(AluOp::Divu)
        } else if f3 == 6 {
            Some(AluOp::Rem)
        } else if f3 == 7 {
            Some(AluOp::Remu)
        } else {
            None
        }
    } else {
        None
    }
}

pub fn alu_op(f7: u32, f3: u32) -> (r: Option<AluOp>)
    ensures
        r == alu_op_spec(f7, f3),
{
    if f7 == 0 {
        if f3 == 0 {
            Some(AluOp::Add)
        } else if f3 == 1 {
            Some(AluOp::Sll)
        } else if f3 == 2 {
            Some(AluOp::Slt)
        } else if f3 == 3 {
            Some(AluOp::Sltu)
        } else if f3 == 4 {
            Some(AluOp::Xor)
        } else if f3 == 5 {
            Some(AluOp::Srl)
        } else if f3 == 6 {
            Some(AluOp::Or)
        } else if f3 == 7 {
            Some(AluOp::And)
        } else {
            None
        }
    } else if f7 == 0x20 {
        if f3 == 0 {
            Some(AluOp::Sub)
        } else if f3 == 5 {
            Some(AluOp::Sra)
        } else {
            None
        }
    } else if f7 == 1 {
        if f3 == 0 {
            Some(AluOp::Mul)
        } else if f3 == 1 {
            Some(AluOp::Mulh)
        } else if f3 == 2 {
            Some(AluOp::Mulhsu)
        } else if f3 == 3 {
            Some(AluOp::Mulhu)
        } else if f3 == 4 {
            Some(AluOp::Div)
        } else if f3 == 5 {
            Some(AluOp::Divu)
        } else if f3 == 6 {
            Some(AluOp::Rem)
        } else if f3 == 7 {
            Some(AluOp::Remu)
        } else {
            None
        }
    } else {
        None
    }
}

/// Whether an operation has a `.w` variant.
pub open spec fn has_word_variant_spec(op: AluOp) -> bool {
    match op {
        AluOp::Add | AluOp::Sub | AluOp::Sll | AluOp::Srl | AluOp::Sra | AluOp::Mul | AluOp::Div
        | AluOp::Divu | AluOp::Rem | AluOp::Remu => true,
        _ => false,
    }
}

pub fn has_word_variant(op: AluOp) -> (r: bool)
    ensures
        r == has_word_variant_spec(op),
{
    match op {
        AluOp::Add | AluOp::Sub | AluOp::Sll | AluOp::Srl | AluOp::Sra | AluOp::Mul | AluOp::Div
        | AluOp::Divu | AluOp::Rem | AluOp::Remu => true,
        _ => false,
    }
}

/// Register-register arithmetic; `word` selects the `.w` variants, which exist with 64-bit registers only.
pub open spec fn decode_op_spec(w: u32, xlen: Xlen, word: bool) -> Option<Instr> {
    match alu_op_spec(funct7_of(w), funct3_of(w)) {
        Some(op) => if word && (xlen == Xlen::X32 || !has_word_variant_spec(op)) {
            None
        } else {
            Some(Instr::Op { op, rd: rd_of(w), rs1: rs1_of(w), rs2: rs2_of(w), word })
        },
        None => None,
    }
}

pub fn decode_op(w: u32, xlen: Xlen, word: bool) -> (r: Option<Instr>)
    ensures
        r == decode_op_spec(w, xlen, word),
{
    match alu_op(read_funct7(w), read_funct3(w)) {
        Some(op) => if word && (xlen == Xlen::X32 || !has_word_variant(op)) {
            None
        } else {
            Some(Instr::Op { op, rd: read_rd(w), rs1: read_rs1(w), rs2: read_rs2(w), word })
        },
        None => None,
    }
}

/// Environment calls, returns from traps, fences of the address translation, and CSR accesses.
pub open spec fn decode_system_spec(w: u32) -> Option<Instr> {
    let f3 = funct3_of(w);
    let rd = rd_of(w);
    let rs1 = rs1_of(w);
    let csr = csr_number(w) as u16;
    if w == ECALL {
        Some(Instr::Ecall)
    } else if w == EBREAK_WORD {
        Some(Instr::Ebreak)
    } else if w == SRET {
        Some(Instr::Sret)
    } else if w == MRET {
        Some(Instr::Mret)
    } else if w == WFI {
        Some(Instr::Wfi)
    } else if f3 == 0 {
        if funct7_of(w) == 0x09 && rd == 0 {
            Some(Instr::SfenceVma { rs1, rs2: rs2_of(w) })
        } else {
            None
        }
    } else if f3 == 1 {
        Some(Instr::Csr { op: CsrOp::ReadWrite, rd, source: rs1, immediate: false, csr })
    } else if f3 == 2 {
        Some(Instr::Csr { op: CsrOp::ReadSet, rd, source: rs1, immediate: false, csr })
    } else if f3 == 3 {
        Some(Instr::Csr { op: CsrOp::ReadClear, rd, source: rs1, immediate: false, csr })
    } else if f3 == 5 {
        Some(Instr::Csr { op: CsrOp::ReadWrite, rd, source: rs1, immediate: true, csr })
    } else if f3 == 6 {
        Some(Instr::Csr { op: CsrOp::ReadSet, rd, source: rs1, immediate: true, csr })
    } else if f3 == 7 {
        Some(Instr::Csr { op: CsrOp::ReadClear, rd, source: rs1, immediate: true, csr })
    } else {
        None
    }
}

pub fn decode_system(w: u32) -> (r: Option<Instr>)
    ensures
        r == decode_system_spec(w),
{
    let f3 = read_funct3(w);
    let rd = read_rd(w);
    let rs1 = read_rs1(w);
    let csr = read_csr_number(w) as u16;
    if w == ECALL {
        Some(Instr::Ecall)
    } else if w == EBREAK_WORD {
        Some(Instr::Ebreak)
    } else if w == SRET {
        Some(Instr::Sret)
    } else if w == MRET {
        Some(Instr::Mret)
    } else if w == WFI {
        Some(Instr::Wfi)
    } else if f3 == 0 {
        if read_funct7(w) == 0x09 && rd == 0 {
            Some(Instr::SfenceVma { rs1, rs2: read_rs2(w) })
        } else {
            None
        }
    } else if f3 == 1 {
        Some(Instr::Csr { op: CsrOp::ReadWrite, rd, source: rs1, immediate: false, csr })
    } else if f3 == 2 {
        Some(Instr::Csr { op: CsrOp::ReadSet, rd, source: rs1, immediate: false, csr })
    } else if f3 == 3 {
        Some(Instr::Csr { op: CsrOp::ReadClear, rd, source: rs1, immediate: false, csr })
    } else if f3 == 5 {
        Some(Instr::Csr { op: CsrOp::ReadWrite, rd, source: rs1, immediate: true, csr })
    } else if f3 == 6 {
        Some(Instr::Csr { op: CsrOp::ReadSet, rd, source: rs1, immediate: true, csr })
    } else if f3 == 7 {
        Some(Instr::Csr { op: CsrOp::ReadClear, rd, source: rs1, immediate: true, csr })
    } else {
        None
    }
}

/// The atomic operation that bits 31:27 select.
pub open spec fn amo_op_spec(funct5: u32) -> Option<AmoOp> {
    if funct5 == 0x01 {
        Some(AmoOp::Swap)
    } else if funct5 == 0x00 {
        Some(AmoOp::Add)
    } else if funct5 == 0x04 {
        Some(AmoOp::Xor)
    } else if funct5 == 0x0c {
        Some(AmoOp::And)
    } else if funct5 == 0x08 {
        Some(AmoOp::Or)
    } else if funct5 == 0x10 {
        Some(AmoOp::Min)
    } else if funct5 == 0x14 {
        Some(AmoOp::Max)
    } else if funct5 == 0x18 {
        Some(AmoOp::Minu)
    } else if funct5 == 0x1c {
        Some(AmoOp::Maxu)
    } else {
        None
    }
}

pub fn amo_op(funct5: u32) -> (r: Option<AmoOp>)
    ensures
        r == amo_op_spec(funct5),
{
    if funct5 == 0x01 {
        Some(AmoOp::Swap)
    } else if funct5 == 0x00 {
        Some(AmoOp::Add)
    } else if funct5 == 0x04 {
        Some(AmoOp::Xor)
    } else if funct5 == 0x0c {
        Some(AmoOp::And)
    } else if funct5 == 0x08 {
        Some(AmoOp::Or)
    } else if funct5 == 0x10 {
        Some(AmoOp::Min)
    } else if funct5 == 0x14 {
        Some(AmoOp::Max)
    } else if funct5 == 0x18 {
        Some(AmoOp::Minu)
    } else if funct5 == 0x1c {
        Some(AmoOp::Maxu)
    } else {
        None
    }
}

/// Atomic memory operations on words and, with 64-bit registers, doublewords.
pub open spec fn decode_amo_spec(w: u32, xlen: Xlen) -> Option<Instr> {
    let f3 = funct3_of(w);
    let rd = rd_of(w);
    let rs1 = rs1_of(w);
    let rs2 = rs2_of(w);
    let funct5 = w / 0x800_0000;
    let width = if f3 == 2 {
        Some(Width::W)
    } else if f3 == 3 && xlen == Xlen::X64 {
        Some(Width::D)
    } else {
        None
    };
    match width {
        None => None,
        Some(width) => if funct5 == 0x02 {
            if rs2 == 0 {
                Some(Instr::LoadReserved { width, rd, rs1 })
            } else {
                None
            }
        } else if funct5 == 0x03 {
            Some(Instr::StoreConditional { width, rd, rs1, rs2 })
        } else {
            match amo_op_spec(funct5) {
                Some(op) => Some(Instr::Amo { op, width, rd, rs1, rs2 }),
                None => None,
            }
        },
    }
}

pub fn decode_amo(w: u32, xlen: Xlen) -> (r: Option<Instr>)
    ensures
        r == decode_amo_spec(w, xlen),
{
    let f3 = read_funct3(w);
    let rd = read_rd(w);
    let rs1 = read_rs1(w);
    let rs2 = read_rs2(w);
    let funct5 = w / 0x800_0000;
    let width = if f3 == 2 {
        Some(Width::W)
    } else if f3 == 3 && xlen == Xlen::X64 {
        Some(Width::D)
    } else {
        None
    };
    match width {
        None => None,
        Some(width) => if funct5 == 0x02 {
            if rs2 == 0 {
                Some(Instr::LoadReserved { width, rd, rs1 })
            } else {
                None
            }
        } else if funct5 == 0x03 {
            Some(Instr::StoreConditional { width, rd, rs1, rs2 })
        } else {
            match amo_op(funct5) {
                Some(op) => Some(Instr::Amo { op, width, rd, rs1, rs2 }),
                None => None,
            }
        },
    }
}

/// The floating-point instructions that only move bits: moves between the register files and sign injection.
pub open spec fn decode_fp_spec(w: u32, xlen: Xlen) -> Option<Instr> {
    let f3 = funct3_of(w);
    let f7 = funct7_of(w);
    let rd = rd_of(w);
    let rs1 = rs1_of(w);
    let rs2 = rs2_of(w);
    let kind = if f3 == 0 {
        Some(SignKind::Copy)
    } else if f3 == 1 {
        Some(SignKind::Negate)
    } else if f3 == 2 {
        Some(SignKind::Xor)
    } else {
        None
    };
    if f7 == 0x70 && rs2 == 0 && f3 == 0 {
        Some(Instr::FpToInt { width: Width::W, rd, rs1 })
    } else if f7 == 0x71 && rs2 == 0 && f3 == 0 && xlen == Xlen::X64 {
        Some(Instr::FpToInt { width: Width::D, rd, rs1 })
    } else if f7 == 0x78 && rs2 == 0 && f3 == 0 {
        Some(Instr::IntToFp { width: Width::W, rd, rs1 })
    } else if f7 == 0x79 && rs2 == 0 && f3 == 0 && xlen == Xlen::X64 {
        Some(Instr::IntToFp { width: Width::D, rd, rs1 })
    } else if f7 == 0x10 || f7 == 0x11 {
        match kind {
            Some(kind) => Some(
                Instr::FpSign {
                    kind,
                    width: if f7 == 0x10 {
                        Width::W
                    } else {
                        Width::D
                    },
                    rd,
                    rs1,
                    rs2,
                },
            ),
            None => None,
        }
    } else {
        None
    }
}

pub fn decode_fp(w: u32, xlen: Xlen) -> (r: Option<Instr>)
    ensures
        r == decode_fp_spec(w, xlen),
{
    let f3 = read_funct3(w);
    let f7 = read_funct7(w);
    let rd = read_rd(w);
    let rs1 = read_rs1(w);
    let rs2 = read_rs2(w);
    let kind = if f3 == 0 {
        Some(SignKind::Copy)
    } else if f3 == 1 {
        Some(SignKind::Negate)
    } else if f3 == 2 {
        Some(SignKind::Xor)
    } else {
        None
    };
    if f7 == 0x70 && rs2 == 0 && f3 == 0 {
        Some(Instr::FpToInt { width: Width::W, rd, rs1 })
    } else if f7 == 0x71 && rs2 == 0 && f3 == 0 && xlen == Xlen::X64 {
        Some(Instr::FpToInt { width: Width::D, rd, rs1 })
    } else if f7 == 0x78 && rs2 == 0 && f3 == 0 {
        Some(Instr::IntToFp { width: Width::W, rd, rs1 })
    } else if f7 == 0x79 && rs2 == 0 && f3 == 0 && xlen == Xlen::X64 {
        Some(Instr::IntToFp { width: Width::D, rd, rs1 })
    } else if f7 == 0x10 || f7 == 0x11 {
        match kind {
            Some(kind) => Some(
                Instr::FpSign {
                    kind,
                    width: if f7 == 0x10 {
                        Width::W
                    } else {
                        Width::D
                    },
                    rd,
                    rs1,
                    rs2,
                },
            ),
            None => None,
        }
    } else {
        None
    }
}

/// The instruction that the word `w` encodes on a hart with registers of width `xlen`, or `None` where it encodes none that the hart implements.
#[verifier::opaque]
pub open spec fn decode_spec(w: u32, xlen: Xlen) -> Option<Instr> {
    let opcode = opcode_of(w);
    let f3 = funct3_of(w);
    if opcode == 0x37 {
        Some(Instr::Lui { rd: rd_of(w), imm: imm_u(w) })
    } else if opcode == 0x17 {
        Some(Instr::Auipc { rd: rd_of(w), imm: imm_u(w) })
    } else if opcode == 0x6f {
        Some(Instr::Jal { rd: rd_of(w), imm: imm_j(w) })
    } else if opcode == 0x67 {
        if f3 == 0 {
            Some(Instr::Jalr { rd: rd_of(w), rs1: rs1_of(w), imm: imm_i(w) })
        } else {
            None
        }
    } else if opcode == 0x63 {
        decode_branch_spec(w)
    } else if opcode == 0x03 {
        decode_load_spec(w, xlen)
    } else if opcode == 0x23 {
        decode_store_spec(w, xlen)
    } else if opcode == 0x13 {
        decode_op_imm_spec(w, xlen)
    } else if opcode == 0x1b {
        decode_op_imm_32_spec(w, xlen)
    } else if opcode == 0x33 {
        decode_op_spec(w, xlen, false)
    } else if opcode == 0x3b {
        decode_op_spec(w, xlen, true)
    } else if opcode == 0x0f {
        if f3 == 0 {
            Some(Instr::Fence)
        } else if f3 == 1 {
            Some(Instr::FenceI)
        } else {
            None
        }
    } else if opcode == 0x73 {
        decode_system_spec(w)
    } else if opcode == 0x2f {
        decode_amo_spec(w, xlen)
    } else if opcode == 0x07 {
        if f3 == 2 {
            Some(Instr::FpLoad { width: Width::W, rd: rd_of(w), rs1: rs1_of(w), imm: imm_i(w) })
        } else if f3 == 3 {
            Some(Instr::FpLoad { width: Width::D, rd: rd_of(w), rs1: rs1_of(w), imm: imm_i(w) })
        } else {
            None
        }
    } else if opcode == 0x27 {
        if f3 == 2 {
            Some(Instr::FpStore { width: Width::W, rs1: rs1_of(w), rs2: rs2_of(w), imm: imm_s(w) })
        } else if f3 == 3 {
            Some(Instr::FpStore { width: Width::D, rs1: rs1_of(w), rs2: rs2_of(w), imm: imm_s(w) })
        } else {
            None
        }
    } else if opcode == 0x53 {
        decode_fp_spec(w, xlen)
    } else {
        None
    }
}

pub fn decode(w: u32, xlen: Xlen) -> (r: Option<Instr>)
    ensures
        r == decode_spec(w, xlen),
{
    reveal(decode_spec);
    let opcode = read_opcode(w);
    let f3 = read_funct3(w);
    if opcode == 0x37 {
        Some(Instr::Lui { rd: read_rd(w), imm: read_imm_u(w) })
    } else if opcode == 0x17 {
        Some(Instr::Auipc { rd: read_rd(w), imm: read_imm_u(w) })
    } else if opcode == 0x6f {
        Some(Instr::Jal { rd: read_rd(w), imm: read_imm_j(w) })
    } else if opcode == 0x67 {
        if f3 == 0 {
            Some(Instr::Jalr { rd: read_rd(w), rs1: read_rs1(w), imm: read_imm_i(w) })
        } else {
            None
        }
    } else if opcode == 0x63 {
        decode_branch(w)
    } else if opcode == 0x03 {
        decode_load(w, xlen)
    } else if opcode == 0x23 {
        decode_store(w, xlen)
    } else if opcode == 0x13 {
        decode_op_imm(w, xlen)
    } else if opcode == 0x1b {
        decode_op_imm_32(w, xlen)
    } else if opcode == 0x33 {
        decode_op(w, xlen, false)
    } else if opcode == 0x3b {
        decode_op(w, xlen, true)
    } else if opcode == 0x0f {
        if f3 == 0 {
            Some(Instr::Fence)
        } else if f3 == 1 {
            Some(Instr::FenceI)
        } else {
            None
        }
    } else if opcode == 0x73 {
        decode_system(w)
    } else if opcode == 0x2f {
        decode_amo(w, xlen)
    } else if opcode == 0x07 {
        if f3 == 2 {
            Some(Instr::FpLoad { width: Width::W, rd: read_rd(w), rs1: read_rs1(w), imm: read_imm_i(w) })
        } else if f3 == 3 {
            Some(Instr::FpLoad { width: Width::D, rd: read_rd(w), rs1: read_rs1(w), imm: read_imm_i(w) })
        } else {
            None
        }
    } else if opcode == 0x27 {
        if f3 == 2 {
            Some(Instr::FpStore { width: Width::W, rs1: read_rs1(w), rs2: read_rs2(w), imm: read_imm_s(w) })
        } else if f3 == 3 {
            Some(Instr::FpStore { width: Width::D, rs1: read_rs1(w), rs2: read_rs2(w), imm: read_imm_s(w) })
        } else {
            None
        }
    } else if opcode == 0x53 {
        decode_fp(w, xlen)
    } else {
        None
    }
}

/// Whether the register and CSR numbers of an instruction are in range.
pub open spec fn well_formed(i: Instr) -> bool {
    match i {
        Instr::Lui { rd, .. } | Instr::Auipc { rd, .. } | Instr::Jal { rd, .. } => rd < 32,
        Instr::Jalr { rd, rs1, .. }
        | Instr::Load { rd, rs1, .. }
        | Instr::OpImm { rd, rs1, .. }
        | Instr::LoadReserved { rd, rs1, .. }
        | Instr::FpLoad { rd, rs1, .. }
        | Instr::FpToInt { rd, rs1, .. }
        | Instr::IntToFp { rd, rs1, .. } => rd < 32 && rs1 < 32,
        Instr::Branch { rs1, rs2, .. }
        | Instr::Store { rs1, rs2, .. }
        | Instr::SfenceVma { rs1, rs2 }
        | Instr::FpStore { rs1, rs2, .. } => rs1 < 32 && rs2 < 32,
        Instr::Op { rd, rs1, rs2, .. }
        | Instr::StoreConditional { rd, rs1, rs2, .. }
        | Instr::Amo { rd, rs1, rs2, .. }
        | Instr::FpSign { rd, rs1, rs2, .. } => rd < 32 && rs1 < 32 && rs2 < 32,
        Instr::Csr { rd, source, csr, .. } => rd < 32 && source < 32 && csr < 4096,
        _ => true,
    }
}

/// Every instruction that the decoder yields is well formed.
pub proof fn lemma_decode_well_formed(w: u32, xlen: Xlen)
    ensures
        decode_spec(w, xlen) matches Some(i) ==> well_formed(i),
{
    reveal(decode_spec);
}

/// The mnemonic of a register-register operation.
pub open spec fn register_mnemonic_spec(op: AluOp, word: bool) -> Seq<char> {
    match op {
        AluOp::Add => if word {
            "addw"@
        } else {
            "add"@
        },
        AluOp::Sub => if word {
            "subw"@
        } else {
            "sub"@
        },
        AluOp::Sll => if word {
            "sllw"@
        } else {
            "sll"@
        },
        AluOp::Slt => "slt"@,
        AluOp::Sltu => "sltu"@,
        AluOp::Xor => "xor"@,
        AluOp::Srl => if word {
            "srlw"@
        } else {
            "srl"@
        },
        AluOp::Sra => if word {
            "sraw"@
        } else {
            "sra"@
        },
        AluOp::Or => "or"@,
        AluOp::And => "and"@,
        AluOp::Mul => if word {
            "mulw"@
        } else {
            "mul"@
        },
        AluOp::Mulh => "mulh"@,
        AluOp::Mulhsu => "mulhsu"@,
        AluOp::Mulhu => "mulhu"@,
        AluOp::Div => if word {
            "divw"@
        } else {
            "div"@
        },
        AluOp::Divu => if word {
            "divuw"@
        } else {
            "divu"@
        },
        AluOp::Rem => if word {
            "remw"@
        } else {
            "rem"@
        },
        AluOp::Remu => if word {
            "remuw"@
        } else {
            "remu"@
        },
    }
}

/// The mnemonic of a register-register operation.
pub fn register_mnemonic(op: AluOp, word: bool) -> (r: &'static str)
    ensures
        r@ == register_mnemonic_spec(op, word),
{
    match op {
        AluOp::Add => if word {
            "addw"
        } else {
            "add"
        },
        AluOp::Sub => if word {
            "subw"
        } else {
            "sub"
        },
        AluOp::Sll => if word {
            "sllw"
        } else {
            "sll"
        },
        AluOp::Slt => "slt",
        AluOp::Sltu => "sltu",
        AluOp::Xor => "xor",
        AluOp::Srl => if word {
            "srlw"
        } else {
            "srl"
        },
        AluOp::Sra => if word {
            "sraw"
        } else {
            "sra"
        },
        AluOp::Or => "or",
        AluOp::And => "and",
        AluOp::Mul => if word {
            "mulw"
        } else {
            "mul"
        },
        AluOp::Mulh => "mulh",
        AluOp::Mulhsu => "mulhsu",
        AluOp::Mulhu => "mulhu",
        AluOp::Div => if word {
            "divw"
        } else {
            "div"
        },
        AluOp::Divu => if word {
            "divuw"
        } else {
            "divu"
        },
        AluOp::Rem => if word {
            "remw"
        } else {
            "rem"
        },
        AluOp::Remu => if word {
            "remuw"
        } else {
            "remu"
        },
    }
}

/// The mnemonic of a register-immediate operation.
pub open spec fn immediate_mnemonic_spec(op: AluOp, word: bool) -> Seq<char> {
    match op {
        AluOp::Add => if word {
            "addiw"@
        } else {
            "addi"@
        },
        AluOp::Sub => "sub"@,
        AluOp::Sll => if word {
            "slliw"@
        } else {
            "slli"@
        },
        AluOp::Slt => "slti"@,
        AluOp::Sltu => "sltiu"@,
        AluOp::Xor => "xori"@,
        AluOp::Srl => if word {
            "srliw"@
        } else {
            "srli"@
        },
        AluOp::Sra => if word {
            "sraiw"@
        } else {
            "srai"@
        },
        AluOp::Or => "ori"@,
        AluOp::And => "andi"@,
        AluOp::Mul => "mul"@,
        AluOp::Mulh => "mulh"@,
        AluOp::Mulhsu => "mulhsu"@,
        AluOp::Mulhu => "mulhu"@,
        AluOp::Div => "div"@,
        AluOp::Divu => "divu"@,
        AluOp::Rem => "rem"@,
        AluOp::Remu => "remu"@,
    }
}

/// The mnemonic of a register-immediate operation.
pub fn immediate_mnemonic(op: AluOp, word: bool) -> (r: &'static str)
    ensures
        r@ == immediate_mnemonic_spec(op, word),
{
    match op {
        AluOp::Add => if word {
            "addiw"
        } else {
            "addi"
        },
        AluOp::Sub => "sub",
        AluOp::Sll => if word {
            "slliw"
        } else {
            "slli"
        },
        AluOp::Slt => "slti",
        AluOp::Sltu => "sltiu",
        AluOp::Xor => "xori",
        AluOp::Srl => if word {
            "srliw"
        } else {
            "srli"
        },
        AluOp::Sra => if word {
            "sraiw"
        } else {
            "srai"
        },
        AluOp::Or => "ori",
        AluOp::And => "andi",
        AluOp::Mul => "mul",
        AluOp::Mulh => "mulh",
        AluOp::Mulhsu => "mulhsu",
        AluOp::Mulhu => "mulhu",
        AluOp::Div => "div",
        AluOp::Divu => "divu",
        AluOp::Rem => "rem",
        AluOp::Remu => "remu",
    }
}

/// The mnemonic of an atomic operation.
pub open spec fn amo_mnemonic_spec(op: AmoOp, width: Width) -> Seq<char> {
    match op {
        AmoOp::Swap => if width == Width::D {
            "amoswap.d"@
        } else {
            "amoswap.w"@
        },
        AmoOp::Add => if width == Width::D {
            "amoadd.d"@
        } else {
            "amoadd.w"@
        },
        AmoOp::Xor => if width == Width::D {
            "amoxor.d"@
        } else {
            "amoxor.w"@
        },
        AmoOp::And => if width == Width::D {
            "amoand.d"@
        } else {
            "amoand.w"@
        },
        AmoOp::Or => if width == Width::D {
            "amoor.d"@
        } else {
            "amoor.w"@
        },
        AmoOp::Min => if width == Width::D {
            "amomin.d"@
        } else {
            "amomin.w"@
        },
        AmoOp::Max => if width == Width::D {
            "amomax.d"@
        } else {
            "amomax.w"@
        },
        AmoOp::Minu => if width == Width::D {
            "amominu.d"@
        } else {
            "amominu.w"@
        },
        AmoOp::Maxu => if width == Width::D {
            "amomaxu.d"@
        } else {
            "amomaxu.w"@
        },
    }
}

/// The mnemonic of an atomic operation.
pub fn amo_mnemonic(op: AmoOp, width: Width) -> (r: &'static str)
    ensures
        r@ == amo_mnemonic_spec(op, width),
{
    match op {
        AmoOp::Swap => if width == Width::D {
            "amoswap.d"
        } else {
            "amoswap.w"
        },
        AmoOp::Add => if width == Width::D {
            "amoadd.d"
        } else {
            "amoadd.w"
        },
        AmoOp::Xor => if width == Width::D {
            "amoxor.d"
        } else {
            "amoxor.w"
        },
        AmoOp::And => if width == Width::D {
            "amoand.d"
        } else {
            "amoand.w"
        },
        AmoOp::Or => if width == Width::D {
            "amoor.d"
        } else {
            "amoor.w"
        },
        AmoOp::Min => if width == Width::D {
            "amomin.d"
        } else {
            "amomin.w"
        },
        AmoOp::Max => if width == Width::D {
            "amomax.d"
        } else {
            "amomax.w"
        },
        AmoOp::Minu => if width == Width::D {
            "amominu.d"
        } else {
            "amominu.w"
        },
        AmoOp::Maxu => if width == Width::D {
            "amomaxu.d"
        } else {
            "amomaxu.w"
        },
    }
}

/// The mnemonic of a load.
pub open spec fn load_mnemonic_spec(width: Width, signed: bool) -> Seq<char> {
    match width {
        Width::B => if signed {
            "lb"@
        } else {
            "lbu"@
        },
        Width::H => if signed {
            "lh"@
        } else {
            "lhu"@
        },
        Width::W => if signed {
            "lw"@
        } else {
            "lwu"@
        },
        Width::D => "ld"@,
    }
}

/// The mnemonic of a load.
pub fn load_mnemonic(width: Width, signed: bool) -> (r: &'static str)
    ensures
        r@ == load_mnemonic_spec(width, signed),
{
    match width {
        Width::B => if signed {
            "lb"
        } else {
            "lbu"
        },
        Width::H => if signed {
            "lh"
        } else {
            "lhu"
        },
        Width::W => if signed {
            "lw"
        } else {
            "lwu"
        },
        Width::D => "ld",
    }
}

/// The mnemonic of an instruction.
pub open spec fn mnemonic_spec(i: Instr) -> Seq<char> {
    match i {
        Instr::Lui { .. } => "lui"@,
        Instr::Auipc { .. } => "auipc"@,
        Instr::Jal { .. } => "jal"@,
        Instr::Jalr { .. } => "jalr"@,
        Instr::Branch { kind, .. } => match kind {
            BranchKind::Eq => "beq"@,
            BranchKind::Ne => "bne"@,
            BranchKind::Lt => "blt"@,
            BranchKind::Ge => "bge"@,
            BranchKind::Ltu => "bltu"@,
            BranchKind::Geu => "bgeu"@,
        },
        Instr::Load { width, signed, .. } => load_mnemonic_spec(width, signed),
        Instr::Store { width, .. } => match width {
            Width::B => "sb"@,
            Width::H => "sh"@,
            Width::W => "sw"@,
            Width::D => "sd"@,
        },
        Instr::OpImm { op, word, .. } => immediate_mnemonic_spec(op, word),
        Instr::Op { op, word, .. } => register_mnemonic_spec(op, word),
        Instr::Fence => "fence"@,
        Instr::FenceI => "fence.i"@,
        Instr::Ecall => "ecall"@,
        Instr::Ebreak => "ebreak"@,
        Instr::Sret => "sret"@,
        Instr::Mret => "mret"@,
        Instr::Wfi => "wfi"@,
        Instr::SfenceVma { .. } => "sfence.vma"@,
        Instr::Csr { op, immediate, .. } => match op {
            CsrOp::ReadWrite => if immediate {
                "csrrwi"@
            } else {
                "csrrw"@
            },
            CsrOp::ReadSet => if immediate {
                "csrrsi"@
            } else {
                "csrrs"@
            },
            CsrOp::ReadClear => if immediate {
                "csrrci"@
            } else {
                "csrrc"@
            },
        },
        Instr::LoadReserved { width, .. } => if width == Width::D {
                "lr.d"@
            } else {
                "lr.w"@
            },
        Instr::StoreConditional { width, .. } => if width == Width::D {
                "sc.d"@
            } else {
                "sc.w"@
            },
        Instr::Amo { op, width, .. } => amo_mnemonic_spec(op, width),
        Instr::FpLoad { width, .. } => if width == Width::D {
                "fld"@
            } else {
                "flw"@
            },
        Instr::FpStore { width, .. } => if width == Width::D {
                "fsd"@
            } else {
                "fsw"@
            },
        Instr::FpToInt { width, .. } => if width == Width::D {
                "fmv.x.d"@
            } else {
                "fmv.x.w"@
            },
        Instr::IntToFp { width, .. } => if width == Width::D {
                "fmv.d.x"@
            } else {
                "fmv.w.x"@
            },
        Instr::FpSign { kind, width, .. } => match kind {
            SignKind::Copy => if width == Width::D {
                    "fsgnj.d"@
                } else {
                    "fsgnj.s"@
                },
            SignKind::Negate => if width == Width::D {
                    "fsgnjn.d"@
                } else {
                    "fsgnjn.s"@
                },
            SignKind::Xor => if width == Width::D {
                    "fsgnjx.d"@
                } else {
                    "fsgnjx.s"@
                },
        },
    }
}

/// The mnemonic of an instruction.
pub fn mnemonic(i: Instr) -> (r: &'static str)
    ensures
        r@ == mnemonic_spec(i),
{
    match i {
        Instr::Lui { .. } => "lui",
        Instr::Auipc { .. } => "auipc",
        Instr::Jal { .. } => "jal",
        Instr::Jalr { .. } => "jalr",
        Instr::Branch { kind, .. } => match kind {
            BranchKind::Eq => "beq",
            BranchKind::Ne => "bne",
            BranchKind::Lt => "blt",
            BranchKind::Ge => "bge",
            BranchKind::Ltu => "bltu",
            BranchKind::Geu => "bgeu",
        },
        Instr::Load { width, signed, .. } => load_mnemonic(width, signed),
        Instr::Store { width, .. } => match width {
            Width::B => "sb",
            Width::H => "sh",
            Width::W => "sw",
            Width::D => "sd",
        },
        Instr::OpImm { op, word, .. } => immediate_mnemonic(op, word),
        Instr::Op { op, word, .. } => register_mnemonic(op, word),
        Instr::Fence => "fence",
        Instr::FenceI => "fence.i",
        Instr::Ecall => "ecall",
        Instr::Ebreak => "ebreak",
        Instr::Sret => "sret",
        Instr::Mret => "mret",
        Instr::Wfi => "wfi",
        Instr::SfenceVma { .. } => "sfence.vma",
        Instr::Csr { op, immediate, .. } => match op {
            CsrOp::ReadWrite => if immediate {
                "csrrwi"
            } else {
                "csrrw"
            },
            CsrOp::ReadSet => if immediate {
                "csrrsi"
            } else {
                "csrrs"
            },
            CsrOp::ReadClear => if immediate {
                "csrrci"
            } else {
                "csrrc"
            },
        },
        Instr::LoadReserved { width, .. } => if width == Width::D {
                "lr.d"
            } else {
                "lr.w"
            },
        Instr::StoreConditional { width, .. } => if width == Width::D {
                "sc.d"
            } else {
                "sc.w"
            },
        Instr::Amo { op, width, .. } => amo_mnemonic(op, width),
        Instr::FpLoad { width, .. } => if width == Width::D {
                "fld"
            } else {
                "flw"
            },
        Instr::FpStore { width, .. } => if width == Width::D {
                "fsd"
            } else {
                "fsw"
            },
        Instr::FpToInt { width, .. } => if width == Width::D {
                "fmv.x.d"
            } else {
                "fmv.x.w"
            },
        Instr::IntToFp { width, .. } => if width == Width::D {
                "fmv.d.x"
            } else {
                "fmv.w.x"
            },
        Instr::FpSign { kind, width, .. } => match kind {
            SignKind::Copy => if width == Width::D {
                    "fsgnj.d"
                } else {
                    "fsgnj.s"
                },
            SignKind::Negate => if width == Width::D {
                    "fsgnjn.d"
                } else {
                    "fsgnjn.s"
                },
            SignKind::Xor => if width == Width::D {
                    "fsgnjx.d"
                } else {
                    "fsgnjx.s"
                },
        },
    }
}

} // verus!
