//! Compressed and expanded instructions are equivalent: the expansion of a
//! compressed form decodes to the instruction that the form stands for, and
//! the length of an instruction matters to the program counter only.

use vstd::prelude::*;
use crate::cpu::alu::AluOp;
use crate::cpu::cpu::{address, branch_taken, CpuView, Outcome, Xlen};
use crate::cpu::cpu_instruction_comp::{
    decompressed,
    expansion,
    form_of,
    imm6,
    imm_addi16sp,
    offset_branch,
    offset_jump,
    reg_hi,
    reg_lo,
    short_reg_hi,
    short_reg_lo,
    uimm_addi4spn,
    uimm_double,
    uimm_ldsp,
    uimm_lwsp,
    uimm_sdsp,
    uimm_swsp,
    uimm_word,
    CompressedForm,
};
use crate::cpu::decode::{
    decode_spec,
    funct3_of,
    funct7_of,
    imm_b,
    imm_i,
    imm_j,
    imm_s,
    imm_u,
    opcode_of,
    rd_of,
    rs1_of,
    rs2_of,
    shamt,
    sign_extend,
    well_formed,
    AmoOp,
    BranchKind,
    CsrOp,
    Instr,
    Width,
};
use crate::cpu::trap::Exception;
use crate::cpu::encoding::{enc_b, enc_i, enc_j, enc_r, enc_s, enc_u, resize_signed};

verus! {

proof fn lemma_bits_r(op: u32, rd: u32, f3: u32, rs1: u32, rs2: u32, f7: u32)
    by (bit_vector)
    requires
        op < 128,
        rd < 32,
        f3 < 8,
        rs1 < 32,
        rs2 < 32,
        f7 < 128,
    ensures
        ({
            let e = (op + rd * 0x80 + f3 * 0x1000 + rs1 * 0x8000 + rs2 * 0x10_0000 + f7
                * 0x200_0000) as u32;
            &&& e == op + rd * 0x80 + f3 * 0x1000 + rs1 * 0x8000 + rs2 * 0x10_0000 + f7 * 0x200_0000
            &&& e % 0x80 == op
            &&& (e / 0x80) % 32 == rd
            &&& (e / 0x1000) % 8 == f3
            &&& (e / 0x8000) % 32 == rs1
            &&& (e / 0x10_0000) % 32 == rs2
            &&& e / 0x200_0000 == f7
        }),
{
}

proof fn lemma_bits_i(op: u32, rd: u32, f3: u32, rs1: u32, imm: u32)
    by (bit_vector)
    requires
        op < 128,
        rd < 32,
        f3 < 8,
        rs1 < 32,
        imm < 0x1000,
    ensures
        ({
            let e = (op + rd * 0x80 + f3 * 0x1000 + rs1 * 0x8000 + imm * 0x10_0000) as u32;
            &&& e == op + rd * 0x80 + f3 * 0x1000 + rs1 * 0x8000 + imm * 0x10_0000
            &&& e % 0x80 == op
            &&& (e / 0x80) % 32 == rd
            &&& (e / 0x1000) % 8 == f3
            &&& (e / 0x8000) % 32 == rs1
            &&& e / 0x10_0000 == imm
            &&& (e / 0x10_0000) % 32 == imm % 32
            &&& (e / 0x10_0000) % 64 == imm % 64
            &&& e / 0x200_0000 == imm / 32
            &&& e / 0x400_0000 == imm / 64
        }),
{
}

proof fn lemma_bits_s(op: u32, f3: u32, rs1: u32, rs2: u32, imm: u32)
    by (bit_vector)
    requires
        op < 128,
        f3 < 8,
        rs1 < 32,
        rs2 < 32,
        imm < 0x1000,
    ensures
        ({
            let e = (op + (imm % 32) * 0x80 + f3 * 0x1000 + rs1 * 0x8000 + rs2 * 0x10_0000 + (imm
                / 32) * 0x200_0000) as u32;
            &&& e == op + (imm % 32) * 0x80 + f3 * 0x1000 + rs1 * 0x8000 + rs2 * 0x10_0000 + (imm
                / 32) * 0x200_0000
            &&& e % 0x80 == op
            &&& (e / 0x1000) % 8 == f3
            &&& (e / 0x8000) % 32 == rs1
            &&& (e / 0x10_0000) % 32 == rs2
            &&& (e / 0x200_0000) * 32 + (e / 0x80) % 32 == imm
        }),
{
}

proof fn lemma_bits_b(op: u32, f3: u32, rs1: u32, rs2: u32, imm: u32)
    by (bit_vector)
    requires
        op < 128,
        f3 < 8,
        rs1 < 32,
        rs2 < 32,
        imm < 0x2000,
        imm % 2 == 0,
    ensures
        ({
            let e = (op + ((imm / 0x800) % 2) * 0x80 + ((imm / 2) % 16) * 0x100 + f3 * 0x1000 + rs1
                * 0x8000 + rs2 * 0x10_0000 + ((imm / 0x20) % 64) * 0x200_0000 + ((imm / 0x1000) % 2)
                * 0x8000_0000) as u32;
            &&& e == op + ((imm / 0x800) % 2) * 0x80 + ((imm / 2) % 16) * 0x100 + f3 * 0x1000 + rs1
                * 0x8000 + rs2 * 0x10_0000 + ((imm / 0x20) % 64) * 0x200_0000 + ((imm / 0x1000) % 2)
                * 0x8000_0000
            &&& e % 0x80 == op
            &&& (e / 0x1000) % 8 == f3
            &&& (e / 0x8000) % 32 == rs1
            &&& (e / 0x10_0000) % 32 == rs2
            &&& (e / 0x8000_0000) * 0x1000 + ((e / 0x200_0000) % 64) * 0x20 + ((e / 0x100) % 16) * 2
                + ((e / 0x80) % 2) * 0x800 == imm
        }),
{
}

proof fn lemma_bits_u(op: u32, rd: u32, imm: u32)
    by (bit_vector)
    requires
        op < 128,
        rd < 32,
        imm < 0x10_0000,
    ensures
        ({
            let e = (op + rd * 0x80 + imm * 0x1000) as u32;
            &&& e == op + rd * 0x80 + imm * 0x1000
            &&& e % 0x80 == op
            &&& (e / 0x80) % 32 == rd
            &&& e / 0x1000 == imm
        }),
{
}

proof fn lemma_bits_j(op: u32, rd: u32, imm: u32)
    by (bit_vector)
    requires
        op < 128,
        rd < 32,
        imm < 0x20_0000,
        imm % 2 == 0,
    ensures
        ({
            let e = (op + rd * 0x80 + ((imm / 0x1000) % 256) * 0x1000 + ((imm / 0x800) % 2)
                * 0x10_0000 + ((imm / 2) % 1024) * 0x20_0000 + ((imm / 0x10_0000) % 2)
                * 0x8000_0000) as u32;
            &&& e == op + rd * 0x80 + ((imm / 0x1000) % 256) * 0x1000 + ((imm / 0x800) % 2)
                * 0x10_0000 + ((imm / 2) % 1024) * 0x20_0000 + ((imm / 0x10_0000) % 2) * 0x8000_0000
            &&& e % 0x80 == op
            &&& (e / 0x80) % 32 == rd
            &&& (e / 0x8000_0000) * 0x10_0000 + ((e / 0x20_0000) % 1024) * 2 + ((e / 0x10_0000) % 2)
                * 0x800 + ((e / 0x1000) % 256) * 0x1000 == imm
        }),
{
}

/// The fields of an R-type word are the fields it was made of.
pub proof fn lemma_fields_r(op: int, rd: int, f3: int, rs1: int, rs2: int, f7: int)
    requires
        0 <= op < 128,
        0 <= rd < 32,
        0 <= f3 < 8,
        0 <= rs1 < 32,
        0 <= rs2 < 32,
        0 <= f7 < 128,
    ensures
        opcode_of(enc_r(op, rd, f3, rs1, rs2, f7)) == op,
        rd_of(enc_r(op, rd, f3, rs1, rs2, f7)) == rd,
        funct3_of(enc_r(op, rd, f3, rs1, rs2, f7)) == f3,
        rs1_of(enc_r(op, rd, f3, rs1, rs2, f7)) == rs1,
        rs2_of(enc_r(op, rd, f3, rs1, rs2, f7)) == rs2,
        funct7_of(enc_r(op, rd, f3, rs1, rs2, f7)) == f7,
{
    lemma_bits_r(op as u32, rd as u32, f3 as u32, rs1 as u32, rs2 as u32, f7 as u32);
}

/// The fields of an I-type word are the fields it was made of.
pub proof fn lemma_fields_i(op: int, rd: int, f3: int, rs1: int, imm: int)
    requires
        0 <= op < 128,
        0 <= rd < 32,
        0 <= f3 < 8,
        0 <= rs1 < 32,
        0 <= imm < 0x1000,
    ensures
        opcode_of(enc_i(op, rd, f3, rs1, imm)) == op,
        rd_of(enc_i(op, rd, f3, rs1, imm)) == rd,
        funct3_of(enc_i(op, rd, f3, rs1, imm)) == f3,
        rs1_of(enc_i(op, rd, f3, rs1, imm)) == rs1,
        rs2_of(enc_i(op, rd, f3, rs1, imm)) == imm % 32,
        funct7_of(enc_i(op, rd, f3, rs1, imm)) == imm / 32,
        enc_i(op, rd, f3, rs1, imm) / 0x400_0000 == imm / 64,
        shamt(enc_i(op, rd, f3, rs1, imm)) == imm % 64,
        imm_i(enc_i(op, rd, f3, rs1, imm)) == sign_extend(imm, 0x1000),
{
    lemma_bits_i(op as u32, rd as u32, f3 as u32, rs1 as u32, imm as u32);
}

/// The fields of an S-type word are the fields it was made of.
pub proof fn lemma_fields_s(op: int, f3: int, rs1: int, rs2: int, imm: int)
    requires
        0 <= op < 128,
        0 <= f3 < 8,
        0 <= rs1 < 32,
        0 <= rs2 < 32,
        0 <= imm < 0x1000,
    ensures
        opcode_of(enc_s(op, f3, rs1, rs2, imm)) == op,
        funct3_of(enc_s(op, f3, rs1, rs2, imm)) == f3,
        rs1_of(enc_s(op, f3, rs1, rs2, imm)) == rs1,
        rs2_of(enc_s(op, f3, rs1, rs2, imm)) == rs2,
        imm_s(enc_s(op, f3, rs1, rs2, imm)) == sign_extend(imm, 0x1000),
{
    lemma_bits_s(op as u32, f3 as u32, rs1 as u32, rs2 as u32, imm as u32);
}

/// The fields of a B-type word are the fields it was made of.
pub proof fn lemma_fields_b(op: int, f3: int, rs1: int, rs2: int, imm: int)
    requires
        0 <= op < 128,
        0 <= f3 < 8,
        0 <= rs1 < 32,
        0 <= rs2 < 32,
        0 <= imm < 0x2000,
        imm % 2 == 0,
    ensures
        opcode_of(enc_b(op, f3, rs1, rs2, imm)) == op,
        funct3_of(enc_b(op, f3, rs1, rs2, imm)) == f3,
        rs1_of(enc_b(op, f3, rs1, rs2, imm)) == rs1,
        rs2_of(enc_b(op, f3, rs1, rs2, imm)) == rs2,
        imm_b(enc_b(op, f3, rs1, rs2, imm)) == sign_extend(imm, 0x2000),
{
    lemma_bits_b(op as u32, f3 as u32, rs1 as u32, rs2 as u32, imm as u32);
}

/// The fields of a U-type word are the fields it was made of.
pub proof fn lemma_fields_u(op: int, rd: int, imm: int)
    requires
        0 <= op < 128,
        0 <= rd < 32,
        0 <= imm < 0x10_0000,
    ensures
        opcode_of(enc_u(op, rd, imm)) == op,
        rd_of(enc_u(op, rd, imm)) == rd,
        imm_u(enc_u(op, rd, imm)) == sign_extend(imm * 0x1000, 0x1_0000_0000),
{
    lemma_bits_u(op as u32, rd as u32, imm as u32);
}

/// The fields of a J-type word are the fields it was made of.
pub proof fn lemma_fields_j(op: int, rd: int, imm: int)
    requires
        0 <= op < 128,
        0 <= rd < 32,
        0 <= imm < 0x20_0000,
        imm % 2 == 0,
    ensures
        opcode_of(enc_j(op, rd, imm)) == op,
        rd_of(enc_j(op, rd, imm)) == rd,
        imm_j(enc_j(op, rd, imm)) == sign_extend(imm, 0x20_0000),
{
    lemma_bits_j(op as u32, rd as u32, imm as u32);
}

/// The instruction that a parcel stands for when it is read as a compressed
/// form.
#[verifier::opaque]
pub open spec fn meaning(form: CompressedForm, w: u16) -> Instr {
    match form {
        CompressedForm::Addi4spn => Instr::OpImm { op: AluOp::Add, rd: short_reg_lo(w as int) as u8, rs1: 2, imm: uimm_addi4spn(w as int) as u64, word: false },
        CompressedForm::Fld => Instr::FpLoad { width: Width::D, rd: short_reg_lo(w as int) as u8, rs1: short_reg_hi(w as int) as u8, imm: uimm_double(w as int) as u64 },
        CompressedForm::Lw => Instr::Load { width: Width::W, signed: true, rd: short_reg_lo(w as int) as u8, rs1: short_reg_hi(w as int) as u8, imm: uimm_word(w as int) as u64 },
        CompressedForm::Flw => Instr::FpLoad { width: Width::W, rd: short_reg_lo(w as int) as u8, rs1: short_reg_hi(w as int) as u8, imm: uimm_word(w as int) as u64 },
        CompressedForm::Ld => Instr::Load { width: Width::D, signed: true, rd: short_reg_lo(w as int) as u8, rs1: short_reg_hi(w as int) as u8, imm: uimm_double(w as int) as u64 },
        CompressedForm::Fsd => Instr::FpStore { width: Width::D, rs1: short_reg_hi(w as int) as u8, rs2: short_reg_lo(w as int) as u8, imm: uimm_double(w as int) as u64 },
        CompressedForm::Sw => Instr::Store { width: Width::W, rs1: short_reg_hi(w as int) as u8, rs2: short_reg_lo(w as int) as u8, imm: uimm_word(w as int) as u64 },
        CompressedForm::Fsw => Instr::FpStore { width: Width::W, rs1: short_reg_hi(w as int) as u8, rs2: short_reg_lo(w as int) as u8, imm: uimm_word(w as int) as u64 },
        CompressedForm::Sd => Instr::Store { width: Width::D, rs1: short_reg_hi(w as int) as u8, rs2: short_reg_lo(w as int) as u8, imm: uimm_double(w as int) as u64 },
        CompressedForm::Nop => Instr::OpImm { op: AluOp::Add, rd: 0, rs1: 0, imm: 0, word: false },
        CompressedForm::Addi => Instr::OpImm { op: AluOp::Add, rd: reg_hi(w as int) as u8, rs1: reg_hi(w as int) as u8, imm: sign_extend(imm6(w as int), 64), word: false },
        CompressedForm::Jal => Instr::Jal { rd: 1, imm: sign_extend(offset_jump(w as int), 0x1000) },
        CompressedForm::Addiw => Instr::OpImm { op: AluOp::Add, rd: reg_hi(w as int) as u8, rs1: reg_hi(w as int) as u8, imm: sign_extend(imm6(w as int), 64), word: true },
        CompressedForm::Li => Instr::OpImm { op: AluOp::Add, rd: reg_hi(w as int) as u8, rs1: 0, imm: sign_extend(imm6(w as int), 64), word: false },
        CompressedForm::Addi16sp => Instr::OpImm { op: AluOp::Add, rd: 2, rs1: 2, imm: sign_extend(imm_addi16sp(w as int), 0x400), word: false },
        CompressedForm::Lui => Instr::Lui { rd: reg_hi(w as int) as u8, imm: sign_extend(imm6(w as int) * 0x1000, 0x4_0000) },
        CompressedForm::Srli => Instr::OpImm { op: AluOp::Srl, rd: short_reg_hi(w as int) as u8, rs1: short_reg_hi(w as int) as u8, imm: imm6(w as int) as u64, word: false },
        CompressedForm::Srai => Instr::OpImm { op: AluOp::Sra, rd: short_reg_hi(w as int) as u8, rs1: short_reg_hi(w as int) as u8, imm: imm6(w as int) as u64, word: false },
        CompressedForm::Andi => Instr::OpImm { op: AluOp::And, rd: short_reg_hi(w as int) as u8, rs1: short_reg_hi(w as int) as u8, imm: sign_extend(imm6(w as int), 64), word: false },
        CompressedForm::Sub => Instr::Op { op: AluOp::Sub, rd: short_reg_hi(w as int) as u8, rs1: short_reg_hi(w as int) as u8, rs2: short_reg_lo(w as int) as u8, word: false },
        CompressedForm::Xor => Instr::Op { op: AluOp::Xor, rd: short_reg_hi(w as int) as u8, rs1: short_reg_hi(w as int) as u8, rs2: short_reg_lo(w as int) as u8, word: false },
        CompressedForm::Or => Instr::Op { op: AluOp::Or, rd: short_reg_hi(w as int) as u8, rs1: short_reg_hi(w as int) as u8, rs2: short_reg_lo(w as int) as u8, word: false },
        CompressedForm::And => Instr::Op { op: AluOp::And, rd: short_reg_hi(w as int) as u8, rs1: short_reg_hi(w as int) as u8, rs2: short_reg_lo(w as int) as u8, word: false },
        CompressedForm::Subw => Instr::Op { op: AluOp::Sub, rd: short_reg_hi(w as int) as u8, rs1: short_reg_hi(w as int) as u8, rs2: short_reg_lo(w as int) as u8, word: true },
        CompressedForm::Addw => Instr::Op { op: AluOp::Add, rd: short_reg_hi(w as int) as u8, rs1: short_reg_hi(w as int) as u8, rs2: short_reg_lo(w as int) as u8, word: true },
        CompressedForm::J => Instr::Jal { rd: 0, imm: sign_extend(offset_jump(w as int), 0x1000) },
        CompressedForm::Beqz => Instr::Branch { kind: BranchKind::Eq, rs1: short_reg_hi(w as int) as u8, rs2: 0, imm: sign_extend(offset_branch(w as int), 0x200) },
        CompressedForm::Bnez => Instr::Branch { kind: BranchKind::Ne, rs1: short_reg_hi(w as int) as u8, rs2: 0, imm: sign_extend(offset_branch(w as int), 0x200) },
        CompressedForm::Slli => Instr::OpImm { op: AluOp::Sll, rd: reg_hi(w as int) as u8, rs1: reg_hi(w as int) as u8, imm: imm6(w as int) as u64, word: false },
        CompressedForm::Fldsp => Instr::FpLoad { width: Width::D, rd: reg_hi(w as int) as u8, rs1: 2, imm: uimm_ldsp(w as int) as u64 },
        CompressedForm::Lwsp => Instr::Load { width: Width::W, signed: true, rd: reg_hi(w as int) as u8, rs1: 2, imm: uimm_lwsp(w as int) as u64 },
        CompressedForm::Flwsp => Instr::FpLoad { width: Width::W, rd: reg_hi(w as int) as u8, rs1: 2, imm: uimm_lwsp(w as int) as u64 },
        CompressedForm::Ldsp => Instr::Load { width: Width::D, signed: true, rd: reg_hi(w as int) as u8, rs1: 2, imm: uimm_ldsp(w as int) as u64 },
        CompressedForm::Jr => Instr::Jalr { rd: 0, rs1: reg_hi(w as int) as u8, imm: 0 },
        CompressedForm::Mv => Instr::Op { op: AluOp::Add, rd: reg_hi(w as int) as u8, rs1: 0, rs2: reg_lo(w as int) as u8, word: false },
        CompressedForm::Ebreak => Instr::Ebreak,
        CompressedForm::Jalr => Instr::Jalr { rd: 1, rs1: reg_hi(w as int) as u8, imm: 0 },
        CompressedForm::Add => Instr::Op { op: AluOp::Add, rd: reg_hi(w as int) as u8, rs1: reg_hi(w as int) as u8, rs2: reg_lo(w as int) as u8, word: false },
        CompressedForm::Fsdsp => Instr::FpStore { width: Width::D, rs1: 2, rs2: reg_lo(w as int) as u8, imm: uimm_sdsp(w as int) as u64 },
        CompressedForm::Swsp => Instr::Store { width: Width::W, rs1: 2, rs2: reg_lo(w as int) as u8, imm: uimm_swsp(w as int) as u64 },
        CompressedForm::Fswsp => Instr::FpStore { width: Width::W, rs1: 2, rs2: reg_lo(w as int) as u8, imm: uimm_swsp(w as int) as u64 },
        CompressedForm::Sdsp => Instr::Store { width: Width::D, rs1: 2, rs2: reg_lo(w as int) as u8, imm: uimm_sdsp(w as int) as u64 },
    }
}

/// Whether a hart with registers of width `xlen` has the instruction that a
/// form expands to: the doubleword loads and stores and the `.w` arithmetic
/// need 64-bit registers, and with 32-bit registers a shift amount is below
/// 32.
pub open spec fn available(form: CompressedForm, xlen: Xlen, w: u16) -> bool {
    match form {
        CompressedForm::Ld | CompressedForm::Sd | CompressedForm::Addiw | CompressedForm::Ldsp | CompressedForm::Sdsp | CompressedForm::Subw | CompressedForm::Addw => xlen == Xlen::X64,
        CompressedForm::Srli | CompressedForm::Srai | CompressedForm::Slli => xlen == Xlen::X64 || imm6(w as int) < 32,
        _ => true,
    }
}

proof fn lemma_form_addi4spn(xlen: Xlen, w: u16)
    requires
        available(CompressedForm::Addi4spn, xlen, w),
    ensures
        expansion(CompressedForm::Addi4spn, xlen, w as int) matches Ok(e) ==> decode_spec(e, xlen) == Some(
            meaning(CompressedForm::Addi4spn, w),
        ),
{
    reveal(expansion);
    reveal(meaning);
    reveal(decode_spec);
    lemma_fields_i(0x13, short_reg_lo(w as int), 0, 2, uimm_addi4spn(w as int));
}

proof fn lemma_form_fld(xlen: Xlen, w: u16)
    requires
        available(CompressedForm::Fld, xlen, w),
    ensures
        expansion(CompressedForm::Fld, xlen, w as int) matches Ok(e) ==> decode_spec(e, xlen) == Some(
            meaning(CompressedForm::Fld, w),
        ),
{
    reveal(expansion);
    reveal(meaning);
    reveal(decode_spec);
    lemma_fields_i(0x07, short_reg_lo(w as int), 3, short_reg_hi(w as int), uimm_double(w as int));
}

proof fn lemma_form_lw(xlen: Xlen, w: u16)
    requires
        available(CompressedForm::Lw, xlen, w),
    ensures
        expansion(CompressedForm::Lw, xlen, w as int) matches Ok(e) ==> decode_spec(e, xlen) == Some(
            meaning(CompressedForm::Lw, w),
        ),
{
    reveal(expansion);
    reveal(meaning);
    reveal(decode_spec);
    lemma_fields_i(0x03, short_reg_lo(w as int), 2, short_reg_hi(w as int), uimm_word(w as int));
}

proof fn lemma_form_flw(xlen: Xlen, w: u16)
    requires
        available(CompressedForm::Flw, xlen, w),
    ensures
        expansion(CompressedForm::Flw, xlen, w as int) matches Ok(e) ==> decode_spec(e, xlen) == Some(
            meaning(CompressedForm::Flw, w),
        ),
{
    reveal(expansion);
    reveal(meaning);
    reveal(decode_spec);
    lemma_fields_i(0x07, short_reg_lo(w as int), 2, short_reg_hi(w as int), uimm_word(w as int));
}

proof fn lemma_form_ld(xlen: Xlen, w: u16)
    requires
        available(CompressedForm::Ld, xlen, w),
    ensures
        expansion(CompressedForm::Ld, xlen, w as int) matches Ok(e) ==> decode_spec(e, xlen) == Some(
            meaning(CompressedForm::Ld, w),
        ),
{
    reveal(expansion);
    reveal(meaning);
    reveal(decode_spec);
    lemma_fields_i(0x03, short_reg_lo(w as int), 3, short_reg_hi(w as int), uimm_double(w as int));
}

proof fn lemma_form_fsd(xlen: Xlen, w: u16)
    requires
        available(CompressedForm::Fsd, xlen, w),
    ensures
        expansion(CompressedForm::Fsd, xlen, w as int) matches Ok(e) ==> decode_spec(e, xlen) == Some(
            meaning(CompressedForm::Fsd, w),
        ),
{
    reveal(expansion);
    reveal(meaning);
    reveal(decode_spec);
    lemma_fields_s(0x27, 3, short_reg_hi(w as int), short_reg_lo(w as int), uimm_double(w as int));
}

proof fn lemma_form_sw(xlen: Xlen, w: u16)
    requires
        available(CompressedForm::Sw, xlen, w),
    ensures
        expansion(CompressedForm::Sw, xlen, w as int) matches Ok(e) ==> decode_spec(e, xlen) == Some(
            meaning(CompressedForm::Sw, w),
        ),
{
    reveal(expansion);
    reveal(meaning);
    reveal(decode_spec);
    lemma_fields_s(0x23, 2, short_reg_hi(w as int), short_reg_lo(w as int), uimm_word(w as int));
}

proof fn lemma_form_fsw(xlen: Xlen, w: u16)
    requires
        available(CompressedForm::Fsw, xlen, w),
    ensures
        expansion(CompressedForm::Fsw, xlen, w as int) matches Ok(e) ==> decode_spec(e, xlen) == Some(
            meaning(CompressedForm::Fsw, w),
        ),
{
    reveal(expansion);
    reveal(meaning);
    reveal(decode_spec);
    lemma_fields_s(0x27, 2, short_reg_hi(w as int), short_reg_lo(w as int), uimm_word(w as int));
}

proof fn lemma_form_sd(xlen: Xlen, w: u16)
    requires
        available(CompressedForm::Sd, xlen, w),
    ensures
        expansion(CompressedForm::Sd, xlen, w as int) matches Ok(e) ==> decode_spec(e, xlen) == Some(
            meaning(CompressedForm::Sd, w),
        ),
{
    reveal(expansion);
    reveal(meaning);
    reveal(decode_spec);
    lemma_fields_s(0x23, 3, short_reg_hi(w as int), short_reg_lo(w as int), uimm_double(w as int));
}

proof fn lemma_form_nop(xlen: Xlen, w: u16)
    requires
        available(CompressedForm::Nop, xlen, w),
    ensures
        expansion(CompressedForm::Nop, xlen, w as int) matches Ok(e) ==> decode_spec(e, xlen) == Some(
            meaning(CompressedForm::Nop, w),
        ),
{
    reveal(expansion);
    reveal(meaning);
    reveal(decode_spec);
    lemma_fields_i(0x13, 0, 0, 0, 0);
}

proof fn lemma_form_addi(xlen: Xlen, w: u16)
    requires
        available(CompressedForm::Addi, xlen, w),
    ensures
        expansion(CompressedForm::Addi, xlen, w as int) matches Ok(e) ==> decode_spec(e, xlen) == Some(
            meaning(CompressedForm::Addi, w),
        ),
{
    reveal(expansion);
    reveal(meaning);
    reveal(decode_spec);
    lemma_fields_i(0x13, reg_hi(w as int), 0, reg_hi(w as int), resize_signed(imm6(w as int), 64, 0x1000));
}

#[verifier::rlimit(50)]
proof fn lemma_form_jal(xlen: Xlen, w: u16)
    requires
        available(CompressedForm::Jal, xlen, w),
    ensures
        expansion(CompressedForm::Jal, xlen, w as int) matches Ok(e) ==> decode_spec(e, xlen) == Some(
            meaning(CompressedForm::Jal, w),
        ),
{
    reveal(expansion);
    reveal(meaning);
    reveal(decode_spec);
    let u = offset_jump(w as int);
    assert(0 <= u < 0x1000 && u % 2 == 0);
    let imm = resize_signed(u, 0x1000, 0x20_0000);
    assert(0 <= imm < 0x20_0000 && imm % 2 == 0);
    assert(sign_extend(imm, 0x20_0000) == sign_extend(u, 0x1000));
    lemma_fields_j(0x6f, 1, imm);
}

proof fn lemma_form_addiw(xlen: Xlen, w: u16)
    requires
        available(CompressedForm::Addiw, xlen, w),
    ensures
        expansion(CompressedForm::Addiw, xlen, w as int) matches Ok(e) ==> decode_spec(e, xlen) == Some(
            meaning(CompressedForm::Addiw, w),
        ),
{
    reveal(expansion);
    reveal(meaning);
    reveal(decode_spec);
    lemma_fields_i(0x1b, reg_hi(w as int), 0, reg_hi(w as int), resize_signed(imm6(w as int), 64, 0x1000));
}

proof fn lemma_form_li(xlen: Xlen, w: u16)
    requires
        available(CompressedForm::Li, xlen, w),
    ensures
        expansion(CompressedForm::Li, xlen, w as int) matches Ok(e) ==> decode_spec(e, xlen) == Some(
            meaning(CompressedForm::Li, w),
        ),
{
    reveal(expansion);
    reveal(meaning);
    reveal(decode_spec);
    lemma_fields_i(0x13, reg_hi(w as int), 0, 0, resize_signed(imm6(w as int), 64, 0x1000));
}

proof fn lemma_form_addi16sp(xlen: Xlen, w: u16)
    requires
        available(CompressedForm::Addi16sp, xlen, w),
    ensures
        expansion(CompressedForm::Addi16sp, xlen, w as int) matches Ok(e) ==> decode_spec(e, xlen) == Some(
            meaning(CompressedForm::Addi16sp, w),
        ),
{
    reveal(expansion);
    reveal(meaning);
    reveal(decode_spec);
    lemma_fields_i(0x13, 2, 0, 2, resize_signed(imm_addi16sp(w as int), 0x400, 0x1000));
}

proof fn lemma_form_lui(xlen: Xlen, w: u16)
    requires
        available(CompressedForm::Lui, xlen, w),
    ensures
        expansion(CompressedForm::Lui, xlen, w as int) matches Ok(e) ==> decode_spec(e, xlen) == Some(
            meaning(CompressedForm::Lui, w),
        ),
{
    reveal(expansion);
    reveal(meaning);
    reveal(decode_spec);
    lemma_fields_u(0x37, reg_hi(w as int), resize_signed(imm6(w as int), 64, 0x10_0000));
}

proof fn lemma_form_srli(xlen: Xlen, w: u16)
    requires
        available(CompressedForm::Srli, xlen, w),
    ensures
        expansion(CompressedForm::Srli, xlen, w as int) matches Ok(e) ==> decode_spec(e, xlen) == Some(
            meaning(CompressedForm::Srli, w),
        ),
{
    reveal(expansion);
    reveal(meaning);
    reveal(decode_spec);
    lemma_fields_i(0x13, short_reg_hi(w as int), 5, short_reg_hi(w as int), imm6(w as int));
}

proof fn lemma_form_srai(xlen: Xlen, w: u16)
    requires
        available(CompressedForm::Srai, xlen, w),
    ensures
        expansion(CompressedForm::Srai, xlen, w as int) matches Ok(e) ==> decode_spec(e, xlen) == Some(
            meaning(CompressedForm::Srai, w),
        ),
{
    reveal(expansion);
    reveal(meaning);
    reveal(decode_spec);
    lemma_fields_i(0x13, short_reg_hi(w as int), 5, short_reg_hi(w as int), 0x400 + imm6(w as int));
}

proof fn lemma_form_andi(xlen: Xlen, w: u16)
    requires
        available(CompressedForm::Andi, xlen, w),
    ensures
        expansion(CompressedForm::Andi, xlen, w as int) matches Ok(e) ==> decode_spec(e, xlen) == Some(
            meaning(CompressedForm::Andi, w),
        ),
{
    reveal(expansion);
    reveal(meaning);
    reveal(decode_spec);
    lemma_fields_i(0x13, short_reg_hi(w as int), 7, short_reg_hi(w as int), resize_signed(imm6(w as int), 64, 0x1000));
}

proof fn lemma_form_sub(xlen: Xlen, w: u16)
    requires
        available(CompressedForm::Sub, xlen, w),
    ensures
        expansion(CompressedForm::Sub, xlen, w as int) matches Ok(e) ==> decode_spec(e, xlen) == Some(
            meaning(CompressedForm::Sub, w),
        ),
{
    reveal(expansion);
    reveal(meaning);
    reveal(decode_spec);
    lemma_fields_r(0x33, short_reg_hi(w as int), 0, short_reg_hi(w as int), short_reg_lo(w as int), 0x20);
}

proof fn lemma_form_xor(xlen: Xlen, w: u16)
    requires
        available(CompressedForm::Xor, xlen, w),
    ensures
        expansion(CompressedForm::Xor, xlen, w as int) matches Ok(e) ==> decode_spec(e, xlen) == Some(
            meaning(CompressedForm::Xor, w),
        ),
{
    reveal(expansion);
    reveal(meaning);
    reveal(decode_spec);
    lemma_fields_r(0x33, short_reg_hi(w as int), 4, short_reg_hi(w as int), short_reg_lo(w as int), 0);
}

proof fn lemma_form_or(xlen: Xlen, w: u16)
    requires
        available(CompressedForm::Or, xlen, w),
    ensures
        expansion(CompressedForm::Or, xlen, w as int) matches Ok(e) ==> decode_spec(e, xlen) == Some(
            meaning(CompressedForm::Or, w),
        ),
{
    reveal(expansion);
    reveal(meaning);
    reveal(decode_spec);
    lemma_fields_r(0x33, short_reg_hi(w as int), 6, short_reg_hi(w as int), short_reg_lo(w as int), 0);
}

proof fn lemma_form_and(xlen: Xlen, w: u16)
    requires
        available(CompressedForm::And, xlen, w),
    ensures
        expansion(CompressedForm::And, xlen, w as int) matches Ok(e) ==> decode_spec(e, xlen) == Some(
            meaning(CompressedForm::And, w),
        ),
{
    reveal(expansion);
    reveal(meaning);
    reveal(decode_spec);
    lemma_fields_r(0x33, short_reg_hi(w as int), 7, short_reg_hi(w as int), short_reg_lo(w as int), 0);
}

proof fn lemma_form_subw(xlen: Xlen, w: u16)
    requires
        available(CompressedForm::Subw, xlen, w),
    ensures
        expansion(CompressedForm::Subw, xlen, w as int) matches Ok(e) ==> decode_spec(e, xlen) == Some(
            meaning(CompressedForm::Subw, w),
        ),
{
    reveal(expansion);
    reveal(meaning);
    reveal(decode_spec);
    lemma_fields_r(0x3b, short_reg_hi(w as int), 0, short_reg_hi(w as int), short_reg_lo(w as int), 0x20);
}

proof fn lemma_form_addw(xlen: Xlen, w: u16)
    requires
        available(CompressedForm::Addw, xlen, w),
    ensures
        expansion(CompressedForm::Addw, xlen, w as int) matches Ok(e) ==> decode_spec(e, xlen) == Some(
            meaning(CompressedForm::Addw, w),
        ),
{
    reveal(expansion);
    reveal(meaning);
    reveal(decode_spec);
    lemma_fields_r(0x3b, short_reg_hi(w as int), 0, short_reg_hi(w as int), short_reg_lo(w as int), 0);
}

#[verifier::rlimit(50)]
proof fn lemma_form_j(xlen: Xlen, w: u16)
    requires
        available(CompressedForm::J, xlen, w),
    ensures
        expansion(CompressedForm::J, xlen, w as int) matches Ok(e) ==> decode_spec(e, xlen) == Some(
            meaning(CompressedForm::J, w),
        ),
{
    reveal(expansion);
    reveal(meaning);
    reveal(decode_spec);
    let u = offset_jump(w as int);
    assert(0 <= u < 0x1000 && u % 2 == 0);
    let imm = resize_signed(u, 0x1000, 0x20_0000);
    assert(0 <= imm < 0x20_0000 && imm % 2 == 0);
    assert(sign_extend(imm, 0x20_0000) == sign_extend(u, 0x1000));
    lemma_fields_j(0x6f, 0, imm);
}

#[verifier::rlimit(50)]
proof fn lemma_form_beqz(xlen: Xlen, w: u16)
    requires
        available(CompressedForm::Beqz, xlen, w),
    ensures
        expansion(CompressedForm::Beqz, xlen, w as int) matches Ok(e) ==> decode_spec(e, xlen) == Some(
            meaning(CompressedForm::Beqz, w),
        ),
{
    reveal(expansion);
    reveal(meaning);
    reveal(decode_spec);
    let u = offset_branch(w as int);
    assert(0 <= u < 0x200 && u % 2 == 0);
    let imm = resize_signed(u, 0x200, 0x2000);
    assert(0 <= imm < 0x2000 && imm % 2 == 0);
    assert(sign_extend(imm, 0x2000) == sign_extend(u, 0x200));
    assert(8 <= short_reg_hi(w as int) < 16);
    assert(short_reg_hi(w as int) as u8 == short_reg_hi(w as int));
    lemma_fields_b(0x63, 0, short_reg_hi(w as int), 0, imm);
}

#[verifier::rlimit(50)]
proof fn lemma_form_bnez(xlen: Xlen, w: u16)
    requires
        available(CompressedForm::Bnez, xlen, w),
    ensures
        expansion(CompressedForm::Bnez, xlen, w as int) matches Ok(e) ==> decode_spec(e, xlen) == Some(
            meaning(CompressedForm::Bnez, w),
        ),
{
    reveal(expansion);
    reveal(meaning);
    reveal(decode_spec);
    let u = offset_branch(w as int);
    assert(0 <= u < 0x200 && u % 2 == 0);
    let imm = resize_signed(u, 0x200, 0x2000);
    assert(0 <= imm < 0x2000 && imm % 2 == 0);
    assert(sign_extend(imm, 0x2000) == sign_extend(u, 0x200));
    assert(8 <= short_reg_hi(w as int) < 16);
    assert(short_reg_hi(w as int) as u8 == short_reg_hi(w as int));
    lemma_fields_b(0x63, 1, short_reg_hi(w as int), 0, imm);
}

proof fn lemma_form_slli(xlen: Xlen, w: u16)
    requires
        available(CompressedForm::Slli, xlen, w),
    ensures
        expansion(CompressedForm::Slli, xlen, w as int) matches Ok(e) ==> decode_spec(e, xlen) == Some(
            meaning(CompressedForm::Slli, w),
        ),
{
    reveal(expansion);
    reveal(meaning);
    reveal(decode_spec);
    lemma_fields_i(0x13, reg_hi(w as int), 1, reg_hi(w as int), imm6(w as int));
}

proof fn lemma_form_fldsp(xlen: Xlen, w: u16)
    requires
        available(CompressedForm::Fldsp, xlen, w),
    ensures
        expansion(CompressedForm::Fldsp, xlen, w as int) matches Ok(e) ==> decode_spec(e, xlen) == Some(
            meaning(CompressedForm::Fldsp, w),
        ),
{
    reveal(expansion);
    reveal(meaning);
    reveal(decode_spec);
    lemma_fields_i(0x07, reg_hi(w as int), 3, 2, uimm_ldsp(w as int));
}

proof fn lemma_form_lwsp(xlen: Xlen, w: u16)
    requires
        available(CompressedForm::Lwsp, xlen, w),
    ensures
        expansion(CompressedForm::Lwsp, xlen, w as int) matches Ok(e) ==> decode_spec(e, xlen) == Some(
            meaning(CompressedForm::Lwsp, w),
        ),
{
    reveal(expansion);
    reveal(meaning);
    reveal(decode_spec);
    lemma_fields_i(0x03, reg_hi(w as int), 2, 2, uimm_lwsp(w as int));
}

proof fn lemma_form_flwsp(xlen: Xlen, w: u16)
    requires
        available(CompressedForm::Flwsp, xlen, w),
    ensures
        expansion(CompressedForm::Flwsp, xlen, w as int) matches Ok(e) ==> decode_spec(e, xlen) == Some(
            meaning(CompressedForm::Flwsp, w),
        ),
{
    reveal(expansion);
    reveal(meaning);
    reveal(decode_spec);
    lemma_fields_i(0x07, reg_hi(w as int), 2, 2, uimm_lwsp(w as int));
}

proof fn lemma_form_ldsp(xlen: Xlen, w: u16)
    requires
        available(CompressedForm::Ldsp, xlen, w),
    ensures
        expansion(CompressedForm::Ldsp, xlen, w as int) matches Ok(e) ==> decode_spec(e, xlen) == Some(
            meaning(CompressedForm::Ldsp, w),
        ),
{
    reveal(expansion);
    reveal(meaning);
    reveal(decode_spec);
    lemma_fields_i(0x03, reg_hi(w as int), 3, 2, uimm_ldsp(w as int));
}

proof fn lemma_form_jr(xlen: Xlen, w: u16)
    requires
        available(CompressedForm::Jr, xlen, w),
    ensures
        expansion(CompressedForm::Jr, xlen, w as int) matches Ok(e) ==> decode_spec(e, xlen) == Some(
            meaning(CompressedForm::Jr, w),
        ),
{
    reveal(expansion);
    reveal(meaning);
    reveal(decode_spec);
    lemma_fields_i(0x67, 0, 0, reg_hi(w as int), 0);
}

proof fn lemma_form_mv(xlen: Xlen, w: u16)
    requires
        available(CompressedForm::Mv, xlen, w),
    ensures
        expansion(CompressedForm::Mv, xlen, w as int) matches Ok(e) ==> decode_spec(e, xlen) == Some(
            meaning(CompressedForm::Mv, w),
        ),
{
    reveal(expansion);
    reveal(meaning);
    reveal(decode_spec);
    lemma_fields_r(0x33, reg_hi(w as int), 0, 0, reg_lo(w as int), 0);
}

#[verifier::rlimit(50)]
proof fn lemma_form_ebreak(xlen: Xlen, w: u16)
    requires
        available(CompressedForm::Ebreak, xlen, w),
    ensures
        expansion(CompressedForm::Ebreak, xlen, w as int) matches Ok(e) ==> decode_spec(e, xlen) == Some(
            meaning(CompressedForm::Ebreak, w),
        ),
{
    reveal(expansion);
    reveal(meaning);
    reveal(decode_spec);
    lemma_fields_i(0x73, 0, 0, 0, 1);
    assert(enc_i(0x73, 0, 0, 0, 1) == 0x0010_0073u32);
}

proof fn lemma_form_jalr(xlen: Xlen, w: u16)
    requires
        available(CompressedForm::Jalr, xlen, w),
    ensures
        expansion(CompressedForm::Jalr, xlen, w as int) matches Ok(e) ==> decode_spec(e, xlen) == Some(
            meaning(CompressedForm::Jalr, w),
        ),
{
    reveal(expansion);
    reveal(meaning);
    reveal(decode_spec);
    lemma_fields_i(0x67, 1, 0, reg_hi(w as int), 0);
}

proof fn lemma_form_add(xlen: Xlen, w: u16)
    requires
        available(CompressedForm::Add, xlen, w),
    ensures
        expansion(CompressedForm::Add, xlen, w as int) matches Ok(e) ==> decode_spec(e, xlen) == Some(
            meaning(CompressedForm::Add, w),
        ),
{
    reveal(expansion);
    reveal(meaning);
    reveal(decode_spec);
    lemma_fields_r(0x33, reg_hi(w as int), 0, reg_hi(w as int), reg_lo(w as int), 0);
}

proof fn lemma_form_fsdsp(xlen: Xlen, w: u16)
    requires
        available(CompressedForm::Fsdsp, xlen, w),
    ensures
        expansion(CompressedForm::Fsdsp, xlen, w as int) matches Ok(e) ==> decode_spec(e, xlen) == Some(
            meaning(CompressedForm::Fsdsp, w),
        ),
{
    reveal(expansion);
    reveal(meaning);
    reveal(decode_spec);
    lemma_fields_s(0x27, 3, 2, reg_lo(w as int), uimm_sdsp(w as int));
}

proof fn lemma_form_swsp(xlen: Xlen, w: u16)
    requires
        available(CompressedForm::Swsp, xlen, w),
    ensures
        expansion(CompressedForm::Swsp, xlen, w as int) matches Ok(e) ==> decode_spec(e, xlen) == Some(
            meaning(CompressedForm::Swsp, w),
        ),
{
    reveal(expansion);
    reveal(meaning);
    reveal(decode_spec);
    lemma_fields_s(0x23, 2, 2, reg_lo(w as int), uimm_swsp(w as int));
}

proof fn lemma_form_fswsp(xlen: Xlen, w: u16)
    requires
        available(CompressedForm::Fswsp, xlen, w),
    ensures
        expansion(CompressedForm::Fswsp, xlen, w as int) matches Ok(e) ==> decode_spec(e, xlen) == Some(
            meaning(CompressedForm::Fswsp, w),
        ),
{
    reveal(expansion);
    reveal(meaning);
    reveal(decode_spec);
    lemma_fields_s(0x27, 2, 2, reg_lo(w as int), uimm_swsp(w as int));
}

proof fn lemma_form_sdsp(xlen: Xlen, w: u16)
    requires
        available(CompressedForm::Sdsp, xlen, w),
    ensures
        expansion(CompressedForm::Sdsp, xlen, w as int) matches Ok(e) ==> decode_spec(e, xlen) == Some(
            meaning(CompressedForm::Sdsp, w),
        ),
{
    reveal(expansion);
    reveal(meaning);
    reveal(decode_spec);
    lemma_fields_s(0x23, 3, 2, reg_lo(w as int), uimm_sdsp(w as int));
}

/// The expansion of a compressed form decodes to the instruction that the
/// form stands for.
pub proof fn lemma_expansion_decodes(form: CompressedForm, xlen: Xlen, w: u16)
    requires
        available(form, xlen, w),
    ensures
        expansion(form, xlen, w as int) matches Ok(e) ==> decode_spec(e, xlen) == Some(
            meaning(form, w),
        ),
{
    match form {
        CompressedForm::Addi4spn => lemma_form_addi4spn(xlen, w),
        CompressedForm::Fld => lemma_form_fld(xlen, w),
        CompressedForm::Lw => lemma_form_lw(xlen, w),
        CompressedForm::Flw => lemma_form_flw(xlen, w),
        CompressedForm::Ld => lemma_form_ld(xlen, w),
        CompressedForm::Fsd => lemma_form_fsd(xlen, w),
        CompressedForm::Sw => lemma_form_sw(xlen, w),
        CompressedForm::Fsw => lemma_form_fsw(xlen, w),
        CompressedForm::Sd => lemma_form_sd(xlen, w),
        CompressedForm::Nop => lemma_form_nop(xlen, w),
        CompressedForm::Addi => lemma_form_addi(xlen, w),
        CompressedForm::Jal => lemma_form_jal(xlen, w),
        CompressedForm::Addiw => lemma_form_addiw(xlen, w),
        CompressedForm::Li => lemma_form_li(xlen, w),
        CompressedForm::Addi16sp => lemma_form_addi16sp(xlen, w),
        CompressedForm::Lui => lemma_form_lui(xlen, w),
        CompressedForm::Srli => lemma_form_srli(xlen, w),
        CompressedForm::Srai => lemma_form_srai(xlen, w),
        CompressedForm::Andi => lemma_form_andi(xlen, w),
        CompressedForm::Sub => lemma_form_sub(xlen, w),
        CompressedForm::Xor => lemma_form_xor(xlen, w),
        CompressedForm::Or => lemma_form_or(xlen, w),
        CompressedForm::And => lemma_form_and(xlen, w),
        CompressedForm::Subw => lemma_form_subw(xlen, w),
        CompressedForm::Addw => lemma_form_addw(xlen, w),
        CompressedForm::J => lemma_form_j(xlen, w),
        CompressedForm::Beqz => lemma_form_beqz(xlen, w),
        CompressedForm::Bnez => lemma_form_bnez(xlen, w),
        CompressedForm::Slli => lemma_form_slli(xlen, w),
        CompressedForm::Fldsp => lemma_form_fldsp(xlen, w),
        CompressedForm::Lwsp => lemma_form_lwsp(xlen, w),
        CompressedForm::Flwsp => lemma_form_flwsp(xlen, w),
        CompressedForm::Ldsp => lemma_form_ldsp(xlen, w),
        CompressedForm::Jr => lemma_form_jr(xlen, w),
        CompressedForm::Mv => lemma_form_mv(xlen, w),
        CompressedForm::Ebreak => lemma_form_ebreak(xlen, w),
        CompressedForm::Jalr => lemma_form_jalr(xlen, w),
        CompressedForm::Add => lemma_form_add(xlen, w),
        CompressedForm::Fsdsp => lemma_form_fsdsp(xlen, w),
        CompressedForm::Swsp => lemma_form_swsp(xlen, w),
        CompressedForm::Fswsp => lemma_form_fswsp(xlen, w),
        CompressedForm::Sdsp => lemma_form_sdsp(xlen, w),
    }
}

/// Every parcel that the decompressor accepts is a form that the hart has.
pub proof fn lemma_accepted_is_available(xlen: Xlen, w: u16)
    requires
        w % 4 != 3,
    ensures
        form_of((w % 4) as int, xlen, w as int) matches Ok(form) ==> (expansion(
            form,
            xlen,
            w as int,
        ) is Ok ==> available(form, xlen, w)),
{
    reveal(expansion);
}

/// Compressed and expanded instructions are the same instruction: where
/// the decompressor expands a parcel, the decoder reads the expansion as
/// the instruction that the parcel's form stands for.
pub proof fn lemma_decompressed_decodes(xlen: Xlen, w: u16)
    requires
        w % 4 != 3,
    ensures
        decompressed(xlen, w as int) matches Ok(e) ==> (form_of(
            (w % 4) as int,
            xlen,
            w as int,
        ) matches Ok(form) && decode_spec(e, xlen) == Some(meaning(form, w))),
{
    lemma_accepted_is_available(xlen, w);
    match form_of((w % 4) as int, xlen, w as int) {
        Ok(form) => {
            if expansion(form, xlen, w as int) is Ok {
                lemma_expansion_decodes(form, xlen, w);
            }
        },
        Err(_) => {},
    }
}

/// Whether an instruction, executed in the state `v`, sets the program
/// counter to a target instead of moving it on by its length.
pub open spec fn transfers_control(v: CpuView, instr: Instr) -> bool {
    match instr {
        Instr::Jal { .. } | Instr::Jalr { .. } | Instr::Sret | Instr::Mret => true,
        Instr::Branch { kind, rs1, rs2, .. } => branch_taken(
            kind,
            v.x[rs1 as int],
            v.x[rs2 as int],
        ),
        _ => false,
    }
}

/// Whether an instruction writes the address of its successor to a
/// register.
pub open spec fn links(instr: Instr) -> bool {
    match instr {
        Instr::Jal { rd, .. } | Instr::Jalr { rd, .. } => rd != 0,
        _ => false,
    }
}

/// Both outcomes fail, with the same exception in the same state. The trap
/// value is the same too, but for an illegal instruction, where it is the
/// word that was fetched.
pub open spec fn failed_alike(short: Outcome, long: Outcome) -> bool {
    &&& short.result is Err
    &&& long.result is Err
    &&& short.state == long.state
    &&& short.result->Err_0.exception == long.result->Err_0.exception
    &&& short.result->Err_0.exception != Exception::IllegalInstruction
        ==> short.result->Err_0.value == long.result->Err_0.value
}

/// Both outcomes succeed, in states that differ in the program counter
/// only, which has moved on from that of `v` by two and by four bytes.
pub open spec fn advanced_alike(v: CpuView, short: Outcome, long: Outcome) -> bool {
    &&& short.result is Ok
    &&& long.result is Ok
    &&& short.state.pc == address(v.pc.wrapping_add(2), v.xlen)
    &&& long.state == (CpuView { pc: address(v.pc.wrapping_add(4), v.xlen), ..short.state })
}

/// Both outcomes succeed, in the same state.
pub open spec fn jumped_alike(short: Outcome, long: Outcome) -> bool {
    &&& short.result is Ok
    &&& long.result is Ok
    &&& short.state == long.state
}

/// Both outcomes succeed, in states that differ in the register `rd` only,
/// which holds the address of the instruction's successor.
pub open spec fn linked_alike(short: Outcome, long: Outcome, rd: int) -> bool {
    &&& short.result is Ok
    &&& long.result is Ok
    &&& long.state == (CpuView { x: long.state.x, ..short.state })
    &&& long.state.x.len() == short.state.x.len()
    &&& forall|i: int| 0 <= i < 32 && i != rd ==> short.state.x[i] == long.state.x[i]
}

/// The link register of a jump.
pub open spec fn rd_of_link(instr: Instr) -> int {
    match instr {
        Instr::Jal { rd, .. } | Instr::Jalr { rd, .. } => rd as int,
        _ => 0,
    }
}

/// What the outcomes `short` and `long` of one instruction, executed in
/// the state `v` as an instruction of two and of four bytes, have in
/// common. They fail alike, or they succeed alike: an instruction that
/// links leaves states that differ in the link register only; any other
/// that transfers control leaves the same state; and any other leaves
/// states that differ in the program counter only, which is two and four
/// bytes on.
#[verifier::opaque]
pub open spec fn equivalent(v: CpuView, instr: Instr, short: Outcome, long: Outcome) -> bool {
    ||| failed_alike(short, long)
    ||| if links(instr) {
        linked_alike(short, long, rd_of_link(instr))
    } else if transfers_control(v, instr) {
        jumped_alike(short, long)
    } else {
        advanced_alike(v, short, long)
    }
}

proof fn lemma_length_upper(v: CpuView, rd: u8, imm: u64, pc_relative: bool)
    requires
        v.wf(),
        rd < 32,
    ensures
        advanced_alike(
            v,
            v.exec_upper(rd, imm, pc_relative, 2),
            v.exec_upper(rd, imm, pc_relative, 4),
        ),
{
    reveal(CpuView::exec_upper);
}

proof fn lemma_length_jal(v: CpuView, rd: u8, imm: u64)
    requires
        v.wf(),
        rd < 32,
    ensures
        rd == 0 ==> jumped_alike(v.exec_jal(rd, imm, 2), v.exec_jal(rd, imm, 4)),
        rd != 0 ==> linked_alike(v.exec_jal(rd, imm, 2), v.exec_jal(rd, imm, 4), rd as int),
{
    reveal(CpuView::exec_jal);
}

proof fn lemma_length_jalr(v: CpuView, rd: u8, rs1: u8, imm: u64)
    requires
        v.wf(),
        rd < 32,
        rs1 < 32,
    ensures
        rd == 0 ==> jumped_alike(v.exec_jalr(rd, rs1, imm, 2), v.exec_jalr(rd, rs1, imm, 4)),
        rd != 0 ==> linked_alike(
            v.exec_jalr(rd, rs1, imm, 2),
            v.exec_jalr(rd, rs1, imm, 4),
            rd as int,
        ),
{
    reveal(CpuView::exec_jalr);
}

proof fn lemma_length_branch(v: CpuView, kind: BranchKind, rs1: u8, rs2: u8, imm: u64)
    requires
        v.wf(),
    ensures
        branch_taken(kind, v.x[rs1 as int], v.x[rs2 as int]) ==> jumped_alike(
            v.exec_branch(kind, rs1, rs2, imm, 2),
            v.exec_branch(kind, rs1, rs2, imm, 4),
        ),
        !branch_taken(kind, v.x[rs1 as int], v.x[rs2 as int]) ==> advanced_alike(
            v,
            v.exec_branch(kind, rs1, rs2, imm, 2),
            v.exec_branch(kind, rs1, rs2, imm, 4),
        ),
{
    reveal(CpuView::exec_branch);
}

proof fn lemma_length_alu(v: CpuView, op: AluOp, rd: u8, a: u64, b: u64, word: bool)
    requires
        v.wf(),
        rd < 32,
    ensures
        advanced_alike(v, v.exec_alu(op, rd, a, b, word, 2), v.exec_alu(op, rd, a, b, word, 4)),
{
    reveal(CpuView::exec_alu);
}

proof fn lemma_length_load(v: CpuView, width: Width, signed: bool, rd: u8, rs1: u8, imm: u64)
    requires
        v.wf(),
        rd < 32,
    ensures
        ({
            let short = v.exec_load(width, signed, rd, rs1, imm, 2);
            let long = v.exec_load(width, signed, rd, rs1, imm, 4);
            failed_alike(short, long) || advanced_alike(v, short, long)
        }),
{
    reveal(CpuView::exec_load);
}

proof fn lemma_length_store(v: CpuView, width: Width, rs1: u8, rs2: u8, imm: u64)
    requires
        v.wf(),
    ensures
        ({
            let short = v.exec_store(width, rs1, rs2, imm, 2);
            let long = v.exec_store(width, rs1, rs2, imm, 4);
            failed_alike(short, long) || advanced_alike(v, short, long)
        }),
{
    reveal(CpuView::exec_store);
}

proof fn lemma_length_fp_load(v: CpuView, width: Width, rd: u8, rs1: u8, imm: u64, w2: u32, w4: u32)
    requires
        v.wf(),
        rd < 32,
    ensures
        ({
            let short = v.exec_fp_load(width, rd, rs1, imm, 2, w2);
            let long = v.exec_fp_load(width, rd, rs1, imm, 4, w4);
            failed_alike(short, long) || advanced_alike(v, short, long)
        }),
{
    reveal(CpuView::exec_fp_load);
}

proof fn lemma_length_fp_store(v: CpuView, width: Width, rs1: u8, rs2: u8, imm: u64, w2: u32, w4: u32)
    requires
        v.wf(),
    ensures
        ({
            let short = v.exec_fp_store(width, rs1, rs2, imm, 2, w2);
            let long = v.exec_fp_store(width, rs1, rs2, imm, 4, w4);
            failed_alike(short, long) || advanced_alike(v, short, long)
        }),
{
    reveal(CpuView::exec_fp_store);
}

proof fn lemma_length_fp_move(v: CpuView, instr: Instr, w2: u32, w4: u32)
    requires
        v.wf(),
        well_formed(instr),
        instr is FpToInt || instr is IntToFp || instr is FpSign,
    ensures
        ({
            let short = v.exec_fp_move(instr, 2, w2);
            let long = v.exec_fp_move(instr, 4, w4);
            failed_alike(short, long) || advanced_alike(v, short, long)
        }),
{
    reveal(CpuView::exec_fp_move);
}

#[verifier::rlimit(50)]
proof fn lemma_length_reserved(v: CpuView, width: Width, rd: u8, rs1: u8, rs2: u8)
    requires
        v.wf(),
        rd < 32,
    ensures
        ({
            let short = v.exec_load_reserved(width, rd, rs1, 2);
            let long = v.exec_load_reserved(width, rd, rs1, 4);
            failed_alike(short, long) || advanced_alike(v, short, long)
        }),
        ({
            let short = v.exec_store_conditional(width, rd, rs1, rs2, 2);
            let long = v.exec_store_conditional(width, rd, rs1, rs2, 4);
            failed_alike(short, long) || advanced_alike(v, short, long)
        }),
{
    reveal(CpuView::exec_load_reserved);
    reveal(CpuView::exec_store_conditional);
}

#[verifier::rlimit(50)]
proof fn lemma_length_amo(v: CpuView, op: AmoOp, width: Width, rd: u8, rs1: u8, rs2: u8)
    requires
        v.wf(),
        rd < 32,
    ensures
        ({
            let short = v.exec_amo(op, width, rd, rs1, rs2, 2);
            let long = v.exec_amo(op, width, rd, rs1, rs2, 4);
            failed_alike(short, long) || advanced_alike(v, short, long)
        }),
{
    reveal(CpuView::exec_amo);
}

proof fn lemma_length_idle(v: CpuView, wait: bool, w2: u32, w4: u32)
    requires
        v.wf(),
    ensures
        advanced_alike(v, v.exec_idle(wait, 2), v.exec_idle(wait, 4)),
        failed_alike(v.exec_wfi(2, w2), v.exec_wfi(4, w4)) || advanced_alike(
            v,
            v.exec_wfi(2, w2),
            v.exec_wfi(4, w4),
        ),
        failed_alike(v.exec_ecall(), v.exec_ecall()),
        failed_alike(v.exec_ebreak(), v.exec_ebreak()),
        failed_alike(v.exec_mret(w2), v.exec_mret(w4)) || jumped_alike(
            v.exec_mret(w2),
            v.exec_mret(w4),
        ),
        failed_alike(v.exec_sret(w2), v.exec_sret(w4)) || jumped_alike(
            v.exec_sret(w2),
            v.exec_sret(w4),
        ),
{
    reveal(CpuView::exec_idle);
    reveal(CpuView::exec_wfi);
    reveal(CpuView::exec_ecall);
    reveal(CpuView::exec_ebreak);
    reveal(CpuView::exec_mret);
    reveal(CpuView::exec_sret);
}

proof fn lemma_length_sfence(v: CpuView, rs1: u8, rs2: u8, w2: u32, w4: u32)
    requires
        v.wf(),
    ensures
        ({
            let short = v.exec_sfence(rs1, rs2, 2, w2);
            let long = v.exec_sfence(rs1, rs2, 4, w4);
            failed_alike(short, long) || advanced_alike(v, short, long)
        }),
{
    reveal(CpuView::exec_sfence);
}

#[verifier::rlimit(50)]
proof fn lemma_length_csr(
    v: CpuView,
    op: CsrOp,
    rd: u8,
    source: u8,
    immediate: bool,
    csr: u16,
    w2: u32,
    w4: u32,
)
    requires
        v.wf(),
        rd < 32,
    ensures
        ({
            let short = v.exec_csr(op, rd, source, immediate, csr, 2, w2);
            let long = v.exec_csr(op, rd, source, immediate, csr, 4, w4);
            failed_alike(short, long) || advanced_alike(v, short, long)
        }),
{
    reveal(CpuView::exec_csr);
}

#[verifier::rlimit(50)]
proof fn lemma_length_base(v: CpuView, instr: Instr, w2: u32, w4: u32)
    requires
        v.wf(),
        well_formed(instr),
        instr is Lui || instr is Auipc || instr is Jal || instr is Jalr || instr is Branch
            || instr is Load || instr is Store || instr is OpImm || instr is Op,
    ensures
        equivalent(v, instr, v.execute(instr, 2, w2), v.execute(instr, 4, w4)),
{
    reveal(equivalent);
    reveal(CpuView::execute);
    match instr {
        Instr::Lui { rd, imm } => lemma_length_upper(v, rd, imm, false),
        Instr::Auipc { rd, imm } => lemma_length_upper(v, rd, imm, true),
        Instr::Jal { rd, imm } => lemma_length_jal(v, rd, imm),
        Instr::Jalr { rd, rs1, imm } => lemma_length_jalr(v, rd, rs1, imm),
        Instr::Branch { kind, rs1, rs2, imm } => lemma_length_branch(v, kind, rs1, rs2, imm),
        Instr::Load { width, signed, rd, rs1, imm } => lemma_length_load(
            v,
            width,
            signed,
            rd,
            rs1,
            imm,
        ),
        Instr::Store { width, rs1, rs2, imm } => lemma_length_store(v, width, rs1, rs2, imm),
        Instr::OpImm { op, rd, rs1, imm, word } => lemma_length_alu(
            v,
            op,
            rd,
            v.x[rs1 as int],
            imm,
            word,
        ),
        Instr::Op { op, rd, rs1, rs2, word } => lemma_length_alu(
            v,
            op,
            rd,
            v.x[rs1 as int],
            v.x[rs2 as int],
            word,
        ),
        _ => {},
    }
}

#[verifier::rlimit(50)]
proof fn lemma_length_system(v: CpuView, instr: Instr, w2: u32, w4: u32)
    requires
        v.wf(),
        well_formed(instr),
        instr is Fence || instr is FenceI || instr is Ecall || instr is Ebreak || instr is Sret
            || instr is Mret || instr is Wfi || instr is SfenceVma || instr is Csr,
    ensures
        equivalent(v, instr, v.execute(instr, 2, w2), v.execute(instr, 4, w4)),
{
    reveal(equivalent);
    reveal(CpuView::execute);
    match instr {
        Instr::Fence | Instr::FenceI => lemma_length_idle(v, false, w2, w4),
        Instr::Wfi => lemma_length_idle(v, true, w2, w4),
        Instr::Ecall | Instr::Ebreak | Instr::Sret | Instr::Mret => lemma_length_idle(
            v,
            false,
            w2,
            w4,
        ),
        Instr::SfenceVma { rs1, rs2 } => lemma_length_sfence(v, rs1, rs2, w2, w4),
        Instr::Csr { op, rd, source, immediate, csr } => lemma_length_csr(
            v,
            op,
            rd,
            source,
            immediate,
            csr,
            w2,
            w4,
        ),
        _ => {},
    }
}

#[verifier::rlimit(50)]
proof fn lemma_length_atomic(v: CpuView, instr: Instr, w2: u32, w4: u32)
    requires
        v.wf(),
        well_formed(instr),
        instr is LoadReserved || instr is StoreConditional || instr is Amo,
    ensures
        equivalent(v, instr, v.execute(instr, 2, w2), v.execute(instr, 4, w4)),
{
    reveal(equivalent);
    reveal(CpuView::execute);
    match instr {
        Instr::LoadReserved { width, rd, rs1 } => lemma_length_reserved(v, width, rd, rs1, 0),
        Instr::StoreConditional { width, rd, rs1, rs2 } => lemma_length_reserved(
            v,
            width,
            rd,
            rs1,
            rs2,
        ),
        Instr::Amo { op, width, rd, rs1, rs2 } => lemma_length_amo(v, op, width, rd, rs1, rs2),
        _ => {},
    }
}

#[verifier::rlimit(50)]
proof fn lemma_length_fp(v: CpuView, instr: Instr, w2: u32, w4: u32)
    requires
        v.wf(),
        well_formed(instr),
        instr is FpLoad || instr is FpStore || instr is FpToInt || instr is IntToFp
            || instr is FpSign,
    ensures
        equivalent(v, instr, v.execute(instr, 2, w2), v.execute(instr, 4, w4)),
{
    reveal(equivalent);
    reveal(CpuView::execute);
    match instr {
        Instr::FpLoad { width, rd, rs1, imm } => lemma_length_fp_load(
            v,
            width,
            rd,
            rs1,
            imm,
            w2,
            w4,
        ),
        Instr::FpStore { width, rs1, rs2, imm } => lemma_length_fp_store(
            v,
            width,
            rs1,
            rs2,
            imm,
            w2,
            w4,
        ),
        Instr::FpToInt { .. } | Instr::IntToFp { .. } | Instr::FpSign { .. } => lemma_length_fp_move(
            v,
            instr,
            w2,
            w4,
        ),
        _ => {},
    }
}

/// The length of an instruction matters to the program counter only:
/// executed as an instruction of two bytes and as one of four, an
/// instruction has the same effect on registers and memory, but for the
/// address of its successor.
pub proof fn lemma_length_moves_pc_only(v: CpuView, instr: Instr, w2: u32, w4: u32)
    requires
        v.wf(),
        well_formed(instr),
    ensures
        equivalent(v, instr, v.execute(instr, 2, w2), v.execute(instr, 4, w4)),
{
    match instr {
        Instr::Lui { .. }
        | Instr::Auipc { .. }
        | Instr::Jal { .. }
        | Instr::Jalr { .. }
        | Instr::Branch { .. }
        | Instr::Load { .. }
        | Instr::Store { .. }
        | Instr::OpImm { .. }
        | Instr::Op { .. } => lemma_length_base(v, instr, w2, w4),
        Instr::Fence
        | Instr::FenceI
        | Instr::Ecall
        | Instr::Ebreak
        | Instr::Sret
        | Instr::Mret
        | Instr::Wfi
        | Instr::SfenceVma { .. }
        | Instr::Csr { .. } => lemma_length_system(v, instr, w2, w4),
        Instr::LoadReserved { .. } | Instr::StoreConditional { .. } | Instr::Amo { .. } => lemma_length_atomic(
            v,
            instr,
            w2,
            w4,
        ),
        _ => lemma_length_fp(v, instr, w2, w4),
    }
}

/// Every word that the decoder reads as an instruction has its two low bits
/// set: it is no compressed instruction.
pub proof fn lemma_decoded_is_full_size(e: u32, xlen: Xlen)
    ensures
        decode_spec(e, xlen) is Some ==> e % 4 == 3,
{
    reveal(decode_spec);
}

/// Compressed and expanded instructions are equivalent. Where the
/// decompressor expands the parcel `w` to the word `e`, both are the same
/// instruction to the decoder; `e` is a 32-bit instruction; and executing
/// that instruction from a state `v` as the parcel, with a length of two
/// bytes, and as the word, with a length of four, gives outcomes that are
/// equivalent: the same registers, but for a link register, and the
/// program counter moved on by two and by four.
#[verifier::rlimit(50)]
pub proof fn lemma_compressed_equivalence(v: CpuView, w: u16)
    requires
        v.wf(),
        w % 4 != 3,
    ensures
        decompressed(v.xlen, w as int) matches Ok(e) ==> {
            &&& e % 4 == 3
            &&& decode_spec(e, v.xlen) matches Some(instr)
            &&& form_of((w % 4) as int, v.xlen, w as int) matches Ok(form)
            &&& decode_spec(e, v.xlen) == Some(meaning(form, w))
            &&& equivalent(
                v,
                decode_spec(e, v.xlen)->Some_0,
                v.execute(decode_spec(e, v.xlen)->Some_0, 2, w as u32),
                v.execute(decode_spec(e, v.xlen)->Some_0, 4, e),
            )
        },
{
    lemma_decompressed_decodes(v.xlen, w);
    match decompressed(v.xlen, w as int) {
        Ok(e) => {
            let instr = decode_spec(e, v.xlen)->Some_0;
            crate::cpu::decode::lemma_decode_well_formed(e, v.xlen);
            lemma_decoded_is_full_size(e, v.xlen);
            lemma_length_moves_pc_only(v, instr, w as u32, e);
        },
        Err(_) => {},
    }
}

} // verus!
