//! Expansion of 16-bit compressed instructions into the 32-bit instructions
//! they abbreviate. Nothing is executed here: a parcel is only rewritten.

use vstd::prelude::*;
use crate::cpu::cpu::{Cpu, Xlen};
use crate::cpu::encoding::{
    enc_b,
    enc_i,
    enc_j,
    enc_r,
    enc_s,
    enc_u,
    encode_b,
    encode_i,
    encode_j,
    encode_r,
    encode_s,
    encode_u,
    field,
    get_field,
    resize_signed,
    sign_resize,
};

verus! {

// Opcodes of the 32-bit instructions that compressed forms expand to.
pub const OP_LOAD: u32 = 0x03;

pub const OP_LOAD_FP: u32 = 0x07;

pub const OP_IMM: u32 = 0x13;

pub const OP_IMM_32: u32 = 0x1b;

pub const OP_STORE: u32 = 0x23;

pub const OP_STORE_FP: u32 = 0x27;

pub const OP_OP: u32 = 0x33;

pub const OP_LUI: u32 = 0x37;

pub const OP_OP_32: u32 = 0x3b;

pub const OP_BRANCH: u32 = 0x63;

pub const OP_JALR: u32 = 0x67;

pub const OP_JAL: u32 = 0x6f;

/// The encoding of `ebreak`.
pub const EBREAK: u32 = 0x0010_0073;

/// The encoding of `addi x0, x0, 0`.
pub const NOP: u32 = 0x13;

/// The three quadrants of the compressed encoding space, selected by the
/// two low bits of a parcel.
pub struct CompressedOpecode {
    pub quadrant: u8,
}

/// The compressed forms.
#[derive(Clone, Copy, Debug, PartialEq, Eq, Structural)]
pub enum CompressedForm {
    Addi4spn,
    Fld,
    Lw,
    Flw,
    Ld,
    Fsd,
    Sw,
    Fsw,
    Sd,
    Nop,
    Addi,
    Jal,
    Addiw,
    Li,
    Addi16sp,
    Lui,
    Srli,
    Srai,
    Andi,
    Sub,
    Xor,
    Or,
    And,
    Subw,
    Addw,
    J,
    Beqz,
    Bnez,
    Slli,
    Fldsp,
    Lwsp,
    Flwsp,
    Ldsp,
    Jr,
    Mv,
    Ebreak,
    Jalr,
    Add,
    Fsdsp,
    Swsp,
    Fswsp,
    Sdsp,
}

/// One compressed form: its mnemonic, its expansion and its disassembly.
pub struct CompressedInstruction {
    pub form: CompressedForm,
}

// ---------------------------------------------------------------------
// Fields of a 16-bit parcel
// ---------------------------------------------------------------------
/// Bits 15:13.
pub open spec fn funct3_of(w: int) -> int {
    field(w, 0x2000, 8)
}

/// Bits 11:7: a full register number (`rd`, `rs1`).
pub open spec fn reg_hi(w: int) -> int {
    field(w, 0x80, 32)
}

/// Bits 6:2: a full register number (`rs2`).
pub open spec fn reg_lo(w: int) -> int {
    field(w, 4, 32)
}

/// Bits 9:7: one of the registers x8..x15 (`rd'`, `rs1'`).
pub open spec fn short_reg_hi(w: int) -> int {
    8 + field(w, 0x80, 8)
}

/// Bits 4:2: one of the registers x8..x15 (`rd'`, `rs2'`).
pub open spec fn short_reg_lo(w: int) -> int {
    8 + field(w, 4, 8)
}

/// `nzuimm[5:4|9:6|2|3]` in bits 12:5, scaled by 4.
pub open spec fn uimm_addi4spn(w: int) -> int {
    field(w, 0x800, 4) * 16 + field(w, 0x80, 16) * 64 + field(w, 0x40, 2) * 4 + field(w, 0x20, 2)
        * 8
}

/// `uimm[5:3]` in bits 12:10 and `uimm[2|6]` in bits 6:5: a word offset.
pub open spec fn uimm_word(w: int) -> int {
    field(w, 0x400, 8) * 8 + field(w, 0x40, 2) * 4 + field(w, 0x20, 2) * 64
}

/// `uimm[5:3]` in bits 12:10 and `uimm[7:6]` in bits 6:5: a doubleword
/// offset.
pub open spec fn uimm_double(w: int) -> int {
    field(w, 0x400, 8) * 8 + field(w, 0x20, 4) * 64
}

/// `imm[5]` in bit 12 and `imm[4:0]` in bits 6:2, as an unsigned field.
pub open spec fn imm6(w: int) -> int {
    field(w, 0x1000, 2) * 32 + field(w, 4, 32)
}

/// `offset[11|4|9:8|10|6|7|3:1|5]` in bits 12:2, as an unsigned field.
pub open spec fn offset_jump(w: int) -> int {
    field(w, 0x1000, 2) * 0x800 + field(w, 0x800, 2) * 0x10 + field(w, 0x200, 4) * 0x100 + field(
        w,
        0x100,
        2,
    ) * 0x400 + field(w, 0x80, 2) * 0x40 + field(w, 0x40, 2) * 0x80 + field(w, 8, 8) * 2 + field(
        w,
        4,
        2,
    ) * 0x20
}

/// `offset[8|4:3]` in bits 12:10 and `offset[7:6|2:1|5]` in bits 6:2, as an
/// unsigned field.
pub open spec fn offset_branch(w: int) -> int {
    field(w, 0x1000, 2) * 0x100 + field(w, 0x400, 4) * 8 + field(w, 0x20, 4) * 0x40 + field(
        w,
        8,
        4,
    ) * 2 + field(w, 4, 2) * 0x20
}

/// `nzimm[9]` in bit 12 and `nzimm[4|6|8:7|5]` in bits 6:2, as an unsigned
/// field.
pub open spec fn imm_addi16sp(w: int) -> int {
    field(w, 0x1000, 2) * 0x200 + field(w, 0x40, 2) * 0x10 + field(w, 0x20, 2) * 0x40 + field(
        w,
        8,
        4,
    ) * 0x80 + field(w, 4, 2) * 0x20
}

/// `uimm[5]` in bit 12 and `uimm[4:2|7:6]` in bits 6:2: a word offset from
/// the stack pointer.
pub open spec fn uimm_lwsp(w: int) -> int {
    field(w, 0x1000, 2) * 32 + field(w, 0x10, 8) * 4 + field(w, 4, 4) * 64
}

/// `uimm[5]` in bit 12 and `uimm[4:3|8:6]` in bits 6:2: a doubleword offset
/// from the stack pointer.
pub open spec fn uimm_ldsp(w: int) -> int {
    field(w, 0x1000, 2) * 32 + field(w, 0x20, 4) * 8 + field(w, 4, 8) * 64
}

/// `uimm[5:2|7:6]` in bits 12:7: a word offset from the stack pointer.
pub open spec fn uimm_swsp(w: int) -> int {
    field(w, 0x200, 16) * 4 + field(w, 0x80, 4) * 64
}

/// `uimm[5:3|8:6]` in bits 12:7: a doubleword offset from the stack pointer.
pub open spec fn uimm_sdsp(w: int) -> int {
    field(w, 0x400, 8) * 8 + field(w, 0x80, 8) * 64
}

// ---------------------------------------------------------------------
// Executable readers of the same fields
// ---------------------------------------------------------------------
fn read_reg_hi(w: u32) -> (r: u32)
    ensures
        r == reg_hi(w as int),
        r < 32,
{
    get_field(w, 0x80, 32)
}

fn read_reg_lo(w: u32) -> (r: u32)
    ensures
        r == reg_lo(w as int),
        r < 32,
{
    get_field(w, 4, 32)
}

fn read_short_reg_hi(w: u32) -> (r: u32)
    ensures
        r == short_reg_hi(w as int),
        8 <= r < 16,
{
    8 + get_field(w, 0x80, 8)
}

fn read_short_reg_lo(w: u32) -> (r: u32)
    ensures
        r == short_reg_lo(w as int),
        8 <= r < 16,
{
    8 + get_field(w, 4, 8)
}

fn read_uimm_addi4spn(w: u32) -> (r: u32)
    ensures
        r == uimm_addi4spn(w as int),
        r < 0x400,
{
    get_field(w, 0x800, 4) * 16 + get_field(w, 0x80, 16) * 64 + get_field(w, 0x40, 2) * 4
        + get_field(w, 0x20, 2) * 8
}

fn read_uimm_word(w: u32) -> (r: u32)
    ensures
        r == uimm_word(w as int),
        r < 0x80,
{
    get_field(w, 0x400, 8) * 8 + get_field(w, 0x40, 2) * 4 + get_field(w, 0x20, 2) * 64
}

fn read_uimm_double(w: u32) -> (r: u32)
    ensures
        r == uimm_double(w as int),
        r < 0x100,
{
    get_field(w, 0x400, 8) * 8 + get_field(w, 0x20, 4) * 64
}

fn read_imm6(w: u32) -> (r: u32)
    ensures
        r == imm6(w as int),
        r < 64,
{
    get_field(w, 0x1000, 2) * 32 + get_field(w, 4, 32)
}

fn read_offset_jump(w: u32) -> (r: u32)
    ensures
        r == offset_jump(w as int),
        r < 0x1000,
{
    get_field(w, 0x1000, 2) * 0x800 + get_field(w, 0x800, 2) * 0x10 + get_field(w, 0x200, 4)
        * 0x100 + get_field(w, 0x100, 2) * 0x400 + get_field(w, 0x80, 2) * 0x40 + get_field(
        w,
        0x40,
        2,
    ) * 0x80 + get_field(w, 8, 8) * 2 + get_field(w, 4, 2) * 0x20
}

fn read_offset_branch(w: u32) -> (r: u32)
    ensures
        r == offset_branch(w as int),
        r < 0x200,
{
    get_field(w, 0x1000, 2) * 0x100 + get_field(w, 0x400, 4) * 8 + get_field(w, 0x20, 4) * 0x40
        + get_field(w, 8, 4) * 2 + get_field(w, 4, 2) * 0x20
}

fn read_imm_addi16sp(w: u32) -> (r: u32)
    ensures
        r == imm_addi16sp(w as int),
        r < 0x400,
{
    get_field(w, 0x1000, 2) * 0x200 + get_field(w, 0x40, 2) * 0x10 + get_field(w, 0x20, 2) * 0x40
        + get_field(w, 8, 4) * 0x80 + get_field(w, 4, 2) * 0x20
}

fn read_uimm_lwsp(w: u32) -> (r: u32)
    ensures
        r == uimm_lwsp(w as int),
        r < 0x100,
{
    get_field(w, 0x1000, 2) * 32 + get_field(w, 0x10, 8) * 4 + get_field(w, 4, 4) * 64
}

fn read_uimm_ldsp(w: u32) -> (r: u32)
    ensures
        r == uimm_ldsp(w as int),
        r < 0x200,
{
    get_field(w, 0x1000, 2) * 32 + get_field(w, 0x20, 4) * 8 + get_field(w, 4, 8) * 64
}

fn read_uimm_swsp(w: u32) -> (r: u32)
    ensures
        r == uimm_swsp(w as int),
        r < 0x100,
{
    get_field(w, 0x200, 16) * 4 + get_field(w, 0x80, 4) * 64
}

fn read_uimm_sdsp(w: u32) -> (r: u32)
    ensures
        r == uimm_sdsp(w as int),
        r < 0x200,
{
    get_field(w, 0x400, 8) * 8 + get_field(w, 0x80, 8) * 64
}

// ---------------------------------------------------------------------
// The expansion of each form
// ---------------------------------------------------------------------
/// `c.addi4spn rd', nzuimm` is `addi rd', x2, nzuimm`; a zero immediate is illegal.
pub open spec fn addi4spn_expansion(w: int) -> Result<u32, ()> {
    if uimm_addi4spn(w) == 0 {
        Err(())
    } else {
        Ok(enc_i(OP_IMM as int, short_reg_lo(w), 0, 2, uimm_addi4spn(w)))
    }
}

/// Expands the parcel `word`, read as `c.addi4spn`.
pub fn c_addi4spn(_cpu: &Cpu, word: u16) -> (r: Result<u32, ()>)
    ensures
        r == addi4spn_expansion(word as int),
{
    let w = word as u32;
    let uimm = read_uimm_addi4spn(w);
    if uimm == 0 {
        Err(())
    } else {
        Ok(encode_i(OP_IMM, read_short_reg_lo(w), 0, 2, uimm))
    }
}

/// `c.fld rd', uimm(rs1')` is `fld rd', uimm(rs1')`.
pub open spec fn fld_expansion(w: int) -> Result<u32, ()> {
    Ok(enc_i(OP_LOAD_FP as int, short_reg_lo(w), 3, short_reg_hi(w), uimm_double(w)))
}

/// Expands the parcel `word`, read as `c.fld`.
pub fn c_fld(_cpu: &Cpu, word: u16) -> (r: Result<u32, ()>)
    ensures
        r == fld_expansion(word as int),
{
    let w = word as u32;
    Ok(encode_i(OP_LOAD_FP, read_short_reg_lo(w), 3, read_short_reg_hi(w), read_uimm_double(w)))
}

/// `c.lw rd', uimm(rs1')` is `lw rd', uimm(rs1')`.
pub open spec fn lw_expansion(w: int) -> Result<u32, ()> {
    Ok(enc_i(OP_LOAD as int, short_reg_lo(w), 2, short_reg_hi(w), uimm_word(w)))
}

/// Expands the parcel `word`, read as `c.lw`.
pub fn c_lw(_cpu: &Cpu, word: u16) -> (r: Result<u32, ()>)
    ensures
        r == lw_expansion(word as int),
{
    let w = word as u32;
    Ok(encode_i(OP_LOAD, read_short_reg_lo(w), 2, read_short_reg_hi(w), read_uimm_word(w)))
}

/// `c.flw rd', uimm(rs1')` is `flw rd', uimm(rs1')`.
pub open spec fn flw_expansion(w: int) -> Result<u32, ()> {
    Ok(enc_i(OP_LOAD_FP as int, short_reg_lo(w), 2, short_reg_hi(w), uimm_word(w)))
}

/// Expands the parcel `word`, read as `c.flw`.
pub fn c_flw(_cpu: &Cpu, word: u16) -> (r: Result<u32, ()>)
    ensures
        r == flw_expansion(word as int),
{
    let w = word as u32;
    Ok(encode_i(OP_LOAD_FP, read_short_reg_lo(w), 2, read_short_reg_hi(w), read_uimm_word(w)))
}

/// `c.ld rd', uimm(rs1')` is `ld rd', uimm(rs1')`.
pub open spec fn ld_expansion(w: int) -> Result<u32, ()> {
    Ok(enc_i(OP_LOAD as int, short_reg_lo(w), 3, short_reg_hi(w), uimm_double(w)))
}

/// Expands the parcel `word`, read as `c.ld`.
pub fn c_ld(_cpu: &Cpu, word: u16) -> (r: Result<u32, ()>)
    ensures
        r == ld_expansion(word as int),
{
    let w = word as u32;
    Ok(encode_i(OP_LOAD, read_short_reg_lo(w), 3, read_short_reg_hi(w), read_uimm_double(w)))
}

/// `c.fsd rs2', uimm(rs1')` is `fsd rs2', uimm(rs1')`.
pub open spec fn fsd_expansion(w: int) -> Result<u32, ()> {
    Ok(enc_s(OP_STORE_FP as int, 3, short_reg_hi(w), short_reg_lo(w), uimm_double(w)))
}

/// Expands the parcel `word`, read as `c.fsd`.
pub fn c_fsd(_cpu: &Cpu, word: u16) -> (r: Result<u32, ()>)
    ensures
        r == fsd_expansion(word as int),
{
    let w = word as u32;
    Ok(encode_s(OP_STORE_FP, 3, read_short_reg_hi(w), read_short_reg_lo(w), read_uimm_double(w)))
}

/// `c.sw rs2', uimm(rs1')` is `sw rs2', uimm(rs1')`.
pub open spec fn sw_expansion(w: int) -> Result<u32, ()> {
    Ok(enc_s(OP_STORE as int, 2, short_reg_hi(w), short_reg_lo(w), uimm_word(w)))
}

/// Expands the parcel `word`, read as `c.sw`.
pub fn c_sw(_cpu: &Cpu, word: u16) -> (r: Result<u32, ()>)
    ensures
        r == sw_expansion(word as int),
{
    let w = word as u32;
    Ok(encode_s(OP_STORE, 2, read_short_reg_hi(w), read_short_reg_lo(w), read_uimm_word(w)))
}

/// `c.fsw rs2', uimm(rs1')` is `fsw rs2', uimm(rs1')`.
pub open spec fn fsw_expansion(w: int) -> Result<u32, ()> {
    Ok(enc_s(OP_STORE_FP as int, 2, short_reg_hi(w), short_reg_lo(w), uimm_word(w)))
}

/// Expands the parcel `word`, read as `c.fsw`.
pub fn c_fsw(_cpu: &Cpu, word: u16) -> (r: Result<u32, ()>)
    ensures
        r == fsw_expansion(word as int),
{
    let w = word as u32;
    Ok(encode_s(OP_STORE_FP, 2, read_short_reg_hi(w), read_short_reg_lo(w), read_uimm_word(w)))
}

/// `c.sd rs2', uimm(rs1')` is `sd rs2', uimm(rs1')`.
pub open spec fn sd_expansion(w: int) -> Result<u32, ()> {
    Ok(enc_s(OP_STORE as int, 3, short_reg_hi(w), short_reg_lo(w), uimm_double(w)))
}

/// Expands the parcel `word`, read as `c.sd`.
pub fn c_sd(_cpu: &Cpu, word: u16) -> (r: Result<u32, ()>)
    ensures
        r == sd_expansion(word as int),
{
    let w = word as u32;
    Ok(encode_s(OP_STORE, 3, read_short_reg_hi(w), read_short_reg_lo(w), read_uimm_double(w)))
}

/// `c.nop` is `addi x0, x0, 0`.
pub open spec fn nop_expansion(w: int) -> Result<u32, ()> {
    Ok(NOP)
}

/// Expands the parcel `word`, read as `c.nop`.
pub fn c_nop(_cpu: &Cpu, word: u16) -> (r: Result<u32, ()>)
    ensures
        r == nop_expansion(word as int),
{
    Ok(NOP)
}

/// `c.addi rd, imm` is `addi rd, rd, imm`, the 6-bit immediate sign-extended.
pub open spec fn addi_expansion(w: int) -> Result<u32, ()> {
    Ok(enc_i(OP_IMM as int, reg_hi(w), 0, reg_hi(w), resize_signed(imm6(w), 64, 0x1000)))
}

/// Expands the parcel `word`, read as `c.addi`.
pub fn c_addi(_cpu: &Cpu, word: u16) -> (r: Result<u32, ()>)
    ensures
        r == addi_expansion(word as int),
{
    let w = word as u32;
    let rd = read_reg_hi(w);
    Ok(encode_i(OP_IMM, rd, 0, rd, sign_resize(read_imm6(w), 64, 0x1000)))
}

/// `c.jal offset` is `jal x1, offset`.
pub open spec fn jal_expansion(w: int) -> Result<u32, ()> {
    Ok(enc_j(OP_JAL as int, 1, resize_signed(offset_jump(w), 0x1000, 0x20_0000)))
}

/// Expands the parcel `word`, read as `c.jal`.
pub fn c_jal(_cpu: &Cpu, word: u16) -> (r: Result<u32, ()>)
    ensures
        r == jal_expansion(word as int),
{
    let w = word as u32;
    Ok(encode_j(OP_JAL, 1, sign_resize(read_offset_jump(w), 0x1000, 0x20_0000)))
}

/// `c.addiw rd, imm` is `addiw rd, rd, imm`; `rd = x0` is reserved.
pub open spec fn addiw_expansion(w: int) -> Result<u32, ()> {
    if reg_hi(w) == 0 {
        Err(())
    } else {
        Ok(enc_i(OP_IMM_32 as int, reg_hi(w), 0, reg_hi(w), resize_signed(imm6(w), 64, 0x1000)))
    }
}

/// Expands the parcel `word`, read as `c.addiw`.
pub fn c_addiw(_cpu: &Cpu, word: u16) -> (r: Result<u32, ()>)
    ensures
        r == addiw_expansion(word as int),
{
    let w = word as u32;
    let rd = read_reg_hi(w);
    if rd == 0 {
        Err(())
    } else {
        Ok(encode_i(OP_IMM_32, rd, 0, rd, sign_resize(read_imm6(w), 64, 0x1000)))
    }
}

/// `c.li rd, imm` is `addi rd, x0, imm`.
pub open spec fn li_expansion(w: int) -> Result<u32, ()> {
    Ok(enc_i(OP_IMM as int, reg_hi(w), 0, 0, resize_signed(imm6(w), 64, 0x1000)))
}

/// Expands the parcel `word`, read as `c.li`.
pub fn c_li(_cpu: &Cpu, word: u16) -> (r: Result<u32, ()>)
    ensures
        r == li_expansion(word as int),
{
    let w = word as u32;
    Ok(encode_i(OP_IMM, read_reg_hi(w), 0, 0, sign_resize(read_imm6(w), 64, 0x1000)))
}

/// `c.addi16sp nzimm` is `addi x2, x2, nzimm`; a zero immediate is reserved.
pub open spec fn addi16sp_expansion(w: int) -> Result<u32, ()> {
    if imm_addi16sp(w) == 0 {
        Err(())
    } else {
        Ok(enc_i(OP_IMM as int, 2, 0, 2, resize_signed(imm_addi16sp(w), 0x400, 0x1000)))
    }
}

/// Expands the parcel `word`, read as `c.addi16sp`.
pub fn c_addi16sp(_cpu: &Cpu, word: u16) -> (r: Result<u32, ()>)
    ensures
        r == addi16sp_expansion(word as int),
{
    let w = word as u32;
    let imm = read_imm_addi16sp(w);
    if imm == 0 {
        Err(())
    } else {
        Ok(encode_i(OP_IMM, 2, 0, 2, sign_resize(imm, 0x400, 0x1000)))
    }
}

/// `c.lui rd, nzimm` is `lui rd, nzimm`; a zero immediate is reserved.
pub open spec fn lui_expansion(w: int) -> Result<u32, ()> {
    if imm6(w) == 0 {
        Err(())
    } else {
        Ok(enc_u(OP_LUI as int, reg_hi(w), resize_signed(imm6(w), 64, 0x10_0000)))
    }
}

/// Expands the parcel `word`, read as `c.lui`.
pub fn c_lui(_cpu: &Cpu, word: u16) -> (r: Result<u32, ()>)
    ensures
        r == lui_expansion(word as int),
{
    let w = word as u32;
    let imm = read_imm6(w);
    if imm == 0 {
        Err(())
    } else {
        Ok(encode_u(OP_LUI, read_reg_hi(w), sign_resize(imm, 64, 0x10_0000)))
    }
}

/// `c.srli rd', shamt` is `srli rd', rd', shamt`; with 32-bit registers a shift amount of 32 or more is illegal.
pub open spec fn srli_expansion(xlen: Xlen, w: int) -> Result<u32, ()> {
    if xlen == Xlen::X32 && imm6(w) >= 32 {
        Err(())
    } else {
        Ok(enc_i(OP_IMM as int, short_reg_hi(w), 5, short_reg_hi(w), 0 + imm6(w)))
    }
}

/// Expands the parcel `word`, read as `c.srli`.
pub fn c_srli(cpu: &Cpu, word: u16) -> (r: Result<u32, ()>)
    ensures
        r == srli_expansion(cpu@.xlen, word as int),
{
    let w = word as u32;
    let shamt = read_imm6(w);
    let rd = read_short_reg_hi(w);
    match cpu.get_xlen() {
        Xlen::X32 => if shamt >= 32 {
            Err(())
        } else {
            Ok(encode_i(OP_IMM, rd, 5, rd, 0 + shamt))
        },
        Xlen::X64 => Ok(encode_i(OP_IMM, rd, 5, rd, 0 + shamt)),
    }
}

/// `c.srai rd', shamt` is `srai rd', rd', shamt`; with 32-bit registers a shift amount of 32 or more is illegal.
pub open spec fn srai_expansion(xlen: Xlen, w: int) -> Result<u32, ()> {
    if xlen == Xlen::X32 && imm6(w) >= 32 {
        Err(())
    } else {
        Ok(enc_i(OP_IMM as int, short_reg_hi(w), 5, short_reg_hi(w), 0x400 + imm6(w)))
    }
}

/// Expands the parcel `word`, read as `c.srai`.
pub fn c_srai(cpu: &Cpu, word: u16) -> (r: Result<u32, ()>)
    ensures
        r == srai_expansion(cpu@.xlen, word as int),
{
    let w = word as u32;
    let shamt = read_imm6(w);
    let rd = read_short_reg_hi(w);
    match cpu.get_xlen() {
        Xlen::X32 => if shamt >= 32 {
            Err(())
        } else {
            Ok(encode_i(OP_IMM, rd, 5, rd, 0x400 + shamt))
        },
        Xlen::X64 => Ok(encode_i(OP_IMM, rd, 5, rd, 0x400 + shamt)),
    }
}

/// `c.andi rd', imm` is `andi rd', rd', imm`.
pub open spec fn andi_expansion(w: int) -> Result<u32, ()> {
    Ok(enc_i(OP_IMM as int, short_reg_hi(w), 7, short_reg_hi(w), resize_signed(imm6(w), 64, 0x1000)))
}

/// Expands the parcel `word`, read as `c.andi`.
pub fn c_andi(_cpu: &Cpu, word: u16) -> (r: Result<u32, ()>)
    ensures
        r == andi_expansion(word as int),
{
    let w = word as u32;
    let rd = read_short_reg_hi(w);
    Ok(encode_i(OP_IMM, rd, 7, rd, sign_resize(read_imm6(w), 64, 0x1000)))
}

/// `c.sub rd', rs2'` is `sub rd', rd', rs2'`.
pub open spec fn sub_expansion(w: int) -> Result<u32, ()> {
    Ok(enc_r(OP_OP as int, short_reg_hi(w), 0, short_reg_hi(w), short_reg_lo(w), 0x20))
}

/// Expands the parcel `word`, read as `c.sub`.
pub fn c_sub(_cpu: &Cpu, word: u16) -> (r: Result<u32, ()>)
    ensures
        r == sub_expansion(word as int),
{
    let w = word as u32;
    let rd = read_short_reg_hi(w);
    Ok(encode_r(OP_OP, rd, 0, rd, read_short_reg_lo(w), 0x20))
}

/// `c.xor rd', rs2'` is `xor rd', rd', rs2'`.
pub open spec fn xor_expansion(w: int) -> Result<u32, ()> {
    Ok(enc_r(OP_OP as int, short_reg_hi(w), 4, short_reg_hi(w), short_reg_lo(w), 0))
}

/// Expands the parcel `word`, read as `c.xor`.
pub fn c_xor(_cpu: &Cpu, word: u16) -> (r: Result<u32, ()>)
    ensures
        r == xor_expansion(word as int),
{
    let w = word as u32;
    let rd = read_short_reg_hi(w);
    Ok(encode_r(OP_OP, rd, 4, rd, read_short_reg_lo(w), 0))
}

/// `c.or rd', rs2'` is `or rd', rd', rs2'`.
pub open spec fn or_expansion(w: int) -> Result<u32, ()> {
    Ok(enc_r(OP_OP as int, short_reg_hi(w), 6, short_reg_hi(w), short_reg_lo(w), 0))
}

/// Expands the parcel `word`, read as `c.or`.
pub fn c_or(_cpu: &Cpu, word: u16) -> (r: Result<u32, ()>)
    ensures
        r == or_expansion(word as int),
{
    let w = word as u32;
    let rd = read_short_reg_hi(w);
    Ok(encode_r(OP_OP, rd, 6, rd, read_short_reg_lo(w), 0))
}

/// `c.and rd', rs2'` is `and rd', rd', rs2'`.
pub open spec fn and_expansion(w: int) -> Result<u32, ()> {
    Ok(enc_r(OP_OP as int, short_reg_hi(w), 7, short_reg_hi(w), short_reg_lo(w), 0))
}

/// Expands the parcel `word`, read as `c.and`.
pub fn c_and(_cpu: &Cpu, word: u16) -> (r: Result<u32, ()>)
    ensures
        r == and_expansion(word as int),
{
    let w = word as u32;
    let rd = read_short_reg_hi(w);
    Ok(encode_r(OP_OP, rd, 7, rd, read_short_reg_lo(w), 0))
}

/// `c.subw rd', rs2'` is `subw rd', rd', rs2'`; it exists with 64-bit registers only.
pub open spec fn subw_expansion(xlen: Xlen, w: int) -> Result<u32, ()> {
    if xlen == Xlen::X32 {
        Err(())
    } else {
        Ok(enc_r(OP_OP_32 as int, short_reg_hi(w), 0, short_reg_hi(w), short_reg_lo(w), 0x20))
    }
}

/// Expands the parcel `word`, read as `c.subw`.
pub fn c_subw(cpu: &Cpu, word: u16) -> (r: Result<u32, ()>)
    ensures
        r == subw_expansion(cpu@.xlen, word as int),
{
    let w = word as u32;
    let rd = read_short_reg_hi(w);
    match cpu.get_xlen() {
        Xlen::X32 => Err(()),
        Xlen::X64 => Ok(encode_r(OP_OP_32, rd, 0, rd, read_short_reg_lo(w), 0x20)),
    }
}

/// `c.addw rd', rs2'` is `addw rd', rd', rs2'`; it exists with 64-bit registers only.
pub open spec fn addw_expansion(xlen: Xlen, w: int) -> Result<u32, ()> {
    if xlen == Xlen::X32 {
        Err(())
    } else {
        Ok(enc_r(OP_OP_32 as int, short_reg_hi(w), 0, short_reg_hi(w), short_reg_lo(w), 0))
    }
}

/// Expands the parcel `word`, read as `c.addw`.
pub fn c_addw(cpu: &Cpu, word: u16) -> (r: Result<u32, ()>)
    ensures
        r == addw_expansion(cpu@.xlen, word as int),
{
    let w = word as u32;
    let rd = read_short_reg_hi(w);
    match cpu.get_xlen() {
        Xlen::X32 => Err(()),
        Xlen::X64 => Ok(encode_r(OP_OP_32, rd, 0, rd, read_short_reg_lo(w), 0)),
    }
}

/// `c.j offset` is `jal x0, offset`.
pub open spec fn j_expansion(w: int) -> Result<u32, ()> {
    Ok(enc_j(OP_JAL as int, 0, resize_signed(offset_jump(w), 0x1000, 0x20_0000)))
}

/// Expands the parcel `word`, read as `c.j`.
pub fn c_j(_cpu: &Cpu, word: u16) -> (r: Result<u32, ()>)
    ensures
        r == j_expansion(word as int),
{
    let w = word as u32;
    Ok(encode_j(OP_JAL, 0, sign_resize(read_offset_jump(w), 0x1000, 0x20_0000)))
}

/// `c.beqz rs1', offset` is `beq rs1', x0, offset`.
pub open spec fn beqz_expansion(w: int) -> Result<u32, ()> {
    Ok(enc_b(OP_BRANCH as int, 0, short_reg_hi(w), 0, resize_signed(offset_branch(w), 0x200, 0x2000)))
}

/// Expands the parcel `word`, read as `c.beqz`.
pub fn c_beqz(_cpu: &Cpu, word: u16) -> (r: Result<u32, ()>)
    ensures
        r == beqz_expansion(word as int),
{
    let w = word as u32;
    Ok(encode_b(OP_BRANCH, 0, read_short_reg_hi(w), 0, sign_resize(read_offset_branch(w), 0x200, 0x2000)))
}

/// `c.bnez rs1', offset` is `bne rs1', x0, offset`.
pub open spec fn bnez_expansion(w: int) -> Result<u32, ()> {
    Ok(enc_b(OP_BRANCH as int, 1, short_reg_hi(w), 0, resize_signed(offset_branch(w), 0x200, 0x2000)))
}

/// Expands the parcel `word`, read as `c.bnez`.
pub fn c_bnez(_cpu: &Cpu, word: u16) -> (r: Result<u32, ()>)
    ensures
        r == bnez_expansion(word as int),
{
    let w = word as u32;
    Ok(encode_b(OP_BRANCH, 1, read_short_reg_hi(w), 0, sign_resize(read_offset_branch(w), 0x200, 0x2000)))
}

/// `c.slli rd, shamt` is `slli rd, rd, shamt`; with 32-bit registers a shift amount of 32 or more is illegal.
pub open spec fn slli_expansion(xlen: Xlen, w: int) -> Result<u32, ()> {
    if xlen == Xlen::X32 && imm6(w) >= 32 {
        Err(())
    } else {
        Ok(enc_i(OP_IMM as int, reg_hi(w), 1, reg_hi(w), 0 + imm6(w)))
    }
}

/// Expands the parcel `word`, read as `c.slli`.
pub fn c_slli(cpu: &Cpu, word: u16) -> (r: Result<u32, ()>)
    ensures
        r == slli_expansion(cpu@.xlen, word as int),
{
    let w = word as u32;
    let shamt = read_imm6(w);
    let rd = read_reg_hi(w);
    match cpu.get_xlen() {
        Xlen::X32 => if shamt >= 32 {
            Err(())
        } else {
            Ok(encode_i(OP_IMM, rd, 1, rd, 0 + shamt))
        },
        Xlen::X64 => Ok(encode_i(OP_IMM, rd, 1, rd, 0 + shamt)),
    }
}

/// `c.fldsp rd, uimm(x2)` is `fld rd, uimm(x2)`.
pub open spec fn fldsp_expansion(w: int) -> Result<u32, ()> {
    Ok(enc_i(OP_LOAD_FP as int, reg_hi(w), 3, 2, uimm_ldsp(w)))
}

/// Expands the parcel `word`, read as `c.fldsp`.
pub fn c_fldsp(_cpu: &Cpu, word: u16) -> (r: Result<u32, ()>)
    ensures
        r == fldsp_expansion(word as int),
{
    let w = word as u32;
    Ok(encode_i(OP_LOAD_FP, read_reg_hi(w), 3, 2, read_uimm_ldsp(w)))
}

/// `c.lwsp rd, uimm(x2)` is `lw rd, uimm(x2)`; `rd = x0` is reserved.
pub open spec fn lwsp_expansion(w: int) -> Result<u32, ()> {
    if reg_hi(w) == 0 {
        Err(())
    } else {
        Ok(enc_i(OP_LOAD as int, reg_hi(w), 2, 2, uimm_lwsp(w)))
    }
}

/// Expands the parcel `word`, read as `c.lwsp`.
pub fn c_lwsp(_cpu: &Cpu, word: u16) -> (r: Result<u32, ()>)
    ensures
        r == lwsp_expansion(word as int),
{
    let w = word as u32;
    let rd = read_reg_hi(w);
    if rd == 0 {
        Err(())
    } else {
        Ok(encode_i(OP_LOAD, rd, 2, 2, read_uimm_lwsp(w)))
    }
}

/// `c.flwsp rd, uimm(x2)` is `flw rd, uimm(x2)`.
pub open spec fn flwsp_expansion(w: int) -> Result<u32, ()> {
    Ok(enc_i(OP_LOAD_FP as int, reg_hi(w), 2, 2, uimm_lwsp(w)))
}

/// Expands the parcel `word`, read as `c.flwsp`.
pub fn c_flwsp(_cpu: &Cpu, word: u16) -> (r: Result<u32, ()>)
    ensures
        r == flwsp_expansion(word as int),
{
    let w = word as u32;
    Ok(encode_i(OP_LOAD_FP, read_reg_hi(w), 2, 2, read_uimm_lwsp(w)))
}

/// `c.ldsp rd, uimm(x2)` is `ld rd, uimm(x2)`; `rd = x0` is reserved.
pub open spec fn ldsp_expansion(w: int) -> Result<u32, ()> {
    if reg_hi(w) == 0 {
        Err(())
    } else {
        Ok(enc_i(OP_LOAD as int, reg_hi(w), 3, 2, uimm_ldsp(w)))
    }
}

/// Expands the parcel `word`, read as `c.ldsp`.
pub fn c_ldsp(_cpu: &Cpu, word: u16) -> (r: Result<u32, ()>)
    ensures
        r == ldsp_expansion(word as int),
{
    let w = word as u32;
    let rd = read_reg_hi(w);
    if rd == 0 {
        Err(())
    } else {
        Ok(encode_i(OP_LOAD, rd, 3, 2, read_uimm_ldsp(w)))
    }
}

/// `c.jr rs1` is `jalr x0, 0(rs1)`; `rs1 = x0` is reserved.
pub open spec fn jr_expansion(w: int) -> Result<u32, ()> {
    if reg_hi(w) == 0 {
        Err(())
    } else {
        Ok(enc_i(OP_JALR as int, 0, 0, reg_hi(w), 0))
    }
}

/// Expands the parcel `word`, read as `c.jr`.
pub fn c_jr(_cpu: &Cpu, word: u16) -> (r: Result<u32, ()>)
    ensures
        r == jr_expansion(word as int),
{
    let w = word as u32;
    let rs1 = read_reg_hi(w);
    if rs1 == 0 {
        Err(())
    } else {
        Ok(encode_i(OP_JALR, 0, 0, rs1, 0))
    }
}

/// `c.mv rd, rs2` is `add rd, x0, rs2`; `rs2 = x0` is not a move.
pub open spec fn mv_expansion(w: int) -> Result<u32, ()> {
    if reg_lo(w) == 0 {
        Err(())
    } else {
        Ok(enc_r(OP_OP as int, reg_hi(w), 0, 0, reg_lo(w), 0))
    }
}

/// Expands the parcel `word`, read as `c.mv`.
pub fn c_mv(_cpu: &Cpu, word: u16) -> (r: Result<u32, ()>)
    ensures
        r == mv_expansion(word as int),
{
    let w = word as u32;
    let rs2 = read_reg_lo(w);
    if rs2 == 0 {
        Err(())
    } else {
        Ok(encode_r(OP_OP, read_reg_hi(w), 0, 0, rs2, 0))
    }
}

/// `c.ebreak` is `ebreak`.
pub open spec fn ebreak_expansion(w: int) -> Result<u32, ()> {
    Ok(EBREAK)
}

/// Expands the parcel `word`, read as `c.ebreak`.
pub fn c_ebreak(_cpu: &Cpu, word: u16) -> (r: Result<u32, ()>)
    ensures
        r == ebreak_expansion(word as int),
{
    Ok(EBREAK)
}

/// `c.jalr rs1` is `jalr x1, 0(rs1)`; `rs1 = x0` is not a jump.
pub open spec fn jalr_expansion(w: int) -> Result<u32, ()> {
    if reg_hi(w) == 0 {
        Err(())
    } else {
        Ok(enc_i(OP_JALR as int, 1, 0, reg_hi(w), 0))
    }
}

/// Expands the parcel `word`, read as `c.jalr`.
pub fn c_jalr(_cpu: &Cpu, word: u16) -> (r: Result<u32, ()>)
    ensures
        r == jalr_expansion(word as int),
{
    let w = word as u32;
    let rs1 = read_reg_hi(w);
    if rs1 == 0 {
        Err(())
    } else {
        Ok(encode_i(OP_JALR, 1, 0, rs1, 0))
    }
}

/// `c.add rd, rs2` is `add rd, rd, rs2`; neither register may be `x0`.
pub open spec fn add_expansion(w: int) -> Result<u32, ()> {
    if reg_hi(w) == 0 || reg_lo(w) == 0 {
        Err(())
    } else {
        Ok(enc_r(OP_OP as int, reg_hi(w), 0, reg_hi(w), reg_lo(w), 0))
    }
}

/// Expands the parcel `word`, read as `c.add`.
pub fn c_add(_cpu: &Cpu, word: u16) -> (r: Result<u32, ()>)
    ensures
        r == add_expansion(word as int),
{
    let w = word as u32;
    let rd = read_reg_hi(w);
    let rs2 = read_reg_lo(w);
    if rd == 0 || rs2 == 0 {
        Err(())
    } else {
        Ok(encode_r(OP_OP, rd, 0, rd, rs2, 0))
    }
}

/// `c.fsdsp rs2, uimm(x2)` is `fsd rs2, uimm(x2)`.
pub open spec fn fsdsp_expansion(w: int) -> Result<u32, ()> {
    Ok(enc_s(OP_STORE_FP as int, 3, 2, reg_lo(w), uimm_sdsp(w)))
}

/// Expands the parcel `word`, read as `c.fsdsp`.
pub fn c_fsdsp(_cpu: &Cpu, word: u16) -> (r: Result<u32, ()>)
    ensures
        r == fsdsp_expansion(word as int),
{
    let w = word as u32;
    Ok(encode_s(OP_STORE_FP, 3, 2, read_reg_lo(w), read_uimm_sdsp(w)))
}

/// `c.swsp rs2, uimm(x2)` is `sw rs2, uimm(x2)`.
pub open spec fn swsp_expansion(w: int) -> Result<u32, ()> {
    Ok(enc_s(OP_STORE as int, 2, 2, reg_lo(w), uimm_swsp(w)))
}

/// Expands the parcel `word`, read as `c.swsp`.
pub fn c_swsp(_cpu: &Cpu, word: u16) -> (r: Result<u32, ()>)
    ensures
        r == swsp_expansion(word as int),
{
    let w = word as u32;
    Ok(encode_s(OP_STORE, 2, 2, read_reg_lo(w), read_uimm_swsp(w)))
}

/// `c.fswsp rs2, uimm(x2)` is `fsw rs2, uimm(x2)`.
pub open spec fn fswsp_expansion(w: int) -> Result<u32, ()> {
    Ok(enc_s(OP_STORE_FP as int, 2, 2, reg_lo(w), uimm_swsp(w)))
}

/// Expands the parcel `word`, read as `c.fswsp`.
pub fn c_fswsp(_cpu: &Cpu, word: u16) -> (r: Result<u32, ()>)
    ensures
        r == fswsp_expansion(word as int),
{
    let w = word as u32;
    Ok(encode_s(OP_STORE_FP, 2, 2, read_reg_lo(w), read_uimm_swsp(w)))
}

/// `c.sdsp rs2, uimm(x2)` is `sd rs2, uimm(x2)`.
pub open spec fn sdsp_expansion(w: int) -> Result<u32, ()> {
    Ok(enc_s(OP_STORE as int, 3, 2, reg_lo(w), uimm_sdsp(w)))
}

/// Expands the parcel `word`, read as `c.sdsp`.
pub fn c_sdsp(_cpu: &Cpu, word: u16) -> (r: Result<u32, ()>)
    ensures
        r == sdsp_expansion(word as int),
{
    let w = word as u32;
    Ok(encode_s(OP_STORE, 3, 2, read_reg_lo(w), read_uimm_sdsp(w)))
}

/// The expansion of the parcel `w` read as the compressed form `form`.
#[verifier::opaque]
pub open spec fn expansion(form: CompressedForm, xlen: Xlen, w: int) -> Result<u32, ()> {
    match form {
        CompressedForm::Addi4spn => addi4spn_expansion(w),
        CompressedForm::Fld => fld_expansion(w),
        CompressedForm::Lw => lw_expansion(w),
        CompressedForm::Flw => flw_expansion(w),
        CompressedForm::Ld => ld_expansion(w),
        CompressedForm::Fsd => fsd_expansion(w),
        CompressedForm::Sw => sw_expansion(w),
        CompressedForm::Fsw => fsw_expansion(w),
        CompressedForm::Sd => sd_expansion(w),
        CompressedForm::Nop => nop_expansion(w),
        CompressedForm::Addi => addi_expansion(w),
        CompressedForm::Jal => jal_expansion(w),
        CompressedForm::Addiw => addiw_expansion(w),
        CompressedForm::Li => li_expansion(w),
        CompressedForm::Addi16sp => addi16sp_expansion(w),
        CompressedForm::Lui => lui_expansion(w),
        CompressedForm::Srli => srli_expansion(xlen, w),
        CompressedForm::Srai => srai_expansion(xlen, w),
        CompressedForm::Andi => andi_expansion(w),
        CompressedForm::Sub => sub_expansion(w),
        CompressedForm::Xor => xor_expansion(w),
        CompressedForm::Or => or_expansion(w),
        CompressedForm::And => and_expansion(w),
        CompressedForm::Subw => subw_expansion(xlen, w),
        CompressedForm::Addw => addw_expansion(xlen, w),
        CompressedForm::J => j_expansion(w),
        CompressedForm::Beqz => beqz_expansion(w),
        CompressedForm::Bnez => bnez_expansion(w),
        CompressedForm::Slli => slli_expansion(xlen, w),
        CompressedForm::Fldsp => fldsp_expansion(w),
        CompressedForm::Lwsp => lwsp_expansion(w),
        CompressedForm::Flwsp => flwsp_expansion(w),
        CompressedForm::Ldsp => ldsp_expansion(w),
        CompressedForm::Jr => jr_expansion(w),
        CompressedForm::Mv => mv_expansion(w),
        CompressedForm::Ebreak => ebreak_expansion(w),
        CompressedForm::Jalr => jalr_expansion(w),
        CompressedForm::Add => add_expansion(w),
        CompressedForm::Fsdsp => fsdsp_expansion(w),
        CompressedForm::Swsp => swsp_expansion(w),
        CompressedForm::Fswsp => fswsp_expansion(w),
        CompressedForm::Sdsp => sdsp_expansion(w),
    }
}

/// The mnemonic of a compressed form.
pub open spec fn mnemonic_of(form: CompressedForm) -> Seq<char> {
    match form {
        CompressedForm::Addi4spn => "c.addi4spn"@,
        CompressedForm::Fld => "c.fld"@,
        CompressedForm::Lw => "c.lw"@,
        CompressedForm::Flw => "c.flw"@,
        CompressedForm::Ld => "c.ld"@,
        CompressedForm::Fsd => "c.fsd"@,
        CompressedForm::Sw => "c.sw"@,
        CompressedForm::Fsw => "c.fsw"@,
        CompressedForm::Sd => "c.sd"@,
        CompressedForm::Nop => "c.nop"@,
        CompressedForm::Addi => "c.addi"@,
        CompressedForm::Jal => "c.jal"@,
        CompressedForm::Addiw => "c.addiw"@,
        CompressedForm::Li => "c.li"@,
        CompressedForm::Addi16sp => "c.addi16sp"@,
        CompressedForm::Lui => "c.lui"@,
        CompressedForm::Srli => "c.srli"@,
        CompressedForm::Srai => "c.srai"@,
        CompressedForm::Andi => "c.andi"@,
        CompressedForm::Sub => "c.sub"@,
        CompressedForm::Xor => "c.xor"@,
        CompressedForm::Or => "c.or"@,
        CompressedForm::And => "c.and"@,
        CompressedForm::Subw => "c.subw"@,
        CompressedForm::Addw => "c.addw"@,
        CompressedForm::J => "c.j"@,
        CompressedForm::Beqz => "c.beqz"@,
        CompressedForm::Bnez => "c.bnez"@,
        CompressedForm::Slli => "c.slli"@,
        CompressedForm::Fldsp => "c.fldsp"@,
        CompressedForm::Lwsp => "c.lwsp"@,
        CompressedForm::Flwsp => "c.flwsp"@,
        CompressedForm::Ldsp => "c.ldsp"@,
        CompressedForm::Jr => "c.jr"@,
        CompressedForm::Mv => "c.mv"@,
        CompressedForm::Ebreak => "c.ebreak"@,
        CompressedForm::Jalr => "c.jalr"@,
        CompressedForm::Add => "c.add"@,
        CompressedForm::Fsdsp => "c.fsdsp"@,
        CompressedForm::Swsp => "c.swsp"@,
        CompressedForm::Fswsp => "c.fswsp"@,
        CompressedForm::Sdsp => "c.sdsp"@,
    }
}

impl CompressedInstruction {
    /// The mnemonic of the form.
    pub fn mnemonic(&self) -> (r: &'static str)
        ensures
            r@ == mnemonic_of(self.form),
    {
        match self.form {
            CompressedForm::Addi4spn => "c.addi4spn",
            CompressedForm::Fld => "c.fld",
            CompressedForm::Lw => "c.lw",
            CompressedForm::Flw => "c.flw",
            CompressedForm::Ld => "c.ld",
            CompressedForm::Fsd => "c.fsd",
            CompressedForm::Sw => "c.sw",
            CompressedForm::Fsw => "c.fsw",
            CompressedForm::Sd => "c.sd",
            CompressedForm::Nop => "c.nop",
            CompressedForm::Addi => "c.addi",
            CompressedForm::Jal => "c.jal",
            CompressedForm::Addiw => "c.addiw",
            CompressedForm::Li => "c.li",
            CompressedForm::Addi16sp => "c.addi16sp",
            CompressedForm::Lui => "c.lui",
            CompressedForm::Srli => "c.srli",
            CompressedForm::Srai => "c.srai",
            CompressedForm::Andi => "c.andi",
            CompressedForm::Sub => "c.sub",
            CompressedForm::Xor => "c.xor",
            CompressedForm::Or => "c.or",
            CompressedForm::And => "c.and",
            CompressedForm::Subw => "c.subw",
            CompressedForm::Addw => "c.addw",
            CompressedForm::J => "c.j",
            CompressedForm::Beqz => "c.beqz",
            CompressedForm::Bnez => "c.bnez",
            CompressedForm::Slli => "c.slli",
            CompressedForm::Fldsp => "c.fldsp",
            CompressedForm::Lwsp => "c.lwsp",
            CompressedForm::Flwsp => "c.flwsp",
            CompressedForm::Ldsp => "c.ldsp",
            CompressedForm::Jr => "c.jr",
            CompressedForm::Mv => "c.mv",
            CompressedForm::Ebreak => "c.ebreak",
            CompressedForm::Jalr => "c.jalr",
            CompressedForm::Add => "c.add",
            CompressedForm::Fsdsp => "c.fsdsp",
            CompressedForm::Swsp => "c.swsp",
            CompressedForm::Fswsp => "c.fswsp",
            CompressedForm::Sdsp => "c.sdsp",
        }
    }

    /// Expands the parcel `word`, read as this form.
    pub fn decompress(&self, cpu: &Cpu, word: u16) -> (r: Result<u32, ()>)
        ensures
            r == expansion(self.form, cpu@.xlen, word as int),
    {
        reveal(expansion);
        match self.form {
            CompressedForm::Addi4spn => c_addi4spn(cpu, word),
            CompressedForm::Fld => c_fld(cpu, word),
            CompressedForm::Lw => c_lw(cpu, word),
            CompressedForm::Flw => c_flw(cpu, word),
            CompressedForm::Ld => c_ld(cpu, word),
            CompressedForm::Fsd => c_fsd(cpu, word),
            CompressedForm::Sw => c_sw(cpu, word),
            CompressedForm::Fsw => c_fsw(cpu, word),
            CompressedForm::Sd => c_sd(cpu, word),
            CompressedForm::Nop => c_nop(cpu, word),
            CompressedForm::Addi => c_addi(cpu, word),
            CompressedForm::Jal => c_jal(cpu, word),
            CompressedForm::Addiw => c_addiw(cpu, word),
            CompressedForm::Li => c_li(cpu, word),
            CompressedForm::Addi16sp => c_addi16sp(cpu, word),
            CompressedForm::Lui => c_lui(cpu, word),
            CompressedForm::Srli => c_srli(cpu, word),
            CompressedForm::Srai => c_srai(cpu, word),
            CompressedForm::Andi => c_andi(cpu, word),
            CompressedForm::Sub => c_sub(cpu, word),
            CompressedForm::Xor => c_xor(cpu, word),
            CompressedForm::Or => c_or(cpu, word),
            CompressedForm::And => c_and(cpu, word),
            CompressedForm::Subw => c_subw(cpu, word),
            CompressedForm::Addw => c_addw(cpu, word),
            CompressedForm::J => c_j(cpu, word),
            CompressedForm::Beqz => c_beqz(cpu, word),
            CompressedForm::Bnez => c_bnez(cpu, word),
            CompressedForm::Slli => c_slli(cpu, word),
            CompressedForm::Fldsp => c_fldsp(cpu, word),
            CompressedForm::Lwsp => c_lwsp(cpu, word),
            CompressedForm::Flwsp => c_flwsp(cpu, word),
            CompressedForm::Ldsp => c_ldsp(cpu, word),
            CompressedForm::Jr => c_jr(cpu, word),
            CompressedForm::Mv => c_mv(cpu, word),
            CompressedForm::Ebreak => c_ebreak(cpu, word),
            CompressedForm::Jalr => c_jalr(cpu, word),
            CompressedForm::Add => c_add(cpu, word),
            CompressedForm::Fsdsp => c_fsdsp(cpu, word),
            CompressedForm::Swsp => c_swsp(cpu, word),
            CompressedForm::Fswsp => c_fswsp(cpu, word),
            CompressedForm::Sdsp => c_sdsp(cpu, word),
        }
    }

    /// The disassembly of the parcel `word`: the form's mnemonic.
    pub fn disassemble(&self, cpu: &Cpu, word: u16) -> (r: String)
        ensures
            r@ == mnemonic_of(self.form),
    {
        disassemble_mnemonic(cpu, self.mnemonic(), word)
    }
}

/// The disassembly of a parcel: its mnemonic.
pub fn disassemble_mnemonic(_cpu: &Cpu, mnemonic: &str, _word: u16) -> (r: String)
    ensures
        r@ == mnemonic@,
{
    mnemonic.to_owned()
}

// ---------------------------------------------------------------------
// Which form a parcel is
// ---------------------------------------------------------------------
/// The form of a parcel of quadrant 0. Bits 15:13 select it; two of the
/// eight slots depend on the register width, and one is reserved.
pub open spec fn form_q0(xlen: Xlen, w: int) -> Result<CompressedForm, ()> {
    let funct3 = funct3_of(w);
    if funct3 == 0 {
        Ok(CompressedForm::Addi4spn)
    } else if funct3 == 1 {
        Ok(CompressedForm::Fld)
    } else if funct3 == 2 {
        Ok(CompressedForm::Lw)
    } else if funct3 == 3 {
        if xlen == Xlen::X32 {
            Ok(CompressedForm::Flw)
        } else {
            Ok(CompressedForm::Ld)
        }
    } else if funct3 == 5 {
        Ok(CompressedForm::Fsd)
    } else if funct3 == 6 {
        Ok(CompressedForm::Sw)
    } else if funct3 == 7 {
        if xlen == Xlen::X32 {
            Ok(CompressedForm::Fsw)
        } else {
            Ok(CompressedForm::Sd)
        }
    } else {
        Err(())
    }
}

/// The form of a parcel of quadrant 1 whose bits 15:13 are 4: the
/// register-register and register-immediate arithmetic of `rd'`.
pub open spec fn form_q1_arith(w: int) -> Result<CompressedForm, ()> {
    let funct2 = field(w, 0x400, 4);
    let wide = field(w, 0x1000, 2);
    let op = field(w, 0x20, 4);
    if funct2 == 0 {
        Ok(CompressedForm::Srli)
    } else if funct2 == 1 {
        Ok(CompressedForm::Srai)
    } else if funct2 == 2 {
        Ok(CompressedForm::Andi)
    } else if wide == 0 {
        if op == 0 {
            Ok(CompressedForm::Sub)
        } else if op == 1 {
            Ok(CompressedForm::Xor)
        } else if op == 2 {
            Ok(CompressedForm::Or)
        } else {
            Ok(CompressedForm::And)
        }
    } else {
        if op == 0 {
            Ok(CompressedForm::Subw)
        } else if op == 1 {
            Ok(CompressedForm::Addw)
        } else {
            Err(())
        }
    }
}

/// The form of a parcel of quadrant 1.
pub open spec fn form_q1(xlen: Xlen, w: int) -> Result<CompressedForm, ()> {
    let funct3 = funct3_of(w);
    if funct3 == 0 {
        if w == 1 {
            Ok(CompressedForm::Nop)
        } else {
            Ok(CompressedForm::Addi)
        }
    } else if funct3 == 1 {
        if xlen == Xlen::X32 {
            Ok(CompressedForm::Jal)
        } else {
            Ok(CompressedForm::Addiw)
        }
    } else if funct3 == 2 {
        Ok(CompressedForm::Li)
    } else if funct3 == 3 {
        if reg_hi(w) == 2 {
            Ok(CompressedForm::Addi16sp)
        } else {
            Ok(CompressedForm::Lui)
        }
    } else if funct3 == 4 {
        form_q1_arith(w)
    } else if funct3 == 5 {
        Ok(CompressedForm::J)
    } else if funct3 == 6 {
        Ok(CompressedForm::Beqz)
    } else {
        Ok(CompressedForm::Bnez)
    }
}

/// The form of a parcel of quadrant 2.
pub open spec fn form_q2(xlen: Xlen, w: int) -> Result<CompressedForm, ()> {
    let funct3 = funct3_of(w);
    if funct3 == 0 {
        Ok(CompressedForm::Slli)
    } else if funct3 == 1 {
        Ok(CompressedForm::Fldsp)
    } else if funct3 == 2 {
        Ok(CompressedForm::Lwsp)
    } else if funct3 == 3 {
        if xlen == Xlen::X32 {
            Ok(CompressedForm::Flwsp)
        } else {
            Ok(CompressedForm::Ldsp)
        }
    } else if funct3 == 4 {
        if field(w, 0x1000, 2) == 0 {
            if reg_lo(w) == 0 {
                Ok(CompressedForm::Jr)
            } else {
                Ok(CompressedForm::Mv)
            }
        } else if reg_lo(w) != 0 {
            Ok(CompressedForm::Add)
        } else if reg_hi(w) == 0 {
            Ok(CompressedForm::Ebreak)
        } else {
            Ok(CompressedForm::Jalr)
        }
    } else if funct3 == 5 {
        Ok(CompressedForm::Fsdsp)
    } else if funct3 == 6 {
        Ok(CompressedForm::Swsp)
    } else {
        if xlen == Xlen::X32 {
            Ok(CompressedForm::Fswsp)
        } else {
            Ok(CompressedForm::Sdsp)
        }
    }
}

/// The form of a parcel, by its quadrant. Quadrant 3 holds no compressed
/// form.
pub open spec fn form_of(quadrant: int, xlen: Xlen, w: int) -> Result<CompressedForm, ()> {
    if quadrant == 0 {
        form_q0(xlen, w)
    } else if quadrant == 1 {
        form_q1(xlen, w)
    } else if quadrant == 2 {
        form_q2(xlen, w)
    } else {
        Err(())
    }
}

/// The 32-bit instruction that the parcel `w` abbreviates, or `Err` where
/// the parcel is an illegal or reserved encoding.
pub open spec fn decompressed(xlen: Xlen, w: int) -> Result<u32, ()> {
    match form_of(w % 4, xlen, w) {
        Ok(form) => expansion(form, xlen, w),
        Err(_) => Err(()),
    }
}

/// A form wrapped as an instruction, an error passed on.
pub open spec fn as_instruction(form: Result<CompressedForm, ()>) -> Result<
    CompressedInstruction,
    (),
> {
    match form {
        Ok(f) => Ok(CompressedInstruction { form: f }),
        Err(_) => Err(()),
    }
}

fn found(form: CompressedForm) -> (r: Result<CompressedInstruction, ()>)
    ensures
        r == as_instruction(Ok(form)),
{
    Ok(CompressedInstruction { form })
}

/// The form of a parcel of quadrant 0.
pub fn opecode_0(cpu: &Cpu, word: u16) -> (r: Result<CompressedInstruction, ()>)
    ensures
        r == as_instruction(form_q0(cpu@.xlen, word as int)),
{
    let funct3 = get_field(word as u32, 0x2000, 8);
    match funct3 {
        0 => found(CompressedForm::Addi4spn),
        1 => found(CompressedForm::Fld),
        2 => found(CompressedForm::Lw),
        3 => match cpu.get_xlen() {
            Xlen::X32 => found(CompressedForm::Flw),
            Xlen::X64 => found(CompressedForm::Ld),
        },
        5 => found(CompressedForm::Fsd),
        6 => found(CompressedForm::Sw),
        7 => match cpu.get_xlen() {
            Xlen::X32 => found(CompressedForm::Fsw),
            Xlen::X64 => found(CompressedForm::Sd),
        },
        _ => Err(()),
    }
}

/// The form of a parcel of quadrant 1.
pub fn opecode_1(cpu: &Cpu, word: u16) -> (r: Result<CompressedInstruction, ()>)
    ensures
        r == as_instruction(form_q1(cpu@.xlen, word as int)),
{
    let w = word as u32;
    let funct3 = get_field(w, 0x2000, 8);
    match funct3 {
        0 => if word == 1 {
            found(CompressedForm::Nop)
        } else {
            found(CompressedForm::Addi)
        },
        1 => match cpu.get_xlen() {
            Xlen::X32 => found(CompressedForm::Jal),
            Xlen::X64 => found(CompressedForm::Addiw),
        },
        2 => found(CompressedForm::Li),
        3 => if read_reg_hi(w) == 2 {
            found(CompressedForm::Addi16sp)
        } else {
            found(CompressedForm::Lui)
        },
        4 => match get_field(w, 0x400, 4) {
            0 => found(CompressedForm::Srli),
            1 => found(CompressedForm::Srai),
            2 => found(CompressedForm::Andi),
            _ => match get_field(w, 0x1000, 2) {
                0 => match get_field(w, 0x20, 4) {
                    0 => found(CompressedForm::Sub),
                    1 => found(CompressedForm::Xor),
                    2 => found(CompressedForm::Or),
                    _ => found(CompressedForm::And),
                },
                _ => match get_field(w, 0x20, 4) {
                    0 => found(CompressedForm::Subw),
                    1 => found(CompressedForm::Addw),
                    _ => Err(()),
                },
            },
        },
        5 => found(CompressedForm::J),
        6 => found(CompressedForm::Beqz),
        _ => found(CompressedForm::Bnez),
    }
}

/// The form of a parcel of quadrant 2.
pub fn opecode_2(cpu: &Cpu, word: u16) -> (r: Result<CompressedInstruction, ()>)
    ensures
        r == as_instruction(form_q2(cpu@.xlen, word as int)),
{
    let w = word as u32;
    let funct3 = get_field(w, 0x2000, 8);
    match funct3 {
        0 => found(CompressedForm::Slli),
        1 => found(CompressedForm::Fldsp),
        2 => found(CompressedForm::Lwsp),
        3 => match cpu.get_xlen() {
            Xlen::X32 => found(CompressedForm::Flwsp),
            Xlen::X64 => found(CompressedForm::Ldsp),
        },
        4 => match get_field(w, 0x1000, 2) {
            0 => match read_reg_lo(w) {
                0 => found(CompressedForm::Jr),
                _ => found(CompressedForm::Mv),
            },
            _ => if read_reg_lo(w) != 0 {
                found(CompressedForm::Add)
            } else if read_reg_hi(w) == 0 {
                found(CompressedForm::Ebreak)
            } else {
                found(CompressedForm::Jalr)
            },
        },
        5 => found(CompressedForm::Fsdsp),
        6 => found(CompressedForm::Swsp),
        _ => match cpu.get_xlen() {
            Xlen::X32 => found(CompressedForm::Fswsp),
            Xlen::X64 => found(CompressedForm::Sdsp),
        },
    }
}

impl CompressedOpecode {
    /// The form of the parcel `word` within this quadrant.
    pub fn operation(&self, cpu: &Cpu, word: u16) -> (r: Result<CompressedInstruction, ()>)
        ensures
            r == as_instruction(form_of(self.quadrant as int, cpu@.xlen, word as int)),
    {
        match self.quadrant {
            0 => opecode_0(cpu, word),
            1 => opecode_1(cpu, word),
            2 => opecode_2(cpu, word),
            _ => Err(()),
        }
    }
}

/// Expands the compressed instruction in the low half of `word` into the
/// 32-bit instruction it abbreviates. `Err` reports an illegal or reserved
/// encoding, for which the hart raises an illegal-instruction trap.
pub fn instruction_decompress(cpu: &Cpu, _instruction_addr: u64, word: u32) -> (r: Result<u32, ()>)
    requires
        word % 4 != 3,
    ensures
        r == decompressed(cpu@.xlen, (word % 0x1_0000) as int),
{
    let compressed_word = (word % 0x1_0000) as u16;
    assert(compressed_word % 4 == word % 4);
    let opecodes = CompressedOpecode { quadrant: (word % 4) as u8 };
    match opecodes.operation(cpu, compressed_word) {
        Ok(instruction) => instruction.decompress(cpu, compressed_word),
        Err(_) => Err(()),
    }
}

} // verus!
