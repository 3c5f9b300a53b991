//! Bit fields of instruction words and the six 32-bit instruction formats,
//! stated arithmetically: a bit of weight `2^k` is the digit `(w / 2^k) % 2`.

use vstd::prelude::*;

verus! {

/// The field of `word` whose least significant bit has weight `weight` and
/// which takes `span` different values.
pub open spec fn field(word: int, weight: int, span: int) -> int {
    (word / weight) % span
}

/// The two's-complement field of `to` values that denotes the same signed
/// number as the field `value` of `from` values does.
pub open spec fn resize_signed(value: int, from: int, to: int) -> int {
    if value >= from / 2 {
        value - from + to
    } else {
        value
    }
}

/// The signed number that the two's-complement field `value` of `span`
/// values denotes.
pub open spec fn signed_value(value: int, span: int) -> int {
    if value >= span / 2 {
        value - span
    } else {
        value
    }
}

/// R-type: two source registers, one destination.
pub open spec fn enc_r(opcode: int, rd: int, funct3: int, rs1: int, rs2: int, funct7: int) -> u32 {
    (opcode + rd * 0x80 + funct3 * 0x1000 + rs1 * 0x8000 + rs2 * 0x10_0000 + funct7
        * 0x200_0000) as u32
}

/// I-type: a 12-bit immediate field in bits 31:20.
pub open spec fn enc_i(opcode: int, rd: int, funct3: int, rs1: int, imm: int) -> u32 {
    (opcode + rd * 0x80 + funct3 * 0x1000 + rs1 * 0x8000 + imm * 0x10_0000) as u32
}

/// S-type: a 12-bit immediate field split over bits 11:7 and 31:25.
pub open spec fn enc_s(opcode: int, funct3: int, rs1: int, rs2: int, imm: int) -> u32 {
    (opcode + (imm % 32) * 0x80 + funct3 * 0x1000 + rs1 * 0x8000 + rs2 * 0x10_0000 + (imm / 32)
        * 0x200_0000) as u32
}

/// B-type: a 13-bit even immediate field, `imm[12|10:5]` in bits 31:25 and
/// `imm[4:1|11]` in bits 11:7.
pub open spec fn enc_b(opcode: int, funct3: int, rs1: int, rs2: int, imm: int) -> u32 {
    (opcode + field(imm, 0x800, 2) * 0x80 + field(imm, 2, 16) * 0x100 + funct3 * 0x1000 + rs1
        * 0x8000 + rs2 * 0x10_0000 + field(imm, 0x20, 64) * 0x200_0000 + field(imm, 0x1000, 2)
        * 0x8000_0000) as u32
}

/// U-type: a 20-bit immediate field in bits 31:12.
pub open spec fn enc_u(opcode: int, rd: int, imm: int) -> u32 {
    (opcode + rd * 0x80 + imm * 0x1000) as u32
}

/// J-type: a 21-bit even immediate field, `imm[20|10:1|11|19:12]` in bits
/// 31:12.
pub open spec fn enc_j(opcode: int, rd: int, imm: int) -> u32 {
    (opcode + rd * 0x80 + field(imm, 0x1000, 256) * 0x1000 + field(imm, 0x800, 2) * 0x10_0000
        + field(imm, 2, 1024) * 0x20_0000 + field(imm, 0x10_0000, 2) * 0x8000_0000) as u32
}

/// Reads a field of a word.
pub fn get_field(word: u32, weight: u32, span: u32) -> (r: u32)
    requires
        weight > 0,
        span > 0,
    ensures
        r == field(word as int, weight as int, span as int),
        r < span,
{
    (word / weight) % span
}

/// Widens a two's-complement field.
pub fn sign_resize(value: u32, from: u32, to: u32) -> (r: u32)
    requires
        value < from,
        from <= to,
    ensures
        r == resize_signed(value as int, from as int, to as int),
        r < to,
{
    if value >= from / 2 {
        to - from + value
    } else {
        value
    }
}

/// Makes an R-type word.
pub fn encode_r(opcode: u32, rd: u32, funct3: u32, rs1: u32, rs2: u32, funct7: u32) -> (r: u32)
    requires
        opcode < 128,
        rd < 32,
        funct3 < 8,
        rs1 < 32,
        rs2 < 32,
        funct7 < 128,
    ensures
        r == enc_r(opcode as int, rd as int, funct3 as int, rs1 as int, rs2 as int, funct7 as int),
{
    opcode + rd * 0x80 + funct3 * 0x1000 + rs1 * 0x8000 + rs2 * 0x10_0000 + funct7 * 0x200_0000
}

/// Makes an I-type word.
pub fn encode_i(opcode: u32, rd: u32, funct3: u32, rs1: u32, imm: u32) -> (r: u32)
    requires
        opcode < 128,
        rd < 32,
        funct3 < 8,
        rs1 < 32,
        imm < 0x1000,
    ensures
        r == enc_i(opcode as int, rd as int, funct3 as int, rs1 as int, imm as int),
{
    opcode + rd * 0x80 + funct3 * 0x1000 + rs1 * 0x8000 + imm * 0x10_0000
}

/// Makes an S-type word.
pub fn encode_s(opcode: u32, funct3: u32, rs1: u32, rs2: u32, imm: u32) -> (r: u32)
    requires
        opcode < 128,
        funct3 < 8,
        rs1 < 32,
        rs2 < 32,
        imm < 0x1000,
    ensures
        r == enc_s(opcode as int, funct3 as int, rs1 as int, rs2 as int, imm as int),
{
    opcode + (imm % 32) * 0x80 + funct3 * 0x1000 + rs1 * 0x8000 + rs2 * 0x10_0000 + (imm / 32)
        * 0x200_0000
}

/// Makes a B-type word.
pub fn encode_b(opcode: u32, funct3: u32, rs1: u32, rs2: u32, imm: u32) -> (r: u32)
    requires
        opcode < 128,
        funct3 < 8,
        rs1 < 32,
        rs2 < 32,
        imm < 0x2000,
    ensures
        r == enc_b(opcode as int, funct3 as int, rs1 as int, rs2 as int, imm as int),
{
    opcode + get_field(imm, 0x800, 2) * 0x80 + get_field(imm, 2, 16) * 0x100 + funct3 * 0x1000
        + rs1 * 0x8000 + rs2 * 0x10_0000 + get_field(imm, 0x20, 64) * 0x200_0000 + get_field(
        imm,
        0x1000,
        2,
    ) * 0x8000_0000
}

/// Makes a U-type word.
pub fn encode_u(opcode: u32, rd: u32, imm: u32) -> (r: u32)
    requires
        opcode < 128,
        rd < 32,
        imm < 0x10_0000,
    ensures
        r == enc_u(opcode as int, rd as int, imm as int),
{
    opcode + rd * 0x80 + imm * 0x1000
}

/// Makes a J-type word.
pub fn encode_j(opcode: u32, rd: u32, imm: u32) -> (r: u32)
    requires
        opcode < 128,
        rd < 32,
        imm < 0x20_0000,
    ensures
        r == enc_j(opcode as int, rd as int, imm as int),
{
    opcode + rd * 0x80 + get_field(imm, 0x1000, 256) * 0x1000 + get_field(imm, 0x800, 2)
        * 0x10_0000 + get_field(imm, 2, 1024) * 0x20_0000 + get_field(imm, 0x10_0000, 2)
        * 0x8000_0000
}

} // verus!
