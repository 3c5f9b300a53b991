//! Integer arithmetic of the base ISA and the M extension, on register
//! values held as 64-bit words. With 32-bit registers, and in the `.w`
//! variants of the 64-bit ISA, an operation works on the low 32 bits and its
//! result is sign-extended to 64 bits.

use vstd::prelude::*;

verus! {

/// The operations of the integer unit.
#[derive(Clone, Copy, Debug, PartialEq, Eq, Structural)]
pub enum AluOp {
    Add,
    Sub,
    Sll,
    Slt,
    Sltu,
    Xor,
    Srl,
    Sra,
    Or,
    And,
    Mul,
    Mulh,
    Mulhsu,
    Mulhu,
    Div,
    Divu,
    Rem,
    Remu,
}

/// The number that a 64-bit word denotes in two's complement.
pub open spec fn signed(v: u64) -> int {
    if v >= 0x8000_0000_0000_0000 {
        v - 0x1_0000_0000_0000_0000
    } else {
        v as int
    }
}

/// The 64-bit word that denotes `i` in two's complement, for `i` in range.
pub open spec fn to_word(i: int) -> u64 {
    if i < 0 {
        (i + 0x1_0000_0000_0000_0000) as u64
    } else {
        i as u64
    }
}

/// The low 32 bits of `v`, sign-extended to 64 bits.
pub open spec fn sext32(v: u64) -> u64 {
    let w = v % 0x1_0000_0000;
    if w >= 0x8000_0000 {
        (w + 0xffff_ffff_0000_0000) as u64
    } else {
        w
    }
}

/// The low 32 bits of `v`, zero-extended to 64 bits.
pub open spec fn zext32(v: u64) -> u64 {
    v % 0x1_0000_0000
}

/// Quotient of the division that rounds towards zero.
pub open spec fn div_trunc(x: int, y: int) -> int {
    if x >= 0 {
        if y > 0 {
            x / y
        } else {
            -(x / (-y))
        }
    } else {
        if y > 0 {
            -((-x) / y)
        } else {
            (-x) / (-y)
        }
    }
}

/// Remainder of the division that rounds towards zero: it has the sign of
/// the dividend.
pub open spec fn rem_trunc(x: int, y: int) -> int {
    let m = if y > 0 {
        y
    } else {
        -y
    };
    if x >= 0 {
        x % m
    } else {
        -((-x) % m)
    }
}

/// Signed division of 64-bit words. Division by zero gives all ones; the
/// one quotient that overflows gives the dividend.
pub open spec fn div_signed(a: u64, b: u64) -> u64 {
    if b == 0 {
        u64::MAX
    } else if a == 0x8000_0000_0000_0000 && b == u64::MAX {
        a
    } else {
        to_word(div_trunc(signed(a), signed(b)))
    }
}

/// Signed remainder of 64-bit words. Division by zero gives the dividend;
/// the one division that overflows gives zero.
pub open spec fn rem_signed(a: u64, b: u64) -> u64 {
    if b == 0 {
        a
    } else if a == 0x8000_0000_0000_0000 && b == u64::MAX {
        0
    } else {
        to_word(rem_trunc(signed(a), signed(b)))
    }
}

/// Unsigned division. Division by zero gives all ones.
pub open spec fn div_unsigned(a: u64, b: u64) -> u64 {
    if b == 0 {
        u64::MAX
    } else {
        a / b
    }
}

/// Unsigned remainder. Division by zero gives the dividend.
pub open spec fn rem_unsigned(a: u64, b: u64) -> u64 {
    if b == 0 {
        a
    } else {
        a % b
    }
}

/// The upper half of the 128-bit product of two 64-bit words, the first
/// read as signed, the second as signed or unsigned.
pub open spec fn mul_high(a: u64, b: u64, b_signed: bool) -> u64 {
    let x: i128 = signed(a) as i128;
    let y: i128 = if b_signed {
        signed(b) as i128
    } else {
        b as i128
    };
    (((x * y) as i128) >> 64u32) as u64
}

/// The upper half of the 128-bit product of two 64-bit words read as
/// unsigned.
pub open spec fn mul_high_unsigned(a: u64, b: u64) -> u64 {
    (((a * b) as u128) >> 64u32) as u64
}

/// The upper half of the 64-bit product of the low 32 bits of two words,
/// each read as signed or unsigned, sign-extended.
pub open spec fn mul_high32(a: u64, b: u64, a_signed: bool, b_signed: bool) -> u64 {
    let x: i128 = if a_signed {
        signed(sext32(a)) as i128
    } else {
        zext32(a) as i128
    };
    let y: i128 = if b_signed {
        signed(sext32(b)) as i128
    } else {
        zext32(b) as i128
    };
    sext32((((x * y) as i128) >> 32u32) as u64)
}

/// The result of an operation at full width.
pub open spec fn alu64(op: AluOp, a: u64, b: u64) -> u64 {
    match op {
        AluOp::Add => a.wrapping_add(b),
        AluOp::Sub => a.wrapping_sub(b),
        AluOp::Sll => a << (b % 64),
        AluOp::Slt => if signed(a) < signed(b) {
            1
        } else {
            0
        },
        AluOp::Sltu => if a < b {
            1
        } else {
            0
        },
        AluOp::Xor => a ^ b,
        AluOp::Srl => a >> (b % 64),
        AluOp::Sra => ((a as i64) >> (b % 64)) as u64,
        AluOp::Or => a | b,
        AluOp::And => a & b,
        AluOp::Mul => a.wrapping_mul(b),
        AluOp::Mulh => mul_high(a, b, true),
        AluOp::Mulhsu => mul_high(a, b, false),
        AluOp::Mulhu => mul_high_unsigned(a, b),
        AluOp::Div => div_signed(a, b),
        AluOp::Divu => div_unsigned(a, b),
        AluOp::Rem => rem_signed(a, b),
        AluOp::Remu => rem_unsigned(a, b),
    }
}

/// The result of an operation on the low 32 bits, sign-extended. Shift
/// amounts have five bits.
pub open spec fn alu32(op: AluOp, a: u64, b: u64) -> u64 {
    match op {
        AluOp::Sll => sext32(zext32(a) << (b % 32)),
        AluOp::Srl => sext32(zext32(a) >> (b % 32)),
        AluOp::Sra => sext32(((sext32(a) as i64) >> (b % 32)) as u64),
        AluOp::Mulh => mul_high32(a, b, true, true),
        AluOp::Mulhsu => mul_high32(a, b, true, false),
        AluOp::Mulhu => mul_high32(a, b, false, false),
        AluOp::Divu | AluOp::Remu => sext32(alu64(op, zext32(a), zext32(b))),
        _ => sext32(alu64(op, sext32(a), sext32(b))),
    }
}

/// The result of an operation: on 32 bits where `narrow` is set, else on
/// 64.
pub open spec fn alu(op: AluOp, a: u64, b: u64, narrow: bool) -> u64 {
    if narrow {
        alu32(op, a, b)
    } else {
        alu64(op, a, b)
    }
}

/// The low 32 bits of `v`, sign-extended.
pub fn sign_extend32(v: u64) -> (r: u64)
    ensures
        r == sext32(v),
{
    let w = v % 0x1_0000_0000;
    if w >= 0x8000_0000 {
        w + 0xffff_ffff_0000_0000
    } else {
        w
    }
}

/// The low 32 bits of `v`, zero-extended.
pub fn zero_extend32(v: u64) -> (r: u64)
    ensures
        r == zext32(v),
        r < 0x1_0000_0000,
{
    v % 0x1_0000_0000
}

/// The value of a word as a signed number.
pub fn to_signed(v: u64) -> (r: i64)
    ensures
        r == signed(v),
{
    if v >= 0x8000_0000_0000_0000 {
        ((v - 0x8000_0000_0000_0000) as i64) + i64::MIN
    } else {
        v as i64
    }
}

fn is_negative(v: u64) -> (r: bool)
    ensures
        r == (signed(v) < 0),
{
    v >= 0x8000_0000_0000_0000
}

/// The absolute value of the number that `v` denotes.
fn magnitude(v: u64) -> (r: u64)
    ensures
        signed(v) >= 0 ==> r == signed(v),
        signed(v) < 0 ==> r == -signed(v),
{
    if is_negative(v) {
        0u64.wrapping_sub(v)
    } else {
        v
    }
}

fn negate_if(v: u64, negative: bool) -> (r: u64)
    requires
        v <= 0x8000_0000_0000_0000,
        !negative ==> v < 0x8000_0000_0000_0000,
    ensures
        negative ==> r == to_word(-(v as int)),
        !negative ==> r == to_word(v as int),
{
    if negative {
        0u64.wrapping_sub(v)
    } else {
        v
    }
}

/// Signed division of 64-bit words.
pub fn divide_signed(a: u64, b: u64) -> (r: u64)
    ensures
        r == div_signed(a, b),
{
    if b == 0 {
        u64::MAX
    } else if a == 0x8000_0000_0000_0000 && b == u64::MAX {
        a
    } else {
        let ma = magnitude(a);
        let mb = magnitude(b);
        let q = ma / mb;
        assert(q * mb <= ma && q <= ma) by (nonlinear_arith)
            requires
                q == ma / mb,
                mb >= 1,
        ;
        assert(mb >= 2 ==> 2 * q <= ma) by (nonlinear_arith)
            requires
                q * mb <= ma,
                q >= 0,
        ;
        negate_if(q, is_negative(a) != is_negative(b))
    }
}

/// Signed remainder of 64-bit words.
pub fn remainder_signed(a: u64, b: u64) -> (r: u64)
    ensures
        r == rem_signed(a, b),
{
    if b == 0 {
        a
    } else if a == 0x8000_0000_0000_0000 && b == u64::MAX {
        0
    } else {
        let ma = magnitude(a);
        let mb = magnitude(b);
        let m = ma % mb;
        assert(m < mb && m <= ma) by (nonlinear_arith)
            requires
                m == ma % mb,
                mb >= 1,
        ;
        negate_if(m, is_negative(a) && m != 0)
    }
}

/// A product is bounded by the product of the bounds of its factors.
pub proof fn lemma_product_bound(x: int, y: int, bx: int, by: int)
    requires
        -bx <= x <= bx,
        -by <= y <= by,
    ensures
        -(bx * by) <= x * y <= bx * by,
{
    let ax = if x < 0 {
        -x
    } else {
        x
    };
    let ay = if y < 0 {
        -y
    } else {
        y
    };
    assert(ax * ay <= bx * by) by (nonlinear_arith)
        requires
            0 <= ax <= bx,
            0 <= ay <= by,
    ;
    assert(x * y == ax * ay || x * y == -(ax * ay)) by (nonlinear_arith)
        requires
            ax == x || ax == -x,
            ay == y || ay == -y,
    ;
    assert(ax * ay >= 0) by (nonlinear_arith)
        requires
            ax >= 0,
            ay >= 0,
    ;
}

/// The upper half of the product of a signed word and a signed or
/// unsigned word.
pub fn multiply_high(a: u64, b: u64, b_signed: bool) -> (r: u64)
    ensures
        r == mul_high(a, b, b_signed),
{
    let x: i128 = to_signed(a) as i128;
    let y: i128 = if b_signed {
        to_signed(b) as i128
    } else {
        b as i128
    };
    proof {
        lemma_product_bound(x as int, y as int, 0x8000_0000_0000_0000, 0xffff_ffff_ffff_ffff);
        assert(0x8000_0000_0000_0000int * 0xffff_ffff_ffff_ffffint
            < 0x8000_0000_0000_0000_0000_0000_0000_0000);
    }
    ((x * y) >> 64u32) as u64
}

/// The upper half of the product of two unsigned words.
pub fn multiply_high_unsigned(a: u64, b: u64) -> (r: u64)
    ensures
        r == mul_high_unsigned(a, b),
{
    proof {
        lemma_product_bound(a as int, b as int, 0xffff_ffff_ffff_ffff, 0xffff_ffff_ffff_ffff);
        assert(0xffff_ffff_ffff_ffffint * 0xffff_ffff_ffff_ffffint
            < 0x1_0000_0000_0000_0000_0000_0000_0000_0000);
    }
    (((a as u128) * (b as u128)) >> 64u32) as u64
}

/// The upper half of the product of the low halves of two words.
pub fn multiply_high32(a: u64, b: u64, a_signed: bool, b_signed: bool) -> (r: u64)
    ensures
        r == mul_high32(a, b, a_signed, b_signed),
{
    let x: i128 = if a_signed {
        to_signed(sign_extend32(a)) as i128
    } else {
        zero_extend32(a) as i128
    };
    let y: i128 = if b_signed {
        to_signed(sign_extend32(b)) as i128
    } else {
        zero_extend32(b) as i128
    };
    proof {
        lemma_product_bound(x as int, y as int, 0x1_0000_0000, 0x1_0000_0000);
        assert(0x1_0000_0000int * 0x1_0000_0000int < 0x8000_0000_0000_0000_0000_0000_0000_0000);
    }
    sign_extend32(((x * y) >> 32u32) as u64)
}

/// Computes an operation at full width.
pub fn compute64(op: AluOp, a: u64, b: u64) -> (r: u64)
    ensures
        r == alu64(op, a, b),
{
    match op {
        AluOp::Add => a.wrapping_add(b),
        AluOp::Sub => a.wrapping_sub(b),
        AluOp::Sll => a << (b % 64),
        AluOp::Slt => if is_negative(a) != is_negative(b) {
            if is_negative(a) {
                1
            } else {
                0
            }
        } else if a < b {
            1
        } else {
            0
        },
        AluOp::Sltu => if a < b {
            1
        } else {
            0
        },
        AluOp::Xor => a ^ b,
        AluOp::Srl => a >> (b % 64),
        AluOp::Sra => ((a as i64) >> (b % 64)) as u64,
        AluOp::Or => a | b,
        AluOp::And => a & b,
        AluOp::Mul => a.wrapping_mul(b),
        AluOp::Mulh => multiply_high(a, b, true),
        AluOp::Mulhsu => multiply_high(a, b, false),
        AluOp::Mulhu => multiply_high_unsigned(a, b),
        AluOp::Div => divide_signed(a, b),
        AluOp::Divu => if b == 0 {
            u64::MAX
        } else {
            a / b
        },
        AluOp::Rem => remainder_signed(a, b),
        AluOp::Remu => if b == 0 {
            a
        } else {
            a % b
        },
    }
}

/// Computes an operation on the low 32 bits.
pub fn compute32(op: AluOp, a: u64, b: u64) -> (r: u64)
    ensures
        r == alu32(op, a, b),
{
    match op {
        AluOp::Sll => sign_extend32(zero_extend32(a) << (b % 32)),
        AluOp::Srl => sign_extend32(zero_extend32(a) >> (b % 32)),
        AluOp::Sra => sign_extend32(((sign_extend32(a) as i64) >> (b % 32)) as u64),
        AluOp::Mulh => multiply_high32(a, b, true, true),
        AluOp::Mulhsu => multiply_high32(a, b, true, false),
        AluOp::Mulhu => multiply_high32(a, b, false, false),
        AluOp::Divu | AluOp::Remu => sign_extend32(
            compute64(op, zero_extend32(a), zero_extend32(b)),
        ),
        _ => sign_extend32(compute64(op, sign_extend32(a), sign_extend32(b))),
    }
}

/// Computes an operation: on 32 bits where `narrow` is set, else on 64.
pub fn compute(op: AluOp, a: u64, b: u64, narrow: bool) -> (r: u64)
    ensures
        r == alu(op, a, b, narrow),
{
    if narrow {
        compute32(op, a, b)
    } else {
        compute64(op, a, b)
    }
}

} // verus!
