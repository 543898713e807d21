use crate::flag::Flag;
use vstd::prelude::*;

verus! {

/// The two's-complement reading of a word.
pub open spec fn signed(w: u32) -> int {
    if w < 0x8000_0000 {
        w as int
    } else {
        w as int - 0x1_0000_0000
    }
}

/// The word that holds the low 32 bits of `v`.
pub open spec fn word(v: int) -> u32 {
    (v % 0x1_0000_0000) as u32
}

/// Whether the sign bit of a word is set.
pub open spec fn is_negative(w: u32) -> bool {
    w >= 0x8000_0000
}

/// Whether `v` can be held by a signed 32-bit word.
pub open spec fn fits_signed(v: int) -> bool {
    -0x8000_0000 <= v < 0x8000_0000
}

/// The flags after a word was taken from the stack: `zero` and `negative`
/// follow the word, the other two stay.
pub open spec fn flags_of_value(flag: Flag, value: u32) -> Flag {
    Flag { zero: value == 0, negative: is_negative(value), ..flag }
}

/// The sum `b + a`, wrapped to a word.
pub open spec fn add_result(b: u32, a: u32) -> u32 {
    word(b + a)
}

/// The flags of the sum `b + a`: `overflow` says that the signed sum does
/// not fit a word, `carry` that the unsigned sum does not.
pub open spec fn add_flags(b: u32, a: u32) -> Flag {
    Flag {
        zero: add_result(b, a) == 0,
        negative: is_negative(add_result(b, a)),
        overflow: !fits_signed(signed(b) + signed(a)),
        carry: b + a > u32::MAX,
    }
}

/// The difference `b - a`, wrapped to a word.
pub open spec fn sub_result(b: u32, a: u32) -> u32 {
    word(b - a)
}

/// The flags of the difference `b - a`: `overflow` says that the signed
/// difference does not fit a word, `carry` that no borrow occurred.
pub open spec fn sub_flags(b: u32, a: u32) -> Flag {
    Flag {
        zero: sub_result(b, a) == 0,
        negative: is_negative(sub_result(b, a)),
        overflow: !fits_signed(signed(b) - signed(a)),
        carry: b >= a,
    }
}

/// The product `b * a`, wrapped to a word.
pub open spec fn mul_result(b: u32, a: u32) -> u32 {
    word(b * a)
}

/// The flags of the product `b * a`: `overflow` says that the signed
/// product does not fit a word; `carry` is always clear.
pub open spec fn mul_flags(b: u32, a: u32) -> Flag {
    Flag {
        zero: mul_result(b, a) == 0,
        negative: is_negative(mul_result(b, a)),
        overflow: !fits_signed(signed(b) * signed(a)),
        carry: false,
    }
}

/// The flags after an unsigned division with the given quotient.
pub open spec fn div_flags(quotient: u32) -> Flag {
    Flag { zero: quotient == 0, negative: false, overflow: false, carry: false }
}

/// The logical right shift of `value` by `amount` bits; all bits leave the
/// word when `amount` is 32 or more.
pub open spec fn shr_result(value: u32, amount: u32) -> u32 {
    if amount < 32 {
        value >> amount
    } else {
        0
    }
}

/// The left shift of `value` by `amount` bits; all bits leave the word
/// when `amount` is 32 or more.
pub open spec fn shl_result(value: u32, amount: u32) -> u32 {
    if amount < 32 {
        value << amount
    } else {
        0
    }
}

/// The quotient of two integers rounded toward zero.
pub open spec fn truncated_quotient(x: int, y: int) -> int
    recommends
        y != 0,
{
    if x >= 0 {
        if y > 0 {
            x / y
        } else {
            -(x / (-y))
        }
    } else {
        if y > 0 {
            -((-x) / y)
        } else {
            (-x) / (-y)
        }
    }
}

/// The overflow flag of a sum is the sign test: the operands have the same
/// sign and the sum has the other.
pub proof fn lemma_add_overflow_is_sign_test(b: u32, a: u32)
    ensures
        add_flags(b, a).overflow <==> (is_negative(b) == is_negative(a) && is_negative(
            add_result(b, a),
        ) != is_negative(b)),
        signed(add_result(b, a)) == signed(b) + signed(a) <==> !add_flags(b, a).overflow,
{
}

/// The overflow flag of a difference is the sign test: the operands have
/// different signs and the difference has the sign of the right operand.
pub proof fn lemma_sub_overflow_is_sign_test(b: u32, a: u32)
    ensures
        sub_flags(b, a).overflow <==> (is_negative(b) != is_negative(a) && is_negative(
            sub_result(b, a),
        ) != is_negative(b)),
        signed(sub_result(b, a)) == signed(b) - signed(a) <==> !sub_flags(b, a).overflow,
{
}

/// The signed reading of a wrapped product differs from the signed
/// product by a multiple of 2^32.
proof fn lemma_mul_result_congruent(b: u32, a: u32) -> (k: int)
    ensures
        signed(mul_result(b, a)) == signed(b) * signed(a) + k * 0x1_0000_0000,
{
    let m = 0x1_0000_0000int;
    let p = b as int * a as int;
    let eb: int = if b < 0x8000_0000 { 0 } else { 1 };
    let ea: int = if a < 0x8000_0000 { 0 } else { 1 };
    let sb = signed(b);
    let sa = signed(a);
    assert(b as int == sb + eb * m);
    assert(a as int == sa + ea * m);
    assert(p == sb * sa + (sb * ea + sa * eb + eb * ea * m) * m) by (nonlinear_arith)
        requires
            p == b as int * a as int,
            b as int == sb + eb * m,
            a as int == sa + ea * m,
    ;
    let q = p / m;
    assert(p == q * m + p % m) by {
        vstd::arithmetic::div_mod::lemma_fundamental_div_mod(p, m);
    }
    let r = mul_result(b, a);
    assert(r as int == p % m);
    let er: int = if r < 0x8000_0000 { 0 } else { 1 };
    assert(signed(r) == r as int - er * m);
    let k = (sb * ea + sa * eb + eb * ea * m) - q - er;
    assert(signed(r) == sb * sa + k * m) by (nonlinear_arith)
        requires
            signed(r) == r as int - er * m,
            r as int == p % m,
            p == q * m + p % m,
            p == sb * sa + (sb * ea + sa * eb + eb * ea * m) * m,
            k == (sb * ea + sa * eb + eb * ea * m) - q - er,
    ;
    k
}

/// The overflow flag of a product is the division test: the right operand
/// is not zero and the signed product, divided by it, does not give the
/// left operand back.
pub proof fn lemma_mul_overflow_is_division_test(b: u32, a: u32)
    ensures
        mul_flags(b, a).overflow <==> (signed(a) != 0 && truncated_quotient(
            signed(mul_result(b, a)),
            signed(a),
        ) != signed(b)),
{
    let m = 0x1_0000_0000int;
    let sb = signed(b);
    let sa = signed(a);
    let r = signed(mul_result(b, a));
    let k = lemma_mul_result_congruent(b, a);
    if sa == 0 {
        assert(sb * sa == 0) by (nonlinear_arith)
            requires
                sa == 0,
        ;
    } else {
        let t = truncated_quotient(r, sa);
        // the quotient rounded toward zero leaves a remainder smaller than the divisor
        let x: int = if r >= 0 { r } else { -r };
        let y: int = if sa > 0 { sa } else { -sa };
        vstd::arithmetic::div_mod::lemma_fundamental_div_mod(x, y);
        vstd::arithmetic::div_mod::lemma_mod_bound(x, y);
        let rem = x % y;
        assert(x == y * (x / y) + rem);
        let same = (r >= 0) == (sa > 0);
        assert(t == if same { x / y } else { -(x / y) });
        let srem: int = if r >= 0 { rem } else { -rem };
        assert(r == t * sa + srem) by (nonlinear_arith)
            requires
                x == y * (x / y) + rem,
                x == if r >= 0 { r } else { -r },
                y == if sa > 0 { sa } else { -sa },
                t == if (r >= 0) == (sa > 0) { x / y } else { -(x / y) },
                srem == if r >= 0 { rem } else { -rem },
        ;
        assert(-y < srem < y);
        if fits_signed(sb * sa) {
            // the product is exact
            assert(k == 0) by (nonlinear_arith)
                requires
                    r == sb * sa + k * m,
                    -0x8000_0000 <= r < 0x8000_0000,
                    -0x8000_0000 <= sb * sa < 0x8000_0000,
                    m == 0x1_0000_0000,
            ;
            assert(t == sb) by (nonlinear_arith)
                requires
                    r == sb * sa,
                    r == t * sa + srem,
                    -y < srem < y,
                    y == if sa > 0 { sa } else { -sa },
                    sa != 0,
            ;
        } else {
            assert(k != 0);
            if t == sb {
                assert(false) by (nonlinear_arith)
                    requires
                        r == sb * sa + k * m,
                        r == sb * sa + srem,
                        k != 0,
                        -y < srem < y,
                        y <= 0x8000_0000,
                        m == 0x1_0000_0000,
                ;
            }
        }
    }
}

/// The two's-complement reading of a word, widened.
pub fn signed_value(w: u32) -> (v: i64)
    ensures
        v == signed(w),
{
    if w < 0x8000_0000 {
        w as i64
    } else {
        w as i64 - 0x1_0000_0000
    }
}

/// Updates `zero` and `negative` from a word taken from the stack.
pub fn value_flags(flag: Flag, value: u32) -> (f: Flag)
    ensures
        f == flags_of_value(flag, value),
{
    Flag { zero: value == 0, negative: value >= 0x8000_0000, overflow: flag.overflow, carry: flag.carry }
}

/// Adds two words with wrapping and computes the flags of the sum.
pub fn add_words(b: u32, a: u32) -> (r: (u32, Flag))
    ensures
        r.0 == add_result(b, a),
        r.1 == add_flags(b, a),
{
    let result = b.wrapping_add(a);
    let wide: i64 = signed_value(b) + signed_value(a);
    let flag = Flag {
        zero: result == 0,
        negative: result >= 0x8000_0000,
        overflow: wide < -0x8000_0000 || wide >= 0x8000_0000,
        carry: b as u64 + a as u64 > 0xffff_ffff,
    };
    (result, flag)
}

/// Subtracts `a` from `b` with wrapping and computes the flags of the
/// difference.
pub fn sub_words(b: u32, a: u32) -> (r: (u32, Flag))
    ensures
        r.0 == sub_result(b, a),
        r.1 == sub_flags(b, a),
{
    let result = b.wrapping_sub(a);
    let wide: i64 = signed_value(b) - signed_value(a);
    let flag = Flag {
        zero: result == 0,
        negative: result >= 0x8000_0000,
        overflow: wide < -0x8000_0000 || wide >= 0x8000_0000,
        carry: b >= a,
    };
    (result, flag)
}

/// Multiplies two words with wrapping and computes the flags of the
/// product.
pub fn mul_words(b: u32, a: u32) -> (r: (u32, Flag))
    ensures
        r.0 == mul_result(b, a),
        r.1 == mul_flags(b, a),
{
    let result = b.wrapping_mul(a);
    let sb = signed_value(b);
    let sa = signed_value(a);
    assert(-0x4000_0000_0000_0000 <= sb * sa <= 0x4000_0000_0000_0000) by (nonlinear_arith)
        requires
            -0x8000_0000 <= sb < 0x8000_0000,
            -0x8000_0000 <= sa < 0x8000_0000,
    ;
    let wide: i64 = sb * sa;
    let flag = Flag {
        zero: result == 0,
        negative: result >= 0x8000_0000,
        overflow: wide < -0x8000_0000 || wide >= 0x8000_0000,
        carry: false,
    };
    (result, flag)
}

/// Shifts `value` right by `amount` bits, filling with zeros.
pub fn shr_word(value: u32, amount: u32) -> (r: u32)
    ensures
        r == shr_result(value, amount),
{
    if amount < 32 {
        value >> amount
    } else {
        0
    }
}

/// Shifts `value` left by `amount` bits, filling with zeros.
pub fn shl_word(value: u32, amount: u32) -> (r: u32)
    ensures
        r == shl_result(value, amount),
{
    if amount < 32 {
        value << amount
    } else {
        0
    }
}

} // verus!
