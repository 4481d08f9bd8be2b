//! Single-precision IEEE 754 numbers, handled by their bit patterns.
//!
//! Angles and mouse deltas pass through this crate as the 32-bit patterns of
//! binary32 numbers: one sign bit, eight exponent bits, twenty-three mantissa
//! bits. The arithmetic on them is the caller's business; what is decided here
//! is how two patterns compare and how a pattern is clamped to an interval.
//!
//! The meaning of a pattern is given exactly, as an integer: its value in units
//! of 2^-149, the smallest positive number of the format. An infinity is given
//! the value that the next exponent would have, which puts it above every
//! finite number; a NaN has no value and compares with nothing.

use vstd::prelude::*;
use vstd::arithmetic::power2::{
    lemma2_to64,
    lemma_pow2_pos,
    lemma_pow2_strictly_increases,
    lemma_pow2_unfold,
    pow2,
};

verus! {

/// The pattern with only the sign bit set: negative zero.
pub const SIGN_BIT: u32 = 0x8000_0000;

/// Positive infinity: all exponent bits set, mantissa zero.
pub const INFINITY: u32 = 0x7f80_0000;

/// Positive zero.
pub const ZERO: u32 = 0;

/// Two to the power 23: the weight of the lowest exponent bit.
pub const MANTISSA_SPAN: u32 = 0x0080_0000;

/// The sign bit is set. This holds of negative zero and of half the NaNs too.
pub open spec fn is_negative(bits: u32) -> bool {
    bits >= SIGN_BIT
}

/// The pattern without its sign bit.
pub open spec fn magnitude(bits: u32) -> u32 {
    if bits >= SIGN_BIT {
        (bits - SIGN_BIT) as u32
    } else {
        bits
    }
}

/// The pattern is not a number.
pub open spec fn is_nan(bits: u32) -> bool {
    magnitude(bits) > INFINITY
}

/// The biased exponent field, from 0 to 255.
pub open spec fn exponent(bits: u32) -> nat {
    (magnitude(bits) / MANTISSA_SPAN) as nat
}

/// The mantissa field, below 2^23.
pub open spec fn mantissa(bits: u32) -> nat {
    (magnitude(bits) % MANTISSA_SPAN) as nat
}

/// The absolute value of the number in units of 2^-149.
///
/// A subnormal number is its mantissa; a normal number has the hidden bit
/// above the mantissa and doubles with each step of the exponent.
pub open spec fn scaled_magnitude(bits: u32) -> nat {
    if exponent(bits) == 0 {
        mantissa(bits)
    } else {
        (MANTISSA_SPAN as nat + mantissa(bits)) * pow2((exponent(bits) - 1) as nat)
    }
}

/// The value of the number in units of 2^-149. Both zeros have the value 0.
pub open spec fn scaled_value(bits: u32) -> int {
    if is_negative(bits) {
        -(scaled_magnitude(bits) as int)
    } else {
        scaled_magnitude(bits) as int
    }
}

/// `a < b` as numbers. False when either side is a NaN.
pub open spec fn lt(a: u32, b: u32) -> bool {
    !is_nan(a) && !is_nan(b) && scaled_value(a) < scaled_value(b)
}

/// `a <= b` as numbers. False when either side is a NaN.
pub open spec fn le(a: u32, b: u32) -> bool {
    !is_nan(a) && !is_nan(b) && scaled_value(a) <= scaled_value(b)
}

/// The number `x` restricted to the interval from `min` to `max`.
///
/// A NaN stays as it is. A number inside the interval keeps its own pattern,
/// so a negative zero is not turned into a positive one.
pub open spec fn clamped(x: u32, min: u32, max: u32) -> u32 {
    if lt(x, min) {
        min
    } else if lt(max, x) {
        max
    } else {
        x
    }
}

/// The magnitude with the sign in front of it: an integer that orders the
/// patterns as `scaled_value` orders the numbers.
pub open spec fn signed_magnitude(bits: u32) -> int {
    if is_negative(bits) {
        -(magnitude(bits) as int)
    } else {
        magnitude(bits) as int
    }
}

/// A larger exponent field means a larger number, whatever the mantissas.
proof fn lemma_exponent_orders(a: u32, b: u32)
    requires
        exponent(a) < exponent(b),
    ensures
        scaled_magnitude(a) < scaled_magnitude(b),
{
    let ea = exponent(a);
    let eb = exponent(b);
    let span = MANTISSA_SPAN as nat;
    let floor_b = pow2((eb - 1) as nat);
    lemma_pow2_pos(ea);
    assert(scaled_magnitude(a) < span * pow2(ea)) by {
        if ea == 0 {
            lemma2_to64();
        } else {
            let half = pow2((ea - 1) as nat);
            lemma_pow2_unfold(ea);
            lemma_pow2_pos((ea - 1) as nat);
            assert((span + mantissa(a)) * half < span * (2 * half)) by (nonlinear_arith)
                requires
                    mantissa(a) < span,
                    half > 0,
            ;
        }
    }
    assert(pow2(ea) <= floor_b) by {
        if ea < eb - 1 {
            lemma_pow2_strictly_increases(ea, (eb - 1) as nat);
        }
    }
    assert(span * pow2(ea) <= (span + mantissa(b)) * floor_b) by (nonlinear_arith)
        requires
            pow2(ea) <= floor_b,
            span > 0,
    ;
}

/// Without the sign, the patterns are ordered as the numbers they stand for.
pub proof fn lemma_magnitude_orders(a: u32, b: u32)
    ensures
        magnitude(a) < magnitude(b) <==> scaled_magnitude(a) < scaled_magnitude(b),
        magnitude(a) == magnitude(b) <==> scaled_magnitude(a) == scaled_magnitude(b),
{
    if magnitude(a) < magnitude(b) {
        lemma_magnitude_increases(a, b);
    } else if magnitude(b) < magnitude(a) {
        lemma_magnitude_increases(b, a);
    }
}

proof fn lemma_magnitude_increases(a: u32, b: u32)
    requires
        magnitude(a) < magnitude(b),
    ensures
        scaled_magnitude(a) < scaled_magnitude(b),
{
    if exponent(a) < exponent(b) {
        lemma_exponent_orders(a, b);
    } else {
        assert(exponent(a) == exponent(b));
        assert(mantissa(a) < mantissa(b));
        if exponent(a) > 0 {
            let weight = pow2((exponent(a) - 1) as nat);
            let span = MANTISSA_SPAN as nat;
            lemma_pow2_pos((exponent(a) - 1) as nat);
            assert((span + mantissa(a)) * weight < (span + mantissa(b)) * weight)
                by (nonlinear_arith)
                requires
                    mantissa(a) < mantissa(b),
                    weight > 0,
            ;
        }
    }
}

/// With the sign, too: `signed_magnitude` orders the patterns as `scaled_value`
/// orders the numbers, and the two zeros fall together in both.
pub proof fn lemma_signed_magnitude_orders(a: u32, b: u32)
    ensures
        signed_magnitude(a) < signed_magnitude(b) <==> scaled_value(a) < scaled_value(b),
        signed_magnitude(a) == signed_magnitude(b) <==> scaled_value(a) == scaled_value(b),
{
    lemma_magnitude_orders(a, b);
    lemma_magnitude_orders(a, ZERO);
    lemma_magnitude_orders(b, ZERO);
    assert(scaled_magnitude(ZERO) == 0);
}

/// Tells whether the pattern is a NaN.
pub fn is_nan_bits(bits: u32) -> (nan: bool)
    ensures
        nan == is_nan(bits),
{
    let magnitude: u32 = if bits >= SIGN_BIT {
        bits - SIGN_BIT
    } else {
        bits
    };
    magnitude > INFINITY
}

/// Computes `signed_magnitude`.
fn order_key(bits: u32) -> (key: i64)
    ensures
        key == signed_magnitude(bits),
{
    if bits >= SIGN_BIT {
        -((bits - SIGN_BIT) as i64)
    } else {
        bits as i64
    }
}

/// Compares two numbers by their patterns: `a < b`, false when either side is
/// a NaN. Negative zero is not less than positive zero.
pub fn less_than(a: u32, b: u32) -> (less: bool)
    ensures
        less == lt(a, b),
{
    if is_nan_bits(a) || is_nan_bits(b) {
        return false;
    }
    proof {
        lemma_signed_magnitude_orders(a, b);
    }
    order_key(a) < order_key(b)
}

/// Restricts `x` to the interval from `min` to `max`: the result is `min`
/// where `x` is below it, `max` where `x` is above it, and `x` itself
/// otherwise, also where `x` is a NaN.
pub fn clamp(x: u32, min: u32, max: u32) -> (r: u32)
    requires
        le(min, max),
    ensures
        r == clamped(x, min, max),
{
    if less_than(x, min) {
        min
    } else if less_than(max, x) {
        max
    } else {
        x
    }
}

/// The result of a clamp is a NaN exactly where the input is one; any other
/// result lies in the interval.
pub proof fn lemma_clamped_in_interval(x: u32, min: u32, max: u32)
    requires
        le(min, max),
    ensures
        is_nan(clamped(x, min, max)) <==> is_nan(x),
        !is_nan(x) ==> le(min, clamped(x, min, max)) && le(clamped(x, min, max), max),
{
}

/// Clamping what is already clamped changes nothing.
pub proof fn lemma_clamped_idempotent(x: u32, min: u32, max: u32)
    requires
        le(min, max),
    ensures
        clamped(clamped(x, min, max), min, max) == clamped(x, min, max),
{
}

} // verus!
