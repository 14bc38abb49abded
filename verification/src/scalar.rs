//! The scalar layer: IEEE-754 double-precision values, carried as their
//! 64-bit encodings.
//!
//! A scalar is a `u64` holding the bit pattern of a double: 1 sign bit,
//! 11 exponent bits, 52 significand bits. Sign handling, classification
//! and ordering are plain bit arithmetic and are implemented and verified
//! here. Rounded arithmetic (addition, multiplication, division, square
//! root) is performed by the `const_soft_float` crate; each such operation
//! is named by an uninterpreted spec function, and a trusted wrapper
//! states the documented algebraic facts that the vector layer relies on.

use vstd::prelude::*;

verus! {

/// Bit pattern of the sign bit (also the encoding of `-0.0`).
pub const SIGN_MASK: u64 = 0x8000_0000_0000_0000;

/// Bit pattern of `+infinity`: all exponent bits set, significand zero.
pub const INF_BITS: u64 = 0x7FF0_0000_0000_0000;

/// Bit pattern of `1.0`.
pub const ONE_BITS: u64 = 0x3FF0_0000_0000_0000;

/// Bit pattern of `1.0e-4`, the normalization tolerance.
pub const TOLERANCE_BITS: u64 = 0x3F1A_36E2_EB1C_432D;

/// True when the sign bit of `b` is set.
pub open spec fn sign_of(b: u64) -> bool {
    b >= SIGN_MASK
}

/// The encoding of `b` with its sign bit cleared (the absolute value).
pub open spec fn abs_of(b: u64) -> u64 {
    if b >= SIGN_MASK {
        (b - SIGN_MASK) as u64
    } else {
        b
    }
}

/// The encoding of `b` with its sign bit flipped (the negated value).
pub open spec fn neg_of(b: u64) -> u64 {
    if b >= SIGN_MASK {
        (b - SIGN_MASK) as u64
    } else {
        (b + SIGN_MASK) as u64
    }
}

/// `b` encodes a NaN: exponent all ones with a non-zero significand.
pub open spec fn is_nan(b: u64) -> bool {
    abs_of(b) > INF_BITS
}

/// `b` encodes a finite value: exponent not all ones.
pub open spec fn is_finite(b: u64) -> bool {
    abs_of(b) < INF_BITS
}

/// `b` encodes a zero, of either sign.
pub open spec fn is_zero(b: u64) -> bool {
    abs_of(b) == 0
}

/// IEEE-754 `<` on encodings. False whenever an operand is NaN; the two
/// zeros are equal; otherwise the sign bits decide, and within one sign
/// the magnitudes compare as plain integers (descending on the negative
/// side).
pub open spec fn flt_lt(a: u64, b: u64) -> bool {
    &&& !is_nan(a)
    &&& !is_nan(b)
    &&& if sign_of(a) != sign_of(b) {
        sign_of(a) && !(is_zero(a) && is_zero(b))
    } else if !sign_of(a) {
        abs_of(a) < abs_of(b)
    } else {
        abs_of(b) < abs_of(a)
    }
}

/// IEEE-754 `==` on encodings: false for NaN, true for identical
/// encodings and for the pair of zeros.
pub open spec fn flt_eq(a: u64, b: u64) -> bool {
    &&& !is_nan(a)
    &&& !is_nan(b)
    &&& (a == b || (is_zero(a) && is_zero(b)))
}

/// IEEE-754 `<=` on encodings.
pub open spec fn flt_le(a: u64, b: u64) -> bool {
    flt_lt(a, b) || flt_eq(a, b)
}

/// Equivalence of results: equal as IEEE values, or both NaN.
pub open spec fn flt_sim(a: u64, b: u64) -> bool {
    flt_eq(a, b) || (is_nan(a) && is_nan(b))
}

/// Negate a scalar: flip the sign bit. Exact, no rounding.
pub fn neg_bits(b: u64) -> (r: u64)
    ensures
        r == neg_of(b),
{
    if b >= SIGN_MASK {
        b - SIGN_MASK
    } else {
        b + SIGN_MASK
    }
}

/// Absolute value of a scalar: clear the sign bit. Exact, no rounding.
pub fn abs_bits(b: u64) -> (r: u64)
    ensures
        r == abs_of(b),
{
    if b >= SIGN_MASK {
        b - SIGN_MASK
    } else {
        b
    }
}

/// IEEE-754 `<` on scalars.
pub fn lt_bits(a: u64, b: u64) -> (r: bool)
    ensures
        r == flt_lt(a, b),
{
    let a_abs = abs_bits(a);
    let b_abs = abs_bits(b);
    if a_abs > INF_BITS || b_abs > INF_BITS {
        false
    } else if (a >= SIGN_MASK) != (b >= SIGN_MASK) {
        a >= SIGN_MASK && !(a_abs == 0 && b_abs == 0)
    } else if a < SIGN_MASK {
        a_abs < b_abs
    } else {
        b_abs < a_abs
    }
}

/// IEEE-754 `<=` on scalars.
pub fn le_bits(a: u64, b: u64) -> (r: bool)
    ensures
        r == flt_le(a, b),
{
    let a_abs = abs_bits(a);
    let b_abs = abs_bits(b);
    if a_abs > INF_BITS || b_abs > INF_BITS {
        false
    } else if a == b || (a_abs == 0 && b_abs == 0) {
        true
    } else {
        lt_bits(a, b)
    }
}

/// The rounded IEEE-754 sum of two encoded doubles.
pub uninterp spec fn ieee_add(a: u64, b: u64) -> u64;

/// The rounded IEEE-754 product of two encoded doubles.
pub uninterp spec fn ieee_mul(a: u64, b: u64) -> u64;

/// The rounded IEEE-754 quotient of two encoded doubles.
pub uninterp spec fn ieee_div(a: u64, b: u64) -> u64;

/// The rounded IEEE-754 square root of an encoded double.
pub uninterp spec fn ieee_sqrt(a: u64) -> u64;

/// Relies on `const_soft_float::soft_f64::SoftF64::add`: round-to-nearest
/// IEEE-754 double addition on bit patterns. Its source shows, for
/// operands that are not NaN: the sum does not depend on operand order;
/// negating both operands negates the sum, except that an exactly
/// cancelled sum is `+0.0` either way and an invalid sum is NaN either
/// way; adding `+0.0` returns the other operand (with `-0.0 + 0.0 = +0.0`);
/// a finite value plus its negation cancels to `+0.0`; and the sum of two
/// values with clear sign bits again has a clear sign bit and is not NaN.
/// A NaN operand always yields a NaN sum.
#[verifier::external_body]
pub(crate) fn add_bits(a: u64, b: u64) -> (r: u64)
    ensures
        r == ieee_add(a, b),
        !is_nan(a) && !is_nan(b) ==> r == ieee_add(b, a),
        !is_nan(a) && !is_nan(b) ==> (ieee_add(neg_of(b), neg_of(a)) == neg_of(r) || (is_zero(r)
            && is_zero(ieee_add(neg_of(b), neg_of(a)))) || (is_nan(r) && is_nan(
            ieee_add(neg_of(b), neg_of(a))))),
        b == 0 && !is_nan(a) && a != SIGN_MASK ==> r == a,
        b == 0 && a == SIGN_MASK ==> r == 0,
        is_finite(a) && b == neg_of(a) ==> r == 0,
        !is_nan(a) && !is_nan(b) && !sign_of(a) && !sign_of(b) ==> !sign_of(r) && !is_nan(r),
        is_nan(a) || is_nan(b) ==> is_nan(r),
{
    const_soft_float::soft_f64::SoftF64::from_bits(a)
        .add(const_soft_float::soft_f64::SoftF64::from_bits(b))
        .to_bits()
}

/// Relies on `const_soft_float::soft_f64::SoftF64::mul`: round-to-nearest
/// IEEE-754 double multiplication on bit patterns. Its source shows, for
/// operands that are not NaN: the product does not depend on operand
/// order; a finite product of finite operands is never NaN; a finite
/// value times itself has a clear sign bit and is not NaN; and
/// `0.0 * 0.0 = 0.0`. A NaN operand always yields a NaN product.
#[verifier::external_body]
pub(crate) fn mul_bits(a: u64, b: u64) -> (r: u64)
    ensures
        r == ieee_mul(a, b),
        !is_nan(a) && !is_nan(b) ==> r == ieee_mul(b, a),
        is_finite(a) && is_finite(b) ==> !is_nan(r),
        is_finite(a) && b == a ==> !sign_of(r) && !is_nan(r),
        a == 0 && b == 0 ==> r == 0,
        is_nan(a) || is_nan(b) ==> is_nan(r),
{
    const_soft_float::soft_f64::SoftF64::from_bits(a)
        .mul(const_soft_float::soft_f64::SoftF64::from_bits(b))
        .to_bits()
}

/// Relies on `const_soft_float::soft_f64::SoftF64::div`: round-to-nearest
/// IEEE-754 double division on bit patterns. Its source shows that a zero
/// numerator divided by `1.0` yields `+0.0`, and that a NaN operand
/// always yields a NaN quotient.
#[verifier::external_body]
pub(crate) fn div_bits(a: u64, b: u64) -> (r: u64)
    ensures
        r == ieee_div(a, b),
        a == 0 && b == ONE_BITS ==> r == 0,
        is_nan(a) || is_nan(b) ==> is_nan(r),
{
    const_soft_float::soft_f64::SoftF64::from_bits(a)
        .div(const_soft_float::soft_f64::SoftF64::from_bits(b))
        .to_bits()
}

/// Relies on `const_soft_float::soft_f64::SoftF64::sqrt`: round-to-nearest
/// IEEE-754 double square root on bit patterns. Its source shows that
/// `sqrt(+0.0) = +0.0`; that the root of a non-NaN value with a clear
/// sign bit again has a clear sign bit and is not NaN; and that the root
/// of a NaN is NaN.
#[verifier::external_body]
pub(crate) fn sqrt_bits(a: u64) -> (r: u64)
    ensures
        r == ieee_sqrt(a),
        a == 0 ==> r == 0,
        !is_nan(a) && !sign_of(a) ==> !sign_of(r) && !is_nan(r),
        is_nan(a) ==> is_nan(r),
{
    const_soft_float::soft_f64::SoftF64::from_bits(a).sqrt().to_bits()
}

} // verus!
