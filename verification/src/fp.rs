//! IEEE-754 double-precision scalars, carried as their 64-bit bit patterns.
//!
//! Equality, ordering and the zero / NaN tests are decided here directly on
//! the bit patterns and verified against spec functions that state the
//! IEEE-754 semantics.  The rounding arithmetic (sum, difference, product)
//! is delegated to an IEEE-754 software implementation behind trusted
//! wrappers; each result is named by an uninterpreted spec function, since
//! it is a function of the operand bit patterns alone.

use vstd::prelude::*;

use rustc_apfloat::Float;

verus! {

/// Mask of the sign bit of a double's bit pattern.
pub const SIGN_MASK: u64 = 0x8000_0000_0000_0000;

/// Mask of everything but the sign bit: the pattern of the absolute value.
pub const ABS_MASK: u64 = 0x7FFF_FFFF_FFFF_FFFF;

/// Pattern of positive infinity: all-ones exponent, zero fraction.  A
/// pattern whose absolute part exceeds this is a NaN.
pub const INF_BITS: u64 = 0x7FF0_0000_0000_0000;

/// Bit pattern of the double `1.0`.
pub const ONE_BITS: u64 = 0x3FF0_0000_0000_0000;

/// The double `b` stands for is a NaN: all-ones exponent, non-zero fraction.
pub open spec fn is_nan_bits(b: u64) -> bool {
    b & ABS_MASK > INF_BITS
}

/// The double `b` stands for is zero, either `0.0` or `-0.0`.
pub open spec fn is_zero_bits(b: u64) -> bool {
    b & ABS_MASK == 0
}

/// IEEE-754 equality of the doubles two patterns stand for: a NaN equals
/// nothing (itself included), the two zeroes equal each other, and every
/// other double equals exactly its own bit pattern.
pub open spec fn f64_eq(a: u64, b: u64) -> bool {
    &&& !is_nan_bits(a)
    &&& !is_nan_bits(b)
    &&& (a == b || (is_zero_bits(a) && is_zero_bits(b)))
}

/// IEEE-754 `<=` of the doubles two patterns stand for: false whenever a NaN
/// is involved; otherwise the sign-magnitude order, under which the two
/// zeroes are equal, two negatives compare by reversed magnitude, and the
/// infinities sit at the two ends.
pub open spec fn f64_le(a: u64, b: u64) -> bool {
    &&& !is_nan_bits(a)
    &&& !is_nan_bits(b)
    &&& {
        if is_zero_bits(a) && is_zero_bits(b) {
            true
        } else if (a & SIGN_MASK) != (b & SIGN_MASK) {
            a & SIGN_MASK == SIGN_MASK
        } else if a & SIGN_MASK == 0 {
            a <= b
        } else {
            b <= a
        }
    }
}

/// The double `b` stands for is non-negative: exactly the patterns on which
/// IEEE `0.0 <= b` holds, so `-0.0` counts as non-negative and a NaN does
/// not.
pub open spec fn is_non_negative_bits(b: u64) -> bool {
    f64_le(0u64, b)
}

/// IEEE-754 equality test on bit patterns.
pub fn eq_bits(a: u64, b: u64) -> (r: bool)
    ensures
        r == f64_eq(a, b),
{
    if (a & ABS_MASK) > INF_BITS || (b & ABS_MASK) > INF_BITS {
        false
    } else if (a & ABS_MASK) == 0 && (b & ABS_MASK) == 0 {
        true
    } else {
        a == b
    }
}

/// IEEE-754 `<=` test on bit patterns.
pub fn le_bits(a: u64, b: u64) -> (r: bool)
    ensures
        r == f64_le(a, b),
{
    if (a & ABS_MASK) > INF_BITS || (b & ABS_MASK) > INF_BITS {
        false
    } else if (a & ABS_MASK) == 0 && (b & ABS_MASK) == 0 {
        true
    } else if (a & SIGN_MASK) != (b & SIGN_MASK) {
        (a & SIGN_MASK) == SIGN_MASK
    } else if (a & SIGN_MASK) == 0 {
        a <= b
    } else {
        b <= a
    }
}

/// IEEE-754 zero test on a bit pattern.
pub fn zero_bits(b: u64) -> (r: bool)
    ensures
        r == is_zero_bits(b),
{
    (b & ABS_MASK) == 0
}

/// The bit pattern of the IEEE-754 round-to-nearest-even sum of the doubles
/// `a` and `b` stand for: a function of the two operand patterns alone.
pub uninterp spec fn add_bits(a: u64, b: u64) -> u64;

/// The bit pattern of the IEEE-754 round-to-nearest-even difference of the
/// doubles `a` and `b` stand for: a function of the two operand patterns
/// alone.
pub uninterp spec fn sub_bits(a: u64, b: u64) -> u64;

/// The bit pattern of the IEEE-754 round-to-nearest-even product of the
/// doubles `a` and `b` stand for: a function of the two operand patterns
/// alone.
pub uninterp spec fn mul_bits(a: u64, b: u64) -> u64;

/// Relies on `rustc_apfloat`'s `Double` addition (`core::ops::Add`, rounding
/// to nearest with ties to even): the IEEE-754 sum of the operands, a
/// function of their bit patterns alone.
#[verifier::external_body]
pub(crate) fn f64_add(a: u64, b: u64) -> (r: u64)
    ensures
        r == add_bits(a, b),
{
    let x = rustc_apfloat::ieee::Double::from_bits(a as u128);
    let y = rustc_apfloat::ieee::Double::from_bits(b as u128);
    (x + y).value.to_bits() as u64
}

/// Relies on `rustc_apfloat`'s `Double` subtraction (`core::ops::Sub`,
/// rounding to nearest with ties to even): the IEEE-754 difference of the
/// operands, a function of their bit patterns alone.
#[verifier::external_body]
pub(crate) fn f64_sub(a: u64, b: u64) -> (r: u64)
    ensures
        r == sub_bits(a, b),
{
    let x = rustc_apfloat::ieee::Double::from_bits(a as u128);
    let y = rustc_apfloat::ieee::Double::from_bits(b as u128);
    (x - y).value.to_bits() as u64
}

/// Relies on `rustc_apfloat`'s `Double` multiplication (`core::ops::Mul`,
/// rounding to nearest with ties to even): the IEEE-754 product of the
/// operands, a function of their bit patterns alone.
#[verifier::external_body]
pub(crate) fn f64_mul(a: u64, b: u64) -> (r: u64)
    ensures
        r == mul_bits(a, b),
{
    let x = rustc_apfloat::ieee::Double::from_bits(a as u128);
    let y = rustc_apfloat::ieee::Double::from_bits(b as u128);
    (x * y).value.to_bits() as u64
}

} // verus!
