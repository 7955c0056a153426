//! Comparison primitives: the three tolerance strategies on pairs of
//! double-precision bit patterns.

use vstd::prelude::*;

use crate::fp::{
    add_bits, eq_bits, f64_add, f64_eq, f64_le, f64_mul, f64_sub, is_non_negative_bits,
    is_zero_bits, le_bits, mul_bits, sub_bits, zero_bits, ONE_BITS,
};
use crate::ComparisonResult;

verus! {

/// The classification of `actual` against the closed interval whose raw
/// bounds are `lo` and `hi`, normalized so that the smaller bound comes
/// first: approximately equal when `actual` falls inside (both ends
/// inclusive), unequal otherwise.  Any NaN among the three patterns makes
/// every containment test false, so the classification is then unequal.
pub open spec fn spec_result_from_range(lo: u64, hi: u64, actual: u64) -> ComparisonResult {
    if f64_le(lo, hi) {
        if f64_le(lo, actual) && f64_le(actual, hi) {
            ComparisonResult::ApproximatelyEqual
        } else {
            ComparisonResult::Unequal
        }
    } else {
        if f64_le(hi, actual) && f64_le(actual, lo) {
            ComparisonResult::ApproximatelyEqual
        } else {
            ComparisonResult::Unequal
        }
    }
}

/// The margin strategy: exactly equal on IEEE equality; unequal under a zero
/// margin; otherwise classified against the closed interval from
/// `expected - margin_factor` to `expected + margin_factor`.
pub open spec fn spec_by_margin(expected: u64, actual: u64, margin_factor: u64) -> ComparisonResult {
    if f64_eq(expected, actual) {
        ComparisonResult::ExactlyEqual
    } else if is_zero_bits(margin_factor) {
        ComparisonResult::Unequal
    } else {
        spec_result_from_range(
            sub_bits(expected, margin_factor),
            add_bits(expected, margin_factor),
            actual,
        )
    }
}

/// The multiplier strategy: exactly equal on IEEE equality; unequal under a
/// zero multiplier; otherwise classified against the closed interval from
/// `expected * (1 - multiplier_factor)` to `expected * (1 + multiplier_factor)`
/// (normalized, since a negative `expected` swaps the bounds).
pub open spec fn spec_by_multiplier(
    expected: u64,
    actual: u64,
    multiplier_factor: u64,
) -> ComparisonResult {
    if f64_eq(expected, actual) {
        ComparisonResult::ExactlyEqual
    } else if is_zero_bits(multiplier_factor) {
        ComparisonResult::Unequal
    } else {
        spec_result_from_range(
            mul_bits(expected, sub_bits(ONE_BITS, multiplier_factor)),
            mul_bits(expected, add_bits(ONE_BITS, multiplier_factor)),
            actual,
        )
    }
}

/// The hybrid strategy: exactly equal on IEEE equality; the margin rule
/// whenever either comparand is zero (a relative tolerance is meaningless
/// around zero); the multiplier rule otherwise.
pub open spec fn spec_by_zero_margin_or_multiplier(
    expected: u64,
    actual: u64,
    multiplier_factor: u64,
    margin_factor: u64,
) -> ComparisonResult {
    if f64_eq(expected, actual) {
        ComparisonResult::ExactlyEqual
    } else if is_zero_bits(expected) || is_zero_bits(actual) {
        spec_by_margin(expected, actual, margin_factor)
    } else {
        spec_by_multiplier(expected, actual, multiplier_factor)
    }
}

/// Law: under any non-negative margin, a non-NaN double is exactly equal to
/// itself -- reflexivity, zero and the two infinities included.
pub proof fn lemma_by_margin_reflexive(x: u64, f: u64)
    requires
        !crate::fp::is_nan_bits(x),
        is_non_negative_bits(f),
    ensures
        spec_by_margin(x, x, f) == ComparisonResult::ExactlyEqual,
{
}

/// Law: a zero tolerance never approximates.  Two doubles that IEEE equality
/// tells apart are reported unequal by the margin strategy and by the
/// multiplier strategy whenever the factor is zero.
pub proof fn lemma_zero_tolerance_never_approximates(x: u64, y: u64, f: u64)
    requires
        !f64_eq(x, y),
        is_zero_bits(f),
    ensures
        spec_by_margin(x, y, f) == ComparisonResult::Unequal,
        spec_by_multiplier(x, y, f) == ComparisonResult::Unequal,
{
}

/// Law: the hybrid strategy falls back to the margin rule around zero.
/// Whenever either comparand is zero and the pair is not exactly equal, the
/// hybrid classification is precisely the margin classification under the
/// hybrid's margin factor, whatever its multiplier factor.
pub proof fn lemma_zero_adjacent_falls_back_to_margin(
    expected: u64,
    actual: u64,
    multiplier_factor: u64,
    margin_factor: u64,
)
    requires
        is_zero_bits(expected) || is_zero_bits(actual),
        !f64_eq(expected, actual),
    ensures
        spec_by_zero_margin_or_multiplier(expected, actual, multiplier_factor, margin_factor)
            == spec_by_margin(expected, actual, margin_factor),
{
}

/// Classifies `actual` against the normalized closed interval `[lo, hi]`.
fn result_from_range_(lo: u64, hi: u64, actual: u64) -> (r: ComparisonResult)
    ensures
        r == spec_result_from_range(lo, hi, actual),
{
    if le_bits(lo, hi) {
        if le_bits(lo, actual) && le_bits(actual, hi) {
            ComparisonResult::ApproximatelyEqual
        } else {
            ComparisonResult::Unequal
        }
    } else {
        if le_bits(hi, actual) && le_bits(actual, lo) {
            ComparisonResult::ApproximatelyEqual
        } else {
            ComparisonResult::Unequal
        }
    }
}

/// Compares two doubles, given by their bit patterns, under a fixed margin.
pub fn compare_approximate_equality_by_margin(
    expected: u64,
    actual: u64,
    margin_factor: u64,
) -> (r: ComparisonResult)
    requires
        is_non_negative_bits(margin_factor),
    ensures
        r == spec_by_margin(expected, actual, margin_factor),
{
    if eq_bits(expected, actual) {
        return ComparisonResult::ExactlyEqual;
    }

    if zero_bits(margin_factor) {
        return ComparisonResult::Unequal;
    }

    let expected_lo = f64_sub(expected, margin_factor);
    let expected_hi = f64_add(expected, margin_factor);

    result_from_range_(expected_lo, expected_hi, actual)
}

/// Compares two doubles, given by their bit patterns, under a relative
/// multiplier.
pub fn compare_approximate_equality_by_multiplier(
    expected: u64,
    actual: u64,
    multiplier_factor: u64,
) -> (r: ComparisonResult)
    requires
        is_non_negative_bits(multiplier_factor),
    ensures
        r == spec_by_multiplier(expected, actual, multiplier_factor),
{
    if eq_bits(expected, actual) {
        return ComparisonResult::ExactlyEqual;
    }

    if zero_bits(multiplier_factor) {
        return ComparisonResult::Unequal;
    }

    let expected_lo = f64_mul(expected, f64_sub(ONE_BITS, multiplier_factor));
    let expected_hi = f64_mul(expected, f64_add(ONE_BITS, multiplier_factor));

    result_from_range_(expected_lo, expected_hi, actual)
}

/// Compares two doubles, given by their bit patterns, under the hybrid
/// strategy: the margin whenever either comparand is zero, the multiplier
/// otherwise.
pub fn compare_approximate_equality_by_zero_margin_or_multiplier(
    expected: u64,
    actual: u64,
    multiplier_factor: u64,
    margin_factor: u64,
) -> (r: ComparisonResult)
    requires
        is_non_negative_bits(multiplier_factor),
        is_non_negative_bits(margin_factor),
    ensures
        r == spec_by_zero_margin_or_multiplier(expected, actual, multiplier_factor, margin_factor),
{
    if eq_bits(expected, actual) {
        return ComparisonResult::ExactlyEqual;
    }

    let (expected_lo, expected_hi) = if zero_bits(expected) || zero_bits(actual) {
        if zero_bits(margin_factor) {
            return ComparisonResult::Unequal;
        }

        let expected_lo = f64_sub(expected, margin_factor);
        let expected_hi = f64_add(expected, margin_factor);

        (expected_lo, expected_hi)
    } else {
        if zero_bits(multiplier_factor) {
            return ComparisonResult::Unequal;
        }

        let expected_lo = f64_mul(expected, f64_sub(ONE_BITS, multiplier_factor));
        let expected_hi = f64_mul(expected, f64_add(ONE_BITS, multiplier_factor));

        (expected_lo, expected_hi)
    };

    result_from_range_(expected_lo, expected_hi, actual)
}

} // verus!
