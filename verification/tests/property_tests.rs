//! Tests of the stated properties of the evaluation engine: reflexivity,
//! zero tolerance, asymmetry of the multiplier strategy, the zero-adjacent
//! fallback, sequence aggregation, and purity.

use test_helpers::constants::{DEFAULT_MARGIN, DEFAULT_MULTIPLIER};
use test_helpers::utils::{
    compare_approximate_equality_by_margin, compare_approximate_equality_by_multiplier,
    compare_approximate_equality_by_zero_margin_or_multiplier,
};
use test_helpers::ComparisonResult;
use test_helpers::VectorComparisonResult;
use test_helpers::{
    evaluate_scalar_eq_approx, evaluate_vector_eq_approx, margin, multiplier,
    zero_margin_or_multiplier,
};

fn b(x: f64) -> u64 {
    x.to_bits()
}

fn bits_of(values: &[f64]) -> Vec<u64> {
    values.iter().map(|v| v.to_bits()).collect()
}

#[test]
fn test_default_tolerance_constants() {
    assert_eq!(0.0001f64.to_bits(), DEFAULT_MARGIN);
    assert_eq!(0.000001f64.to_bits(), DEFAULT_MULTIPLIER);
}

#[test]
fn test_unit_interval_scale_constant() {
    assert_eq!(1.0f64.to_bits(), test_helpers::fp::ONE_BITS);
}

#[test]
fn test_by_margin_is_reflexive_including_zero_and_the_infinities() {
    for x in [0.0, -0.0, 1.5, -2.25, f64::INFINITY, f64::NEG_INFINITY, f64::MAX, f64::MIN] {
        for f in [0.0, 0.0001, 0.1] {
            assert_eq!(
                ComparisonResult::ExactlyEqual,
                compare_approximate_equality_by_margin(b(x), b(x), b(f))
            );
        }
    }
}

#[test]
fn test_zero_tolerance_never_approximates() {
    assert_eq!(
        ComparisonResult::Unequal,
        compare_approximate_equality_by_margin(b(1.0), b(1.0000001), b(0.0))
    );
    assert_eq!(
        ComparisonResult::Unequal,
        compare_approximate_equality_by_multiplier(b(1.0), b(1.0000001), b(0.0))
    );
    assert_eq!(
        ComparisonResult::Unequal,
        compare_approximate_equality_by_margin(b(f64::NAN), b(f64::NAN), b(0.0))
    );
    assert_eq!(
        ComparisonResult::Unequal,
        compare_approximate_equality_by_multiplier(b(f64::NAN), b(f64::NAN), b(0.0))
    );
}

#[test]
fn test_multiplier_classification_is_not_symmetric() {
    // The interval is centred on `expected`, not on the midpoint: 1.0 lies
    // within [0.905 * 0.9, 0.905 * 1.1] in neither direction of rounding,
    // while 0.905 lies within [1.0 * 0.9, 1.0 * 1.1].
    let forward = compare_approximate_equality_by_multiplier(b(0.905), b(1.0), b(0.1));
    let reversed = compare_approximate_equality_by_multiplier(b(1.0), b(0.905), b(0.1));

    assert_eq!(ComparisonResult::Unequal, forward);
    assert_eq!(ComparisonResult::ApproximatelyEqual, reversed);
    assert_ne!(forward, reversed);
}

#[test]
fn test_zero_adjacent_comparison_falls_back_to_the_margin_rule() {
    assert_eq!(
        ComparisonResult::ApproximatelyEqual,
        compare_approximate_equality_by_zero_margin_or_multiplier(b(0.0), b(0.1), b(0.1), b(0.1))
    );
    assert_eq!(
        ComparisonResult::Unequal,
        compare_approximate_equality_by_zero_margin_or_multiplier(b(0.0), b(0.1), b(0.1), b(0.01))
    );
}

#[test]
fn test_vector_evaluation_reports_the_first_unequal_element() {
    let expected = bits_of(&[2.0, -3.0, -4.0]);
    let actual = bits_of(&[2.0, -3.001, -4.0]);

    assert_eq!(
        (
            VectorComparisonResult::UnequalElements {
                index_of_first_unequal_element: 1,
                expected_value_of_first_unequal_element: b(-3.0),
                actual_value_of_first_unequal_element: b(-3.001),
            },
            Some(b(0.01)),
            Some(b(0.0001)),
        ),
        evaluate_vector_eq_approx(
            &expected[..],
            &actual[..],
            &zero_margin_or_multiplier(b(0.0001), b(0.01)),
        )
    );
}

#[test]
fn test_vector_evaluation_of_empty_sequences_is_exactly_equal() {
    let empty: &[u64] = &[];

    assert_eq!(
        (VectorComparisonResult::ExactlyEqual, None, None),
        evaluate_vector_eq_approx(empty, empty, &margin(b(0.5)))
    );
    assert_eq!(
        (VectorComparisonResult::ExactlyEqual, None, None),
        evaluate_vector_eq_approx(empty, empty, &multiplier(b(0.0)))
    );
}

#[test]
fn test_vector_evaluation_reports_differing_lengths_before_any_element() {
    let expected = bits_of(&[-2.0, -3.0]);
    let actual = bits_of(&[0.0]);

    assert_eq!(
        (
            VectorComparisonResult::DifferentLengths { expected_length: 2, actual_length: 1 },
            None,
            None,
        ),
        evaluate_vector_eq_approx(&expected[..], &actual[..], &margin(b(0.5)))
    );
    assert_eq!(
        (
            VectorComparisonResult::DifferentLengths { expected_length: 2, actual_length: 1 },
            None,
            None,
        ),
        evaluate_vector_eq_approx(
            &expected[..],
            &actual[..],
            &zero_margin_or_multiplier(b(100.0), b(100.0)),
        )
    );
}

#[test]
fn test_vector_factors_are_those_of_the_first_inexact_element() {
    let all_exact = bits_of(&[1.0, 2.0]);
    let one_inexact = bits_of(&[1.0, 2.0000001]);

    // All elements exactly equal: no tolerance was relevant, no factors.
    assert_eq!(
        (VectorComparisonResult::ExactlyEqual, None, None),
        evaluate_vector_eq_approx(&all_exact[..], &all_exact[..], &multiplier(b(0.001)))
    );

    // One element only approximately equal: that element's factors are
    // reported.
    assert_eq!(
        (VectorComparisonResult::ApproximatelyEqual, None, Some(b(0.001))),
        evaluate_vector_eq_approx(&all_exact[..], &one_inexact[..], &multiplier(b(0.001)))
    );
}

#[test]
fn test_comparison_results_are_totally_ordered() {
    assert!(ComparisonResult::ExactlyEqual < ComparisonResult::ApproximatelyEqual);
    assert!(ComparisonResult::ApproximatelyEqual < ComparisonResult::Unequal);
    assert!(ComparisonResult::ExactlyEqual < ComparisonResult::Unequal);
}

#[test]
fn test_too_tight_a_margin_reports_unequal() {
    assert_eq!(
        ComparisonResult::Unequal,
        compare_approximate_equality_by_margin(b(0.12345678), b(0.12345679), b(0.000000001))
    );
}

#[test]
fn test_evaluation_is_idempotent() {
    let evaluator = zero_margin_or_multiplier(DEFAULT_MULTIPLIER, DEFAULT_MARGIN);

    let first = evaluate_scalar_eq_approx(&b(0.12345678), &b(0.12345679), &evaluator);
    let second = evaluate_scalar_eq_approx(&b(0.12345678), &b(0.12345679), &evaluator);

    assert_eq!(first, second);

    let expected = bits_of(&[2.0, -3.0, -4.0]);
    let actual = bits_of(&[2.0, -3.001, -4.0]);

    let first = evaluate_vector_eq_approx(&expected[..], &actual[..], &evaluator);
    let second = evaluate_vector_eq_approx(&expected[..], &actual[..], &evaluator);

    assert_eq!(first, second);
}
