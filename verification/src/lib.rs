//! Approximate-equality evaluation for test assertions.
//!
//! Scalars are IEEE-754 double-precision values, carried everywhere as their
//! 64-bit bit patterns (`u64`).  Three tolerance strategies classify a pair of
//! comparands as exactly equal, approximately equal, or unequal: a fixed
//! margin, a relative multiplier, and a hybrid that falls back to the margin
//! whenever either comparand is zero.  A sequence evaluator extends the scalar
//! classification element-wise, reporting where and why the first mismatch
//! occurred.

use vstd::prelude::*;

pub mod constants;
pub mod fp;
pub mod internal;
pub mod traits;
pub mod utils;

verus! {

/// Comparison result type.
#[derive(Debug)]
#[derive(Clone, Copy)]
#[derive(PartialEq, Eq, Structural)]
#[derive(PartialOrd, Ord)]
pub enum ComparisonResult {
    /// The comparands are exactly equal.
    ExactlyEqual,
    /// The comparands are equal within the tolerance of the given margin or
    /// multiplier.
    ApproximatelyEqual,
    /// The comparands are not equal within the tolerance of the given
    /// margin or multiplier.
    Unequal,
}

/// Vector comparison result type.
///
/// The two value-carrying variants hold the bit patterns of the
/// double-precision elements involved, so a reporting layer can show them.
#[derive(Debug)]
#[derive(Clone, Copy)]
#[derive(PartialEq, Eq, Structural)]
pub enum VectorComparisonResult {
    ExactlyEqual,
    ApproximatelyEqual,
    DifferentLengths {
        expected_length: usize,
        actual_length: usize,
    },
    UnequalElements {
        index_of_first_unequal_element: usize,
        expected_value_of_first_unequal_element: u64,
        actual_value_of_first_unequal_element: u64,
    },
}

/// The sequence of double bit patterns a sequence of testable values
/// projects to, element by element.
pub open spec fn testable_seq<T: traits::TestableAsF64>(s: Seq<T>) -> Seq<u64> {
    s.map(|i: int, e: T| e.spec_testable_as_f64())
}

/// What the sequence evaluation returns once the lengths are known to agree,
/// starting from index `i` with the sticky state accumulated so far:
/// `any_inexact` records whether an approximately equal element has been
/// seen, and the two factors are those of the first such element.  The scan
/// stops at the first unequal element and reports its index, the two element
/// values, and that element's own factors; otherwise it runs to the end and
/// reports approximate equality exactly when some element was inexact.
pub open spec fn spec_evaluate_vector_from<E: traits::ApproximateEqualityEvaluator>(
    evaluator: E,
    expected: Seq<u64>,
    actual: Seq<u64>,
    i: int,
    any_inexact: bool,
    margin_factor: Option<u64>,
    multiplier_factor: Option<u64>,
) -> (VectorComparisonResult, Option<u64>, Option<u64>)
    recommends
        expected.len() == actual.len(),
        0 <= i <= expected.len(),
    decreases expected.len() - i,
{
    if i < 0 || i >= expected.len() {
        (
            if any_inexact {
                VectorComparisonResult::ApproximatelyEqual
            } else {
                VectorComparisonResult::ExactlyEqual
            },
            margin_factor,
            multiplier_factor,
        )
    } else {
        let step = evaluator.spec_evaluate(expected[i], actual[i]);
        if step.0 == ComparisonResult::Unequal {
            (
                VectorComparisonResult::UnequalElements {
                    index_of_first_unequal_element: i as usize,
                    expected_value_of_first_unequal_element: expected[i],
                    actual_value_of_first_unequal_element: actual[i],
                },
                step.1,
                step.2,
            )
        } else if step.0 == ComparisonResult::ApproximatelyEqual && !any_inexact {
            spec_evaluate_vector_from(evaluator, expected, actual, i + 1, true, step.1, step.2)
        } else {
            spec_evaluate_vector_from(
                evaluator,
                expected,
                actual,
                i + 1,
                any_inexact,
                margin_factor,
                multiplier_factor,
            )
        }
    }
}

/// What the sequence evaluation returns: differing lengths short-circuit
/// with no factors; otherwise the elements are scanned in ascending index
/// order from a clean state.
pub open spec fn spec_evaluate_vector<E: traits::ApproximateEqualityEvaluator>(
    evaluator: E,
    expected: Seq<u64>,
    actual: Seq<u64>,
) -> (VectorComparisonResult, Option<u64>, Option<u64>) {
    if expected.len() != actual.len() {
        (
            VectorComparisonResult::DifferentLengths {
                expected_length: expected.len() as usize,
                actual_length: actual.len() as usize,
            },
            None,
            None,
        )
    } else {
        spec_evaluate_vector_from(evaluator, expected, actual, 0, false, None, None)
    }
}

/// Projects the two comparands to double bit patterns and defers to the
/// evaluator.
#[allow(non_camel_case_types)]
pub fn evaluate_scalar_eq_approx<T_expected, T_actual, E>(
    expected: &T_expected,
    actual: &T_actual,
    evaluator: &E,
) -> (r: (ComparisonResult, Option<u64>, Option<u64>)) where
    T_expected: traits::TestableAsF64,
    T_actual: traits::TestableAsF64,
    E: traits::ApproximateEqualityEvaluator,

    requires
        evaluator.wf(),
    ensures
        r == evaluator.spec_evaluate(
            expected.spec_testable_as_f64(),
            actual.spec_testable_as_f64(),
        ),
{
    let expected = expected.testable_as_f64();
    let actual = actual.testable_as_f64();

    evaluator.evaluate(expected, actual)
}

/// Evaluates two sequences element-wise under the given evaluator.
///
/// Differing lengths are reported at once, before any element comparison.
/// Otherwise the scan stops at the first unequal element, reporting its
/// index, both element values, and that element's own factors; if every
/// element passes, the factors reported are those of the first element that
/// was approximately (not exactly) equal, and the overall classification is
/// approximate exactly when such an element exists.
#[allow(non_camel_case_types)]
pub fn evaluate_vector_eq_approx<T_expectedElement, T_actualElement, E>(
    expected: &[T_expectedElement],
    actual: &[T_actualElement],
    evaluator: &E,
) -> (r: (VectorComparisonResult, Option<u64>, Option<u64>)) where
    T_expectedElement: traits::TestableAsF64,
    T_actualElement: traits::TestableAsF64,
    E: traits::ApproximateEqualityEvaluator,

    requires
        evaluator.wf(),
    ensures
        r == spec_evaluate_vector(*evaluator, testable_seq(expected@), testable_seq(actual@)),
        expected@.len() == 0 && actual@.len() == 0 ==> r == (
            VectorComparisonResult::ExactlyEqual,
            None::<u64>,
            None::<u64>,
        ),
        expected@.len() != actual@.len() ==> r == (
            VectorComparisonResult::DifferentLengths {
                expected_length: expected@.len() as usize,
                actual_length: actual@.len() as usize,
            },
            None::<u64>,
            None::<u64>,
        ),
{
    let ghost exp_seq = testable_seq(expected@);
    let ghost act_seq = testable_seq(actual@);

    let expected_length = expected.len();
    let actual_length = actual.len();

    if expected_length != actual_length {
        (
            VectorComparisonResult::DifferentLengths { expected_length, actual_length },
            None,
            None,
        )
    } else {
        let mut any_inexact = false;
        let mut margin_factor: Option<u64> = None;
        let mut multiplier_factor: Option<u64> = None;

        let mut ix: usize = 0;
        while ix < expected_length
            invariant
                evaluator.wf(),
                expected_length == expected@.len(),
                expected_length == actual@.len(),
                ix <= expected_length,
                exp_seq == testable_seq(expected@),
                act_seq == testable_seq(actual@),
                spec_evaluate_vector_from(
                    *evaluator,
                    exp_seq,
                    act_seq,
                    ix as int,
                    any_inexact,
                    margin_factor,
                    multiplier_factor,
                ) == spec_evaluate_vector_from(
                    *evaluator,
                    exp_seq,
                    act_seq,
                    0,
                    false,
                    None::<u64>,
                    None::<u64>,
                ),
            decreases expected_length - ix,
        {
            let expected_element = &expected[ix];
            let actual_element = &actual[ix];

            let (scalar_comparison_result, scalar_margin_factor, scalar_multiplier_factor) =
                evaluate_scalar_eq_approx(expected_element, actual_element, evaluator);

            match scalar_comparison_result {
                ComparisonResult::ExactlyEqual => (),
                ComparisonResult::ApproximatelyEqual => {
                    if !any_inexact {
                        any_inexact = true;
                        margin_factor = scalar_margin_factor;
                        multiplier_factor = scalar_multiplier_factor;
                    }
                },
                ComparisonResult::Unequal => {
                    let expected_value = expected[ix].testable_as_f64();
                    let actual_value = actual[ix].testable_as_f64();

                    return (
                        VectorComparisonResult::UnequalElements {
                            index_of_first_unequal_element: ix,
                            expected_value_of_first_unequal_element: expected_value,
                            actual_value_of_first_unequal_element: actual_value,
                        },
                        scalar_margin_factor,
                        scalar_multiplier_factor,
                    );
                },
            };

            ix += 1;
        }

        (
            if any_inexact {
                VectorComparisonResult::ApproximatelyEqual
            } else {
                VectorComparisonResult::ExactlyEqual
            },
            margin_factor,
            multiplier_factor,
        )
    }
}

/// Law: scalar evaluation is a pure function of its inputs.  Every result
/// of `evaluate` (and so of `evaluate_scalar_eq_approx`) equals
/// `spec_evaluate` of the inputs, so any two calls on identical inputs
/// yield identical results.
pub proof fn lemma_scalar_evaluation_idempotent<E: traits::ApproximateEqualityEvaluator>(
    evaluator: E,
    expected: u64,
    actual: u64,
    r1: (ComparisonResult, Option<u64>, Option<u64>),
    r2: (ComparisonResult, Option<u64>, Option<u64>),
)
    requires
        r1 == evaluator.spec_evaluate(expected, actual),
        r2 == evaluator.spec_evaluate(expected, actual),
    ensures
        r1 == r2,
{
}

/// Law: sequence evaluation is a pure function of its inputs.  Every result
/// of `evaluate_vector_eq_approx` equals `spec_evaluate_vector` of the
/// inputs, so any two calls on identical inputs yield identical results.
pub proof fn lemma_vector_evaluation_idempotent<E: traits::ApproximateEqualityEvaluator>(
    evaluator: E,
    expected: Seq<u64>,
    actual: Seq<u64>,
    r1: (VectorComparisonResult, Option<u64>, Option<u64>),
    r2: (VectorComparisonResult, Option<u64>, Option<u64>),
)
    requires
        r1 == spec_evaluate_vector(evaluator, expected, actual),
        r2 == spec_evaluate_vector(evaluator, expected, actual),
    ensures
        r1 == r2,
{
}

/// Creates an [`traits::ApproximateEqualityEvaluator`] that operates by
/// applying the given `factor` as a margin to determine approximate
/// equality.
pub fn margin(factor: u64) -> (r: internal::MarginEvaluator)
    ensures
        r.factor == factor,
{
    internal::MarginEvaluator { factor }
}

/// Creates an [`traits::ApproximateEqualityEvaluator`] that operates by
/// applying the given `factor` as a multiplier to determine approximate
/// equality.
pub fn multiplier(factor: u64) -> (r: internal::MultiplierEvaluator)
    ensures
        r.factor == factor,
{
    internal::MultiplierEvaluator { factor }
}

/// Creates an [`traits::ApproximateEqualityEvaluator`] that operates by
/// applying the given `multiplier_factor` as a multiplier to determine
/// approximate equality in all cases except when either comparand is zero,
/// in which case it applies the `zero_margin_factor` as a margin to
/// determine approximate equality.
pub fn zero_margin_or_multiplier(
    multiplier_factor: u64,
    zero_margin_factor: u64,
) -> (r: internal::ZeroMarginOrMultiplierEvaluator)
    ensures
        r.multiplier_factor == multiplier_factor,
        r.zero_margin_factor == zero_margin_factor,
{
    internal::ZeroMarginOrMultiplierEvaluator { multiplier_factor, zero_margin_factor }
}

} // verus!
