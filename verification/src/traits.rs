//! Traits.

use vstd::prelude::*;

use crate::ComparisonResult;

verus! {

/// Trait that defines a mechanism for performing approximate equality
/// evaluation.
///
/// `evaluate` classifies `expected` against `actual` -- both IEEE-754
/// doubles given by their bit patterns -- and reports, alongside the
/// classification, exactly the tolerance factor(s) the strategy applied:
/// the margin factor, the multiplier factor, or both.
pub trait ApproximateEqualityEvaluator {
    /// The evaluator's tolerance parameters are valid: non-negative doubles.
    spec fn wf(&self) -> bool;

    /// What `evaluate` returns, as a function of the evaluator's parameters
    /// and the two comparand bit patterns alone.
    spec fn spec_evaluate(&self, expected: u64, actual: u64) -> (
        ComparisonResult,
        Option<u64>,
        Option<u64>,
    );

    fn evaluate(&self, expected: u64, actual: u64) -> (r: (
        ComparisonResult,
        Option<u64>,
        Option<u64>,
    ))
        requires
            self.wf(),
        ensures
            r == self.spec_evaluate(expected, actual),
    ;
}

/// Trait that allows an implementing type instance to be evaluated with the
/// constructs of this crate: a value that deterministically projects to an
/// IEEE-754 double, handed over as its bit pattern.
pub trait TestableAsF64 {
    /// The bit pattern of the double the value projects to.
    spec fn spec_testable_as_f64(&self) -> u64;

    fn testable_as_f64(&self) -> (r: u64)
        ensures
            r == self.spec_testable_as_f64(),
    ;
}

impl TestableAsF64 for u64 {
    open spec fn spec_testable_as_f64(&self) -> u64 {
        *self
    }

    fn testable_as_f64(&self) -> (r: u64) {
        *self
    }
}

} // verus!
