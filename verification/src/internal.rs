//! The concrete evaluators behind the factory functions.

use vstd::prelude::*;

use crate::fp::is_non_negative_bits;
use crate::traits::ApproximateEqualityEvaluator;
use crate::utils::{
    compare_approximate_equality_by_margin, compare_approximate_equality_by_multiplier,
    compare_approximate_equality_by_zero_margin_or_multiplier, spec_by_margin, spec_by_multiplier,
    spec_by_zero_margin_or_multiplier,
};
use crate::ComparisonResult;

verus! {

/// Evaluator applying a fixed margin; reports the margin factor it used.
#[derive(Debug)]
#[derive(Clone, Copy)]
pub struct MarginEvaluator {
    pub factor: u64,
}

/// Evaluator applying a relative multiplier; reports the multiplier factor
/// it used.
#[derive(Debug)]
#[derive(Clone, Copy)]
pub struct MultiplierEvaluator {
    pub factor: u64,
}

/// Evaluator applying the multiplier in general and the margin whenever
/// either comparand is zero; reports both factors.
#[derive(Debug)]
#[derive(Clone, Copy)]
pub struct ZeroMarginOrMultiplierEvaluator {
    pub multiplier_factor: u64,
    pub zero_margin_factor: u64,
}

impl ApproximateEqualityEvaluator for MarginEvaluator {
    open spec fn wf(&self) -> bool {
        is_non_negative_bits(self.factor)
    }

    open spec fn spec_evaluate(&self, expected: u64, actual: u64) -> (
        ComparisonResult,
        Option<u64>,
        Option<u64>,
    ) {
        (spec_by_margin(expected, actual, self.factor), Some(self.factor), None)
    }

    fn evaluate(&self, expected: u64, actual: u64) -> (r: (
        ComparisonResult,
        Option<u64>,
        Option<u64>,
    )) {
        let comparison_result = compare_approximate_equality_by_margin(expected, actual, self.factor);

        (comparison_result, Some(self.factor), None)
    }
}

impl ApproximateEqualityEvaluator for MultiplierEvaluator {
    open spec fn wf(&self) -> bool {
        is_non_negative_bits(self.factor)
    }

    open spec fn spec_evaluate(&self, expected: u64, actual: u64) -> (
        ComparisonResult,
        Option<u64>,
        Option<u64>,
    ) {
        (spec_by_multiplier(expected, actual, self.factor), None, Some(self.factor))
    }

    fn evaluate(&self, expected: u64, actual: u64) -> (r: (
        ComparisonResult,
        Option<u64>,
        Option<u64>,
    )) {
        let comparison_result = compare_approximate_equality_by_multiplier(expected, actual, self.factor);

        (comparison_result, None, Some(self.factor))
    }
}

impl ApproximateEqualityEvaluator for ZeroMarginOrMultiplierEvaluator {
    open spec fn wf(&self) -> bool {
        is_non_negative_bits(self.multiplier_factor) && is_non_negative_bits(self.zero_margin_factor)
    }

    open spec fn spec_evaluate(&self, expected: u64, actual: u64) -> (
        ComparisonResult,
        Option<u64>,
        Option<u64>,
    ) {
        (
            spec_by_zero_margin_or_multiplier(
                expected,
                actual,
                self.multiplier_factor,
                self.zero_margin_factor,
            ),
            Some(self.zero_margin_factor),
            Some(self.multiplier_factor),
        )
    }

    fn evaluate(&self, expected: u64, actual: u64) -> (r: (
        ComparisonResult,
        Option<u64>,
        Option<u64>,
    )) {
        let comparison_result = compare_approximate_equality_by_zero_margin_or_multiplier(
            expected,
            actual,
            self.multiplier_factor,
            self.zero_margin_factor,
        );

        (
            comparison_result,
            Some(self.zero_margin_factor),
            Some(self.multiplier_factor),
        )
    }
}

} // verus!
