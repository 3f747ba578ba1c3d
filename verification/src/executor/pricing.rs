//! Estimated successful-response cost from configured target prices.
//!
//! What may be priced and which estimates count is decided here. The arithmetic
//! on doubles is handed in by the caller.

use vstd::prelude::*;

use crate::common::number::Float64;
use crate::executor::error::ExecutorError;

verus! {

/// Model pricing information for a selected target.
///
/// Values are USD per million tokens. Catalog example prices are illustrative
/// samples, not current provider billing facts.
#[derive(Clone, Copy, PartialEq, Eq, Structural, Debug)]
pub struct ModelPricing {
    /// Prompt / input price per million tokens in USD
    pub input_per_million: Float64,
    /// Completion / output price per million tokens in USD
    pub output_per_million: Float64,
}

impl ModelPricing {
    /// Creates target pricing in USD per million tokens.
    pub fn new(input_per_million: Float64, output_per_million: Float64) -> (pricing: ModelPricing)
        ensures
            pricing == (ModelPricing { input_per_million, output_per_million }),
    {
        ModelPricing { input_per_million, output_per_million }
    }

    /// Both prices are finite and not below zero.
    pub open spec fn usable(self) -> bool {
        &&& self.input_per_million.finite() && !self.input_per_million.below_zero()
        &&& self.output_per_million.finite() && !self.output_per_million.below_zero()
    }
}

/// Why usage cannot be priced; `None` when it can.
pub open spec fn unpriceable(
    prompt_tokens: i64,
    completion_tokens: i64,
    pricing: Option<ModelPricing>,
) -> Option<ExecutorError> {
    match pricing {
        None => Some(ExecutorError::MissingPricing),
        Some(pricing) => if prompt_tokens < 0 || completion_tokens < 0 {
            Some(ExecutorError::InvalidUpstreamResult)
        } else if !pricing.usable() {
            Some(ExecutorError::MissingPricing)
        } else {
            None
        },
    }
}

/// The prices behind a reference.
pub open spec fn prices_of(pricing: Option<&ModelPricing>) -> Option<ModelPricing> {
    match pricing {
        Some(pricing) => Some(*pricing),
        None => None,
    }
}

/// Whether `result` is what usage costs when `raw_cost` gives the unrounded
/// estimate and `round_cost` rounds it. Both have to be finite and not negative.
pub open spec fn is_estimate<
    R: Fn(i64, i64, ModelPricing) -> Float64,
    T: Fn(Float64) -> Float64,
>(
    prompt_tokens: i64,
    completion_tokens: i64,
    pricing: Option<ModelPricing>,
    raw_cost: R,
    round_cost: T,
    result: Result<Float64, ExecutorError>,
) -> bool {
    match unpriceable(prompt_tokens, completion_tokens, pricing) {
        Some(error) => result == Err::<Float64, ExecutorError>(error),
        None => exists|cost: Float64| #[trigger]
            raw_cost.ensures((prompt_tokens, completion_tokens, pricing.unwrap()), cost)
                && if cost.finite() && !cost.below_zero() {
                exists|rounded: Float64| #[trigger]
                    round_cost.ensures((cost,), rounded) && if rounded.finite()
                        && !rounded.below_zero() {
                        result == Ok::<Float64, ExecutorError>(rounded)
                    } else {
                        result == Err::<Float64, ExecutorError>(
                            ExecutorError::InvalidUpstreamResult,
                        )
                    }
            } else {
                result == Err::<Float64, ExecutorError>(ExecutorError::InvalidUpstreamResult)
            },
    }
}

/// Estimates USD cost for one successful response.
///
/// `raw_cost` computes `prompt_tokens * input_per_million / 1_000_000 +
/// completion_tokens * output_per_million / 1_000_000`, `round_cost` rounds to 8
/// decimal places.
///
/// This is an estimate for the successful response only. It is not current
/// provider billing and does not account for retries or abandoned work.
/// Missing prices return an error instead of zero.
///
/// # Errors
/// Returns `MissingPricing` when prices are absent or unusable, and
/// `InvalidUpstreamResult` when token counts are negative or the estimate, before
/// or after rounding, is not a finite nonnegative number.
pub fn estimate_successful_response_cost<
    R: Fn(i64, i64, ModelPricing) -> Float64,
    T: Fn(Float64) -> Float64,
>(
    prompt_tokens: i64,
    completion_tokens: i64,
    pricing: Option<&ModelPricing>,
    raw_cost: R,
    round_cost: T,
) -> (result: Result<Float64, ExecutorError>)
    requires
        forall|p: i64, c: i64, m: ModelPricing| #[trigger] raw_cost.requires((p, c, m)),
        forall|cost: Float64| #[trigger] round_cost.requires((cost,)),
    ensures
        is_estimate(
            prompt_tokens,
            completion_tokens,
            prices_of(pricing),
            raw_cost,
            round_cost,
            result,
        ),
{
    let pricing: ModelPricing = match pricing {
        Some(pricing) => *pricing,
        None => {
            return Err(ExecutorError::MissingPricing);
        },
    };
    if prompt_tokens < 0 || completion_tokens < 0 {
        return Err(ExecutorError::InvalidUpstreamResult);
    }
    if !pricing.input_per_million.is_finite_nonnegative()
        || !pricing.output_per_million.is_finite_nonnegative() {
        return Err(ExecutorError::MissingPricing);
    }
    let cost: Float64 = raw_cost(prompt_tokens, completion_tokens, pricing);
    if !cost.is_finite_nonnegative() {
        return Err(ExecutorError::InvalidUpstreamResult);
    }
    let rounded: Float64 = round_cost(cost);
    if !rounded.is_finite_nonnegative() {
        return Err(ExecutorError::InvalidUpstreamResult);
    }
    Ok(rounded)
}

/// An estimate is always a finite number that is not negative, whatever the
/// arithmetic that is handed in brings.
pub proof fn law_estimates_are_finite<
    R: Fn(i64, i64, ModelPricing) -> Float64,
    T: Fn(Float64) -> Float64,
>(
    prompt_tokens: i64,
    completion_tokens: i64,
    pricing: Option<ModelPricing>,
    raw_cost: R,
    round_cost: T,
    result: Result<Float64, ExecutorError>,
)
    requires
        is_estimate(prompt_tokens, completion_tokens, pricing, raw_cost, round_cost, result),
    ensures
        result matches Ok(cost) ==> cost.finite() && !cost.below_zero(),
{
}

} // verus!
