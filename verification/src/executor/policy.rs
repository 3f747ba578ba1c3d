//! Which failures are retried, counted against a circuit, or passed on to a
//! fallback.

use vstd::prelude::*;

use crate::common::contracts::RoutePlan;
use crate::common::deadline::RequestDeadline;
use crate::common::time::{Duration, Instant};
use crate::executor::budget;
use crate::executor::budget::provider_minimum_cannot_fit;
use crate::executor::error::ExecutorError;
use crate::executor::models::ExecutionParams;

verus! {

/// A failure that another attempt on the same hop may mend.
pub open spec fn retryable(error: ExecutorError) -> bool {
    ||| error is NetworkError
    ||| error is TimeoutError
    ||| error is RateLimitExceeded
    ||| error is ApiCallFailed
}

/// A failure that counts against the target's circuit. Throttling and permanent
/// failures say nothing about the target's health.
pub open spec fn circuit_failure(error: ExecutorError) -> bool {
    ||| error is NetworkError
    ||| error is TimeoutError
    ||| error is ApiCallFailed
}

/// A failure after which another target may be tried.
pub open spec fn fallback_eligible(error: ExecutorError) -> bool {
    circuit_failure(error) || error is CircuitOpen
}

/// Whether a hop can satisfy the requested completion length.
pub open spec fn hop_supports(plan: RoutePlan, max_tokens: Option<i64>) -> bool {
    max_tokens matches Some(requested) ==> requested <= plan.max_output_tokens
}

/// The wait that a failure's provider asked for.
pub open spec fn provider_wait(error: ExecutorError) -> Option<Duration> {
    match error {
        ExecutorError::RateLimitExceeded { retry_after_ms: Some(ms), .. } => Some(
            Duration { nanos: (ms * 1_000_000) as u128 },
        ),
        _ => None,
    }
}

/// How a failure ends the whole request when its provider's wait cannot be kept:
/// as an expired deadline when that has passed, else as the throttling itself.
pub open spec fn terminal_error(
    error: ExecutorError,
    deadline: RequestDeadline,
    now: Instant,
) -> Option<ExecutorError> {
    if provider_wait(error) is None {
        None
    } else if deadline.expired(now) {
        Some(ExecutorError::DeadlineExceeded)
    } else if budget::cannot_fit(provider_wait(error), deadline.time_left(now)) {
        Some(error)
    } else {
        None
    }
}

/// Whether another attempt on the same hop may mend the failure.
pub fn is_retryable_error(error: &ExecutorError) -> (yes: bool)
    ensures
        yes == retryable(*error),
{
    matches!(
        error,
        ExecutorError::NetworkError(_)
            | ExecutorError::TimeoutError(_)
            | ExecutorError::RateLimitExceeded { .. }
            | ExecutorError::ApiCallFailed(_)
    )
}

/// Whether the failure counts against the target's circuit.
pub fn is_circuit_failure(error: &ExecutorError) -> (yes: bool)
    ensures
        yes == circuit_failure(*error),
{
    matches!(
        error,
        ExecutorError::NetworkError(_)
            | ExecutorError::TimeoutError(_)
            | ExecutorError::ApiCallFailed(_)
    )
}

/// Whether another target may be tried after the failure.
pub fn is_fallback_eligible(error: &ExecutorError) -> (yes: bool)
    ensures
        yes == fallback_eligible(*error),
{
    matches!(
        error,
        ExecutorError::NetworkError(_)
            | ExecutorError::TimeoutError(_)
            | ExecutorError::ApiCallFailed(_)
            | ExecutorError::CircuitOpen { .. }
    )
}

/// Whether a hop can satisfy the requested completion length.
pub fn hop_supports_params(plan: &RoutePlan, params: &ExecutionParams) -> (yes: bool)
    ensures
        yes == hop_supports(*plan, params.max_tokens),
{
    match params.max_tokens {
        Some(requested) => requested <= plan.max_output_tokens as i64,
        None => true,
    }
}

/// The wait that a failure's provider asked for.
pub fn provider_retry_after(error: &ExecutorError) -> (wait: Option<Duration>)
    ensures
        wait == provider_wait(*error),
{
    match error {
        ExecutorError::RateLimitExceeded { retry_after_ms: Some(ms), .. } => {
            let wait: Duration = Duration::from_millis(*ms);
            assert(wait == (Duration { nanos: (*ms * 1_000_000) as u128 }));
            Some(wait)
        },
        _ => None,
    }
}

/// Terminates the whole request when a valid Retry-After cannot fit.
///
/// Actual deadline expiry is `DeadlineExceeded` (504). A provider minimum
/// that cannot finish in remaining time is `RateLimitExceeded` (429) and
/// must not start later retries or configured fallbacks.
pub fn terminate_for_provider_minimum(
    error: &ExecutorError,
    deadline: RequestDeadline,
    now: Instant,
) -> (terminal: Option<ExecutorError>)
    ensures
        terminal == terminal_error(*error, deadline, now),
{
    let wait: Option<Duration> = provider_retry_after(error);
    if wait.is_none() {
        return None;
    }
    if deadline.is_expired(now) {
        return Some(ExecutorError::DeadlineExceeded);
    }
    if provider_minimum_cannot_fit(wait, deadline.remaining(now)) {
        Some(error.clone())
    } else {
        None
    }
}

} // verus!
