//! What each way a call can end leads to.
//!
//! Failures are named by their variant, circuits by their phase and time by its
//! nanoseconds, so that these laws can be read without the functions that decide.

use vstd::prelude::*;

use crate::common::contracts::RoutePlan;
use crate::common::deadline::RequestDeadline;
use crate::common::time::{Duration, Instant};
use crate::executor::budget::{backoff_window_ms, JitterSource};
use crate::executor::circuit::{
    CircuitPhase, CompletionOutcome, RegistryView, TargetCircuitRegistry,
};
use crate::executor::circuit_laws;
use crate::executor::error::ExecutorError;
use crate::executor::models::{ExecutionParams, ExecutionResult};
use crate::executor::run::{
    begin, AttemptEnd, Backoff, BackoffView, CallView, ExecutionPolicy, PendingCall, RequestView,
    RunView, Step, StepView,
};

verus! {

/// Whether fallback number `i` of a plan can satisfy the requested completion
/// length and its circuit lets a call start at `now`.
pub open spec fn can_take_over(
    plan: RoutePlan,
    i: int,
    max_tokens: Option<i64>,
    registry: RegistryView,
    now: Instant,
) -> bool {
    let fallback = plan.fallback_plans@[i];
    &&& max_tokens matches Some(requested) ==> requested <= fallback.max_output_tokens
    &&& circuit_laws::lets_through(circuit_laws::recorded(registry, fallback.target_id@), now)
}

/// Whether a call with this longest time ended in `error`: it returned it, it
/// ran out of time after its headers said so, or it ran out of time with nothing
/// said.
pub open spec fn ended_in(end: AttemptEnd, timeout: Duration, error: ExecutorError) -> bool {
    match end {
        AttemptEnd::Completed(Ok(_)) => false,
        AttemptEnd::Completed(Err(failure)) => error == failure,
        AttemptEnd::TimedOut { observed: Some(failure) } => error == failure,
        AttemptEnd::TimedOut { observed: None } => error matches ExecutorError::TimeoutError(ms)
            && ms == (if timeout.nanos as int / 1_000_000 <= u64::MAX {
            timeout.nanos as int / 1_000_000
        } else {
            u64::MAX as int
        }),
    }
}

/// The smaller of two spans.
pub open spec fn shorter(a: Duration, b: int) -> int {
    if a.nanos <= b {
        a.nanos as int
    } else {
        b
    }
}

/// Whether `next` is one more call of the same run, with the time that is left
/// at `now` as its longest time where that is shorter than an attempt's.
pub open spec fn is_next_call(next: CallView, before: RunView, now: Instant) -> bool {
    &&& next.run.request == (RequestView {
        started: before.request.started + 1,
        ..before.request
    })
    &&& next.run.hop == before.hop
    &&& next.run.permit == before.permit
    &&& next.run.primary_error == before.primary_error
    &&& next.timeout.nanos == shorter(
        before.request.policy.attempt_timeout,
        before.request.deadline.at.nanos - now.nanos,
    )
}

/// Whether `next` is the first call on fallback number `i` of a request, after
/// the primary was given up for `failure`.
pub open spec fn is_first_call(
    next: CallView,
    before: RequestView,
    i: int,
    failure: ExecutorError,
    now: Instant,
) -> bool {
    &&& next.run.request == (RequestView { started: before.started + 1, ..before })
    &&& next.run.hop == i + 1
    &&& next.run.attempt == 0
    &&& next.run.permit.target == before.plan.fallback_plans@[i].target_id@
    &&& next.run.primary_error == Some(failure)
    &&& next.timeout.nanos == shorter(
        before.policy.attempt_timeout,
        before.deadline.at.nanos - now.nanos,
    )
}

/// What a request reports when it ends with a failure on this hop: the primary's
/// failure, which on the primary itself is this one.
pub open spec fn answered_with(run: RunView, error: ExecutorError) -> ExecutorError {
    match run.primary_error {
        Some(primary) => primary,
        None => error,
    }
}

proof fn lemma_first_fallback(
    request: RequestView,
    from: nat,
    i: int,
    registry: RegistryView,
    now: Instant,
)
    requires
        1 <= from <= i + 1,
        i < request.plan.fallback_plans@.len(),
        can_take_over(request.plan, i, request.params.max_tokens, registry, now),
        forall|k: int|
            from - 1 <= k < i ==> !#[trigger] can_take_over(
                request.plan,
                k,
                request.params.max_tokens,
                registry,
                now,
            ),
    ensures
        request.first_open_hop(from, registry, now) == Some((i + 1) as nat),
    decreases i + 1 - from,
{
    if from < i + 1 {
        assert(!can_take_over(
            request.plan,
            from - 1,
            request.params.max_tokens,
            registry,
            now,
        ));
        lemma_first_fallback(request, from + 1, i, registry, now);
    }
}

proof fn lemma_no_fallback(request: RequestView, from: nat, registry: RegistryView, now: Instant)
    requires
        1 <= from,
        forall|k: int|
            from - 1 <= k < request.plan.fallback_plans@.len() ==> !#[trigger] can_take_over(
                request.plan,
                k,
                request.params.max_tokens,
                registry,
                now,
            ),
    ensures
        request.first_open_hop(from, registry, now) is None,
    decreases request.plan.hop_count() - from,
{
    if from < request.plan.hop_count() {
        assert(!can_take_over(
            request.plan,
            from - 1,
            request.params.max_tokens,
            registry,
            now,
        ));
        lemma_no_fallback(request, from + 1, registry, now);
    }
}

/// A transport failure, an attempt that timed out and a provider's server error
/// move a request on once the hop has no retry left: while budget remains, the
/// next step calls the first later fallback that can satisfy the request and
/// whose circuit lets a call start, under the same deadline and with the same
/// parameters. The failure has been counted against the hop's own target.
pub proof fn law_transient_failure_moves_on(
    call: CallView,
    end: AttemptEnd,
    sample: u64,
    registry: RegistryView,
    now: Instant,
    error: ExecutorError,
    i: int,
)
    requires
        now.nanos < call.run.request.deadline.at.nanos,
        ended_in(end, call.timeout, error),
        error is NetworkError || error is TimeoutError || error is ApiCallFailed,
        call.run.attempt >= call.run.request.policy.max_retries,
        call.run.request.started < call.run.request.max_total,
        call.run.hop <= i < call.run.request.plan.fallback_plans@.len(),
        ({
            let counted = registry.after_complete(
                call.run.permit,
                CompletionOutcome::TransientFailure,
                now,
            );
            let request = call.run.request;
            &&& can_take_over(request.plan, i, request.params.max_tokens, counted, now)
            &&& forall|k: int|
                call.run.hop <= k < i ==> !#[trigger] can_take_over(
                    request.plan,
                    k,
                    request.params.max_tokens,
                    counted,
                    now,
                )
        }),
    ensures
        call.ended(end, sample, registry, now).0 matches StepView::Call(next) && is_first_call(
            next,
            call.run.request,
            i,
            answered_with(call.run, error),
            now,
        ),
        call.ended(end, sample, registry, now).1 == registry.after_complete(
            call.run.permit,
            CompletionOutcome::TransientFailure,
            now,
        ).after_admit(call.run.request.plan.fallback_plans@[i].target_id@, now),
{
    let counted = registry.after_complete(
        call.run.permit,
        CompletionOutcome::TransientFailure,
        now,
    );
    lemma_first_fallback(call.run.request, call.run.hop + 1, i, counted, now);
}

/// Where no later fallback can take over, or no call is left in the budget, a
/// transient failure without a retry left ends the request with the primary's
/// failure. It has been counted against the hop's own target, and no other
/// circuit is asked.
pub proof fn law_transient_failure_without_fallback_ends(
    call: CallView,
    end: AttemptEnd,
    sample: u64,
    registry: RegistryView,
    now: Instant,
    error: ExecutorError,
)
    requires
        now.nanos < call.run.request.deadline.at.nanos,
        ended_in(end, call.timeout, error),
        error is NetworkError || error is TimeoutError || error is ApiCallFailed,
        call.run.attempt >= call.run.request.policy.max_retries || call.run.request.started
            >= call.run.request.max_total,
        call.run.request.started >= call.run.request.max_total || forall|k: int|
            call.run.hop <= k < call.run.request.plan.fallback_plans@.len()
                ==> !#[trigger] can_take_over(
                call.run.request.plan,
                k,
                call.run.request.params.max_tokens,
                registry.after_complete(call.run.permit, CompletionOutcome::TransientFailure, now),
                now,
            ),
    ensures
        call.ended(end, sample, registry, now) == (
            StepView::Finish(Err(answered_with(call.run, error))),
            registry.after_complete(call.run.permit, CompletionOutcome::TransientFailure, now),
        ),
{
    if call.run.request.started < call.run.request.max_total {
        lemma_no_fallback(
            call.run.request,
            call.run.hop + 1,
            registry.after_complete(call.run.permit, CompletionOutcome::TransientFailure, now),
            now,
        );
    }
}

/// While a retry and budget are left, a transient failure, and throttling that
/// names no wait, are followed by another call on the same hop: at once for a
/// jitter sample of zero, else after exactly that many milliseconds. A wait that
/// would outlast the deadline ends the request as expired and blames no target.
pub proof fn law_failure_is_retried(
    call: CallView,
    end: AttemptEnd,
    sample: u64,
    registry: RegistryView,
    now: Instant,
    error: ExecutorError,
)
    requires
        now.nanos < call.run.request.deadline.at.nanos,
        ended_in(end, call.timeout, error),
        error is NetworkError || error is TimeoutError || error is ApiCallFailed || error
            matches ExecutorError::RateLimitExceeded { retry_after_ms: None, .. },
        call.run.attempt < call.run.request.policy.max_retries,
        call.run.request.started < call.run.request.max_total,
    ensures
        ({
            let (step, after) = call.ended(end, sample, registry, now);
            if sample == 0 {
                &&& step matches StepView::Call(next) && is_next_call(next, call.run, now)
                    && next.run.attempt == call.run.attempt + 1
                &&& after == registry
            } else if sample * 1_000_000 <= call.run.request.deadline.at.nanos - now.nanos {
                &&& step matches StepView::Sleep(backoff) && backoff.wait.nanos == sample
                    * 1_000_000 && backoff.run == (RunView {
                    attempt: call.run.attempt + 1,
                    ..call.run
                }) && backoff.error == error
                &&& after == registry
            } else {
                &&& step == StepView::Finish(Err(ExecutorError::DeadlineExceeded))
                &&& after == registry.after_release(call.run.permit)
            }
        }),
{
}

/// Throttling that names a wait: one that would outlast the deadline ends the
/// whole request as that throttling. Otherwise the next call on the same hop
/// comes after exactly that wait while a retry and budget are left, and the
/// request ends with the primary's failure when not. No fallback is called.
pub proof fn law_provider_wait_is_kept(
    call: CallView,
    end: AttemptEnd,
    sample: u64,
    registry: RegistryView,
    now: Instant,
    vendor: String,
    ms: u64,
)
    requires
        now.nanos < call.run.request.deadline.at.nanos,
        ended_in(
            end,
            call.timeout,
            ExecutorError::RateLimitExceeded { vendor, retry_after_ms: Some(ms) },
        ),
    ensures
        ({
            let error = ExecutorError::RateLimitExceeded { vendor, retry_after_ms: Some(ms) };
            let (step, after) = call.ended(end, sample, registry, now);
            let ignored = registry.after_complete(
                call.run.permit,
                CompletionOutcome::Permanent,
                now,
            );
            if ms * 1_000_000 > call.run.request.deadline.at.nanos - now.nanos {
                step == StepView::Finish(Err(error)) && after == ignored
            } else if call.run.attempt >= call.run.request.policy.max_retries
                || call.run.request.started >= call.run.request.max_total {
                step == StepView::Finish(Err(answered_with(call.run, error))) && after == ignored
            } else if ms == 0 {
                &&& step matches StepView::Call(next) && is_next_call(next, call.run, now)
                    && next.run.attempt == call.run.attempt + 1
                &&& after == registry
            } else {
                &&& step matches StepView::Sleep(backoff) && backoff.wait.nanos == ms * 1_000_000
                    && backoff.run == (RunView { attempt: call.run.attempt + 1, ..call.run })
                    && backoff.error == error
                &&& after == registry
            }
        }),
{
}

/// Throttling that names no wait and has no retry left ends the request with the
/// primary's failure. No fallback is called, and the target is not blamed.
pub proof fn law_throttling_does_not_switch(
    call: CallView,
    end: AttemptEnd,
    sample: u64,
    registry: RegistryView,
    now: Instant,
    error: ExecutorError,
)
    requires
        now.nanos < call.run.request.deadline.at.nanos,
        ended_in(end, call.timeout, error),
        error matches ExecutorError::RateLimitExceeded { retry_after_ms: None, .. },
        call.run.attempt >= call.run.request.policy.max_retries || call.run.request.started
            >= call.run.request.max_total,
    ensures
        call.ended(end, sample, registry, now) == (
            StepView::Finish(Err(answered_with(call.run, error))),
            registry.after_complete(call.run.permit, CompletionOutcome::Permanent, now),
        ),
{
}

/// Refused credentials, exhausted quota, rejected requests, unusable answers and
/// faults of the request or the configuration end the request at once with the
/// primary's failure: no retry, no fallback, and the target is not blamed.
pub proof fn law_permanent_failure_is_final(
    call: CallView,
    end: AttemptEnd,
    sample: u64,
    registry: RegistryView,
    now: Instant,
    error: ExecutorError,
)
    requires
        now.nanos < call.run.request.deadline.at.nanos,
        ended_in(end, call.timeout, error),
        error is AuthenticationFailed || error is QuotaExceeded || error is UpstreamRejected
            || error is JsonError || error is InvalidUpstreamResult || error is MissingPricing
            || error is InvalidPayload || error is UnsupportedVendor || error is UnsupportedModel
            || error is NoVendorsConfigured || error is InvalidConfiguration,
    ensures
        call.ended(end, sample, registry, now) == (
            StepView::Finish(Err(answered_with(call.run, error))),
            registry.after_complete(call.run.permit, CompletionOutcome::Permanent, now),
        ),
{
}

/// A result that arrives before the deadline is the answer, unchanged, and the
/// target counts as healthy.
pub proof fn law_result_in_time_is_the_answer(
    call: CallView,
    result: ExecutionResult,
    sample: u64,
    registry: RegistryView,
    now: Instant,
)
    requires
        now.nanos < call.run.request.deadline.at.nanos,
    ensures
        call.ended(AttemptEnd::Completed(Ok(result)), sample, registry, now) == (
            StepView::Finish(Ok(result)),
            registry.after_complete(call.run.permit, CompletionOutcome::Success, now),
        ),
{
}

/// At and after the deadline the answer is an expired deadline, whatever a call
/// brought or a wait was for, and no target is blamed.
pub proof fn law_deadline_decides_first(
    call: CallView,
    end: AttemptEnd,
    sample: u64,
    backoff: BackoffView,
    registry: RegistryView,
    now: Instant,
)
    ensures
        now.nanos >= call.run.request.deadline.at.nanos ==> call.ended(end, sample, registry, now)
            == (
            StepView::Finish(Err(ExecutorError::DeadlineExceeded)),
            registry.after_release(call.run.permit),
        ),
        now.nanos >= backoff.run.request.deadline.at.nanos ==> backoff.woken(registry, now) == (
            StepView::Finish(Err(ExecutorError::DeadlineExceeded)),
            registry.after_release(backoff.run.permit),
        ),
{
}

/// A wait that ends before the deadline is followed by the call that it was for,
/// on the same hop and attempt, and asks no circuit again.
pub proof fn law_wait_is_followed_by_its_call(
    backoff: BackoffView,
    registry: RegistryView,
    now: Instant,
)
    requires
        now.nanos < backoff.run.request.deadline.at.nanos,
        backoff.run.request.started < backoff.run.request.max_total,
    ensures
        backoff.woken(registry, now).0 matches StepView::Call(next) && is_next_call(
            next,
            backoff.run,
            now,
        ) && next.run.attempt == backoff.run.attempt,
        backoff.woken(registry, now).1 == registry,
{
}

/// A wait that ends before the deadline with no call left in the budget ends the
/// request with the primary's failure. Only a transient failure counts against
/// the target.
pub proof fn law_wait_without_budget_ends(
    backoff: BackoffView,
    registry: RegistryView,
    now: Instant,
)
    requires
        now.nanos < backoff.run.request.deadline.at.nanos,
        backoff.run.request.started >= backoff.run.request.max_total,
        backoff.error is NetworkError || backoff.error is TimeoutError || backoff.error
            is ApiCallFailed || (backoff.error matches ExecutorError::RateLimitExceeded {
            retry_after_ms: None,
            ..
        }),
    ensures
        backoff.woken(registry, now) == (
            StepView::Finish(Err(answered_with(backoff.run, backoff.error))),
            registry.after_complete(
                backoff.run.permit,
                if backoff.error is RateLimitExceeded {
                    CompletionOutcome::Permanent
                } else {
                    CompletionOutcome::TransientFailure
                },
                now,
            ),
        ),
{
}

/// A call that reports an expired deadline ends the request as expired and blames
/// no target, whatever is left.
pub proof fn law_reported_deadline_ends(
    call: CallView,
    end: AttemptEnd,
    sample: u64,
    registry: RegistryView,
    now: Instant,
)
    requires
        ended_in(end, call.timeout, ExecutorError::DeadlineExceeded),
    ensures
        call.ended(end, sample, registry, now) == (
            StepView::Finish(Err(ExecutorError::DeadlineExceeded)),
            registry.after_release(call.run.permit),
        ),
{
}

/// A call that reports an open circuit is not retried and blames no target. The
/// first later fallback that can take over is called while budget remains; else
/// the primary's failure is the answer.
pub proof fn law_reported_open_circuit_moves_on(
    call: CallView,
    end: AttemptEnd,
    sample: u64,
    registry: RegistryView,
    now: Instant,
    error: ExecutorError,
    i: int,
)
    requires
        now.nanos < call.run.request.deadline.at.nanos,
        ended_in(end, call.timeout, error),
        error is CircuitOpen,
        call.run.hop <= i <= call.run.request.plan.fallback_plans@.len(),
        ({
            let after = registry.after_complete(
                call.run.permit,
                CompletionOutcome::Permanent,
                now,
            );
            let request = call.run.request;
            &&& i < request.plan.fallback_plans@.len() ==> can_take_over(
                request.plan,
                i,
                request.params.max_tokens,
                after,
                now,
            )
            &&& forall|k: int|
                call.run.hop <= k < i ==> !#[trigger] can_take_over(
                    request.plan,
                    k,
                    request.params.max_tokens,
                    after,
                    now,
                )
        }),
    ensures
        ({
            let step = call.ended(end, sample, registry, now).0;
            let failure = answered_with(call.run, error);
            if i < call.run.request.plan.fallback_plans@.len() && call.run.request.started
                < call.run.request.max_total {
                step matches StepView::Call(next) && is_first_call(
                    next,
                    call.run.request,
                    i,
                    failure,
                    now,
                )
            } else {
                step == StepView::Finish(Err(failure))
            }
        }),
{
    let after = registry.after_complete(call.run.permit, CompletionOutcome::Permanent, now);
    if i < call.run.request.plan.fallback_plans@.len() {
        lemma_first_fallback(call.run.request, call.run.hop + 1, i, after, now);
    } else {
        lemma_no_fallback(call.run.request, call.run.hop + 1, after, now);
    }
}

/// A call is made as its step says: on the plan's own hop for the primary and on
/// the listed fallback after it, with the request's parameters, for at most the
/// step's time.
pub proof fn law_call_is_made_as_planned(
    call: &PendingCall,
    plan: &RoutePlan,
    params: &ExecutionParams,
    hop: usize,
    attempt: u32,
    timeout: Duration,
    now: Instant,
    expired: bool,
)
    requires
        call_ensures(PendingCall::plan, (call,), plan),
        call_ensures(PendingCall::params, (call,), params),
        call_ensures(PendingCall::hop, (call,), hop),
        call_ensures(PendingCall::attempt, (call,), attempt),
        call_ensures(PendingCall::timeout, (call,), timeout),
        call_ensures(PendingCall::is_expired, (call, now), expired),
    ensures
        call@.run.hop == 0 ==> *plan == call@.run.request.plan,
        call@.run.hop > 0 ==> *plan == call@.run.request.plan.fallback_plans@[call@.run.hop - 1],
        *params == call@.run.request.params,
        hop == call@.run.hop,
        attempt == call@.run.attempt,
        timeout == call@.timeout,
        expired <==> now.nanos >= call@.run.request.deadline.at.nanos,
{
}

/// The same of a wait: it is on the hop that is retried and takes the step's time.
pub proof fn law_wait_is_made_as_planned(backoff: &Backoff, plan: &RoutePlan, wait: Duration)
    requires
        call_ensures(Backoff::plan, (backoff,), plan),
        call_ensures(Backoff::wait, (backoff,), wait),
    ensures
        backoff@.run.hop == 0 ==> *plan == backoff@.run.request.plan,
        backoff@.run.hop > 0 ==> *plan == backoff@.run.request.plan.fallback_plans@[backoff@.run.hop
            - 1],
        wait == backoff@.wait,
{
}

/// A request that is in time and whose primary's circuit lets a call start calls
/// the primary, whatever the primary's own cap, as its first counted call.
pub proof fn law_primary_is_called_first(
    request: RequestView,
    registry: RegistryView,
    now: Instant,
)
    requires
        now.nanos < request.deadline.at.nanos,
        circuit_laws::lets_through(circuit_laws::recorded(registry, request.plan.target_id@), now),
    ensures
        request.begin(registry, now).0 matches StepView::Call(next) && {
            &&& next.run.request == (RequestView { started: request.started + 1, ..request })
            &&& next.run.hop == 0
            &&& next.run.attempt == 0
            &&& next.run.permit.target == request.plan.target_id@
            &&& next.run.primary_error is None
            &&& next.timeout.nanos == shorter(
                request.policy.attempt_timeout,
                request.deadline.at.nanos - now.nanos,
            )
        },
        request.begin(registry, now).1 == registry.after_admit(request.plan.target_id@, now),
{
}

/// A request whose primary's circuit lets no call start goes to the first
/// fallback that can take over, with an open circuit of the primary's vendor as
/// the primary's failure; where none can, that is the answer and nothing
/// changes.
pub proof fn law_open_primary_is_passed_over(
    request: RequestView,
    registry: RegistryView,
    now: Instant,
    i: int,
)
    requires
        now.nanos < request.deadline.at.nanos,
        request.started < request.max_total,
        !circuit_laws::lets_through(circuit_laws::recorded(registry, request.plan.target_id@), now),
        0 <= i <= request.plan.fallback_plans@.len(),
        i < request.plan.fallback_plans@.len() ==> can_take_over(
            request.plan,
            i,
            request.params.max_tokens,
            registry,
            now,
        ),
        forall|k: int|
            0 <= k < i ==> !#[trigger] can_take_over(
                request.plan,
                k,
                request.params.max_tokens,
                registry,
                now,
            ),
    ensures
        ({
            let (step, after) = request.begin(registry, now);
            let failure = ExecutorError::CircuitOpen {
                vendor: request.plan.vendor_id,
                retry_after_ms: circuit_laws::told_to_wait(registry, request.plan.target_id@, now) as u64,
            };
            if i < request.plan.fallback_plans@.len() {
                &&& step matches StepView::Call(next) && is_first_call(
                    next,
                    request,
                    i,
                    failure,
                    now,
                )
                &&& after == registry.after_admit(
                    request.plan.fallback_plans@[i].target_id@,
                    now,
                )
            } else {
                step == StepView::Finish(Err(failure)) && after == registry
            }
        }),
{
    if i < request.plan.fallback_plans@.len() {
        lemma_first_fallback(request, 1, i, registry, now);
    } else {
        lemma_no_fallback(request, 1, registry, now);
    }
}

/// A hop that ends for good, in time, with a transport failure, a timeout or a
/// provider's server error counts against its target: a closed circuit has one
/// more failure on record, or is open for a whole cooldown once that reaches the
/// threshold, and a probe's circuit is open again. No other circuit is touched
/// but that of the fallback which is called next.
pub proof fn law_transient_failure_counts(
    call: CallView,
    end: AttemptEnd,
    sample: u64,
    registry: RegistryView,
    now: Instant,
    error: ExecutorError,
    other: Seq<char>,
)
    requires
        now.nanos < call.run.request.deadline.at.nanos,
        ended_in(end, call.timeout, error),
        error is NetworkError || error is TimeoutError || error is ApiCallFailed,
        call.run.attempt >= call.run.request.policy.max_retries || call.run.request.started
            >= call.run.request.max_total,
        circuit_laws::still_owns(registry, call.run.permit),
        call.ended(end, sample, registry, now).0 matches StepView::Call(next)
            ==> next.run.permit.target != call.run.permit.target && next.run.permit.target != other,
    ensures
        ({
            let before = circuit_laws::recorded(registry, call.run.permit.target);
            let after = circuit_laws::recorded(
                call.ended(end, sample, registry, now).1,
                call.run.permit.target,
            );
            let reopened = now.nanos + registry.cooldown.nanos;
            match before.phase {
                CircuitPhase::Closed { failures } => if failures + 1 < registry.threshold {
                    after.phase == (CircuitPhase::Closed { failures: (failures + 1) as u32 })
                        && after.generation == before.generation
                } else {
                    after.phase matches CircuitPhase::Open { opened_until } && opened_until.nanos
                        == (if reopened <= u128::MAX {
                        reopened
                    } else {
                        u128::MAX as int
                    }) && after.generation != before.generation
                },
                _ => after.phase matches CircuitPhase::Open { opened_until } && opened_until.nanos
                    == (if reopened <= u128::MAX {
                    reopened
                } else {
                    u128::MAX as int
                }) && after.generation != before.generation,
            }
        }),
        other != call.run.permit.target ==> circuit_laws::recorded(
            call.ended(end, sample, registry, now).1,
            other,
        ) == circuit_laws::recorded(registry, other),
{
    let counted = registry.after_complete(
        call.run.permit,
        CompletionOutcome::TransientFailure,
        now,
    );
    let request = call.run.request;
    if request.started < request.max_total && exists|k: int|
        call.run.hop <= k < request.plan.fallback_plans@.len() && #[trigger] can_take_over(
            request.plan,
            k,
            request.params.max_tokens,
            counted,
            now,
        ) {
        let i = lemma_least(request, call.run.hop as int, counted, now);
        law_transient_failure_moves_on(call, end, sample, registry, now, error, i);
    } else {
        law_transient_failure_without_fallback_ends(call, end, sample, registry, now, error);
    }
}

/// The failure that reaches the threshold blocks the next request: until the
/// cooldown has passed, a request whose only target is the failed one makes no
/// call and is answered with an open circuit. From then on it is called again.
pub proof fn law_threshold_blocks_the_next_request(
    call: CallView,
    end: AttemptEnd,
    sample: u64,
    registry: RegistryView,
    now: Instant,
    error: ExecutorError,
    next: RequestView,
    later: Instant,
)
    requires
        now.nanos < call.run.request.deadline.at.nanos,
        ended_in(end, call.timeout, error),
        error is NetworkError || error is TimeoutError || error is ApiCallFailed,
        call.run.attempt >= call.run.request.policy.max_retries,
        call.run.hop >= call.run.request.plan.fallback_plans@.len(),
        circuit_laws::still_owns(registry, call.run.permit),
        circuit_laws::recorded(registry, call.run.permit.target).phase matches CircuitPhase::Closed {
            failures,
        } ==> failures + 1 >= registry.threshold,
        now.nanos + registry.cooldown.nanos <= u128::MAX,
        next.plan.target_id@ == call.run.permit.target,
        next.plan.fallback_plans@.len() == 0,
        later.nanos < next.deadline.at.nanos,
    ensures
        ({
            let after = call.ended(end, sample, registry, now).1;
            let (step, circuits) = next.begin(after, later);
            if later.nanos < now.nanos + registry.cooldown.nanos {
                step matches StepView::Finish(Err(failure)) && failure is CircuitOpen && circuits
                    == after
            } else {
                step matches StepView::Call(again) && again.run.hop == 0
            }
        }),
{
    law_transient_failure_without_fallback_ends(call, end, sample, registry, now, error);
    let after = call.ended(end, sample, registry, now).1;
    if later.nanos < now.nanos + registry.cooldown.nanos {
        lemma_no_fallback(next, 1, after, later);
    }
}

proof fn lemma_least(
    request: RequestView,
    from: int,
    registry: RegistryView,
    now: Instant,
) -> (i: int)
    requires
        0 <= from,
        exists|k: int|
            from <= k < request.plan.fallback_plans@.len() && #[trigger] can_take_over(
                request.plan,
                k,
                request.params.max_tokens,
                registry,
                now,
            ),
    ensures
        from <= i < request.plan.fallback_plans@.len(),
        can_take_over(request.plan, i, request.params.max_tokens, registry, now),
        forall|k: int|
            from <= k < i ==> !#[trigger] can_take_over(
                request.plan,
                k,
                request.params.max_tokens,
                registry,
                now,
            ),
    decreases request.plan.fallback_plans@.len() - from,
{
    if can_take_over(request.plan, from, request.params.max_tokens, registry, now) {
        from
    } else {
        lemma_least(request, from + 1, registry, now)
    }
}

proof fn lemma_finish<J: JitterSource>(
    call: PendingCall,
    end: AttemptEnd,
    circuits: &mut TargetCircuitRegistry,
    now: Instant,
    rng: &mut J,
    step: Step,
)
    requires
        call_ensures(PendingCall::finish::<J>, (call, end, circuits, now, rng), step),
    ensures
        exists|sample: u64|
            (step@, final(circuits)@) == #[trigger] call@.ended(end, sample, old(circuits)@, now)
                && (sample > 0 ==> sample <= call@.run.jitter_window()),
{
    if !call@.draws(end, now) {
        assert((step@, final(circuits)@) == call@.ended(end, 0, old(circuits)@, now));
    }
}

/// Finishing a call that failed transiently with no retry left calls the first
/// later fallback that can take over, while budget remains.
pub proof fn law_finish_moves_on<J: JitterSource>(
    call: PendingCall,
    end: AttemptEnd,
    circuits: &mut TargetCircuitRegistry,
    now: Instant,
    rng: &mut J,
    step: Step,
    error: ExecutorError,
    i: int,
)
    requires
        call_ensures(PendingCall::finish::<J>, (call, end, circuits, now, rng), step),
        now.nanos < call@.run.request.deadline.at.nanos,
        ended_in(end, call@.timeout, error),
        error is NetworkError || error is TimeoutError || error is ApiCallFailed,
        call@.run.attempt >= call@.run.request.policy.max_retries,
        call@.run.request.started < call@.run.request.max_total,
        call@.run.hop <= i < call@.run.request.plan.fallback_plans@.len(),
        ({
            let counted = old(circuits)@.after_complete(
                call@.run.permit,
                CompletionOutcome::TransientFailure,
                now,
            );
            let request = call@.run.request;
            &&& can_take_over(request.plan, i, request.params.max_tokens, counted, now)
            &&& forall|k: int|
                call@.run.hop <= k < i ==> !#[trigger] can_take_over(
                    request.plan,
                    k,
                    request.params.max_tokens,
                    counted,
                    now,
                )
        }),
    ensures
        step@ matches StepView::Call(next) && is_first_call(
            next,
            call@.run.request,
            i,
            answered_with(call@.run, error),
            now,
        ),
{
    lemma_finish(call, end, circuits, now, rng, step);
    let sample = choose|sample: u64|
        (step@, final(circuits)@) == #[trigger] call@.ended(end, sample, old(circuits)@, now) && (
        sample > 0 ==> sample <= call@.run.jitter_window());
    law_transient_failure_moves_on(call@, end, sample, old(circuits)@, now, error, i);
}

/// Finishing a call that failed transiently with no retry left counts against its
/// target: one more failure on record, or the circuit open for a whole cooldown
/// at the threshold or after a probe.
pub proof fn law_finish_counts_transient_failures<J: JitterSource>(
    call: PendingCall,
    end: AttemptEnd,
    circuits: &mut TargetCircuitRegistry,
    now: Instant,
    rng: &mut J,
    step: Step,
    error: ExecutorError,
)
    requires
        call_ensures(PendingCall::finish::<J>, (call, end, circuits, now, rng), step),
        now.nanos < call@.run.request.deadline.at.nanos,
        ended_in(end, call@.timeout, error),
        error is NetworkError || error is TimeoutError || error is ApiCallFailed,
        call@.run.attempt >= call@.run.request.policy.max_retries || call@.run.request.started
            >= call@.run.request.max_total,
        circuit_laws::still_owns(old(circuits)@, call@.run.permit),
        step@ matches StepView::Call(next) ==> next.run.permit.target != call@.run.permit.target,
    ensures
        ({
            let before = circuit_laws::recorded(old(circuits)@, call@.run.permit.target).phase;
            let after = circuit_laws::recorded(final(circuits)@, call@.run.permit.target).phase;
            match before {
                CircuitPhase::Closed { failures } => if failures + 1 < old(circuits)@.threshold {
                    after == (CircuitPhase::Closed { failures: (failures + 1) as u32 })
                } else {
                    after matches CircuitPhase::Open { opened_until } && (opened_until.nanos
                        == now.nanos + old(circuits)@.cooldown.nanos || opened_until.nanos
                        == u128::MAX)
                },
                _ => after matches CircuitPhase::Open { opened_until } && (opened_until.nanos
                    == now.nanos + old(circuits)@.cooldown.nanos || opened_until.nanos
                    == u128::MAX),
            }
        }),
{
    lemma_finish(call, end, circuits, now, rng, step);
    let sample = choose|sample: u64|
        (step@, final(circuits)@) == #[trigger] call@.ended(end, sample, old(circuits)@, now) && (
        sample > 0 ==> sample <= call@.run.jitter_window());
    law_transient_failure_counts(
        call@,
        end,
        sample,
        old(circuits)@,
        now,
        error,
        call@.run.permit.target,
    );
}

/// Finishing a call that returned a result in time answers the request with that
/// result.
pub proof fn law_finish_answers_with_the_result<J: JitterSource>(
    call: PendingCall,
    result: ExecutionResult,
    circuits: &mut TargetCircuitRegistry,
    now: Instant,
    rng: &mut J,
    step: Step,
)
    requires
        call_ensures(
            PendingCall::finish::<J>,
            (call, AttemptEnd::Completed(Ok(result)), circuits, now, rng),
            step,
        ),
        now.nanos < call@.run.request.deadline.at.nanos,
    ensures
        step@ == StepView::Finish(Ok(result)),
        final(circuits)@ == old(circuits)@.after_complete(
            call@.run.permit,
            CompletionOutcome::Success,
            now,
        ),
{
    lemma_finish(call, AttemptEnd::Completed(Ok(result)), circuits, now, rng, step);
}

/// Finishing a call that failed with a retry and budget left stays on the hop:
/// the next call comes at once, or after a wait of at most one second doubled
/// with each attempt and at most the configured cap; only a wait that does not
/// fit the deadline ends the request.
pub proof fn law_finish_retries<J: JitterSource>(
    call: PendingCall,
    end: AttemptEnd,
    circuits: &mut TargetCircuitRegistry,
    now: Instant,
    rng: &mut J,
    step: Step,
    error: ExecutorError,
)
    requires
        call_ensures(PendingCall::finish::<J>, (call, end, circuits, now, rng), step),
        now.nanos < call@.run.request.deadline.at.nanos,
        ended_in(end, call@.timeout, error),
        error is NetworkError || error is TimeoutError || error is ApiCallFailed || error
            matches ExecutorError::RateLimitExceeded { retry_after_ms: None, .. },
        call@.run.attempt < call@.run.request.policy.max_retries,
        call@.run.request.started < call@.run.request.max_total,
    ensures
        match step@ {
            StepView::Call(next) => is_next_call(next, call@.run, now) && next.run.attempt
                == call@.run.attempt + 1,
            StepView::Sleep(backoff) => {
                &&& backoff.run == (RunView { attempt: call@.run.attempt + 1, ..call@.run })
                &&& backoff.error == error
                &&& 0 < backoff.wait.nanos <= 1_000_000_000
                    * vstd::arithmetic::power2::pow2(call@.run.attempt)
                &&& backoff.wait.nanos <= call@.run.request.policy.backoff_cap.nanos
                &&& backoff.wait.nanos <= call@.run.request.deadline.at.nanos - now.nanos
            },
            StepView::Finish(result) => {
                &&& result == Err::<ExecutionResult, ExecutorError>(
                    ExecutorError::DeadlineExceeded,
                )
                &&& call@.run.request.deadline.at.nanos - now.nanos
                    < call@.run.request.policy.backoff_cap.nanos
            },
        },
        !(step@ is Finish) ==> final(circuits)@ == old(circuits)@,
{
    lemma_finish(call, end, circuits, now, rng, step);
    let sample = choose|sample: u64|
        (step@, final(circuits)@) == #[trigger] call@.ended(end, sample, old(circuits)@, now) && (
        sample > 0 ==> sample <= call@.run.jitter_window());
    law_failure_is_retried(call@, end, sample, old(circuits)@, now, error);
    let cap = call@.run.request.policy.backoff_cap.nanos as int;
    assert(cap / 1_000_000 * 1_000_000 <= cap);
}

/// Finishing a call that failed with a retry and budget left draws one sample
/// from the window of that retry, and waits for exactly that sample; a wait that
/// the provider names draws none.
pub proof fn law_finish_draws_from_the_window<J: JitterSource>(
    call: PendingCall,
    end: AttemptEnd,
    circuits: &mut TargetCircuitRegistry,
    now: Instant,
    rng: &mut J,
    step: Step,
    error: ExecutorError,
    cap_ms: u64,
    window: u64,
)
    requires
        call_ensures(PendingCall::finish::<J>, (call, end, circuits, now, rng), step),
        now.nanos < call@.run.request.deadline.at.nanos,
        ended_in(end, call@.timeout, error),
        call@.run.attempt < call@.run.request.policy.max_retries,
        call@.run.request.started < call@.run.request.max_total,
        call@.run.request.policy.backoff_cap.nanos == cap_ms * 1_000_000,
        call_ensures(backoff_window_ms, ((call@.run.attempt + 1) as u32, cap_ms), window),
    ensures
        error is NetworkError || error is TimeoutError || error is ApiCallFailed || (error
            matches ExecutorError::RateLimitExceeded { retry_after_ms: None, .. })
            ==> exists|sample: u64|
            {
                &&& sample <= window
                &&& #[trigger] J::drawn(*old(rng), window, *final(rng), sample)
                &&& sample == 0 <==> step@ is Call
                &&& step@ matches StepView::Sleep(backoff) ==> backoff.wait.nanos == sample
                    * 1_000_000
            },
        error matches ExecutorError::RateLimitExceeded { retry_after_ms: Some(_), .. }
            ==> *final(rng) == *old(rng),
{
    let cap = call@.run.request.policy.backoff_cap;
    assert(cap.nanos as int / 1_000_000 == cap_ms);
    if call@.draws(end, now) {
        let sample = choose|sample: u64|
            {
                &&& #[trigger] J::drawn(
                    *old(rng),
                    call@.run.jitter_window(),
                    *final(rng),
                    sample,
                )
                &&& sample <= call@.run.jitter_window()
                &&& (step@, final(circuits)@) == call@.ended(end, sample, old(circuits)@, now)
            };
        assert(J::drawn(*old(rng), window, *final(rng), sample));
        law_failure_is_retried(call@, end, sample, old(circuits)@, now, error);
    }
}

/// Beginning a request in time whose primary's circuit lets a call start calls
/// the primary with the policy, the deadline and the parameters as given.
pub proof fn law_begin_calls_the_primary(
    plan: RoutePlan,
    params: ExecutionParams,
    deadline: RequestDeadline,
    policy: ExecutionPolicy,
    max_total_attempts: u32,
    circuits: &mut TargetCircuitRegistry,
    now: Instant,
    step: Step,
)
    requires
        call_ensures(
            begin,
            (plan, params, deadline, policy, max_total_attempts, circuits, now),
            step,
        ),
        now.nanos < deadline.at.nanos,
        circuit_laws::lets_through(circuit_laws::recorded(old(circuits)@, plan.target_id@), now),
    ensures
        step@ matches StepView::Call(next) && {
            &&& next.run.request.plan == plan
            &&& next.run.request.params == params
            &&& next.run.request.deadline == deadline
            &&& next.run.request.policy == policy
            &&& next.run.request.max_total == (if max_total_attempts == 0 {
                1
            } else {
                max_total_attempts as int
            })
            &&& next.run.request.started == 1
            &&& next.run.hop == 0
            &&& next.run.attempt == 0
            &&& next.timeout.nanos == shorter(
                policy.attempt_timeout,
                deadline.at.nanos - now.nanos,
            )
        },
{
}

/// Beginning a request whose deadline has passed makes no call and asks no
/// circuit.
pub proof fn law_begin_refuses_expired_requests(
    plan: RoutePlan,
    params: ExecutionParams,
    deadline: RequestDeadline,
    policy: ExecutionPolicy,
    max_total_attempts: u32,
    circuits: &mut TargetCircuitRegistry,
    now: Instant,
    step: Step,
)
    requires
        call_ensures(
            begin,
            (plan, params, deadline, policy, max_total_attempts, circuits, now),
            step,
        ),
        now.nanos >= deadline.at.nanos,
    ensures
        step@ == StepView::Finish(Err(ExecutorError::DeadlineExceeded)),
        final(circuits)@ == old(circuits)@,
{
}

/// Waking from a wait in time makes the call that the wait was for; waking at or
/// after the deadline ends the request and frees what it held.
pub proof fn law_wake_calls_again(
    backoff: Backoff,
    circuits: &mut TargetCircuitRegistry,
    now: Instant,
    step: Step,
)
    requires
        call_ensures(Backoff::wake, (backoff, circuits, now), step),
        backoff@.run.request.started < backoff@.run.request.max_total,
    ensures
        if now.nanos < backoff@.run.request.deadline.at.nanos {
            &&& step@ matches StepView::Call(next) && is_next_call(next, backoff@.run, now)
                && next.run.attempt == backoff@.run.attempt
            &&& final(circuits)@ == old(circuits)@
        } else {
            &&& step@ == StepView::Finish(Err(ExecutorError::DeadlineExceeded))
            &&& final(circuits)@ == old(circuits)@.after_release(backoff@.run.permit)
        },
{
}

/// Giving a request up, during a call or a wait, frees what it held and blames no
/// target.
pub proof fn law_abandoning_blames_no_target(
    call: PendingCall,
    backoff: Backoff,
    circuits: &mut TargetCircuitRegistry,
)
    requires
        call_ensures(PendingCall::abandon, (call, circuits), ()) || call_ensures(
            Backoff::abandon,
            (backoff, circuits),
            (),
        ),
        circuit_laws::still_owns(old(circuits)@, call@.run.permit),
        backoff@.run.permit == call@.run.permit,
    ensures
        circuit_laws::recorded(final(circuits)@, call@.run.permit.target).generation == circuit_laws::recorded(
            old(circuits)@,
            call@.run.permit.target,
        ).generation,
        circuit_laws::recorded(final(circuits)@, call@.run.permit.target).phase == (if call@.run.permit.kind
            is Probe {
            CircuitPhase::HalfOpen { in_flight: false }
        } else {
            circuit_laws::recorded(old(circuits)@, call@.run.permit.target).phase
        }),
{
}

} // verus!
