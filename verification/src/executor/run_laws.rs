//! What holds of every run, however calls end and whatever other requests do to
//! the shared circuits in between.

use vstd::prelude::*;

use crate::common::time::Instant;
use crate::executor::budget;
use crate::executor::circuit::RegistryView;
use crate::executor::error::ExecutorError;
use crate::executor::events;
use crate::executor::models::ExecutionResult;
use crate::executor::policy;
use crate::executor::run::{
    AttemptEnd, CallView, RequestView, RunView, StepView,
};

verus! {

/// What the driver of a run meets at one turn: how a call ended, the jitter
/// sample, and the circuits and clock it reads. A wait uses only the last two.
pub struct Turn {
    pub end: AttemptEnd,
    pub sample: u64,
    pub registry: RegistryView,
    pub now: Instant,
}

/// The step that follows `step` at `turn`. A finished run stays finished.
pub open spec fn advance(step: StepView, turn: Turn) -> StepView {
    match step {
        StepView::Call(call) => call.ended(turn.end, turn.sample, turn.registry, turn.now).0,
        StepView::Sleep(backoff) => backoff.woken(turn.registry, turn.now).0,
        StepView::Finish(_) => step,
    }
}

/// The step reached from `first` after `turns`.
pub open spec fn reached(first: StepView, turns: Seq<Turn>) -> StepView
    decreases turns.len(),
{
    if turns.len() == 0 {
        first
    } else {
        advance(reached(first, turns.drop_last()), turns.last())
    }
}

/// The run that a step belongs to.
pub open spec fn run_of(step: StepView) -> RunView {
    match step {
        StepView::Call(call) => call.run,
        StepView::Sleep(backoff) => backoff.run,
        StepView::Finish(_) => arbitrary(),
    }
}

/// One for a provider call on `hop`, else zero.
pub open spec fn call_on(step: StepView, hop: nat) -> nat {
    if step matches StepView::Call(call) && call.run.hop == hop {
        1
    } else {
        0
    }
}

/// Provider calls made up to and with the step reached after `turns`.
pub open spec fn calls(first: StepView, turns: Seq<Turn>) -> nat
    decreases turns.len(),
{
    let here = if reached(first, turns) is Call {
        1nat
    } else {
        0
    };
    if turns.len() == 0 {
        here
    } else {
        calls(first, turns.drop_last()) + here
    }
}

/// Provider calls on `hop` made up to and with the step reached after `turns`.
pub open spec fn calls_on(first: StepView, turns: Seq<Turn>, hop: nat) -> nat
    decreases turns.len(),
{
    if turns.len() == 0 {
        call_on(first, hop)
    } else {
        calls_on(first, turns.drop_last(), hop) + call_on(reached(first, turns), hop)
    }
}

/// Two views of one request that differ at most in the calls started.
pub open spec fn same_request(a: RequestView, b: RequestView) -> bool {
    b == RequestView { started: b.started, ..a }
}

spec fn sound(step: StepView) -> bool {
    match step {
        StepView::Call(call) => call.run.wf() && 1 <= call.run.request.started,
        StepView::Sleep(backoff) => backoff.run.wf() && 1 <= backoff.run.attempt,
        StepView::Finish(_) => true,
    }
}

/// `after` continues `before`: the same request, the same hop with one more
/// attempt or a later hop afresh.
spec fn continues(before: StepView, after: StepView) -> bool {
    after !is Finish ==> {
        let x = run_of(before);
        let y = run_of(after);
        &&& same_request(x.request, y.request)
        &&& y.request.started == x.request.started + (if after is Call {
            1nat
        } else {
            0nat
        })
        &&& if y.hop == x.hop {
            &&& y.attempt == x.attempt + (if before is Call {
                1nat
            } else {
                0nat
            })
            &&& before is Sleep ==> after is Call
        } else {
            y.hop > x.hop && y.attempt == 0 && after is Call
        }
    }
}

proof fn lemma_first_open_hop(request: RequestView, from: nat, registry: RegistryView, now: Instant)
    ensures
        request.first_open_hop(from, registry, now) matches Some(hop) ==> from <= hop
            < request.plan.hop_count() && request.hop_open(hop, registry, now),
        request.first_open_hop(from, registry, now) is None ==> forall|hop: nat|
            from <= hop < request.plan.hop_count() ==> !#[trigger] request.hop_open(
                hop,
                registry,
                now,
            ),
    decreases request.plan.hop_count() - from,
{
    if from < request.plan.hop_count() && !request.hop_open(from, registry, now) {
        lemma_first_open_hop(request, from + 1, registry, now);
    }
}

proof fn lemma_fall_back(
    request: RequestView,
    from: nat,
    error: ExecutorError,
    registry: RegistryView,
    now: Instant,
)
    requires
        1 <= from,
        request.started <= request.max_total,
    ensures
        ({
            let step = request.fall_back(from, error, registry, now).0;
            &&& sound(step)
            &&& step matches StepView::Call(call) ==> {
                &&& same_request(request, call.run.request)
                &&& call.run.request.started == request.started + 1
                &&& call.run.hop >= from
                &&& call.run.attempt == 0
                &&& call.run.primary_error == Some(error)
            }
            &&& step !is Sleep
        }),
{
    lemma_first_open_hop(request, from, registry, now);
}

proof fn lemma_advance(step: StepView, turn: Turn)
    requires
        sound(step),
        step !is Finish,
    ensures
        sound(advance(step, turn)),
        continues(step, advance(step, turn)),
{
    let run = run_of(step);
    let failed = match step {
        StepView::Call(call) => match call.outcome(turn.end) {
            Err(error) => error,
            Ok(_) => ExecutorError::DeadlineExceeded,
        },
        StepView::Sleep(backoff) => backoff.error,
        StepView::Finish(_) => arbitrary(),
    };
    lemma_fall_back(
        run.request,
        run.hop + 1,
        run.reported(failed),
        run.settled(failed, turn.registry, turn.now),
        turn.now,
    );
}

proof fn lemma_begin(request: RequestView, registry: RegistryView, now: Instant)
    requires
        request.started == 0,
        1 <= request.max_total,
    ensures
        ({
            let step = request.begin(registry, now).0;
            &&& sound(step)
            &&& step !is Sleep
            &&& step is Call ==> same_request(request, run_of(step).request) && run_of(
                step,
            ).request.started == 1 && run_of(step).attempt == 0
        }),
{
    if let Some(retry_after_ms) = registry.rejection(request.target(0), now) {
        lemma_fall_back(
            request,
            1,
            ExecutorError::CircuitOpen { vendor: request.plan.vendor_id, retry_after_ms },
            registry,
            now,
        );
    }
}

spec fn accounted(request: RequestView, first: StepView, turns: Seq<Turn>) -> bool {
    let step = reached(first, turns);
    &&& sound(step)
    &&& step !is Finish ==> same_request(request, run_of(step).request)
    &&& step !is Finish ==> calls(first, turns) == run_of(step).request.started
    &&& calls(first, turns) <= request.max_total
}

proof fn lemma_accounted(
    request: RequestView,
    registry: RegistryView,
    now: Instant,
    turns: Seq<Turn>,
)
    requires
        request.started == 0,
        1 <= request.max_total,
    ensures
        accounted(request, request.begin(registry, now).0, turns),
    decreases turns.len(),
{
    let first = request.begin(registry, now).0;
    if turns.len() == 0 {
        lemma_begin(request, registry, now);
    } else {
        lemma_accounted(request, registry, now, turns.drop_last());
        let before = reached(first, turns.drop_last());
        if before !is Finish {
            lemma_advance(before, turns.last());
        }
    }
}

/// However a request goes, it makes no more provider calls than its budget
/// allows, primary, retries and fallbacks together.
pub proof fn law_total_calls_are_bounded(
    request: RequestView,
    registry: RegistryView,
    now: Instant,
    turns: Seq<Turn>,
)
    requires
        request.started == 0,
        1 <= request.max_total,
    ensures
        calls(request.begin(registry, now).0, turns) <= request.max_total,
{
    lemma_accounted(request, registry, now, turns);
}

spec fn hop_accounted(request: RequestView, first: StepView, turns: Seq<Turn>, hop: nat) -> bool {
    let step = reached(first, turns);
    let count = calls_on(first, turns, hop);
    &&& count <= request.policy.max_retries + 1
    &&& step matches StepView::Call(call) ==> {
        &&& call.run.hop == hop ==> count == call.run.attempt + 1
        &&& call.run.hop < hop ==> count == 0
    }
    &&& step matches StepView::Sleep(backoff) ==> {
        &&& backoff.run.hop == hop ==> count == backoff.run.attempt
        &&& backoff.run.hop < hop ==> count == 0
    }
}

proof fn lemma_hop_accounted(
    request: RequestView,
    registry: RegistryView,
    now: Instant,
    turns: Seq<Turn>,
    hop: nat,
)
    requires
        request.started == 0,
        1 <= request.max_total,
    ensures
        hop_accounted(request, request.begin(registry, now).0, turns, hop),
    decreases turns.len(),
{
    let first = request.begin(registry, now).0;
    if turns.len() == 0 {
        lemma_begin(request, registry, now);
    } else {
        lemma_hop_accounted(request, registry, now, turns.drop_last(), hop);
        lemma_accounted(request, registry, now, turns.drop_last());
        lemma_accounted(request, registry, now, turns);
        let before = reached(first, turns.drop_last());
        if before !is Finish {
            lemma_advance(before, turns.last());
        }
    }
}

/// No target is called more often than its first attempt and its retries.
pub proof fn law_calls_per_hop_are_bounded(
    request: RequestView,
    registry: RegistryView,
    now: Instant,
    turns: Seq<Turn>,
    hop: nat,
)
    requires
        request.started == 0,
        1 <= request.max_total,
    ensures
        calls_on(request.begin(registry, now).0, turns, hop) <= request.policy.max_retries + 1,
{
    lemma_hop_accounted(request, registry, now, turns, hop);
}

/// Every hop that is reached is a hop of the plan, and a later step is never on
/// an earlier hop: targets are tried in the order in which they are declared.
pub proof fn law_hops_follow_declared_order(
    request: RequestView,
    registry: RegistryView,
    now: Instant,
    turns: Seq<Turn>,
    turn: Turn,
)
    requires
        request.started == 0,
        1 <= request.max_total,
        reached(request.begin(registry, now).0, turns) !is Finish,
        reached(request.begin(registry, now).0, turns.push(turn)) !is Finish,
    ensures
        run_of(reached(request.begin(registry, now).0, turns)).hop < request.plan.hop_count(),
        run_of(reached(request.begin(registry, now).0, turns)).hop <= run_of(
            reached(request.begin(registry, now).0, turns.push(turn)),
        ).hop,
{
    lemma_accounted(request, registry, now, turns);
    assert(turns.push(turn).drop_last() =~= turns);
    lemma_advance(reached(request.begin(registry, now).0, turns), turn);
}

spec fn potential(max_total: nat, step: StepView) -> int {
    match step {
        StepView::Call(call) => 2 * (max_total - call.run.request.started) + 1,
        StepView::Sleep(backoff) => 2 * (max_total - backoff.run.request.started),
        StepView::Finish(_) => -1,
    }
}

proof fn lemma_potential(
    request: RequestView,
    registry: RegistryView,
    now: Instant,
    turns: Seq<Turn>,
)
    requires
        request.started == 0,
        1 <= request.max_total,
    ensures
        ({
            let step = reached(request.begin(registry, now).0, turns);
            step is Finish || potential(request.max_total, step) <= 2 * request.max_total - 1
                - turns.len()
        }),
    decreases turns.len(),
{
    let first = request.begin(registry, now).0;
    if turns.len() == 0 {
        lemma_begin(request, registry, now);
    } else {
        lemma_potential(request, registry, now, turns.drop_last());
        lemma_accounted(request, registry, now, turns.drop_last());
        let before = reached(first, turns.drop_last());
        if before !is Finish {
            lemma_advance(before, turns.last());
        }
    }
}

/// A request is over after twice as many turns as it may make calls.
pub proof fn law_requests_finish(
    request: RequestView,
    registry: RegistryView,
    now: Instant,
    turns: Seq<Turn>,
)
    requires
        request.started == 0,
        1 <= request.max_total,
        turns.len() >= 2 * request.max_total,
    ensures
        reached(request.begin(registry, now).0, turns) is Finish,
{
    lemma_potential(request, registry, now, turns);
    lemma_accounted(request, registry, now, turns);
}

/// Once the deadline has passed, the answer is an expired deadline, whatever
/// the call that was out has brought, and no further call starts.
pub proof fn law_expired_deadline_is_authoritative(step: StepView, turn: Turn)
    requires
        step !is Finish,
        run_of(step).request.deadline.expired(turn.now),
    ensures
        advance(step, turn) == StepView::Finish(Err(ExecutorError::DeadlineExceeded)),
{
}

/// A request whose deadline has already passed makes no call and leaves the
/// circuits alone.
pub proof fn law_expired_request_makes_no_call(
    request: RequestView,
    registry: RegistryView,
    now: Instant,
)
    requires
        request.deadline.expired(now),
    ensures
        request.begin(registry, now) == (
            StepView::Finish(Err(ExecutorError::DeadlineExceeded)),
            registry,
        ),
{
}

/// Every call gets the smaller of the configured attempt time and the time left,
/// and no wait outlasts the time left.
pub proof fn law_calls_and_waits_fit_the_deadline(step: StepView, turn: Turn)
    requires
        step !is Finish,
    ensures
        advance(step, turn) matches StepView::Call(call) ==> {
            let longest = call.run.request.policy.attempt_timeout;
            let left = call.run.request.deadline.time_left(turn.now);
            call.timeout == (if longest.nanos <= left.nanos {
                longest
            } else {
                left
            })
        },
        advance(step, turn) matches StepView::Sleep(backoff) ==> backoff.wait.nanos
            <= backoff.run.request.deadline.time_left(turn.now).nanos,
{
}

/// A valid provider wait is never shortened: the next call on the hop comes
/// after exactly that wait, or, when it asks for none, at once. One that cannot
/// be kept ends the whole request as throttling, with no later call.
pub proof fn law_provider_minimum_is_kept(call: CallView, turn: Turn, error: ExecutorError)
    requires
        !call.run.request.deadline.expired(turn.now),
        call.outcome(turn.end) == Err::<ExecutionResult, ExecutorError>(error),
        policy::provider_wait(error) is Some,
    ensures
        ({
            let wait = policy::provider_wait(error).unwrap();
            let next = advance(StepView::Call(call), turn);
            if wait.nanos > call.run.request.deadline.time_left(turn.now).nanos {
                next == StepView::Finish(Err(error))
            } else if call.run.may_retry() {
                if wait.nanos == 0 {
                    next is Call && run_of(next).hop == call.run.hop
                } else {
                    next matches StepView::Sleep(backoff) && backoff.wait == wait
                        && backoff.run.hop == call.run.hop
                }
            } else {
                next is Finish
            }
        }),
{
}

/// A jittered wait never exceeds the capped window of its retry.
pub proof fn law_backoff_is_capped(call: CallView, turn: Turn)
    requires
        call.draws(turn.end, turn.now),
        turn.sample <= call.run.jitter_window(),
    ensures
        advance(StepView::Call(call), turn) matches StepView::Sleep(backoff) ==> backoff.wait.nanos
            <= crate::common::time::clip_u64(call.run.request.policy.backoff_cap.millis())
            * 1_000_000,
{
}

/// Client, credential, quota, protocol and throttling failures never switch
/// targets: what follows is on the same hop, or the request is over.
pub proof fn law_ineligible_failures_do_not_switch(call: CallView, turn: Turn, error: ExecutorError)
    requires
        call.outcome(turn.end) == Err::<ExecutionResult, ExecutorError>(error),
        !policy::fallback_eligible(error),
    ensures
        ({
            let next = advance(StepView::Call(call), turn);
            next !is Finish ==> run_of(next).hop == call.run.hop
        }),
{
}

/// An ineligible failure of the primary that is not retried is the answer,
/// unless the deadline has passed.
pub proof fn law_ineligible_primary_failure_is_reported(
    call: CallView,
    turn: Turn,
    error: ExecutorError,
)
    requires
        call.run.wf(),
        call.run.hop == 0,
        !call.run.request.deadline.expired(turn.now),
        call.outcome(turn.end) == Err::<ExecutionResult, ExecutorError>(error),
        !policy::fallback_eligible(error),
        !call.retries(error, turn.now),
        !(error is DeadlineExceeded),
    ensures
        advance(StepView::Call(call), turn) == StepView::Finish(Err(error)),
{
}

/// Once fallbacks are being tried, a request that fails reports the primary's
/// failure, an expired deadline, or throttling whose wait cannot be kept.
pub proof fn law_primary_failure_is_preserved(step: StepView, turn: Turn, error: ExecutorError)
    requires
        step !is Finish,
        run_of(step).wf(),
        run_of(step).hop > 0,
        advance(step, turn) == StepView::Finish(Err(error)),
    ensures
        run_of(step).primary_error == Some(error) || error is DeadlineExceeded || (
        error is RateLimitExceeded && budget::cannot_fit(
            policy::provider_wait(error),
            run_of(step).request.deadline.time_left(turn.now),
        )),
{
}

/// A success in time ends the request with exactly that result.
pub proof fn law_success_is_returned(call: CallView, turn: Turn)
    requires
        !call.run.request.deadline.expired(turn.now),
        call.outcome(turn.end) is Ok,
    ensures
        advance(StepView::Call(call), turn) == StepView::Finish(call.outcome(turn.end)),
{
}

/// When the primary's circuit rejects calls and no fallback may be called, the
/// answer is an open circuit of the primary's vendor, no call is made and no
/// circuit changes.
pub proof fn law_all_open_makes_no_call(request: RequestView, registry: RegistryView, now: Instant)
    requires
        !request.deadline.expired(now),
        registry.rejection(request.target(0), now) is Some,
        forall|hop: nat|
            1 <= hop < request.plan.hop_count() ==> !#[trigger] request.hop_open(
                hop,
                registry,
                now,
            ),
    ensures
        request.begin(registry, now) == (
            StepView::Finish(
                Err(
                    ExecutorError::CircuitOpen {
                        vendor: request.plan.vendor_id,
                        retry_after_ms: registry.rejection(request.target(0), now).unwrap(),
                    },
                ),
            ),
            registry,
        ),
{
    lemma_first_open_hop(request, 1, registry, now);
}

/// An open primary is passed over without a call: the first call goes to the
/// first fallback that can satisfy the request and whose circuit admits it, and
/// it is the first call counted.
pub proof fn law_open_primary_does_not_block_a_fallback(
    request: RequestView,
    registry: RegistryView,
    now: Instant,
    hop: nat,
)
    requires
        request.started == 0,
        1 <= request.max_total,
        !request.deadline.expired(now),
        registry.rejection(request.target(0), now) is Some,
        1 <= hop < request.plan.hop_count(),
        request.hop_open(hop, registry, now),
        forall|earlier: nat|
            1 <= earlier < hop ==> !#[trigger] request.hop_open(earlier, registry, now),
    ensures
        request.begin(registry, now).0 matches StepView::Call(call) && call.run.hop == hop
            && call.run.request.started == 1,
{
    lemma_first_is(request, 1, registry, now, hop);
}

proof fn lemma_first_is(
    request: RequestView,
    from: nat,
    registry: RegistryView,
    now: Instant,
    hop: nat,
)
    requires
        from <= hop < request.plan.hop_count(),
        request.hop_open(hop, registry, now),
        forall|earlier: nat|
            from <= earlier < hop ==> !#[trigger] request.hop_open(earlier, registry, now),
    ensures
        request.first_open_hop(from, registry, now) == Some(hop),
    decreases hop - from,
{
    if from < hop {
        lemma_first_is(request, from + 1, registry, now, hop);
    }
}

/// Every further call is recorded as exactly one thing: a retry when it is on the
/// same hop, else a move from the hop before to the one that is called, whatever
/// was passed over in between.
pub proof fn law_moves_are_recorded(
    request: RequestView,
    registry: RegistryView,
    now: Instant,
    turns: Seq<Turn>,
    turn: Turn,
)
    requires
        request.started == 0,
        1 <= request.max_total,
        reached(request.begin(registry, now).0, turns) !is Finish,
        reached(request.begin(registry, now).0, turns.push(turn)) is Call,
    ensures
        ({
            let before = run_of(reached(request.begin(registry, now).0, turns));
            let step = reached(request.begin(registry, now).0, turns.push(turn));
            let from = request.target(before.hop);
            let to = request.target(run_of(step).hop);
            events::move_events(from, step) == (if run_of(step).hop == before.hop {
                seq![events::EventView::Retry { target: to }]
            } else {
                seq![events::EventView::Fallback { from, to }]
            })
        }),
{
    lemma_accounted(request, registry, now, turns);
    lemma_accounted(request, registry, now, turns.push(turn));
    assert(turns.push(turn).drop_last() =~= turns);
    lemma_advance(reached(request.begin(registry, now).0, turns), turn);
}

/// The circuits after `step` was answered at `turn`.
pub open spec fn circuits_after(step: StepView, turn: Turn) -> RegistryView {
    match step {
        StepView::Call(call) => call.ended(turn.end, turn.sample, turn.registry, turn.now).1,
        StepView::Sleep(backoff) => backoff.woken(turn.registry, turn.now).1,
        StepView::Finish(_) => turn.registry,
    }
}

/// Credential, quota, protocol and rejection failures, throttling and successes
/// open no circuit: whatever is open afterwards was open before.
pub proof fn law_only_transient_failures_open_circuits(
    call: CallView,
    turn: Turn,
    target: Seq<char>,
)
    requires
        call.outcome(turn.end) matches Err(error) ==> !policy::circuit_failure(error),
        circuits_after(StepView::Call(call), turn).circuit(target).phase is Open,
    ensures
        turn.registry.circuit(target).phase is Open,
{
}

/// An expired deadline counts against no circuit: at most the call's own probe
/// is given up.
pub proof fn law_expired_deadline_blames_no_target(step: StepView, turn: Turn)
    requires
        step !is Finish,
        run_of(step).request.deadline.expired(turn.now),
    ensures
        circuits_after(step, turn) == turn.registry.after_release(run_of(step).permit),
{
}

/// A failure that neither allows a retry nor another target ends the request at
/// once: exhausted quota, refused credentials, malformed answers.
pub proof fn law_permanent_failures_end_the_request(
    call: CallView,
    turn: Turn,
    error: ExecutorError,
)
    requires
        call.outcome(turn.end) == Err::<ExecutionResult, ExecutorError>(error),
        !policy::retryable(error),
        !policy::fallback_eligible(error),
    ensures
        advance(StepView::Call(call), turn) is Finish,
{
}

spec fn suited(request: RequestView, step: StepView) -> bool {
    step !is Finish ==> run_of(step).hop > 0 ==> policy::hop_supports(
        request.plan.hop(run_of(step).hop),
        request.params.max_tokens,
    )
}

proof fn lemma_suited(
    request: RequestView,
    registry: RegistryView,
    now: Instant,
    turns: Seq<Turn>,
)
    requires
        request.started == 0,
        1 <= request.max_total,
    ensures
        suited(request, reached(request.begin(registry, now).0, turns)),
    decreases turns.len(),
{
    let first = request.begin(registry, now).0;
    if turns.len() == 0 {
        lemma_first_open_hop(request, 1, registry, now);
    } else {
        lemma_suited(request, registry, now, turns.drop_last());
        lemma_accounted(request, registry, now, turns.drop_last());
        let before = reached(first, turns.drop_last());
        if before !is Finish {
            let run = run_of(before);
            let turn = turns.last();
            let failed = match before {
                StepView::Call(call) => match call.outcome(turn.end) {
                    Err(error) => error,
                    Ok(_) => ExecutorError::DeadlineExceeded,
                },
                StepView::Sleep(backoff) => backoff.error,
                StepView::Finish(_) => arbitrary(),
            };
            lemma_first_open_hop(
                run.request,
                run.hop + 1,
                run.settled(failed, turn.registry, turn.now),
                turn.now,
            );
        }
    }
}

/// Every call carries the parameters of the request unchanged, and a fallback is
/// called only when its own cap satisfies the requested completion length.
pub proof fn law_parameters_are_never_clamped(
    request: RequestView,
    registry: RegistryView,
    now: Instant,
    turns: Seq<Turn>,
)
    requires
        request.started == 0,
        1 <= request.max_total,
        reached(request.begin(registry, now).0, turns) is Call,
    ensures
        ({
            let run = run_of(reached(request.begin(registry, now).0, turns));
            &&& run.request.params == request.params
            &&& run.hop > 0 ==> policy::hop_supports(
                request.plan.hop(run.hop),
                request.params.max_tokens,
            )
        }),
{
    lemma_accounted(request, registry, now, turns);
    lemma_suited(request, registry, now, turns);
}

} // verus!
