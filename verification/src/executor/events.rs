//! What a run has to record of itself: attempts, retries, fallback moves, usage,
//! expired deadlines and circuit transitions.
//!
//! Events name configured targets and finite outcome classes only, never a
//! prompt, a credential or anything that the provider said.

use vstd::prelude::*;

use crate::common::time::Instant;
use crate::executor::circuit::{CircuitPhase, TargetCircuitRegistry};
use crate::executor::error::ExecutorError;
use crate::executor::policy;
use crate::executor::run::{AttemptEnd, CallView, PendingCall, Step, StepView};

verus! {

/// How one provider call is counted.
#[derive(Clone, Copy, PartialEq, Eq, Structural, Debug)]
pub enum AttemptOutcome {
    /// It brought a result in time.
    Success,
    /// It failed in a way that another attempt may mend.
    Retryable,
    /// The provider throttled it.
    RateLimit,
    /// It failed for good.
    Permanent,
    /// The request's deadline passed.
    Deadline,
    /// The request was given up while it was out.
    Cancelled,
}

/// The phase of a circuit, without its details.
#[derive(Clone, Copy, PartialEq, Eq, Structural, Debug)]
pub enum CircuitStateLabel {
    Closed,
    Open,
    HalfOpen,
}

/// Something to record of an execution.
#[derive(Debug)]
pub enum ExecutionEvent {
    /// A provider call ended.
    Attempt { target: String, outcome: AttemptOutcome },
    /// Tokens that a successful call used.
    Usage { target: String, prompt_tokens: i64, completion_tokens: i64 },
    /// A further call on the same target starts.
    Retry { target: String },
    /// A request moves from one target to another.
    Fallback { from: String, to: String },
    /// A request ended at its deadline.
    DeadlineExceeded,
    /// A circuit changed its phase.
    Circuit { target: String, state: CircuitStateLabel },
}

/// Something to record of an execution.
#[verifier::ext_equal]
pub enum EventView {
    Attempt { target: Seq<char>, outcome: AttemptOutcome },
    Usage { target: Seq<char>, prompt_tokens: i64, completion_tokens: i64 },
    Retry { target: Seq<char> },
    Fallback { from: Seq<char>, to: Seq<char> },
    DeadlineExceeded,
    Circuit { target: Seq<char>, state: CircuitStateLabel },
}

impl View for ExecutionEvent {
    type V = EventView;

    open spec fn view(&self) -> EventView {
        match self {
            ExecutionEvent::Attempt { target, outcome } => EventView::Attempt {
                target: target@,
                outcome: *outcome,
            },
            ExecutionEvent::Usage { target, prompt_tokens, completion_tokens } => EventView::Usage {
                target: target@,
                prompt_tokens: *prompt_tokens,
                completion_tokens: *completion_tokens,
            },
            ExecutionEvent::Retry { target } => EventView::Retry { target: target@ },
            ExecutionEvent::Fallback { from, to } => EventView::Fallback { from: from@, to: to@ },
            ExecutionEvent::DeadlineExceeded => EventView::DeadlineExceeded,
            ExecutionEvent::Circuit { target, state } => EventView::Circuit {
                target: target@,
                state: *state,
            },
        }
    }
}

/// The contents of a list of events.
pub open spec fn event_views(events: Seq<ExecutionEvent>) -> Seq<EventView> {
    events.map_values(|event: ExecutionEvent| event@)
}

/// How a failure is counted.
pub open spec fn failure_outcome(error: ExecutorError) -> AttemptOutcome {
    if error is RateLimitExceeded {
        AttemptOutcome::RateLimit
    } else if error is DeadlineExceeded {
        AttemptOutcome::Deadline
    } else if policy::retryable(error) {
        AttemptOutcome::Retryable
    } else {
        AttemptOutcome::Permanent
    }
}

/// What is recorded of a call that ended at `now`: one attempt, and the usage of
/// one that succeeded. An expired deadline decides before the call's own result.
pub open spec fn call_events(call: CallView, end: AttemptEnd, now: Instant) -> Seq<EventView> {
    let target = call.run.request.target(call.run.hop);
    if call.run.request.deadline.expired(now) {
        seq![EventView::Attempt { target, outcome: AttemptOutcome::Deadline }]
    } else {
        match call.outcome(end) {
            Ok(result) => seq![
                EventView::Attempt { target, outcome: AttemptOutcome::Success },
                EventView::Usage {
                    target,
                    prompt_tokens: result.prompt_tokens,
                    completion_tokens: result.completion_tokens,
                },
            ],
            Err(error) => seq![EventView::Attempt { target, outcome: failure_outcome(error) }],
        }
    }
}

/// What is recorded of a request that goes on with `next` after it stood at the
/// target `from`: a later call on a target is a retry, the first call on a
/// fallback is a move, and an end at the deadline is counted.
pub open spec fn move_events(from: Seq<char>, next: StepView) -> Seq<EventView> {
    match next {
        StepView::Call(call) => {
            let to = call.run.request.target(call.run.hop);
            if call.run.attempt > 0 {
                seq![EventView::Retry { target: to }]
            } else if call.run.hop > 0 {
                seq![EventView::Fallback { from, to }]
            } else {
                seq![]
            }
        },
        StepView::Sleep(_) => seq![],
        StepView::Finish(result) => if result matches Err(error) && error is DeadlineExceeded {
            seq![EventView::DeadlineExceeded]
        } else {
            seq![]
        },
    }
}

/// The label of a circuit's phase.
pub open spec fn label_of(phase: CircuitPhase) -> CircuitStateLabel {
    match phase {
        CircuitPhase::Closed { .. } => CircuitStateLabel::Closed,
        CircuitPhase::Open { .. } => CircuitStateLabel::Open,
        CircuitPhase::HalfOpen { .. } => CircuitStateLabel::HalfOpen,
    }
}

fn outcome_of_failure(error: &ExecutorError) -> (outcome: AttemptOutcome)
    ensures
        outcome == failure_outcome(*error),
{
    match error {
        ExecutorError::RateLimitExceeded { .. } => AttemptOutcome::RateLimit,
        ExecutorError::DeadlineExceeded => AttemptOutcome::Deadline,
        _ => {
            if policy::is_retryable_error(error) {
                AttemptOutcome::Retryable
            } else {
                AttemptOutcome::Permanent
            }
        },
    }
}

/// What to record of a call that ended at `now`.
pub fn attempt_events(call: &PendingCall, end: &AttemptEnd, now: Instant) -> (events: Vec<
    ExecutionEvent,
>)
    ensures
        event_views(events@) == call_events(call@, *end, now),
{
    let target: &String = &call.plan().target_id;
    let mut events: Vec<ExecutionEvent> = Vec::new();
    let outcome: AttemptOutcome = if call.is_expired(now) {
        AttemptOutcome::Deadline
    } else {
        match end {
            AttemptEnd::Completed(Ok(_)) => AttemptOutcome::Success,
            AttemptEnd::Completed(Err(error)) => outcome_of_failure(error),
            AttemptEnd::TimedOut { observed: Some(error) } => outcome_of_failure(error),
            AttemptEnd::TimedOut { observed: None } => AttemptOutcome::Retryable,
        }
    };
    events.push(ExecutionEvent::Attempt { target: target.clone(), outcome });
    if let AttemptEnd::Completed(Ok(result)) = end {
        if !call.is_expired(now) {
            events.push(
                ExecutionEvent::Usage {
                    target: target.clone(),
                    prompt_tokens: result.prompt_tokens,
                    completion_tokens: result.completion_tokens,
                },
            );
        }
    }
    events
}

/// What to record of a call that is given up at `now`: it counts against the
/// deadline once that has passed, and as cancelled before.
pub fn cancellation_event(call: &PendingCall, now: Instant) -> (event: ExecutionEvent)
    ensures
        event@ == (EventView::Attempt {
            target: call@.run.request.target(call@.run.hop),
            outcome: if call@.run.request.deadline.expired(now) {
                AttemptOutcome::Deadline
            } else {
                AttemptOutcome::Cancelled
            },
        }),
{
    ExecutionEvent::Attempt {
        target: call.plan().target_id.clone(),
        outcome: if call.is_expired(now) {
            AttemptOutcome::Deadline
        } else {
            AttemptOutcome::Cancelled
        },
    }
}

/// What to record of a request that goes on with `next` after it stood at the
/// target `from`. A request that starts stands at its primary.
pub fn step_events(from: &str, next: &Step) -> (events: Vec<ExecutionEvent>)
    ensures
        event_views(events@) == move_events(from@, next@),
{
    let mut events: Vec<ExecutionEvent> = Vec::new();
    match next {
        Step::Call(call) => {
            let to: &String = &call.plan().target_id;
            if call.attempt() > 0 {
                events.push(ExecutionEvent::Retry { target: to.clone() });
            } else if call.hop() > 0 {
                events.push(ExecutionEvent::Fallback { from: from.to_owned(), to: to.clone() });
            }
        },
        Step::Finish(Err(ExecutorError::DeadlineExceeded)) => {
            events.push(ExecutionEvent::DeadlineExceeded);
        },
        Step::Sleep(_) | Step::Finish(_) => {},
    }
    assert(event_views(events@) =~= move_events(from@, next@));
    events
}

/// The label of a target's circuit.
pub fn circuit_label(registry: &TargetCircuitRegistry, target: &str) -> (label: CircuitStateLabel)
    ensures
        label == label_of(registry@.circuit(target@).phase),
{
    match registry.phase(target) {
        CircuitPhase::Closed { .. } => CircuitStateLabel::Closed,
        CircuitPhase::Open { .. } => CircuitStateLabel::Open,
        CircuitPhase::HalfOpen { .. } => CircuitStateLabel::HalfOpen,
    }
}

/// What to record of a target whose circuit was labelled `before`: its new label
/// when that differs.
pub fn circuit_event(
    target: &str,
    before: CircuitStateLabel,
    registry: &TargetCircuitRegistry,
) -> (event: Option<ExecutionEvent>)
    ensures
        ({
            let after = label_of(registry@.circuit(target@).phase);
            match event {
                Some(event) => after != before && event@ == (EventView::Circuit {
                    target: target@,
                    state: after,
                }),
                None => after == before,
            }
        }),
{
    let after: CircuitStateLabel = circuit_label(registry, target);
    if after == before {
        None
    } else {
        Some(ExecutionEvent::Circuit { target: target.to_owned(), state: after })
    }
}

} // verus!
