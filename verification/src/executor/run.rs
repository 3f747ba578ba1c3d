//! One request's walk through its hops: attempts, waits and fallbacks.
//!
//! A run never performs outside work. It answers with the next thing to do, as
//! a [`Step`]: make one provider call, wait, or finish. Whoever drives it does
//! that and hands back what happened together with a clock reading.

use vstd::prelude::*;

use crate::common::contracts::RoutePlan;
use crate::common::deadline::RequestDeadline;
use crate::common::time::{duration_ms, Duration, Instant};
use crate::executor::budget;
use crate::executor::budget::{
    evaluate_retry_delay, plan_retry_delay, AttemptBudget, DelayError, JitterSource, RetryDelay,
};
use crate::executor::circuit::{
    AdmissionView, CircuitAdmission, CircuitPermit, CompletionOutcome, PermitView, RegistryView,
    TargetCircuitRegistry,
};
use crate::executor::error::ExecutorError;
use crate::executor::models::{ExecutionParams, ExecutionResult};
use crate::executor::policy;

verus! {

/// Limits that hold for every hop of a request.
#[derive(Clone, Copy, PartialEq, Eq, Structural, Debug)]
pub struct ExecutionPolicy {
    /// Retries after the first attempt on one target
    pub max_retries: u32,
    /// Longest time for one attempt
    pub attempt_timeout: Duration,
    /// Longest jittered backoff
    pub backoff_cap: Duration,
}

/// How one provider call ended.
#[derive(Debug)]
pub enum AttemptEnd {
    /// The call returned.
    Completed(Result<ExecutionResult, ExecutorError>),
    /// The attempt's own timeout passed first. `observed` is what had already
    /// been classified from the answer's headers.
    TimedOut { observed: Option<ExecutorError> },
}

/// What stays fixed over a request, and its attempt budget.
#[derive(Debug)]
struct Request {
    plan: RoutePlan,
    params: ExecutionParams,
    deadline: RequestDeadline,
    policy: ExecutionPolicy,
    budget: AttemptBudget,
}

/// What stays fixed over a request, and its attempt budget.
pub struct RequestView {
    pub plan: RoutePlan,
    pub params: ExecutionParams,
    pub deadline: RequestDeadline,
    pub policy: ExecutionPolicy,
    pub max_total: nat,
    pub started: nat,
}

impl View for Request {
    type V = RequestView;

    closed spec fn view(&self) -> RequestView {
        RequestView {
            plan: self.plan,
            params: self.params,
            deadline: self.deadline,
            policy: self.policy,
            max_total: self.budget.spec_max_total(),
            started: self.budget.spec_started(),
        }
    }
}

/// A request at one of its hops.
#[derive(Debug)]
struct Run {
    request: Request,
    hop: usize,
    attempt: u32,
    permit: CircuitPermit,
    primary_error: Option<ExecutorError>,
}

/// A request at one of its hops.
pub struct RunView {
    pub request: RequestView,
    /// The hop: zero for the primary, then the fallbacks in order
    pub hop: nat,
    /// The attempt on that hop, counted from zero
    pub attempt: nat,
    /// The circuit admission of that hop
    pub permit: PermitView,
    /// Why the primary was given up, once it was
    pub primary_error: Option<ExecutorError>,
}

impl View for Run {
    type V = RunView;

    closed spec fn view(&self) -> RunView {
        RunView {
            request: self.request@,
            hop: self.hop as nat,
            attempt: self.attempt as nat,
            permit: self.permit@,
            primary_error: self.primary_error,
        }
    }
}

impl Run {
    #[verifier::type_invariant]
    spec fn consistent(self) -> bool {
        self@.wf()
    }
}

/// A provider call that is to be made.
#[derive(Debug)]
pub struct PendingCall {
    run: Run,
    timeout: Duration,
}

/// A wait that is to pass before the next attempt.
#[derive(Debug)]
pub struct Backoff {
    run: Run,
    wait: Duration,
    error: ExecutorError,
}

/// A provider call that is to be made.
pub struct CallView {
    pub run: RunView,
    /// Longest time for the call
    pub timeout: Duration,
}

/// A wait that is to pass before the next attempt.
pub struct BackoffView {
    pub run: RunView,
    /// How long to wait
    pub wait: Duration,
    /// The failure that is being retried
    pub error: ExecutorError,
}

impl View for PendingCall {
    type V = CallView;

    closed spec fn view(&self) -> CallView {
        CallView { run: self.run@, timeout: self.timeout }
    }
}

impl View for Backoff {
    type V = BackoffView;

    closed spec fn view(&self) -> BackoffView {
        BackoffView { run: self.run@, wait: self.wait, error: self.error }
    }
}

/// The next thing to do for a request.
#[derive(Debug)]
pub enum Step {
    /// Make this provider call, then report how it ended.
    Call(PendingCall),
    /// Wait, then continue.
    Sleep(Backoff),
    /// The request is over.
    Finish(Result<ExecutionResult, ExecutorError>),
}

/// The next thing to do for a request.
pub enum StepView {
    Call(CallView),
    Sleep(BackoffView),
    Finish(Result<ExecutionResult, ExecutorError>),
}

impl View for Step {
    type V = StepView;

    open spec fn view(&self) -> StepView {
        match self {
            Step::Call(call) => StepView::Call(call@),
            Step::Sleep(backoff) => StepView::Sleep(backoff@),
            Step::Finish(result) => StepView::Finish(*result),
        }
    }
}

impl RequestView {
    /// The target of a hop.
    pub open spec fn target(self, hop: nat) -> Seq<char> {
        self.plan.hop(hop).target_id@
    }

    /// Whether a fallback hop may be called: it can satisfy the requested
    /// completion length and its circuit admits a call.
    pub open spec fn hop_open(self, hop: nat, registry: RegistryView, now: Instant) -> bool {
        &&& policy::hop_supports(self.plan.hop(hop), self.params.max_tokens)
        &&& registry.rejection(self.target(hop), now) is None
    }

    /// The first hop from `from` on that may be called.
    pub open spec fn first_open_hop(self, from: nat, registry: RegistryView, now: Instant) -> Option<
        nat,
    >
        decreases self.plan.hop_count() - from,
    {
        if from >= self.plan.hop_count() {
            None
        } else if self.hop_open(from, registry, now) {
            Some(from)
        } else {
            self.first_open_hop(from + 1, registry, now)
        }
    }

    /// The request with one more started call.
    pub open spec fn with_call(self) -> RequestView {
        RequestView { started: self.started + 1, ..self }
    }

    /// The permit that asking for a hop's target gives.
    pub open spec fn permit(self, hop: nat, registry: RegistryView, now: Instant) -> PermitView {
        match registry.admission(self.target(hop), now) {
            AdmissionView::Allow(permit) => permit,
            AdmissionView::Probe(permit) => permit,
            AdmissionView::Reject(_) => arbitrary(),
        }
    }

    /// The first call on an admitted hop.
    pub open spec fn first_call(
        self,
        hop: nat,
        primary_error: Option<ExecutorError>,
        registry: RegistryView,
        now: Instant,
    ) -> (StepView, RegistryView) {
        (
            StepView::Call(
                CallView {
                    run: RunView {
                        request: self.with_call(),
                        hop,
                        attempt: 0,
                        permit: self.permit(hop, registry, now),
                        primary_error,
                    },
                    timeout: self.deadline.capped(self.policy.attempt_timeout, now),
                },
            ),
            registry.after_admit(self.target(hop), now),
        )
    }

    /// Moving on to the hops from `from` after the primary was given up: the
    /// first one that may be called is, while budget remains; else the primary's
    /// failure is the answer. An expired deadline is the answer before anything
    /// else.
    pub open spec fn fall_back(
        self,
        from: nat,
        primary_error: ExecutorError,
        registry: RegistryView,
        now: Instant,
    ) -> (StepView, RegistryView) {
        if self.deadline.expired(now) {
            (StepView::Finish(Err(ExecutorError::DeadlineExceeded)), registry)
        } else if self.started >= self.max_total {
            (StepView::Finish(Err(primary_error)), registry)
        } else {
            match self.first_open_hop(from, registry, now) {
                Some(hop) => self.first_call(hop, Some(primary_error), registry, now),
                None => (StepView::Finish(Err(primary_error)), registry),
            }
        }
    }

    /// Starting the request: the primary is called when its circuit admits it,
    /// else its fallbacks are tried with an open circuit as the primary's
    /// failure.
    pub open spec fn begin(self, registry: RegistryView, now: Instant) -> (StepView, RegistryView) {
        if self.deadline.expired(now) {
            (StepView::Finish(Err(ExecutorError::DeadlineExceeded)), registry)
        } else {
            match registry.rejection(self.target(0), now) {
                Some(retry_after_ms) => self.fall_back(
                    1,
                    ExecutorError::CircuitOpen { vendor: self.plan.vendor_id, retry_after_ms },
                    registry,
                    now,
                ),
                None => self.first_call(0, None, registry, now),
            }
        }
    }
}

impl RunView {
    /// The hop exists, holds its own target's permit and has not been tried too
    /// often; the primary's failure is known exactly from the first fallback on;
    /// and no more calls were started than allowed.
    pub open spec fn wf(self) -> bool {
        &&& self.hop < self.request.plan.hop_count()
        &&& self.attempt <= self.request.policy.max_retries
        &&& self.permit.target == self.request.target(self.hop)
        &&& (self.hop == 0 <==> self.primary_error is None)
        &&& self.request.started <= self.request.max_total
    }

    /// The registry once this hop has failed with `error`: an expired deadline
    /// gives the admission up, a transient failure counts, anything else does
    /// not.
    pub open spec fn settled(
        self,
        error: ExecutorError,
        registry: RegistryView,
        now: Instant,
    ) -> RegistryView {
        if error is DeadlineExceeded {
            registry.after_release(self.permit)
        } else if policy::circuit_failure(error) {
            registry.after_complete(self.permit, CompletionOutcome::TransientFailure, now)
        } else {
            registry.after_complete(self.permit, CompletionOutcome::Permanent, now)
        }
    }

    /// The primary's failure, given that this hop failed with `error`.
    pub open spec fn reported(self, error: ExecutorError) -> ExecutorError {
        match self.primary_error {
            Some(primary) => primary,
            None => error,
        }
    }

    /// After this hop failed with `error` for good: an expired deadline and a
    /// provider wait that cannot be kept end the request, a failure that does not
    /// allow another target ends it with the primary's failure, and any other
    /// moves on to the next hops.
    pub open spec fn hop_failed(
        self,
        error: ExecutorError,
        registry: RegistryView,
        now: Instant,
    ) -> (StepView, RegistryView) {
        let settled = self.settled(error, registry, now);
        if error is DeadlineExceeded {
            (StepView::Finish(Err(error)), settled)
        } else {
            match policy::terminal_error(error, self.request.deadline, now) {
                Some(terminal) => (StepView::Finish(Err(terminal)), settled),
                None => if policy::fallback_eligible(error) {
                    self.request.fall_back(self.hop + 1, self.reported(error), settled, now)
                } else {
                    (StepView::Finish(Err(self.reported(error))), settled)
                },
            }
        }
    }

    /// The next call on the same hop.
    pub open spec fn call_again(self, now: Instant) -> StepView {
        StepView::Call(
            CallView {
                run: RunView { request: self.request.with_call(), ..self },
                timeout: self.request.deadline.capped(self.request.policy.attempt_timeout, now),
            },
        )
    }

    /// Whether the hop may be tried once more.
    pub open spec fn may_retry(self) -> bool {
        self.attempt < self.request.policy.max_retries && self.request.started
            < self.request.max_total
    }

    /// The largest jitter sample for the next retry on this hop.
    pub open spec fn jitter_window(self) -> u64 {
        budget::capped_window(self.attempt + 1, self.request.policy.backoff_cap)
    }

    /// Retrying after `error`, with `sample` as the jitter: at once, after a wait
    /// that fits into the time left, or not at all.
    pub open spec fn retry(
        self,
        error: ExecutorError,
        sample: u64,
        registry: RegistryView,
        now: Instant,
    ) -> (StepView, RegistryView) {
        let next = RunView { attempt: self.attempt + 1, ..self };
        let delay = match policy::provider_wait(error) {
            Some(wait) => budget::provider_delay(wait),
            None => budget::jitter_delay(sample),
        };
        match delay {
            RetryDelay::Immediate => (next.call_again(now), registry),
            RetryDelay::Sleep { delay, provider_minimum } => if delay.nanos
                <= self.request.deadline.time_left(now).nanos {
                (StepView::Sleep(BackoffView { run: next, wait: delay, error }), registry)
            } else if provider_minimum {
                self.hop_failed(error, registry, now)
            } else {
                self.hop_failed(ExecutorError::DeadlineExceeded, registry, now)
            },
        }
    }
}

impl CallView {
    /// What the call brought.
    pub open spec fn outcome(self, end: AttemptEnd) -> Result<ExecutionResult, ExecutorError> {
        match end {
            AttemptEnd::Completed(result) => result,
            AttemptEnd::TimedOut { observed: Some(error) } => Err(error),
            AttemptEnd::TimedOut { observed: None } => Err(
                ExecutorError::TimeoutError(crate::common::time::clip_u64(self.timeout.millis())),
            ),
        }
    }

    /// Whether a failure of the call leads to a retry.
    pub open spec fn retries(self, error: ExecutorError, now: Instant) -> bool {
        &&& policy::retryable(error)
        &&& policy::terminal_error(error, self.run.request.deadline, now) is None
        &&& self.run.may_retry()
    }

    /// Whether the jitter sample decides what follows the call.
    pub open spec fn draws(self, end: AttemptEnd, now: Instant) -> bool {
        &&& !self.run.request.deadline.expired(now)
        &&& self.outcome(end) matches Err(error) && self.retries(error, now)
            && policy::provider_wait(error) is None
    }

    /// After the call ended at `now`: an expired deadline decides first, then a
    /// success, then whether the failure is retried on this hop.
    pub open spec fn ended(
        self,
        end: AttemptEnd,
        sample: u64,
        registry: RegistryView,
        now: Instant,
    ) -> (StepView, RegistryView) {
        if self.run.request.deadline.expired(now) {
            self.run.hop_failed(ExecutorError::DeadlineExceeded, registry, now)
        } else {
            match self.outcome(end) {
                Ok(result) => (
                    StepView::Finish(Ok(result)),
                    registry.after_complete(self.run.permit, CompletionOutcome::Success, now),
                ),
                Err(error) => if self.retries(error, now) {
                    self.run.retry(error, sample, registry, now)
                } else {
                    self.run.hop_failed(error, registry, now)
                },
            }
        }
    }
}

impl BackoffView {
    /// After the wait, at `now`.
    pub open spec fn woken(self, registry: RegistryView, now: Instant) -> (StepView, RegistryView) {
        if self.run.request.deadline.expired(now) {
            self.run.hop_failed(ExecutorError::DeadlineExceeded, registry, now)
        } else if self.run.request.started >= self.run.request.max_total {
            self.run.hop_failed(self.error, registry, now)
        } else {
            (self.run.call_again(now), registry)
        }
    }
}

impl Request {
    fn hop_plan(&self, hop: usize) -> (plan: &RoutePlan)
        requires
            hop < self@.plan.hop_count(),
        ensures
            *plan == self@.plan.hop(hop as nat),
    {
        if hop == 0 {
            &self.plan
        } else {
            &self.plan.fallback_plans[hop - 1]
        }
    }

    /// Moves on to the fallbacks from index `next` on.
    fn fall_back(
        self,
        next: usize,
        primary_error: ExecutorError,
        circuits: &mut TargetCircuitRegistry,
        now: Instant,
    ) -> (step: Step)
        requires
            next < self@.plan.hop_count(),
        ensures
            (step@, final(circuits)@) == self@.fall_back(
                (next + 1) as nat,
                primary_error,
                old(circuits)@,
                now,
            ),
    {
        if self.deadline.is_expired(now) {
            return Step::Finish(Err(ExecutorError::DeadlineExceeded));
        }
        if self.budget.remaining() == 0 {
            return Step::Finish(Err(primary_error));
        }
        let ghost registry = circuits@;
        let mut i: usize = next;
        while i < self.plan.fallback_plans.len()
            invariant
                i < self@.plan.hop_count(),
                !self@.deadline.expired(now),
                self@.started < self@.max_total,
                circuits@ == registry,
                registry == old(circuits)@,
                self@.first_open_hop((i + 1) as nat, registry, now) == self@.first_open_hop(
                    (next + 1) as nat,
                    registry,
                    now,
                ),
            decreases self.plan.fallback_plans.len() - i,
        {
            let plan: &RoutePlan = &self.plan.fallback_plans[i];
            if policy::hop_supports_params(plan, &self.params) {
                match circuits.try_admit(plan.target_id.as_str(), now) {
                    CircuitAdmission::Allow(permit) | CircuitAdmission::Probe(permit) => {
                        return self.first_call(i + 1, permit, Some(primary_error), now);
                    },
                    CircuitAdmission::Reject { .. } => {
                        assert(circuits@ =~= registry);
                    },
                }
            }
            i += 1;
        }
        Step::Finish(Err(primary_error))
    }

    fn first_call(
        self,
        hop: usize,
        permit: CircuitPermit,
        primary_error: Option<ExecutorError>,
        now: Instant,
    ) -> (step: Step)
        requires
            !self@.deadline.expired(now),
            self@.started < self@.max_total,
            hop < self@.plan.hop_count(),
            permit@.target == self@.target(hop as nat),
            hop == 0 <==> primary_error is None,
        ensures
            step@ == StepView::Call(
                CallView {
                    run: RunView {
                        request: self@.with_call(),
                        hop: hop as nat,
                        attempt: 0,
                        permit: permit@,
                        primary_error,
                    },
                    timeout: self@.deadline.capped(self@.policy.attempt_timeout, now),
                },
            ),
    {
        let Request { plan, params, deadline, policy, mut budget } = self;
        budget.try_start();
        let timeout: Duration = match deadline.cap(policy.attempt_timeout, now) {
            Some(timeout) => timeout,
            None => policy.attempt_timeout,
        };
        let request = Request { plan, params, deadline, policy, budget };
        Step::Call(
            PendingCall { run: Run { request, hop, attempt: 0, permit, primary_error }, timeout },
        )
    }
}

impl Run {
    fn hop_failed(
        self,
        error: ExecutorError,
        circuits: &mut TargetCircuitRegistry,
        now: Instant,
    ) -> (step: Step)
        ensures
            (step@, final(circuits)@) == self@.hop_failed(error, old(circuits)@, now),
    {
        proof {
            use_type_invariant(&self);
        }
        let Run { request, hop, attempt: _, permit, primary_error } = self;
        if matches!(error, ExecutorError::DeadlineExceeded) {
            permit.release(circuits);
            return Step::Finish(Err(error));
        }
        if policy::is_circuit_failure(&error) {
            permit.transient_failure(circuits, now);
        } else {
            permit.ignore_permanent(circuits, now);
        }
        if let Some(terminal) = policy::terminate_for_provider_minimum(
            &error,
            request.deadline,
            now,
        ) {
            return Step::Finish(Err(terminal));
        }
        let eligible: bool = policy::is_fallback_eligible(&error);
        let reported: ExecutorError = match primary_error {
            Some(primary) => primary,
            None => error,
        };
        if eligible {
            request.fall_back(hop, reported, circuits, now)
        } else {
            Step::Finish(Err(reported))
        }
    }

    fn call_again(self, now: Instant) -> (step: Step)
        requires
            !self@.request.deadline.expired(now),
            self@.request.started < self@.request.max_total,
        ensures
            step@ == self@.call_again(now),
    {
        proof {
            use_type_invariant(&self);
        }
        let Run { request, hop, attempt, permit, primary_error } = self;
        let Request { plan, params, deadline, policy, mut budget } = request;
        budget.try_start();
        let timeout: Duration = match deadline.cap(policy.attempt_timeout, now) {
            Some(timeout) => timeout,
            None => policy.attempt_timeout,
        };
        let request = Request { plan, params, deadline, policy, budget };
        Step::Call(PendingCall { run: Run { request, hop, attempt, permit, primary_error }, timeout })
    }

    fn may_retry(&self) -> (yes: bool)
        ensures
            yes == self@.may_retry(),
    {
        self.attempt < self.request.policy.max_retries && self.request.budget.remaining() > 0
    }

    fn retry<J: JitterSource>(
        self,
        error: ExecutorError,
        circuits: &mut TargetCircuitRegistry,
        now: Instant,
        rng: &mut J,
    ) -> (step: Step)
        requires
            self@.may_retry(),
            !self@.request.deadline.expired(now),
        ensures
            policy::provider_wait(error) is Some ==> *final(rng) == *old(rng) && (
                step@,
                final(circuits)@,
            ) == self@.retry(error, 0, old(circuits)@, now),
            policy::provider_wait(error) is None ==> exists|sample: u64|
                {
                    &&& #[trigger] J::drawn(
                        *old(rng),
                        self@.jitter_window(),
                        *final(rng),
                        sample,
                    )
                    &&& sample <= self@.jitter_window()
                    &&& (step@, final(circuits)@) == self@.retry(
                        error,
                        sample,
                        old(circuits)@,
                        now,
                    )
                },
    {
        proof {
            use_type_invariant(&self);
        }
        let wait: Option<Duration> = policy::provider_retry_after(&error);
        let planned: RetryDelay = plan_retry_delay(
            self.attempt + 1,
            self.request.policy.backoff_cap,
            wait,
            rng,
        );
        let ghost window = self@.jitter_window();
        let ghost sample: u64 = if wait is None {
            choose|ms: u64| #[trigger]
                J::drawn(*old(rng), window, *rng, ms) && ms <= window && planned
                    == budget::jitter_delay(ms)
        } else {
            0
        };
        assert(wait is None ==> J::drawn(*old(rng), self@.jitter_window(), *rng, sample));
        match evaluate_retry_delay(planned, self.request.deadline.remaining(now)) {
            Ok(wait) => {
                let Run { request, hop, attempt, permit, primary_error } = self;
                let run = Run { request, hop, attempt: attempt + 1, permit, primary_error };
                if wait.is_zero() {
                    run.call_again(now)
                } else {
                    Step::Sleep(Backoff { run, wait, error })
                }
            },
            Err(DelayError::ProviderDelayCannotFit { .. }) => self.hop_failed(error, circuits, now),
            Err(DelayError::DeadlineExceeded) => self.hop_failed(
                ExecutorError::DeadlineExceeded,
                circuits,
                now,
            ),
        }
    }
}

impl PendingCall {
    /// The hop to call.
    pub fn plan(&self) -> (plan: &RoutePlan)
        ensures
            *plan == self@.run.request.plan.hop(self@.run.hop),
    {
        proof {
            use_type_invariant(&self.run);
        }
        self.run.request.hop_plan(self.run.hop)
    }

    /// The parameters to send, the same for every hop.
    pub fn params(&self) -> (params: &ExecutionParams)
        ensures
            *params == self@.run.request.params,
    {
        &self.run.request.params
    }

    /// The hop's place in the plan: zero for the primary, then the fallbacks.
    pub fn hop(&self) -> (hop: usize)
        ensures
            hop == self@.run.hop,
    {
        self.run.hop
    }

    /// The attempt on that hop, counted from zero.
    pub fn attempt(&self) -> (attempt: u32)
        ensures
            attempt == self@.run.attempt,
    {
        self.run.attempt
    }

    /// Whether the request's deadline has passed at `now`.
    pub fn is_expired(&self, now: Instant) -> (expired: bool)
        ensures
            expired == self@.run.request.deadline.expired(now),
    {
        self.run.request.deadline.is_expired(now)
    }

    /// Longest time for the call.
    pub fn timeout(&self) -> (timeout: Duration)
        ensures
            timeout == self@.timeout,
    {
        self.timeout
    }

    /// Decides what follows the call, which ended at `now`.
    ///
    /// An expired deadline decides before the call's own result. A success ends
    /// the request and closes the hop's admission as healthy. A failure is
    /// retried on the same hop, or ends the hop.
    pub fn finish<J: JitterSource>(
        self,
        end: AttemptEnd,
        circuits: &mut TargetCircuitRegistry,
        now: Instant,
        rng: &mut J,
    ) -> (step: Step)
        ensures
            !self@.draws(end, now) ==> *final(rng) == *old(rng) && (step@, final(circuits)@)
                == self@.ended(end, 0, old(circuits)@, now),
            self@.draws(end, now) ==> exists|sample: u64|
                {
                    &&& #[trigger] J::drawn(
                        *old(rng),
                        self@.run.jitter_window(),
                        *final(rng),
                        sample,
                    )
                    &&& sample <= self@.run.jitter_window()
                    &&& (step@, final(circuits)@) == self@.ended(end, sample, old(circuits)@, now)
                },
    {
        let PendingCall { run, timeout } = self;
        if run.request.deadline.is_expired(now) {
            return run.hop_failed(ExecutorError::DeadlineExceeded, circuits, now);
        }
        let error: ExecutorError = match end {
            AttemptEnd::Completed(Ok(result)) => {
                run.permit.success(circuits, now);
                return Step::Finish(Ok(result));
            },
            AttemptEnd::Completed(Err(error)) => error,
            AttemptEnd::TimedOut { observed: Some(error) } => error,
            AttemptEnd::TimedOut { observed: None } => ExecutorError::TimeoutError(
                duration_ms(timeout),
            ),
        };
        if policy::is_retryable_error(&error) && policy::terminate_for_provider_minimum(
            &error,
            run.request.deadline,
            now,
        ).is_none() && run.may_retry() {
            run.retry(error, circuits, now, rng)
        } else {
            run.hop_failed(error, circuits, now)
        }
    }

    /// Gives the request up while the call is out.
    pub fn abandon(self, circuits: &mut TargetCircuitRegistry)
        ensures
            final(circuits)@ == old(circuits)@.after_release(self@.run.permit),
    {
        self.run.permit.release(circuits);
    }
}

impl Backoff {
    /// The hop that is waited on.
    pub fn plan(&self) -> (plan: &RoutePlan)
        ensures
            *plan == self@.run.request.plan.hop(self@.run.hop),
    {
        proof {
            use_type_invariant(&self.run);
        }
        self.run.request.hop_plan(self.run.hop)
    }

    /// How long to wait.
    pub fn wait(&self) -> (wait: Duration)
        ensures
            wait == self@.wait,
    {
        self.wait
    }

    /// Decides what follows the wait, which ended at `now`.
    pub fn wake(self, circuits: &mut TargetCircuitRegistry, now: Instant) -> (step: Step)
        ensures
            (step@, final(circuits)@) == self@.woken(old(circuits)@, now),
    {
        let Backoff { run, wait: _, error } = self;
        if run.request.deadline.is_expired(now) {
            return run.hop_failed(ExecutorError::DeadlineExceeded, circuits, now);
        }
        if run.request.budget.remaining() == 0 {
            proof {
                use_type_invariant(&run);
            }
            return run.hop_failed(error, circuits, now);
        }
        run.call_again(now)
    }

    /// Gives the request up during the wait.
    pub fn abandon(self, circuits: &mut TargetCircuitRegistry)
        ensures
            final(circuits)@ == old(circuits)@.after_release(self@.run.permit),
    {
        self.run.permit.release(circuits);
    }
}

/// Starts a request: decides on the primary's first call, or moves straight on
/// to its fallbacks when the primary's circuit is open.
pub fn begin(
    plan: RoutePlan,
    params: ExecutionParams,
    deadline: RequestDeadline,
    policy: ExecutionPolicy,
    max_total_attempts: u32,
    circuits: &mut TargetCircuitRegistry,
    now: Instant,
) -> (step: Step)
    ensures
        (step@, final(circuits)@) == (RequestView {
            plan,
            params,
            deadline,
            policy,
            max_total: if max_total_attempts == 0 {
                1
            } else {
                max_total_attempts as nat
            },
            started: 0,
        }).begin(old(circuits)@, now),
{
    let request = Request {
        plan,
        params,
        deadline,
        policy,
        budget: AttemptBudget::new(max_total_attempts),
    };
    let ghost registry = circuits@;
    if request.deadline.is_expired(now) {
        return Step::Finish(Err(ExecutorError::DeadlineExceeded));
    }
    match circuits.try_admit(request.plan.target_id.as_str(), now) {
        CircuitAdmission::Allow(permit) | CircuitAdmission::Probe(permit) => request.first_call(
            0,
            permit,
            None,
            now,
        ),
        CircuitAdmission::Reject { retry_after_ms } => {
            assert(circuits@ =~= registry);
            let error = ExecutorError::CircuitOpen {
                vendor: request.plan.vendor_id.clone(),
                retry_after_ms,
            };
            request.fall_back(0, error, circuits, now)
        },
    }
}

} // verus!
