//! Target-scoped circuit breakers with generation-owned completions.
//!
//! Circuits are keyed by catalog target identity, not vendor. One model's
//! transient failure can open its own circuit without blocking a healthy
//! same-provider fallback. At most one recovery probe is in flight per target.
//!
//! Every closed admission and half-open probe receives a permit that names the
//! generation it was issued in. A completion applies only while that generation
//! and phase are still current. Opening, probe admission and recovery advance
//! the generation, so a stale success cannot close a newer open circuit, a stale
//! failure cannot reopen after recovery, and an abandoned probe releases only
//! its own half-open ownership.

use vstd::prelude::*;

use crate::common::names::NameMap;
use crate::common::time::{duration_ms, Duration, Instant};

verus! {

/// Where a target's circuit stands.
#[derive(Clone, Copy, PartialEq, Eq, Structural, Debug)]
pub enum CircuitPhase {
    /// Calls pass; `failures` transient hop failures came in a row.
    Closed { failures: u32 },
    /// Calls are rejected until `opened_until`.
    Open { opened_until: Instant },
    /// The cooldown is over; `in_flight` while a recovery probe is out.
    HalfOpen { in_flight: bool },
}

/// One target's circuit.
#[derive(Clone, Copy, PartialEq, Eq, Structural, Debug)]
pub struct CircuitState {
    pub generation: u64,
    pub phase: CircuitPhase,
}

/// What a permit was issued for.
#[derive(Clone, Copy, PartialEq, Eq, Structural, Debug)]
pub enum PermitKind {
    Closed,
    Probe,
}

/// How an admitted hop ended.
#[derive(Clone, Copy, PartialEq, Eq, Structural, Debug)]
pub enum CompletionOutcome {
    Success,
    TransientFailure,
    Permanent,
}

/// Ownership token issued at admission.
#[derive(Debug)]
pub struct CircuitPermit {
    target_id: String,
    generation: u64,
    kind: PermitKind,
}

/// What a permit names.
pub struct PermitView {
    pub target: Seq<char>,
    pub generation: u64,
    pub kind: PermitKind,
}

impl View for CircuitPermit {
    type V = PermitView;

    closed spec fn view(&self) -> PermitView {
        PermitView { target: self.target_id@, generation: self.generation, kind: self.kind }
    }
}

/// Result of asking a target circuit whether a hop may start.
#[derive(Debug)]
pub enum CircuitAdmission {
    /// Closed circuit; use the normal retry budget.
    Allow(CircuitPermit),
    /// Open, or a probe is already in flight. Skip without an attempt.
    Reject { retry_after_ms: u64 },
    /// This caller owns the single half-open probe.
    Probe(CircuitPermit),
}

/// In-process circuits keyed by catalog target ID.
pub struct TargetCircuitRegistry {
    circuits: NameMap<CircuitState>,
    threshold: u32,
    cooldown: Duration,
}

/// The contents of a registry.
#[verifier::ext_equal]
pub struct RegistryView {
    pub threshold: u32,
    pub cooldown: Duration,
    pub circuits: Map<Seq<char>, CircuitState>,
}

impl View for TargetCircuitRegistry {
    type V = RegistryView;

    closed spec fn view(&self) -> RegistryView {
        RegistryView {
            threshold: self.threshold,
            cooldown: self.cooldown,
            circuits: self.circuits@,
        }
    }
}

/// The circuit of a target that nothing has been recorded for.
pub open spec fn fresh_circuit() -> CircuitState {
    CircuitState { generation: 0, phase: CircuitPhase::Closed { failures: 0 } }
}

/// The circuit with its generation advanced and its phase replaced.
pub open spec fn next_generation(state: CircuitState, phase: CircuitPhase) -> CircuitState {
    CircuitState { generation: state.generation.wrapping_add(1), phase }
}

/// At least one, so that a rejected caller is never told to retry at once.
pub open spec fn at_least_one(ms: u64) -> u64 {
    if ms == 0 {
        1
    } else {
        ms
    }
}

/// What an admission decides.
pub enum AdmissionView {
    Allow(PermitView),
    Reject(u64),
    Probe(PermitView),
}

impl View for CircuitAdmission {
    type V = AdmissionView;

    open spec fn view(&self) -> AdmissionView {
        match self {
            CircuitAdmission::Allow(permit) => AdmissionView::Allow(permit@),
            CircuitAdmission::Reject { retry_after_ms } => AdmissionView::Reject(*retry_after_ms),
            CircuitAdmission::Probe(permit) => AdmissionView::Probe(permit@),
        }
    }
}

impl RegistryView {
    /// The circuit of `target`.
    pub open spec fn circuit(self, target: Seq<char>) -> CircuitState {
        if self.circuits.contains_key(target) {
            self.circuits[target]
        } else {
            fresh_circuit()
        }
    }

    /// The registry with the circuit of `target` replaced.
    pub open spec fn with(self, target: Seq<char>, state: CircuitState) -> RegistryView {
        RegistryView { circuits: self.circuits.insert(target, state), ..self }
    }

    /// The circuit once `cooldown` starts at `now`.
    pub open spec fn opened(self, state: CircuitState, now: Instant) -> CircuitState {
        next_generation(state, CircuitPhase::Open { opened_until: now.spec_plus(self.cooldown) })
    }

    /// Why `target` must be skipped at `now`, as the wait to report; `None` when
    /// a call may start.
    pub open spec fn rejection(self, target: Seq<char>, now: Instant) -> Option<u64> {
        match self.circuit(target).phase {
            CircuitPhase::Closed { .. } => None,
            CircuitPhase::Open { opened_until } => if now.nanos < opened_until.nanos {
                Some(
                    at_least_one(
                        crate::common::time::clip_u64(opened_until.spec_since(now).millis()),
                    ),
                )
            } else {
                None
            },
            CircuitPhase::HalfOpen { in_flight } => if in_flight {
                Some(at_least_one(crate::common::time::clip_u64(self.cooldown.millis())))
            } else {
                None
            },
        }
    }

    /// The registry after asking for `target` at `now`.
    pub open spec fn after_admit(self, target: Seq<char>, now: Instant) -> RegistryView {
        let state = self.circuit(target);
        if self.rejection(target, now) is Some || state.phase is Closed {
            self.with(target, state)
        } else {
            self.with(
                target,
                next_generation(state, CircuitPhase::HalfOpen { in_flight: true }),
            )
        }
    }

    /// What asking for `target` at `now` answers.
    pub open spec fn admission(self, target: Seq<char>, now: Instant) -> AdmissionView {
        let generation = self.after_admit(target, now).circuit(target).generation;
        match self.rejection(target, now) {
            Some(retry_after_ms) => AdmissionView::Reject(retry_after_ms),
            None => if self.circuit(target).phase is Closed {
                AdmissionView::Allow(PermitView { target, generation, kind: PermitKind::Closed })
            } else {
                AdmissionView::Probe(PermitView { target, generation, kind: PermitKind::Probe })
            },
        }
    }

    /// Whether `permit` still owns the phase that it was issued in.
    pub open spec fn is_current(self, permit: PermitView) -> bool {
        &&& self.circuits.contains_key(permit.target)
        &&& self.circuits[permit.target].generation == permit.generation
        &&& match permit.kind {
            PermitKind::Closed => self.circuits[permit.target].phase is Closed,
            PermitKind::Probe => self.circuits[permit.target].phase is HalfOpen,
        }
    }

    /// The circuit that `outcome` leads to from the phase that `permit` owns.
    pub open spec fn completed_circuit(
        self,
        permit: PermitView,
        outcome: CompletionOutcome,
        now: Instant,
    ) -> CircuitState {
        let state = self.circuits[permit.target];
        match (state.phase, outcome) {
            (CircuitPhase::Closed { .. }, CompletionOutcome::Success) => CircuitState {
                phase: CircuitPhase::Closed { failures: 0 },
                ..state
            },
            (
                CircuitPhase::Closed { failures },
                CompletionOutcome::TransientFailure,
            ) => if failures + 1 >= self.threshold {
                self.opened(state, now)
            } else {
                CircuitState {
                    phase: CircuitPhase::Closed { failures: (failures + 1) as u32 },
                    ..state
                }
            },
            (CircuitPhase::Closed { .. }, CompletionOutcome::Permanent) => state,
            (_, CompletionOutcome::TransientFailure) => self.opened(state, now),
            (_, _) => next_generation(state, CircuitPhase::Closed { failures: 0 }),
        }
    }

    /// The registry after `permit` reports `outcome` at `now`.
    pub open spec fn after_complete(
        self,
        permit: PermitView,
        outcome: CompletionOutcome,
        now: Instant,
    ) -> RegistryView {
        if self.is_current(permit) {
            self.with(permit.target, self.completed_circuit(permit, outcome, now))
        } else {
            self
        }
    }

    /// The registry after `permit` is given up without a result.
    pub open spec fn after_release(self, permit: PermitView) -> RegistryView {
        if permit.kind is Probe && self.is_current(permit) {
            self.with(
                permit.target,
                CircuitState {
                    phase: CircuitPhase::HalfOpen { in_flight: false },
                    ..self.circuits[permit.target]
                },
            )
        } else {
            self
        }
    }
}

impl CircuitPermit {
    /// Records a healthy hop or probe against this admission.
    pub fn success(self, registry: &mut TargetCircuitRegistry, now: Instant)
        ensures
            final(registry)@ == old(registry)@.after_complete(
                self@,
                CompletionOutcome::Success,
                now,
            ),
    {
        registry.complete(&self, CompletionOutcome::Success, now);
    }

    /// Records an eligible transient failure against this admission.
    pub fn transient_failure(self, registry: &mut TargetCircuitRegistry, now: Instant)
        ensures
            final(registry)@ == old(registry)@.after_complete(
                self@,
                CompletionOutcome::TransientFailure,
                now,
            ),
    {
        registry.complete(&self, CompletionOutcome::TransientFailure, now);
    }

    /// Drops half-open ownership without counting a permanent error as
    /// transient.
    pub fn ignore_permanent(self, registry: &mut TargetCircuitRegistry, now: Instant)
        ensures
            final(registry)@ == old(registry)@.after_complete(
                self@,
                CompletionOutcome::Permanent,
                now,
            ),
    {
        registry.complete(&self, CompletionOutcome::Permanent, now);
    }

    /// Gives the admission up without a result: a probe's half-open ownership
    /// becomes available again, a closed admission leaves no trace.
    pub fn release(self, registry: &mut TargetCircuitRegistry)
        ensures
            final(registry)@ == old(registry)@.after_release(self@),
    {
        match self.kind {
            PermitKind::Probe => registry.release_probe(&self),
            PermitKind::Closed => {},
        }
    }
}

impl TargetCircuitRegistry {
    /// Creates a registry in which every target is closed. A threshold of zero
    /// counts as one.
    pub fn new(threshold: u32, cooldown: Duration) -> (registry: TargetCircuitRegistry)
        ensures
            registry@ == (RegistryView {
                threshold: if threshold == 0 {
                    1
                } else {
                    threshold
                },
                cooldown,
                circuits: Map::empty(),
            }),
    {
        TargetCircuitRegistry {
            circuits: NameMap::new(),
            threshold: if threshold == 0 {
                1
            } else {
                threshold
            },
            cooldown,
        }
    }

    fn state(&self, target_id: &str) -> (state: CircuitState)
        ensures
            state == self@.circuit(target_id@),
    {
        match self.circuits.get(target_id) {
            Some(state) => *state,
            None => CircuitState { generation: 0, phase: CircuitPhase::Closed { failures: 0 } },
        }
    }

    fn set_state(&mut self, target_id: &str, state: CircuitState)
        ensures
            final(self)@ == old(self)@.with(target_id@, state),
    {
        self.circuits.insert(target_id.to_owned(), state);
    }

    /// True when the target is closed and can accept generation.
    ///
    /// Open and half-open states are not usable. Readiness must not call
    /// [`Self::try_admit`], which would start a recovery probe.
    pub fn target_is_usable(&self, target_id: &str) -> (usable: bool)
        ensures
            usable == (self@.circuit(target_id@).phase is Closed),
    {
        match self.state(target_id).phase {
            CircuitPhase::Closed { .. } => true,
            CircuitPhase::Open { .. } | CircuitPhase::HalfOpen { .. } => false,
        }
    }

    /// The phase of a target's circuit.
    pub fn phase(&self, target_id: &str) -> (phase: CircuitPhase)
        ensures
            phase == self@.circuit(target_id@).phase,
    {
        self.state(target_id).phase
    }

    /// Opens a target without recording hop failures.
    pub fn force_open(&mut self, target_id: &str, now: Instant)
        ensures
            final(self)@ == old(self)@.with(
                target_id@,
                old(self)@.opened(old(self)@.circuit(target_id@), now),
            ),
    {
        let mut state: CircuitState = self.state(target_id);
        self.set_open(&mut state, now);
        self.set_state(target_id, state);
    }

    /// Closes a target without a recovery probe.
    pub fn force_close(&mut self, target_id: &str)
        ensures
            final(self)@ == old(self)@.with(
                target_id@,
                next_generation(
                    old(self)@.circuit(target_id@),
                    CircuitPhase::Closed { failures: 0 },
                ),
            ),
    {
        let mut state: CircuitState = self.state(target_id);
        Self::close_circuit(&mut state);
        self.set_state(target_id, state);
    }

    fn retry_after_ms(until: Instant, now: Instant) -> (ms: u64)
        ensures
            ms == at_least_one(crate::common::time::clip_u64(until.spec_since(now).millis())),
    {
        let ms: u64 = duration_ms(until.since(now));
        if ms == 0 {
            1
        } else {
            ms
        }
    }

    fn cooldown_retry_after_ms(&self) -> (ms: u64)
        ensures
            ms == at_least_one(crate::common::time::clip_u64(self@.cooldown.millis())),
    {
        let ms: u64 = duration_ms(self.cooldown);
        if ms == 0 {
            1
        } else {
            ms
        }
    }

    fn start_probe(state: &mut CircuitState)
        ensures
            *final(state) == next_generation(
                *old(state),
                CircuitPhase::HalfOpen { in_flight: true },
            ),
    {
        state.generation = state.generation.wrapping_add(1);
        state.phase = CircuitPhase::HalfOpen { in_flight: true };
    }

    fn set_open(&self, state: &mut CircuitState, now: Instant)
        ensures
            *final(state) == self@.opened(*old(state), now),
    {
        state.generation = state.generation.wrapping_add(1);
        state.phase = CircuitPhase::Open { opened_until: now.plus(self.cooldown) };
    }

    fn close_circuit(state: &mut CircuitState)
        ensures
            *final(state) == next_generation(*old(state), CircuitPhase::Closed { failures: 0 }),
    {
        state.generation = state.generation.wrapping_add(1);
        state.phase = CircuitPhase::Closed { failures: 0 };
    }

    /// Decides whether this target may start an upstream call.
    pub fn try_admit(&mut self, target_id: &str, now: Instant) -> (admission: CircuitAdmission)
        ensures
            admission@ == old(self)@.admission(target_id@, now),
            final(self)@ == old(self)@.after_admit(target_id@, now),
    {
        let mut state: CircuitState = self.state(target_id);
        let (admission, next): (CircuitAdmission, CircuitState) = match state.phase {
            CircuitPhase::Closed { .. } => (
                CircuitAdmission::Allow(
                    CircuitPermit {
                        target_id: target_id.to_owned(),
                        generation: state.generation,
                        kind: PermitKind::Closed,
                    },
                ),
                state,
            ),
            CircuitPhase::Open { opened_until } if now.nanos < opened_until.nanos => (
                CircuitAdmission::Reject {
                    retry_after_ms: Self::retry_after_ms(opened_until, now),
                },
                state,
            ),
            CircuitPhase::HalfOpen { in_flight: true } => (
                CircuitAdmission::Reject { retry_after_ms: self.cooldown_retry_after_ms() },
                state,
            ),
            CircuitPhase::Open { .. } | CircuitPhase::HalfOpen { .. } => {
                Self::start_probe(&mut state);
                (
                    CircuitAdmission::Probe(
                        CircuitPermit {
                            target_id: target_id.to_owned(),
                            generation: state.generation,
                            kind: PermitKind::Probe,
                        },
                    ),
                    state,
                )
            },
        };
        self.set_state(target_id, next);
        admission
    }

    fn complete(&mut self, permit: &CircuitPermit, outcome: CompletionOutcome, now: Instant)
        ensures
            final(self)@ == old(self)@.after_complete(permit@, outcome, now),
    {
        let mut state: CircuitState = match self.circuits.get(permit.target_id.as_str()) {
            Some(state) => *state,
            None => {
                return ;
            },
        };
        if state.generation != permit.generation {
            return ;
        }
        match (permit.kind, state.phase, outcome) {
            (PermitKind::Closed, CircuitPhase::Closed { .. }, CompletionOutcome::Success) => {
                state.phase = CircuitPhase::Closed { failures: 0 };
            },
            (
                PermitKind::Closed,
                CircuitPhase::Closed { failures },
                CompletionOutcome::TransientFailure,
            ) => {
                let next: u32 = failures.saturating_add(1);
                if next >= self.threshold {
                    self.set_open(&mut state, now);
                } else {
                    state.phase = CircuitPhase::Closed { failures: next };
                }
            },
            (
                PermitKind::Probe,
                CircuitPhase::HalfOpen { .. },
                CompletionOutcome::Success | CompletionOutcome::Permanent,
            ) => {
                Self::close_circuit(&mut state);
            },
            (
                PermitKind::Probe,
                CircuitPhase::HalfOpen { .. },
                CompletionOutcome::TransientFailure,
            ) => {
                self.set_open(&mut state, now);
            },
            _ => {},
        }
        self.set_state(permit.target_id.as_str(), state);
    }

    fn release_probe(&mut self, permit: &CircuitPermit)
        requires
            permit@.kind is Probe,
        ensures
            final(self)@ == old(self)@.after_release(permit@),
    {
        let mut state: CircuitState = match self.circuits.get(permit.target_id.as_str()) {
            Some(state) => *state,
            None => {
                return ;
            },
        };
        if state.generation != permit.generation {
            return ;
        }
        match state.phase {
            CircuitPhase::HalfOpen { .. } => {
                state.phase = CircuitPhase::HalfOpen { in_flight: false };
            },
            _ => {},
        }
        self.set_state(permit.target_id.as_str(), state);
    }
}

} // verus!
