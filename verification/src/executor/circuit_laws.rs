//! What holds of circuits over any history of admissions and completions.

use vstd::prelude::*;

use crate::common::time::{Duration, Instant};
use crate::executor::circuit::{
    AdmissionView, CircuitAdmission, CircuitPermit, CircuitPhase, CircuitState, CompletionOutcome,
    PermitKind, PermitView, RegistryView, TargetCircuitRegistry,
};

verus! {

/// One operation on a registry.
pub enum CircuitOp {
    Ask { target: Seq<char>, now: Instant },
    Complete { permit: PermitView, outcome: CompletionOutcome, now: Instant },
    Release { permit: PermitView },
}

/// The registry after one operation.
pub open spec fn applied(registry: RegistryView, op: CircuitOp) -> RegistryView {
    match op {
        CircuitOp::Ask { target, now } => registry.after_admit(target, now),
        CircuitOp::Complete { permit, outcome, now } => registry.after_complete(
            permit,
            outcome,
            now,
        ),
        CircuitOp::Release { permit } => registry.after_release(permit),
    }
}

/// The registry after a history of operations.
pub open spec fn history(registry: RegistryView, ops: Seq<CircuitOp>) -> RegistryView
    decreases ops.len(),
{
    if ops.len() == 0 {
        registry
    } else {
        applied(history(registry, ops.drop_last()), ops.last())
    }
}

/// How often the circuit of `target` opened, admitted a probe or recovered
/// during a history.
pub open spec fn transitions(
    registry: RegistryView,
    ops: Seq<CircuitOp>,
    target: Seq<char>,
) -> nat
    decreases ops.len(),
{
    if ops.len() == 0 {
        0
    } else {
        let before = history(registry, ops.drop_last()).circuit(target);
        let after = history(registry, ops).circuit(target);
        transitions(registry, ops.drop_last(), target) + if before.generation == after.generation {
            0nat
        } else {
            1nat
        }
    }
}

/// A completion or release whose admission is no longer current changes nothing.
pub proof fn law_stale_completion_changes_nothing(
    registry: RegistryView,
    permit: PermitView,
    outcome: CompletionOutcome,
    now: Instant,
)
    requires
        !registry.is_current(permit),
    ensures
        registry.after_complete(permit, outcome, now) == registry,
        registry.after_release(permit) == registry,
{
}

/// Nothing that completes late changes an open circuit: it stays open until its
/// cooldown has passed and a probe is admitted.
pub proof fn law_open_circuit_ignores_completions(
    registry: RegistryView,
    permit: PermitView,
    outcome: CompletionOutcome,
    now: Instant,
)
    requires
        registry.circuit(permit.target).phase is Open,
    ensures
        registry.after_complete(permit, outcome, now) == registry,
        registry.after_release(permit) == registry,
{
}

proof fn lemma_step_generation(registry: RegistryView, op: CircuitOp, target: Seq<char>)
    ensures
        ({
            let before = registry.circuit(target).generation;
            let after = applied(registry, op).circuit(target).generation;
            after == before || after == before.wrapping_add(1)
        }),
{
}

proof fn lemma_generation_counts_transitions(
    registry: RegistryView,
    ops: Seq<CircuitOp>,
    target: Seq<char>,
)
    ensures
        history(registry, ops).circuit(target).generation == (registry.circuit(target).generation
            + transitions(registry, ops, target)) % 0x1_0000_0000_0000_0000,
    decreases ops.len(),
{
    if ops.len() > 0 {
        lemma_generation_counts_transitions(registry, ops.drop_last(), target);
        lemma_step_generation(history(registry, ops.drop_last()), ops.last(), target);
        let start = registry.circuit(target).generation as int;
        let count = transitions(registry, ops.drop_last(), target) as int;
        let before = history(registry, ops.drop_last()).circuit(target).generation;
        assert(before == (start + count) % 0x1_0000_0000_0000_0000);
        assert(before.wrapping_add(1) == (before + 1) % 0x1_0000_0000_0000_0000);
        vstd::arithmetic::div_mod::lemma_add_mod_noop(start + count, 1, 0x1_0000_0000_0000_0000);
    }
}

/// Once a target's circuit has opened, admitted a probe or recovered after a
/// permit was issued, whatever that permit reports is ignored: a late success
/// cannot close a newer open circuit, a late failure cannot reopen a recovered
/// target, and neither frees a probe that another caller holds. (The generation
/// is 64 bits wide, so this is stated for fewer than that many transitions.)
pub proof fn law_late_completion_is_ignored(
    registry: RegistryView,
    ops: Seq<CircuitOp>,
    permit: PermitView,
    outcome: CompletionOutcome,
    now: Instant,
)
    requires
        registry.is_current(permit),
        0 < transitions(registry, ops, permit.target) < 0x1_0000_0000_0000_0000,
    ensures
        history(registry, ops).after_complete(permit, outcome, now) == history(registry, ops),
        history(registry, ops).after_release(permit) == history(registry, ops),
{
    lemma_generation_counts_transitions(registry, ops, permit.target);
    let start = permit.generation as int;
    let count = transitions(registry, ops, permit.target) as int;
    let now_generation = history(registry, ops).circuit(permit.target).generation as int;
    assert(now_generation == (start + count) % 0x1_0000_0000_0000_0000);
    assert(now_generation != start) by {
        if start + count < 0x1_0000_0000_0000_0000 {
            vstd::arithmetic::div_mod::lemma_small_mod(
                (start + count) as nat,
                0x1_0000_0000_0000_0000,
            );
        } else {
            vstd::arithmetic::div_mod::lemma_mod_multiples_vanish(
                -1,
                start + count,
                0x1_0000_0000_0000_0000,
            );
            vstd::arithmetic::div_mod::lemma_small_mod(
                (start + count - 0x1_0000_0000_0000_0000) as nat,
                0x1_0000_0000_0000_0000,
            );
        }
    }
}

/// What the holder of `probe` itself does to it.
pub open spec fn settles(op: CircuitOp, probe: PermitView) -> bool {
    match op {
        CircuitOp::Ask { .. } => false,
        CircuitOp::Complete { permit, .. } => permit == probe,
        CircuitOp::Release { permit } => permit == probe,
    }
}

/// At most one recovery probe is out per target: after a probe is admitted, no
/// other call to the target is, whatever anybody else asks or reports, until the
/// probe's holder reports or releases it.
pub proof fn law_probe_is_exclusive(
    registry: RegistryView,
    ops: Seq<CircuitOp>,
    probe: PermitView,
    now: Instant,
)
    requires
        probe.kind is Probe,
        registry.is_current(probe),
        registry.circuit(probe.target).phase == (CircuitPhase::HalfOpen { in_flight: true }),
        forall|i: int| 0 <= i < ops.len() ==> !settles(#[trigger] ops[i], probe),
    ensures
        history(registry, ops).is_current(probe),
        history(registry, ops).circuit(probe.target).phase == (CircuitPhase::HalfOpen {
            in_flight: true,
        }),
        history(registry, ops).admission(probe.target, now) is Reject,
    decreases ops.len(),
{
    if ops.len() > 0 {
        let earlier = ops.drop_last();
        assert forall|i: int| 0 <= i < earlier.len() implies !settles(
            #[trigger] earlier[i],
            probe,
        ) by {
            assert(earlier[i] == ops[i]);
        }
        law_probe_is_exclusive(registry, earlier, probe, now);
        assert(!settles(ops[ops.len() - 1], probe));
    }
}

/// A probe is admitted exactly when the cooldown has passed or an earlier probe
/// was given up, and then it owns the circuit.
pub proof fn law_probe_follows_cooldown(registry: RegistryView, target: Seq<char>, now: Instant)
    ensures
        registry.admission(target, now) is Probe <==> match registry.circuit(target).phase {
            CircuitPhase::Closed { .. } => false,
            CircuitPhase::Open { opened_until } => now.nanos >= opened_until.nanos,
            CircuitPhase::HalfOpen { in_flight } => !in_flight,
        },
        registry.admission(target, now) matches AdmissionView::Probe(permit)
            ==> registry.after_admit(target, now).is_current(permit) && permit.kind is Probe,
        registry.admission(target, now) matches AdmissionView::Allow(permit)
            ==> registry.after_admit(target, now).is_current(permit) && permit.kind is Closed,
{
}

/// A probe's report decides: success and a permanent error close the circuit, a
/// transient failure opens it again for a whole cooldown, and giving the probe
/// up lets the next caller probe at once.
pub proof fn law_probe_report_decides(
    registry: RegistryView,
    probe: PermitView,
    now: Instant,
    later: Instant,
)
    requires
        probe.kind is Probe,
        registry.is_current(probe),
    ensures
        registry.after_complete(probe, CompletionOutcome::Success, now).circuit(probe.target).phase
            == (CircuitPhase::Closed { failures: 0 }),
        registry.after_complete(probe, CompletionOutcome::Permanent, now).circuit(
            probe.target,
        ).phase == (CircuitPhase::Closed { failures: 0 }),
        registry.after_complete(probe, CompletionOutcome::TransientFailure, now).circuit(
            probe.target,
        ).phase == (CircuitPhase::Open { opened_until: now.spec_plus(registry.cooldown) }),
        registry.after_release(probe).admission(probe.target, later) is Probe,
{
}

/// The registry after closed calls under one permit failed transiently at the
/// given readings.
pub open spec fn failed(registry: RegistryView, permit: PermitView, at: Seq<Instant>) -> RegistryView
    decreases at.len(),
{
    if at.len() == 0 {
        registry
    } else {
        failed(registry, permit, at.drop_last()).after_complete(
            permit,
            CompletionOutcome::TransientFailure,
            at.last(),
        )
    }
}

/// Consecutive transient failures open a target's circuit at the threshold and
/// not before; it then rejects calls until the cooldown has passed.
pub proof fn law_threshold_opens(registry: RegistryView, permit: PermitView, at: Seq<Instant>)
    requires
        permit.kind is Closed,
        registry.is_current(permit),
        registry.circuit(permit.target).phase == (CircuitPhase::Closed { failures: 0 }),
        1 <= registry.threshold,
        at.len() <= registry.threshold,
    ensures
        at.len() < registry.threshold ==> failed(registry, permit, at).circuit(permit.target) == (
        CircuitState {
            generation: permit.generation,
            phase: CircuitPhase::Closed { failures: at.len() as u32 },
        }),
        at.len() == registry.threshold ==> failed(registry, permit, at).circuit(permit.target).phase
            == (CircuitPhase::Open { opened_until: at.last().spec_plus(registry.cooldown) }),
        at.len() < registry.threshold ==> failed(registry, permit, at).is_current(permit),
        failed(registry, permit, at).threshold == registry.threshold,
        failed(registry, permit, at).cooldown == registry.cooldown,
    decreases at.len(),
{
    if at.len() > 0 {
        law_threshold_opens(registry, permit, at.drop_last());
    }
}

/// A success under a current closed permit forgets earlier failures.
pub proof fn law_success_resets_failures(registry: RegistryView, permit: PermitView, now: Instant)
    requires
        permit.kind is Closed,
        registry.is_current(permit),
    ensures
        registry.after_complete(permit, CompletionOutcome::Success, now).circuit(permit.target) == (
        CircuitState { generation: permit.generation, phase: CircuitPhase::Closed { failures: 0 } }),
{
}

/// Only a transient failure opens a circuit: after any other operation a circuit
/// that is open was open before, until the same reading.
pub proof fn law_only_transient_failures_open(
    registry: RegistryView,
    op: CircuitOp,
    target: Seq<char>,
)
    requires
        !(op matches CircuitOp::Complete { outcome, .. } && outcome is TransientFailure),
        applied(registry, op).circuit(target).phase is Open,
    ensures
        applied(registry, op).circuit(target) == registry.circuit(target),
{
}

/// An operation on one target leaves every other target's circuit alone.
pub proof fn law_targets_are_independent(
    registry: RegistryView,
    op: CircuitOp,
    other: Seq<char>,
)
    requires
        match op {
            CircuitOp::Ask { target, .. } => target != other,
            CircuitOp::Complete { permit, .. } => permit.target != other,
            CircuitOp::Release { permit } => permit.target != other,
        },
    ensures
        applied(registry, op).circuit(other) == registry.circuit(other),
{
}

/// A rejected caller is always told to wait, and changes no circuit.
pub proof fn law_rejection_changes_nothing(registry: RegistryView, target: Seq<char>, now: Instant)
    requires
        registry.rejection(target, now) is Some,
    ensures
        registry.admission(target, now) matches AdmissionView::Reject(ms) && ms >= 1,
        registry.after_admit(target, now) == registry,
{
    assert(registry.after_admit(target, now).circuits =~= registry.circuits);
}

/// What a registry's map records of a target; a target without a record is
/// closed and has not failed.
pub open spec fn recorded(registry: RegistryView, target: Seq<char>) -> CircuitState {
    if registry.circuits.contains_key(target) {
        registry.circuits[target]
    } else {
        CircuitState { generation: 0, phase: CircuitPhase::Closed { failures: 0 } }
    }
}

/// Whether a circuit lets a call start at `now`.
pub open spec fn lets_through(state: CircuitState, now: Instant) -> bool {
    match state.phase {
        CircuitPhase::Closed { .. } => true,
        CircuitPhase::Open { opened_until } => opened_until.nanos <= now.nanos,
        CircuitPhase::HalfOpen { in_flight } => !in_flight,
    }
}

/// How long a rejected caller is told to wait: what is left of the cooldown, or
/// the whole cooldown while a probe is out, in whole milliseconds and at least
/// one.
pub open spec fn told_to_wait(registry: RegistryView, target: Seq<char>, now: Instant) -> int {
    let nanos = match recorded(registry, target).phase {
        CircuitPhase::Closed { .. } => 0int,
        CircuitPhase::Open { opened_until } => opened_until.nanos - now.nanos,
        CircuitPhase::HalfOpen { .. } => registry.cooldown.nanos as int,
    };
    if nanos / 1_000_000 == 0 {
        1
    } else if nanos / 1_000_000 <= u64::MAX {
        nanos / 1_000_000
    } else {
        u64::MAX as int
    }
}

/// Whether a permit still names the generation and phase that a registry records
/// for its target.
pub open spec fn still_owns(registry: RegistryView, permit: PermitView) -> bool {
    &&& registry.circuits.contains_key(permit.target)
    &&& registry.circuits[permit.target].generation == permit.generation
    &&& permit.kind is Closed ==> registry.circuits[permit.target].phase is Closed
    &&& permit.kind is Probe ==> registry.circuits[permit.target].phase is HalfOpen
}

/// The reading one cooldown after `now`, clipped at the last one.
pub open spec fn cooled_down_at(registry: RegistryView, now: Instant) -> int {
    if now.nanos + registry.cooldown.nanos <= u128::MAX {
        now.nanos + registry.cooldown.nanos
    } else {
        u128::MAX as int
    }
}

/// Whether two registries have the same settings and record the same of every
/// target but one.
pub open spec fn differ_at_most_in(a: RegistryView, b: RegistryView, target: Seq<char>) -> bool {
    &&& a.threshold == b.threshold
    &&& a.cooldown == b.cooldown
    &&& forall|other: Seq<char>|
        other != target ==> #[trigger] recorded(a, other) == recorded(b, other)
}

/// Asking for a target: a closed circuit allows the call and stays as it is; one
/// whose cooldown has passed, or whose probe was given up, hands out its single
/// probe under a new generation; every other rejects the call, says how long to
/// wait and stays as it is.
pub proof fn law_asking_goes_by_phase(
    registry: &mut TargetCircuitRegistry,
    target: &str,
    now: Instant,
    admission: CircuitAdmission,
)
    requires
        call_ensures(TargetCircuitRegistry::try_admit, (registry, target, now), admission),
    ensures
        differ_at_most_in(old(registry)@, final(registry)@, target@),
        ({
            let before = recorded(old(registry)@, target@);
            let after = recorded(final(registry)@, target@);
            if before.phase is Closed {
                &&& admission@ == AdmissionView::Allow(
                    PermitView {
                        target: target@,
                        generation: before.generation,
                        kind: PermitKind::Closed,
                    },
                )
                &&& after == before
                &&& still_owns(final(registry)@, admission@->Allow_0)
            } else if lets_through(before, now) {
                &&& admission@ matches AdmissionView::Probe(probe) && probe.target == target@
                    && probe.kind is Probe && probe.generation != before.generation && still_owns(
                    final(registry)@,
                    probe,
                )
                &&& after.phase == (CircuitPhase::HalfOpen { in_flight: true })
            } else {
                &&& admission@ matches AdmissionView::Reject(ms) && ms == told_to_wait(
                    old(registry)@,
                    target@,
                    now,
                )
                &&& after == before
            }
        }),
{
}

/// What is reported under a permit that owns its phase: success forgets a closed
/// circuit's failures and a permanent error leaves them, either closes a probe's
/// circuit; a transient failure counts one more, and opens the circuit for a
/// whole cooldown at the threshold or after a probe. Whatever changes the phase
/// takes the ownership away from every permit handed out before.
pub proof fn law_reports_go_by_phase(
    registry: RegistryView,
    permit: PermitView,
    outcome: CompletionOutcome,
    now: Instant,
)
    requires
        still_owns(registry, permit),
    ensures
        differ_at_most_in(registry, registry.after_complete(permit, outcome, now), permit.target),
        ({
            let before = recorded(registry, permit.target);
            let done = registry.after_complete(permit, outcome, now);
            let after = recorded(done, permit.target);
            let opened = after.phase matches CircuitPhase::Open { opened_until }
                && opened_until.nanos == cooled_down_at(registry, now) && after.generation
                != before.generation;
            match before.phase {
                CircuitPhase::Closed { failures } => match outcome {
                    CompletionOutcome::Success => after == (CircuitState {
                        generation: before.generation,
                        phase: CircuitPhase::Closed { failures: 0 },
                    }),
                    CompletionOutcome::Permanent => after == before,
                    CompletionOutcome::TransientFailure => if failures + 1 < registry.threshold {
                        after == (CircuitState {
                            generation: before.generation,
                            phase: CircuitPhase::Closed { failures: (failures + 1) as u32 },
                        })
                    } else {
                        opened && !still_owns(done, permit)
                    },
                },
                _ => match outcome {
                    CompletionOutcome::TransientFailure => opened && !still_owns(done, permit),
                    _ => after.phase == (CircuitPhase::Closed { failures: 0 }) && after.generation
                        != before.generation && !still_owns(done, permit),
                },
            }
        }),
{
}

/// Giving a probe up keeps its circuit half open with no probe out, so that the
/// next caller may probe; giving any other admission up changes nothing.
pub proof fn law_release_goes_by_kind(registry: RegistryView, permit: PermitView)
    ensures
        differ_at_most_in(registry, registry.after_release(permit), permit.target),
        recorded(registry.after_release(permit), permit.target) == (if permit.kind is Probe
            && still_owns(registry, permit) {
            CircuitState {
                generation: permit.generation,
                phase: CircuitPhase::HalfOpen { in_flight: false },
            }
        } else {
            recorded(registry, permit.target)
        }),
{
}

/// A report or release under a permit that no longer owns its phase changes
/// nothing.
pub proof fn law_lost_ownership_changes_nothing(
    registry: RegistryView,
    permit: PermitView,
    outcome: CompletionOutcome,
    now: Instant,
)
    requires
        !still_owns(registry, permit),
    ensures
        registry.after_complete(permit, outcome, now) == registry,
        registry.after_release(permit) == registry,
{
}

/// Each way to settle a permit reports what its name says.
pub proof fn law_settling_reports_its_outcome(
    permit: CircuitPermit,
    registry: &mut TargetCircuitRegistry,
    now: Instant,
    outcome: CompletionOutcome,
)
    requires
        match outcome {
            CompletionOutcome::Success => call_ensures(
                CircuitPermit::success,
                (permit, registry, now),
                (),
            ),
            CompletionOutcome::TransientFailure => call_ensures(
                CircuitPermit::transient_failure,
                (permit, registry, now),
                (),
            ),
            CompletionOutcome::Permanent => call_ensures(
                CircuitPermit::ignore_permanent,
                (permit, registry, now),
                (),
            ),
        },
    ensures
        final(registry)@ == old(registry)@.after_complete(permit@, outcome, now),
{
}

/// A new registry lets every target through, and opens a circuit after as many
/// failures as configured, at least one.
pub proof fn law_new_registry_lets_everything_through(
    threshold: u32,
    cooldown: Duration,
    registry: TargetCircuitRegistry,
    target: Seq<char>,
)
    requires
        call_ensures(TargetCircuitRegistry::new, (threshold, cooldown), registry),
    ensures
        recorded(registry@, target).phase == (CircuitPhase::Closed { failures: 0 }),
        registry@.cooldown == cooldown,
        registry@.threshold >= 1,
        threshold >= 1 ==> registry@.threshold == threshold,
{
}

/// A target is usable exactly while its circuit is closed, and asking whether it
/// is changes nothing.
pub proof fn law_only_closed_targets_are_usable(
    registry: &TargetCircuitRegistry,
    target: &str,
    usable: bool,
)
    requires
        call_ensures(TargetCircuitRegistry::target_is_usable, (registry, target), usable),
    ensures
        usable <==> recorded(registry@, target@).phase is Closed,
{
}

/// Opening a target by hand rejects calls to it for a whole cooldown; closing it
/// by hand lets the next call through. Either takes ownership away from every
/// permit handed out before, and neither touches another target.
pub proof fn law_forcing_a_circuit(
    registry: &mut TargetCircuitRegistry,
    target: &str,
    now: Instant,
)
    ensures
        call_ensures(TargetCircuitRegistry::force_open, (registry, target, now), ()) ==> {
            &&& differ_at_most_in(old(registry)@, final(registry)@, target@)
            &&& recorded(final(registry)@, target@).phase matches CircuitPhase::Open { opened_until }
                && opened_until.nanos == cooled_down_at(old(registry)@, now)
            &&& recorded(final(registry)@, target@).generation != recorded(
                old(registry)@,
                target@,
            ).generation
        },
        call_ensures(TargetCircuitRegistry::force_close, (registry, target), ()) ==> {
            &&& differ_at_most_in(old(registry)@, final(registry)@, target@)
            &&& recorded(final(registry)@, target@).phase == (CircuitPhase::Closed { failures: 0 })
            &&& recorded(final(registry)@, target@).generation != recorded(
                old(registry)@,
                target@,
            ).generation
        },
{
}

} // verus!
