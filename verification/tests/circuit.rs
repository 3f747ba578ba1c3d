use gateway::common::time::{Duration, Instant};
use gateway::executor::circuit::{CircuitAdmission, CircuitPermit, TargetCircuitRegistry};

/// A clock that moves only when told to.
struct ManualClock {
    now: Instant,
}

impl ManualClock {
    fn new() -> Self {
        ManualClock {
            now: Instant { nanos: 1_000_000_000_000 },
        }
    }

    fn advance_ms(&mut self, ms: u64) {
        self.now = self.now.plus(Duration::from_millis(ms));
    }
}

fn admit_closed(registry: &mut TargetCircuitRegistry, target: &str, clock: &ManualClock) -> CircuitPermit {
    match registry.try_admit(target, clock.now) {
        CircuitAdmission::Allow(permit) => permit,
        CircuitAdmission::Reject { .. } => {
            panic!("expected closed admission, got reject")
        }
        CircuitAdmission::Probe(_) => panic!("expected closed admission, got probe"),
    }
}

fn admit_probe(registry: &mut TargetCircuitRegistry, target: &str, clock: &ManualClock) -> CircuitPermit {
    match registry.try_admit(target, clock.now) {
        CircuitAdmission::Probe(permit) => permit,
        _ => panic!("expected a half-open probe after cooldown"),
    }
}

fn assert_rejected(registry: &mut TargetCircuitRegistry, target: &str, clock: &ManualClock, why: &str) {
    assert!(
        matches!(
            registry.try_admit(target, clock.now),
            CircuitAdmission::Reject { .. }
        ),
        "{why}"
    );
}

fn assert_closed(registry: &mut TargetCircuitRegistry, target: &str, clock: &ManualClock) {
    admit_closed(registry, target, clock).release(registry);
}

fn open_alpha(registry: &mut TargetCircuitRegistry, clock: &ManualClock) {
    admit_closed(registry, "alpha", clock).transient_failure(registry, clock.now);
    assert_rejected(registry, "alpha", clock, "circuit should be open");
}

#[test]
fn same_generation_closed_failures_count_until_threshold() {
    let clock = ManualClock::new();
    let mut registry = TargetCircuitRegistry::new(2, Duration::from_millis(40));
    let first = admit_closed(&mut registry, "alpha", &clock);
    let second = admit_closed(&mut registry, "alpha", &clock);
    first.transient_failure(&mut registry, clock.now);
    assert_closed(&mut registry, "alpha", &clock);
    second.transient_failure(&mut registry, clock.now);
    assert_rejected(
        &mut registry,
        "alpha",
        &clock,
        "same-generation closed failures must count in completion order",
    );
}

#[test]
fn same_generation_closed_success_then_failure_still_counts() {
    let clock = ManualClock::new();
    let mut registry = TargetCircuitRegistry::new(1, Duration::from_millis(40));
    let first = admit_closed(&mut registry, "alpha", &clock);
    let second = admit_closed(&mut registry, "alpha", &clock);
    first.success(&mut registry, clock.now);
    second.transient_failure(&mut registry, clock.now);
    assert_rejected(
        &mut registry,
        "alpha",
        &clock,
        "same-generation closed failure after success must still count",
    );
}

#[test]
fn stale_success_does_not_close_open_circuit_before_cooldown() {
    let clock = ManualClock::new();
    let mut registry = TargetCircuitRegistry::new(1, Duration::from_millis(40));
    let stale = admit_closed(&mut registry, "alpha", &clock);
    open_alpha(&mut registry, &clock);
    stale.success(&mut registry, clock.now);
    assert_rejected(
        &mut registry,
        "alpha",
        &clock,
        "stale success must not close a newer open circuit before cooldown",
    );
}

#[test]
fn stale_failure_does_not_reopen_after_successful_recovery() {
    let mut clock = ManualClock::new();
    let mut registry = TargetCircuitRegistry::new(1, Duration::from_millis(40));
    let stale = admit_closed(&mut registry, "alpha", &clock);
    open_alpha(&mut registry, &clock);
    clock.advance_ms(41);
    admit_probe(&mut registry, "alpha", &clock).success(&mut registry, clock.now);
    assert_closed(&mut registry, "alpha", &clock);
    stale.transient_failure(&mut registry, clock.now);
    assert_closed(&mut registry, "alpha", &clock);
}

#[test]
fn stale_closed_completion_while_probe_held_does_not_admit_another_call() {
    let mut clock = ManualClock::new();
    let mut registry = TargetCircuitRegistry::new(1, Duration::from_millis(40));
    let stale = admit_closed(&mut registry, "alpha", &clock);
    open_alpha(&mut registry, &clock);
    clock.advance_ms(41);
    let probe = admit_probe(&mut registry, "alpha", &clock);
    stale.success(&mut registry, clock.now);
    assert_rejected(
        &mut registry,
        "alpha",
        &clock,
        "stale closed success must not admit another call while a probe is held",
    );
    probe.success(&mut registry, clock.now);
    assert_closed(&mut registry, "alpha", &clock);
}

#[test]
fn released_probe_frees_the_half_open_slot() {
    let mut clock = ManualClock::new();
    let mut registry = TargetCircuitRegistry::new(1, Duration::from_millis(40));
    open_alpha(&mut registry, &clock);
    clock.advance_ms(40);
    let probe = admit_probe(&mut registry, "alpha", &clock);
    assert_rejected(&mut registry, "alpha", &clock, "one probe at a time");
    probe.release(&mut registry);
    admit_probe(&mut registry, "alpha", &clock).success(&mut registry, clock.now);
    assert_closed(&mut registry, "alpha", &clock);
}

#[test]
fn permanent_probe_result_closes_and_transient_reopens() {
    let mut clock = ManualClock::new();
    let mut registry = TargetCircuitRegistry::new(1, Duration::from_millis(40));
    open_alpha(&mut registry, &clock);
    clock.advance_ms(40);
    admit_probe(&mut registry, "alpha", &clock).transient_failure(&mut registry, clock.now);
    assert_rejected(&mut registry, "alpha", &clock, "failed probe reopens");
    clock.advance_ms(39);
    assert_rejected(&mut registry, "alpha", &clock, "for a whole cooldown");
    clock.advance_ms(1);
    admit_probe(&mut registry, "alpha", &clock).ignore_permanent(&mut registry, clock.now);
    assert_closed(&mut registry, "alpha", &clock);
}

#[test]
fn permanent_errors_and_successes_do_not_add_up_to_an_open_circuit() {
    let clock = ManualClock::new();
    let mut registry = TargetCircuitRegistry::new(2, Duration::from_millis(40));
    for _ in 0..5 {
        admit_closed(&mut registry, "alpha", &clock).ignore_permanent(&mut registry, clock.now);
        admit_closed(&mut registry, "alpha", &clock).transient_failure(&mut registry, clock.now);
        admit_closed(&mut registry, "alpha", &clock).success(&mut registry, clock.now);
    }
    assert_closed(&mut registry, "alpha", &clock);
}

#[test]
fn rejection_reports_the_remaining_cooldown() {
    let mut clock = ManualClock::new();
    let mut registry = TargetCircuitRegistry::new(1, Duration::from_millis(40));
    open_alpha(&mut registry, &clock);
    clock.advance_ms(15);
    match registry.try_admit("alpha", clock.now) {
        CircuitAdmission::Reject { retry_after_ms } => assert_eq!(retry_after_ms, 25),
        other => panic!("expected reject, got {other:?}"),
    }
    clock.now = clock.now.plus(Duration { nanos: 24_999_999 });
    match registry.try_admit("alpha", clock.now) {
        CircuitAdmission::Reject { retry_after_ms } => assert_eq!(retry_after_ms, 1),
        other => panic!("expected reject, got {other:?}"),
    }
    clock.now = clock.now.plus(Duration { nanos: 1 });
    let probe = admit_probe(&mut registry, "alpha", &clock);
    match registry.try_admit("alpha", clock.now) {
        CircuitAdmission::Reject { retry_after_ms } => assert_eq!(retry_after_ms, 40),
        other => panic!("expected reject, got {other:?}"),
    }
    probe.release(&mut registry);
}

#[test]
fn zero_threshold_counts_as_one_and_zero_cooldown_reports_one() {
    let clock = ManualClock::new();
    let mut registry = TargetCircuitRegistry::new(0, Duration::zero());
    admit_closed(&mut registry, "alpha", &clock).transient_failure(&mut registry, clock.now);
    let probe = admit_probe(&mut registry, "alpha", &clock);
    match registry.try_admit("alpha", clock.now) {
        CircuitAdmission::Reject { retry_after_ms } => assert_eq!(retry_after_ms, 1),
        other => panic!("expected reject, got {other:?}"),
    }
    probe.success(&mut registry, clock.now);
}

#[test]
fn targets_are_independent_and_usability_starts_no_probe() {
    let mut clock = ManualClock::new();
    let mut registry = TargetCircuitRegistry::new(1, Duration::from_millis(40));
    assert!(registry.target_is_usable("alpha"));
    registry.force_open("alpha", clock.now);
    assert!(!registry.target_is_usable("alpha"));
    assert!(registry.target_is_usable("beta"));
    assert_closed(&mut registry, "beta", &clock);
    clock.advance_ms(41);
    assert!(!registry.target_is_usable("alpha"));
    let probe = admit_probe(&mut registry, "alpha", &clock);
    assert!(!registry.target_is_usable("alpha"));
    registry.force_close("alpha");
    assert!(registry.target_is_usable("alpha"));
    probe.transient_failure(&mut registry, clock.now);
    assert!(registry.target_is_usable("alpha"), "late probe result is ignored");
}
