use gateway::common::contracts::RoutePlan;
use gateway::common::deadline::RequestDeadline;
use gateway::common::names::NameMap;
use gateway::common::number::Float64;
use gateway::common::time::{Duration, Instant};
use gateway::executor::budget::ScriptedJitter;
use gateway::executor::config::ExecutorConfig;
use gateway::executor::error::ExecutorError;
use gateway::executor::events::{
    attempt_events, cancellation_event, circuit_event, circuit_label, step_events, AttemptOutcome,
    CircuitStateLabel, ExecutionEvent,
};
use gateway::executor::models::{ExecutionParams, ExecutionResult};
use gateway::executor::repository::ExecutorRepository;
use gateway::executor::run::{AttemptEnd, PendingCall, Step};
use gateway::executor::service::ExecutorService;
use serde_json::Value;
use std::collections::{HashMap, VecDeque};

const MODEL_A: &str = "model-a";
const MODEL_B: &str = "model-b";
const MODEL_C: &str = "model-c";

type Outcome = Result<ExecutionResult, ExecutorError>;

/// Plays scripted outcomes per model against the service on a manual clock.
struct Sim {
    service: ExecutorService,
    now: Instant,
    calls: Vec<String>,
    call_times_ms: Vec<u128>,
    params_seen: Vec<ExecutionParams>,
    timeouts_ms: Vec<u128>,
    delay: Duration,
    delayed_model: Option<&'static str>,
    observed: Option<ExecutorError>,
    script: HashMap<String, VecDeque<Outcome>>,
    jitter: ScriptedJitter,
    events: Vec<ExecutionEvent>,
}

fn sim(config: ExecutorConfig, script: Vec<(&str, Vec<Outcome>)>) -> Sim {
    Sim {
        service: ExecutorService::from_repository(
            ExecutorRepository {
                vendors: NameMap::new(),
            },
            config,
        ),
        now: Instant { nanos: 0 },
        calls: Vec::new(),
        call_times_ms: Vec::new(),
        params_seen: Vec::new(),
        timeouts_ms: Vec::new(),
        delay: Duration::zero(),
        delayed_model: None,
        observed: None,
        script: script
            .into_iter()
            .map(|(model, outcomes)| (model.to_string(), outcomes.into_iter().collect()))
            .collect(),
        jitter: ScriptedJitter::new(vec![1; 64]),
        events: Vec::new(),
    }
}

impl Sim {
    fn advance_ms(&mut self, ms: u64) {
        self.now = self.now.plus(Duration::from_millis(ms));
    }

    fn start(&mut self, plan: RoutePlan, payload: &Value, deadline: RequestDeadline) -> Step {
        let now = self.now;
        let primary = plan.target_id.clone();
        let step = self.service.execute(plan, payload, deadline, now);
        self.events.extend(step_events(&primary, &step));
        step
    }

    fn circuit_label(&self, target: &str) -> CircuitStateLabel {
        circuit_label(&self.service.circuits, target)
    }

    fn record_circuit(&mut self, target: &str, before: CircuitStateLabel) {
        self.events
            .extend(circuit_event(target, before, &self.service.circuits));
    }

    fn force_open_target(&mut self, target: &str) {
        let before = self.circuit_label(target);
        self.service.force_open_target(target, self.now);
        self.record_circuit(target, before);
    }

    /// Gives up the call that `step` stands at, as when a request is dropped.
    fn cancel(&mut self, step: Step) {
        match step {
            Step::Call(call) => {
                self.calls.push(call.plan().model_id.clone());
                self.events.push(cancellation_event(&call, self.now));
                call.abandon(&mut self.service.circuits);
            }
            Step::Sleep(backoff) => backoff.abandon(&mut self.service.circuits),
            Step::Finish(_) => panic!("the request is over"),
        }
    }

    fn attempts(&self) -> Vec<(String, AttemptOutcome)> {
        self.events
            .iter()
            .filter_map(|event| match event {
                ExecutionEvent::Attempt { target, outcome } => Some((target.clone(), *outcome)),
                _ => None,
            })
            .collect()
    }

    fn retries(&self) -> Vec<String> {
        self.events
            .iter()
            .filter_map(|event| match event {
                ExecutionEvent::Retry { target } => Some(target.clone()),
                _ => None,
            })
            .collect()
    }

    fn fallbacks(&self) -> Vec<(String, String)> {
        self.events
            .iter()
            .filter_map(|event| match event {
                ExecutionEvent::Fallback { from, to } => Some((from.clone(), to.clone())),
                _ => None,
            })
            .collect()
    }

    fn usage(&self) -> Vec<(String, i64, i64)> {
        self.events
            .iter()
            .filter_map(|event| match event {
                ExecutionEvent::Usage {
                    target,
                    prompt_tokens,
                    completion_tokens,
                } => Some((target.clone(), *prompt_tokens, *completion_tokens)),
                _ => None,
            })
            .collect()
    }

    fn circuit_transitions(&self) -> Vec<(String, CircuitStateLabel)> {
        self.events
            .iter()
            .filter_map(|event| match event {
                ExecutionEvent::Circuit { target, state } => Some((target.clone(), *state)),
                _ => None,
            })
            .collect()
    }

    fn deadline_count(&self) -> usize {
        self.events
            .iter()
            .filter(|event| matches!(event, ExecutionEvent::DeadlineExceeded))
            .count()
    }

    fn answer(&mut self, call: PendingCall) -> Step {
        let model = call.plan().model_id.clone();
        self.calls.push(model.clone());
        self.call_times_ms.push(self.now.nanos / 1_000_000);
        self.params_seen.push(call.params().clone());
        self.timeouts_ms.push(call.timeout().as_millis());
        let delayed = self.delayed_model.map_or(true, |slow| slow == model);
        let delay = if delayed { self.delay } else { Duration::zero() };
        let end = if delay.nanos > call.timeout().nanos {
            self.now = self.now.plus(call.timeout());
            AttemptEnd::TimedOut {
                observed: self.observed.clone(),
            }
        } else {
            self.now = self.now.plus(delay);
            AttemptEnd::Completed(
                self.script
                    .get_mut(&model)
                    .and_then(|outcomes| outcomes.pop_front())
                    .unwrap_or_else(|| panic!("unexpected extra call for {model}")),
            )
        };
        let target = call.plan().target_id.clone();
        let before = self.circuit_label(&target);
        self.events.extend(attempt_events(&call, &end, self.now));
        let next = call.finish(end, &mut self.service.circuits, self.now, &mut self.jitter);
        self.record_circuit(&target, before);
        self.events.extend(step_events(&target, &next));
        next
    }

    fn drive(&mut self, mut step: Step) -> Outcome {
        loop {
            step = match step {
                Step::Finish(result) => return result,
                Step::Call(call) => self.answer(call),
                Step::Sleep(backoff) => {
                    self.now = self.now.plus(backoff.wait());
                    let target = backoff.plan().target_id.clone();
                    let next = backoff.wake(&mut self.service.circuits, self.now);
                    self.events.extend(step_events(&target, &next));
                    next
                }
            };
        }
    }

    fn run(&mut self, plan: RoutePlan, payload: &Value, deadline_ms: u64) -> Outcome {
        let deadline = RequestDeadline::from_timeout(Duration::from_millis(deadline_ms), self.now);
        let step = self.start(plan, payload, deadline);
        self.drive(step)
    }
}

fn policy(max_retries: u32, max_total_attempts: u32) -> ExecutorConfig {
    let mut config = ExecutorConfig::mock_policy(max_retries, 10_000);
    config.max_total_attempts = max_total_attempts;
    config
}

fn with_circuit(mut config: ExecutorConfig, threshold: u32, cooldown_ms: u64) -> ExecutorConfig {
    config.circuit_failure_threshold = threshold;
    config.circuit_cooldown_ms = cooldown_ms;
    config
}

fn hop(target_id: &str, model_id: &str, max_output_tokens: u32) -> RoutePlan {
    RoutePlan {
        vendor_id: "openai".to_string(),
        target_id: target_id.to_string(),
        model_id: model_id.to_string(),
        max_output_tokens,
        fallback_plans: Vec::new(),
    }
}

fn chain(primary: RoutePlan, fallbacks: Vec<RoutePlan>) -> RoutePlan {
    RoutePlan {
        fallback_plans: fallbacks,
        ..primary
    }
}

fn abc() -> RoutePlan {
    chain(
        hop("alpha", MODEL_A, 512),
        vec![hop("beta", MODEL_B, 512), hop("gamma", MODEL_C, 512)],
    )
}

fn ab() -> RoutePlan {
    chain(hop("alpha", MODEL_A, 512), vec![hop("beta", MODEL_B, 512)])
}

fn json(text: &str) -> Value {
    serde_json::from_str(text).expect("test JSON")
}

fn payload() -> Value {
    json(r#"{"messages":[{"role":"user","content":"budget"}]}"#)
}

fn payload_with_tokens(max_tokens: i64) -> Value {
    json(&format!(
        r#"{{"messages":[{{"role":"user","content":"fallback"}}],"max_tokens":{max_tokens},"temperature":0.2,"top_p":0.9}}"#
    ))
}

fn success(model: &str, content: &str) -> Outcome {
    Ok(ExecutionResult {
        content: content.to_string(),
        role: "assistant".to_string(),
        model_used: model.to_string(),
        prompt_tokens: 8,
        completion_tokens: 4,
        total_cost: Float64 {
            bits: 0.001f64.to_bits(),
        },
        finish_reason: "stop".to_string(),
    })
}

fn network() -> Outcome {
    Err(ExecutorError::NetworkError("transient".to_string()))
}

fn throttled(vendor: &str, retry_after_ms: u64) -> Outcome {
    Err(ExecutorError::RateLimitExceeded {
        vendor: vendor.to_string(),
        retry_after_ms: Some(retry_after_ms),
    })
}

fn assert_transient(result: Outcome) {
    match result {
        Err(ExecutorError::NetworkError(message)) => assert_eq!(message, "transient"),
        other => panic!("expected preserved primary NetworkError, got {other:?}"),
    }
}

#[test]
fn default_single_target_policy_permits_at_most_two_calls() {
    let mut sim = sim(policy(1, 3), vec![(MODEL_A, vec![network(), network()])]);
    assert_transient(sim.run(hop("alpha", MODEL_A, 512), &payload(), 30_000));
    assert_eq!(sim.calls.len(), 2);
}

#[test]
fn higher_retry_allowance_is_capped_by_global_attempt_budget() {
    let mut sim = sim(
        policy(5, 3),
        vec![(MODEL_A, vec![network(), network(), network()])],
    );
    assert_transient(sim.run(hop("alpha", MODEL_A, 512), &payload(), 30_000));
    assert_eq!(sim.calls.len(), 3);
}

#[test]
fn fallback_does_not_reset_the_shared_attempt_budget() {
    let mut sim = sim(
        policy(1, 3),
        vec![
            (MODEL_A, vec![network(), network()]),
            (MODEL_B, vec![network()]),
        ],
    );
    assert_transient(sim.run(ab(), &payload(), 30_000));
    assert_eq!(sim.calls, vec![MODEL_A, MODEL_A, MODEL_B]);
}

#[test]
fn remaining_time_shorter_than_attempt_timeout_starts_no_later_call() {
    let mut sim = sim(policy(1, 3), vec![]);
    sim.delay = Duration::from_secs(1);
    match sim.run(hop("alpha", MODEL_A, 512), &payload(), 80) {
        Err(ExecutorError::DeadlineExceeded) => {}
        other => panic!("expected DeadlineExceeded, got {other:?}"),
    }
    assert_eq!(sim.calls.len(), 1);
    assert_eq!(sim.timeouts_ms, vec![80]);
}

#[test]
fn attempt_timeout_does_not_claim_overall_deadline_elapsed() {
    let mut config = policy(0, 1);
    config.timeout_ms = 50;
    let mut sim = sim(config, vec![]);
    sim.delay = Duration::from_secs(1);
    match sim.run(hop("alpha", MODEL_A, 512), &payload(), 5_000) {
        Err(ExecutorError::TimeoutError(ms)) => assert_eq!(ms, 50),
        other => panic!("expected TimeoutError, got {other:?}"),
    }
    assert_eq!(sim.calls.len(), 1);
}

#[test]
fn attempt_timeout_keeps_what_the_headers_already_said() {
    let mut config = policy(0, 1);
    config.timeout_ms = 50;
    let mut sim = sim(config, vec![]);
    sim.delay = Duration::from_secs(1);
    sim.observed = Some(ExecutorError::RateLimitExceeded {
        vendor: "openai".to_string(),
        retry_after_ms: Some(700),
    });
    match sim.run(ab(), &payload(), 5_000) {
        Err(ExecutorError::RateLimitExceeded { retry_after_ms, .. }) => {
            assert_eq!(retry_after_ms, Some(700))
        }
        other => panic!("expected saved throttling, got {other:?}"),
    }
    assert_eq!(sim.calls, vec![MODEL_A]);
}

#[test]
fn retry_after_that_cannot_fit_returns_provider_throttling() {
    let mut sim = sim(policy(3, 4), vec![(MODEL_A, vec![throttled("mock", 5_000)])]);
    match sim.run(hop("alpha", MODEL_A, 512), &payload(), 200) {
        Err(ExecutorError::RateLimitExceeded {
            vendor,
            retry_after_ms,
        }) => {
            assert_eq!(vendor, "mock");
            assert_eq!(retry_after_ms, Some(5_000));
        }
        other => panic!("expected RateLimitExceeded, got {other:?}"),
    }
    assert_eq!(sim.calls.len(), 1);
    assert_eq!(sim.now.nanos, 0, "oversized Retry-After must not sleep");
}

#[test]
fn eligible_retry_does_not_start_before_provider_minimum() {
    let mut sim = sim(
        policy(1, 3),
        vec![(MODEL_A, vec![throttled("mock", 100), success(MODEL_A, "ok")])],
    );
    let result = sim
        .run(hop("alpha", MODEL_A, 512), &payload(), 5_000)
        .expect("retry should succeed");
    assert_eq!(result.model_used, MODEL_A);
    assert_eq!(sim.call_times_ms, vec![0, 100]);
}

#[test]
fn zero_retries_cannot_fit_does_not_call_configured_fallback() {
    let mut sim = sim(
        policy(0, 3),
        vec![
            (MODEL_A, vec![throttled("openai", 5_000)]),
            (MODEL_B, vec![success(MODEL_B, "should-not-run")]),
        ],
    );
    match sim.run(ab(), &payload(), 200) {
        Err(ExecutorError::RateLimitExceeded { retry_after_ms, .. }) => {
            assert_eq!(retry_after_ms, Some(5_000))
        }
        other => panic!("expected RateLimitExceeded, got {other:?}"),
    }
    assert_eq!(sim.calls, vec![MODEL_A]);
}

#[test]
fn final_retry_cannot_fit_does_not_call_configured_fallback() {
    let mut sim = sim(
        policy(1, 3),
        vec![
            (
                MODEL_A,
                vec![throttled("openai", 10), throttled("openai", 5_000)],
            ),
            (MODEL_B, vec![success(MODEL_B, "should-not-run")]),
        ],
    );
    match sim.run(ab(), &payload(), 200) {
        Err(ExecutorError::RateLimitExceeded { retry_after_ms, .. }) => {
            assert_eq!(retry_after_ms, Some(5_000))
        }
        other => panic!("expected RateLimitExceeded, got {other:?}"),
    }
    assert_eq!(sim.calls, vec![MODEL_A, MODEL_A]);
}

#[test]
fn intermediate_fallback_cannot_fit_stops_the_remaining_chain() {
    let mut sim = sim(
        policy(0, 3),
        vec![
            (MODEL_A, vec![network()]),
            (MODEL_B, vec![throttled("mid", 5_000)]),
            (MODEL_C, vec![success(MODEL_C, "should-not-run")]),
        ],
    );
    match sim.run(abc(), &payload(), 200) {
        Err(ExecutorError::RateLimitExceeded {
            vendor,
            retry_after_ms,
        }) => {
            assert_eq!(vendor, "mid");
            assert_eq!(retry_after_ms, Some(5_000));
        }
        other => panic!("expected RateLimitExceeded, got {other:?}"),
    }
    assert_eq!(sim.calls, vec![MODEL_A, MODEL_B]);
}

#[test]
fn spare_global_attempt_slots_do_not_bypass_cannot_fit() {
    let mut sim = sim(
        policy(1, 4),
        vec![
            (MODEL_A, vec![throttled("openai", 5_000)]),
            (MODEL_B, vec![success(MODEL_B, "should-not-run")]),
        ],
    );
    match sim.run(ab(), &payload(), 200) {
        Err(ExecutorError::RateLimitExceeded { retry_after_ms, .. }) => {
            assert_eq!(retry_after_ms, Some(5_000))
        }
        other => panic!("expected RateLimitExceeded, got {other:?}"),
    }
    assert_eq!(sim.calls, vec![MODEL_A]);
}

#[test]
fn fitting_retry_after_still_retries_primary_when_fallback_exists() {
    let mut sim = sim(
        policy(1, 3),
        vec![
            (MODEL_A, vec![throttled("openai", 10), success(MODEL_A, "ok")]),
            (MODEL_B, vec![success(MODEL_B, "should-not-run")]),
        ],
    );
    let result = sim.run(ab(), &payload(), 200).expect("retry on primary");
    assert_eq!(result.model_used, MODEL_A);
    assert_eq!(sim.calls, vec![MODEL_A, MODEL_A]);
}

#[test]
fn jitter_that_outlasts_the_deadline_ends_the_request() {
    let mut sim = sim(policy(1, 3), vec![(MODEL_A, vec![network()])]);
    sim.jitter = ScriptedJitter::new(vec![500]);
    match sim.run(hop("alpha", MODEL_A, 512), &payload(), 400) {
        Err(ExecutorError::DeadlineExceeded) => {}
        other => panic!("expected DeadlineExceeded, got {other:?}"),
    }
    assert_eq!(sim.calls.len(), 1);
}

#[test]
fn expired_deadline_starts_zero_vendor_calls() {
    let mut sim = sim(policy(1, 16), vec![]);
    let deadline = RequestDeadline::from_timeout(Duration::from_millis(5), sim.now);
    sim.advance_ms(5);
    let step = sim.start(hop("alpha", MODEL_A, 512), &payload(), deadline);
    match sim.drive(step) {
        Err(ExecutorError::DeadlineExceeded) => {}
        other => panic!("expected DeadlineExceeded, got {other:?}"),
    }
    assert!(sim.calls.is_empty());
}

#[test]
fn remaining_deadline_caps_attempt_instead_of_resetting() {
    let mut sim = sim(policy(0, 16), vec![]);
    sim.delay = Duration::from_secs(1);
    match sim.run(hop("alpha", MODEL_A, 512), &payload(), 80) {
        Err(ExecutorError::DeadlineExceeded) => {}
        other => panic!("expected DeadlineExceeded, got {other:?}"),
    }
    assert_eq!(sim.timeouts_ms, vec![80]);
    assert_eq!(sim.calls, vec![MODEL_A]);
}

#[test]
fn fallback_does_not_receive_a_fresh_deadline() {
    let mut sim = sim(policy(0, 16), vec![(MODEL_A, vec![network()])]);
    sim.delay = Duration::from_secs(1);
    sim.delayed_model = Some(MODEL_B);
    match sim.run(ab(), &payload(), 80) {
        Err(ExecutorError::DeadlineExceeded) => {}
        other => panic!("expected DeadlineExceeded, got {other:?}"),
    }
    assert_eq!(sim.calls, vec![MODEL_A, MODEL_B]);
    assert_eq!(sim.timeouts_ms, vec![80, 80]);
    assert_eq!(sim.now, Instant { nanos: 80_000_000 });
}

#[test]
fn later_attempts_are_capped_by_what_remains() {
    let mut config = policy(1, 3);
    config.timeout_ms = 60;
    let mut retried = sim(config, vec![]);
    retried.delay = Duration::from_secs(1);
    retried.jitter = ScriptedJitter::new(vec![0]);
    assert!(matches!(
        retried.run(hop("alpha", MODEL_A, 512), &payload(), 100),
        Err(ExecutorError::DeadlineExceeded)
    ));
    assert_eq!(retried.timeouts_ms, vec![60, 40]);

    let mut config = policy(0, 3);
    config.timeout_ms = 60;
    let mut switched = sim(config, vec![]);
    switched.delay = Duration::from_secs(1);
    assert!(matches!(
        switched.run(ab(), &payload(), 100),
        Err(ExecutorError::DeadlineExceeded)
    ));
    assert_eq!(switched.calls, vec![MODEL_A, MODEL_B]);
    assert_eq!(switched.timeouts_ms, vec![60, 40]);
}

#[test]
fn ready_success_at_overall_deadline_is_deadline_exceeded() {
    let mut config = policy(0, 16);
    config.timeout_ms = 1_000;
    let mut sim = sim(
        config,
        vec![
            (MODEL_A, vec![success(MODEL_A, "late")]),
            (MODEL_B, vec![success(MODEL_B, "should-not-run")]),
        ],
    );
    sim.delay = Duration::from_millis(100);
    match sim.run(ab(), &payload(), 100) {
        Err(ExecutorError::DeadlineExceeded) => {}
        other => panic!("expected DeadlineExceeded, got {other:?}"),
    }
    assert_eq!(sim.calls, vec![MODEL_A]);
}

#[test]
fn dropping_during_backoff_starts_no_later_attempt() {
    let mut sim = sim(policy(3, 16), vec![(MODEL_A, vec![throttled("mock", 5_000)])]);
    let deadline = RequestDeadline::from_timeout(Duration::from_secs(30), sim.now);
    let step = match sim.start(hop("alpha", MODEL_A, 512), &payload(), deadline) {
        Step::Call(call) => sim.answer(call),
        other => panic!("expected a call, got {other:?}"),
    };
    match step {
        Step::Sleep(backoff) => {
            assert_eq!(backoff.wait(), Duration::from_secs(5));
            backoff.abandon(&mut sim.service.circuits);
        }
        other => panic!("expected a wait, got {other:?}"),
    }
    assert_eq!(sim.calls.len(), 1);
}

#[test]
fn independent_execution_succeeds_after_cancelled_work() {
    let mut sim = sim(policy(0, 16), vec![(MODEL_A, vec![success(MODEL_A, "ok")])]);
    let deadline = RequestDeadline::from_timeout(Duration::from_secs(30), sim.now);
    let cancelled = sim.start(hop("alpha", MODEL_A, 512), &payload(), deadline);
    sim.cancel(cancelled);
    let second = sim
        .run(hop("alpha", MODEL_A, 512), &payload(), 30_000)
        .expect("independent request should proceed");
    assert_eq!(second.model_used, MODEL_A);
    assert_eq!(sim.calls.len(), 2);
}

#[test]
fn same_provider_a_retries_then_b_succeeds() {
    let mut sim = sim(
        policy(1, 8),
        vec![
            (MODEL_A, vec![network(), network()]),
            (MODEL_B, vec![success("reported-b", "FALLBACK_B_OK")]),
        ],
    );
    let result = sim
        .run(abc(), &payload_with_tokens(128), 30_000)
        .expect("B should succeed");
    assert_eq!(result.model_used, "reported-b");
    assert_eq!(result.content, "FALLBACK_B_OK");
    assert_eq!(f64::from_bits(result.total_cost.bits), 0.001);
    assert_eq!(sim.calls, vec![MODEL_A, MODEL_A, MODEL_B]);
}

#[test]
fn large_budget_reaches_c_in_declared_order() {
    let mut sim = sim(
        policy(1, 8),
        vec![
            (MODEL_A, vec![network(), network()]),
            (MODEL_B, vec![network(), network()]),
            (MODEL_C, vec![success("reported-c", "FALLBACK_C_OK")]),
        ],
    );
    let result = sim
        .run(abc(), &payload_with_tokens(128), 30_000)
        .expect("C should succeed");
    assert_eq!(result.model_used, "reported-c");
    assert_eq!(result.content, "FALLBACK_C_OK");
    assert_eq!(
        sim.calls,
        vec![MODEL_A, MODEL_A, MODEL_B, MODEL_B, MODEL_C]
    );
}

#[test]
fn default_budget_stops_after_two_a_and_first_b() {
    let mut sim = sim(
        policy(1, 3),
        vec![
            (MODEL_A, vec![network(), network()]),
            (MODEL_B, vec![network(), network()]),
            (MODEL_C, vec![success("reported-c", "should-not-run")]),
        ],
    );
    assert_transient(sim.run(abc(), &payload_with_tokens(128), 30_000));
    assert_eq!(sim.calls, vec![MODEL_A, MODEL_A, MODEL_B]);
}

#[test]
fn exhausted_budget_blames_no_uncalled_target() {
    let mut sim = sim(
        with_circuit(policy(1, 3), 1, 60_000),
        vec![
            (MODEL_A, vec![network(), network()]),
            (
                MODEL_B,
                vec![Err(ExecutorError::ApiCallFailed("upstream http error".into()))],
            ),
        ],
    );
    assert_transient(sim.run(abc(), &payload_with_tokens(128), 30_000));
    assert!(!sim.service.circuits.target_is_usable("alpha"));
    assert!(
        sim.service.circuits.target_is_usable("gamma"),
        "a target that was never called is not blamed"
    );
}

#[test]
fn mixed_cap_skips_b_without_changing_params() {
    let mut sim = sim(
        policy(1, 8),
        vec![
            (MODEL_A, vec![network(), network()]),
            (MODEL_B, vec![success("reported-b", "should-not-run")]),
            (MODEL_C, vec![success("reported-c", "FALLBACK_C_OK")]),
        ],
    );
    let plan = chain(
        hop("alpha", MODEL_A, 512),
        vec![hop("beta", MODEL_B, 64), hop("gamma", MODEL_C, 512)],
    );
    let result = sim
        .run(plan, &payload_with_tokens(128), 30_000)
        .expect("C should succeed after skipping B");
    assert_eq!(result.model_used, "reported-c");
    assert_eq!(sim.calls, vec![MODEL_A, MODEL_A, MODEL_C]);
    let seen = |number: Option<Float64>| number.map(|n| f64::from_bits(n.bits));
    assert!(sim.params_seen.iter().all(|item| item.max_tokens == Some(128)));
    assert!(sim
        .params_seen
        .iter()
        .all(|item| seen(item.temperature) == Some(0.2)));
    assert!(sim
        .params_seen
        .iter()
        .all(|item| seen(item.top_p) == Some(0.9)));
}

#[test]
fn no_compatible_fallback_preserves_primary_error() {
    let mut sim = sim(
        policy(1, 8),
        vec![
            (MODEL_A, vec![network(), network()]),
            (MODEL_B, vec![success("reported-b", "should-not-run")]),
        ],
    );
    let plan = chain(hop("alpha", MODEL_A, 512), vec![hop("beta", MODEL_B, 64)]);
    assert_transient(sim.run(plan, &payload_with_tokens(128), 30_000));
    assert_eq!(sim.calls, vec![MODEL_A, MODEL_A]);
}

#[test]
fn credential_quota_protocol_and_rejection_do_not_switch() {
    let cases = [
        ExecutorError::AuthenticationFailed("openai".into()),
        ExecutorError::QuotaExceeded,
        ExecutorError::JsonError("malformed upstream JSON".into()),
        ExecutorError::InvalidUpstreamResult,
        ExecutorError::UpstreamRejected,
    ];
    for error in cases {
        let mut sim = sim(
            policy(1, 8),
            vec![
                (MODEL_A, vec![Err(error.clone())]),
                (MODEL_B, vec![success("reported-b", "should-not-run")]),
            ],
        );
        let err = sim
            .run(abc(), &payload_with_tokens(128), 30_000)
            .expect_err("ineligible error must not switch models");
        assert_eq!(
            std::mem::discriminant(&err),
            std::mem::discriminant(&error),
            "primary error class must be preserved, got {err:?}"
        );
        assert_eq!(sim.calls, vec![MODEL_A]);
    }
}

#[test]
fn ineligible_fallback_failure_stops_with_the_primary_error() {
    let mut sim = sim(
        policy(0, 8),
        vec![
            (MODEL_A, vec![network()]),
            (MODEL_B, vec![Err(ExecutorError::QuotaExceeded)]),
            (MODEL_C, vec![success("reported-c", "should-not-run")]),
        ],
    );
    assert_transient(sim.run(abc(), &payload(), 30_000));
    assert_eq!(sim.calls, vec![MODEL_A, MODEL_B]);
}

#[test]
fn same_account_throttling_retries_primary_only() {
    let mut sim = sim(
        policy(1, 8),
        vec![
            (MODEL_A, vec![throttled("openai", 1), throttled("openai", 1)]),
            (MODEL_B, vec![success("reported-b", "should-not-run")]),
        ],
    );
    match sim.run(abc(), &payload_with_tokens(128), 30_000) {
        Err(ExecutorError::RateLimitExceeded {
            vendor,
            retry_after_ms,
        }) => {
            assert_eq!(vendor, "openai");
            assert_eq!(retry_after_ms, Some(1));
        }
        other => panic!("expected RateLimitExceeded, got {other:?}"),
    }
    assert_eq!(sim.calls, vec![MODEL_A, MODEL_A]);
}

#[test]
fn exhausted_eligible_fallbacks_preserve_identical_primary_error() {
    let mut sim = sim(
        policy(1, 8),
        vec![
            (MODEL_A, vec![network(), network()]),
            (MODEL_B, vec![network(), network()]),
        ],
    );
    assert_transient(sim.run(ab(), &payload_with_tokens(128), 30_000));
    assert_eq!(sim.calls, vec![MODEL_A, MODEL_A, MODEL_B, MODEL_B]);
}

#[test]
fn deadline_during_fallback_is_authoritative() {
    let mut sim = sim(
        policy(0, 8),
        vec![
            (MODEL_A, vec![network()]),
            (MODEL_B, vec![success("reported-b", "should-not-run")]),
        ],
    );
    sim.delay = Duration::from_secs(1);
    match sim.run(abc(), &payload_with_tokens(128), 5) {
        Err(ExecutorError::DeadlineExceeded) => {}
        other => panic!("expected DeadlineExceeded, got {other:?}"),
    }
    assert_eq!(sim.calls, vec![MODEL_A]);
}

#[test]
fn open_primary_target_does_not_block_same_provider_fallback() {
    let mut sim = sim(
        with_circuit(policy(0, 8), 1, 60_000),
        vec![
            (MODEL_A, vec![network()]),
            (
                MODEL_B,
                vec![
                    success(MODEL_B, "b-first"),
                    success(MODEL_B, "b-second"),
                    success(MODEL_B, "b-direct"),
                ],
            ),
        ],
    );
    let payload = payload_with_tokens(32);
    let first = sim.run(ab(), &payload, 30_000).expect("fallback B");
    assert_eq!(first.content, "b-first");
    let second = sim.run(ab(), &payload, 30_000).expect("open A still reaches B");
    assert_eq!(second.content, "b-second");
    let direct = sim
        .run(hop("beta", MODEL_B, 512), &payload, 30_000)
        .expect("direct B");
    assert_eq!(direct.content, "b-direct");
    assert_eq!(sim.calls, vec![MODEL_A, MODEL_B, MODEL_B, MODEL_B]);
}

#[test]
fn skipping_open_target_consumes_no_attempt_and_all_open_returns_circuit_open() {
    let mut sim = sim(
        with_circuit(policy(0, 8), 1, 60_000),
        vec![(MODEL_A, vec![network()]), (MODEL_B, vec![network()])],
    );
    let payload = payload_with_tokens(32);
    assert_transient(sim.run(ab(), &payload, 30_000));
    assert_eq!(sim.calls, vec![MODEL_A, MODEL_B]);
    match sim.run(ab(), &payload, 30_000) {
        Err(ExecutorError::CircuitOpen {
            vendor,
            retry_after_ms,
        }) => {
            assert_eq!(vendor, "openai");
            assert_eq!(retry_after_ms, 60_000);
        }
        other => panic!("expected CircuitOpen, got {other:?}"),
    }
    assert_eq!(
        sim.calls,
        vec![MODEL_A, MODEL_B],
        "skipping open targets must not start provider calls"
    );
}

#[test]
fn permanent_failures_do_not_open_target_circuit() {
    let auth = || Err(ExecutorError::AuthenticationFailed("openai".into()));
    let mut sim = sim(
        with_circuit(policy(0, 8), 1, 60_000),
        vec![
            (MODEL_A, vec![auth(), auth()]),
            (MODEL_B, vec![success(MODEL_B, "should-not-run")]),
        ],
    );
    let payload = payload_with_tokens(32);
    for _ in 0..2 {
        assert!(matches!(
            sim.run(ab(), &payload, 30_000),
            Err(ExecutorError::AuthenticationFailed(_))
        ));
    }
    assert_eq!(sim.calls, vec![MODEL_A, MODEL_A]);
}

#[test]
fn test_circuit_breaker_opens_after_consecutive_primary_failures() {
    let mut sim = sim(
        with_circuit(policy(0, 1), 2, 30_000),
        vec![(MODEL_A, vec![network(), network()])],
    );
    for _ in 0..2 {
        assert_transient(sim.run(hop("alpha", MODEL_A, 512), &payload(), 60_000));
    }
    match sim.run(hop("alpha", MODEL_A, 512), &payload(), 60_000) {
        Err(ExecutorError::CircuitOpen {
            vendor,
            retry_after_ms,
        }) => {
            assert_eq!(vendor, "openai");
            assert!(retry_after_ms > 0);
        }
        other => panic!("expected CircuitOpen, got {other:?}"),
    }
}

#[test]
fn half_open_admits_only_one_probe_and_waiters_use_fallback() {
    let mut sim = sim(
        with_circuit(policy(0, 8), 1, 40),
        vec![
            (MODEL_A, vec![network(), success(MODEL_A, "probe-ok")]),
            (
                MODEL_B,
                vec![
                    success(MODEL_B, "b-open"),
                    success(MODEL_B, "b-waiter"),
                    success(MODEL_B, "b-waiter"),
                ],
            ),
        ],
    );
    sim.run(ab(), &payload(), 60_000)
        .expect("B remains usable while A opens");
    sim.advance_ms(41);
    let deadline = RequestDeadline::from_timeout(Duration::from_secs(60), sim.now);
    let probe = sim.start(ab(), &payload(), deadline);
    for _ in 0..2 {
        let waiter = sim.run(ab(), &payload(), 60_000).expect("waiters use B");
        assert_eq!(waiter.content, "b-waiter");
    }
    let result = sim.drive(probe).expect("healthy probe closes A");
    assert_eq!(result.content, "probe-ok");
    assert!(sim.service.circuits.target_is_usable("alpha"));
    assert_eq!(
        sim.calls,
        vec![MODEL_A, MODEL_B, MODEL_B, MODEL_B, MODEL_A]
    );
}

#[test]
fn cancelled_probe_releases_ownership_for_later_probe() {
    let mut sim = sim(
        with_circuit(policy(0, 8), 1, 40),
        vec![(MODEL_A, vec![network(), success(MODEL_A, "second-probe")])],
    );
    assert_transient(sim.run(hop("alpha", MODEL_A, 512), &payload(), 60_000));
    sim.advance_ms(41);
    let deadline = RequestDeadline::from_timeout(Duration::from_secs(60), sim.now);
    match sim.start(hop("alpha", MODEL_A, 512), &payload(), deadline) {
        Step::Call(call) => call.abandon(&mut sim.service.circuits),
        other => panic!("expected a probe call, got {other:?}"),
    }
    let recovered = sim
        .run(hop("alpha", MODEL_A, 512), &payload(), 60_000)
        .expect("later probe proceeds");
    assert_eq!(recovered.content, "second-probe");
}

#[test]
fn deadline_during_probe_releases_ownership() {
    let mut sim = sim(
        with_circuit(policy(0, 8), 1, 40),
        vec![(MODEL_A, vec![network(), success(MODEL_A, "after-deadline")])],
    );
    assert_transient(sim.run(hop("alpha", MODEL_A, 512), &payload(), 60_000));
    sim.advance_ms(41);
    sim.delay = Duration::from_secs(1);
    match sim.run(hop("alpha", MODEL_A, 512), &payload(), 20) {
        Err(ExecutorError::DeadlineExceeded) => {}
        other => panic!("expected DeadlineExceeded, got {other:?}"),
    }
    sim.delay = Duration::zero();
    sim.run(hop("alpha", MODEL_A, 512), &payload(), 60_000)
        .expect("probe ownership must be free after timeout");
}

#[test]
fn failed_probe_reopens_and_healthy_probe_closes() {
    let mut sim = sim(
        with_circuit(policy(0, 8), 1, 25),
        vec![(
            MODEL_A,
            vec![
                network(),
                network(),
                success(MODEL_A, "closed"),
                success(MODEL_A, "normal"),
            ],
        )],
    );
    let plan = || hop("alpha", MODEL_A, 512);
    assert_transient(sim.run(plan(), &payload(), 60_000));
    sim.advance_ms(26);
    assert_transient(sim.run(plan(), &payload(), 60_000));
    assert!(matches!(
        sim.run(plan(), &payload(), 60_000),
        Err(ExecutorError::CircuitOpen { .. })
    ));
    assert_eq!(sim.calls.len(), 2);
    sim.advance_ms(26);
    sim.run(plan(), &payload(), 60_000).expect("healthy probe closes");
    sim.run(plan(), &payload(), 60_000)
        .expect("closed circuit allows normal calls");
    assert_eq!(sim.calls.len(), 4);
}

#[test]
fn throttled_probe_does_not_reopen_as_transient() {
    let mut sim = sim(
        with_circuit(policy(0, 8), 1, 25),
        vec![
            (
                MODEL_A,
                vec![
                    network(),
                    throttled("openai", 1),
                    success(MODEL_A, "closed"),
                ],
            ),
            (MODEL_B, vec![success(MODEL_B, "b-open")]),
        ],
    );
    sim.run(ab(), &payload(), 60_000)
        .expect("B remains usable while A opens");
    sim.advance_ms(26);
    let probe = sim
        .run(ab(), &payload(), 60_000)
        .expect_err("throttled probe must not fall back");
    assert!(matches!(probe, ExecutorError::RateLimitExceeded { .. }));
    let restored = sim
        .run(ab(), &payload(), 60_000)
        .expect("throttled probe must not reopen A as transient");
    assert_eq!(restored.content, "closed");
    assert_eq!(sim.calls, vec![MODEL_A, MODEL_B, MODEL_A, MODEL_A]);
}

#[test]
fn held_stale_success_cannot_close_newer_open_circuit_before_cooldown() {
    let mut sim = sim(
        with_circuit(policy(0, 8), 1, 1_000),
        vec![(MODEL_A, vec![network(), success(MODEL_A, "late")])],
    );
    let plan = || hop("alpha", MODEL_A, 512);
    let deadline = RequestDeadline::from_timeout(Duration::from_secs(60), sim.now);
    let held = sim.start(plan(), &payload(), deadline);
    assert_transient(sim.run(plan(), &payload(), 60_000));
    let late = sim.drive(held).expect("late result is still returned");
    assert_eq!(late.content, "late");
    assert!(matches!(
        sim.run(plan(), &payload(), 60_000),
        Err(ExecutorError::CircuitOpen { .. })
    ));
}

#[test]
fn held_stale_failure_cannot_reopen_after_successful_recovery() {
    let mut sim = sim(
        with_circuit(policy(0, 8), 1, 40),
        vec![
            (
                MODEL_A,
                vec![
                    network(),
                    success(MODEL_A, "probe-ok"),
                    network(),
                    success(MODEL_A, "still-closed"),
                ],
            ),
            (MODEL_B, vec![success(MODEL_B, "b-open")]),
        ],
    );
    let deadline = RequestDeadline::from_timeout(Duration::from_secs(60), sim.now);
    let stale = sim.start(hop("alpha", MODEL_A, 512), &payload(), deadline);
    let opened = sim
        .run(ab(), &payload(), 60_000)
        .expect("B remains usable while A opens");
    assert_eq!(opened.content, "b-open");
    sim.advance_ms(41);
    let recovered = sim
        .run(ab(), &payload(), 60_000)
        .expect("healthy probe closes A");
    assert_eq!(recovered.content, "probe-ok");
    assert_transient(sim.drive(stale));
    let after_stale = sim
        .run(ab(), &payload(), 60_000)
        .expect("stale failure must not reopen A after recovery");
    assert_eq!(after_stale.content, "still-closed");
}

#[test]
fn stale_closed_completion_during_held_probe_does_not_admit_another_a() {
    let mut sim = sim(
        with_circuit(policy(0, 8), 1, 40),
        vec![
            (
                MODEL_A,
                vec![
                    network(),
                    success(MODEL_A, "stale-closed"),
                    success(MODEL_A, "probe-ok"),
                ],
            ),
            (
                MODEL_B,
                vec![
                    success(MODEL_B, "b-open"),
                    success(MODEL_B, "b-during-probe"),
                    success(MODEL_B, "b-after-stale"),
                ],
            ),
        ],
    );
    let deadline = RequestDeadline::from_timeout(Duration::from_secs(60), sim.now);
    let stale = sim.start(ab(), &payload(), deadline);
    let opened = sim.run(ab(), &payload(), 60_000).expect("B while A opens");
    assert_eq!(opened.content, "b-open");
    sim.advance_ms(41);
    let probe = sim.start(ab(), &payload(), deadline);
    let during_probe = sim.run(ab(), &payload(), 60_000).expect("B during the probe");
    assert_eq!(during_probe.content, "b-during-probe");
    assert_eq!(
        sim.drive(stale)
            .expect("stale closed success remains deliverable")
            .content,
        "stale-closed"
    );
    let after_stale = sim
        .run(ab(), &payload(), 60_000)
        .expect("stale closed success must not admit another A while the probe is held");
    assert_eq!(after_stale.content, "b-after-stale");
    assert_eq!(
        sim.drive(probe)
            .expect("matching probe success closes A")
            .content,
        "probe-ok"
    );
}

#[test]
fn test_execute_with_retry_success_first_attempt() {
    let mut sim = sim(
        ExecutorConfig::mock_policy(3, 30_000),
        vec![(MODEL_A, vec![success(MODEL_A, "Mock response")])],
    );
    let result = sim.run(hop("alpha", MODEL_A, 4_096), &payload(), 60_000);
    assert!(result.is_ok());
    let execution_result = result.unwrap();
    assert_eq!(execution_result.model_used, MODEL_A);
    assert!(execution_result.content.contains("Mock response"));
    assert_eq!(sim.calls.len(), 1);
}

#[test]
fn dropping_during_delayed_attempt_starts_no_later_retry() {
    let mut sim = sim(policy(2, 16), vec![(MODEL_A, vec![success(MODEL_A, "late")])]);
    let deadline = RequestDeadline::from_timeout(Duration::from_secs(30), sim.now);
    let step = sim.start(hop("alpha", MODEL_A, 4_096), &payload(), deadline);
    sim.cancel(step);
    sim.advance_ms(10_000);
    assert_eq!(sim.calls.len(), 1);
    assert!(sim.retries().is_empty());
}

fn openai_then_backup() -> RoutePlan {
    RoutePlan {
        vendor_id: "openai".to_string(),
        target_id: "gpt-4".to_string(),
        model_id: "gpt-4".to_string(),
        max_output_tokens: 4_096,
        fallback_plans: vec![RoutePlan {
            vendor_id: "backup".to_string(),
            target_id: "gpt-4-turbo".to_string(),
            model_id: "gpt-4-turbo".to_string(),
            max_output_tokens: 4_096,
            fallback_plans: vec![],
        }],
    }
}

fn hello_payload() -> Value {
    json(r#"{"messages":[{"role":"user","content":"hello"}]}"#)
}

#[test]
fn test_circuit_open_primary_degrades_to_fallback() {
    let mut sim = sim(
        with_circuit(ExecutorConfig::mock_policy(0, 30_000), 1, 60_000),
        vec![
            (
                "gpt-4",
                vec![Err(ExecutorError::NetworkError(
                    "simulated network failure".to_string(),
                ))],
            ),
            (
                "gpt-4-turbo",
                vec![
                    success("gpt-4-turbo", "Mock response"),
                    success("gpt-4-turbo", "Mock response"),
                ],
            ),
        ],
    );
    sim.service.config.max_total_attempts = 4;
    let first = sim.run(openai_then_backup(), &hello_payload(), 60_000);
    assert!(first.is_ok());
    let second = sim.run(openai_then_backup(), &hello_payload(), 60_000);
    assert!(second.is_ok());
    assert_eq!(sim.calls, vec!["gpt-4", "gpt-4-turbo", "gpt-4-turbo"]);
}

#[test]
fn test_non_retryable_failures_do_not_open_circuit() {
    let refused = || Err(ExecutorError::AuthenticationFailed("openai".to_string()));
    let mut sim = sim(
        with_circuit(ExecutorConfig::mock_policy(0, 30_000), 1, 60_000),
        vec![("gpt-4", vec![refused(), refused()])],
    );
    sim.service.config.max_total_attempts = 4;
    let plan = || RoutePlan {
        fallback_plans: vec![],
        ..openai_then_backup()
    };
    let first = sim.run(plan(), &hello_payload(), 60_000);
    assert!(matches!(first, Err(ExecutorError::AuthenticationFailed(_))));
    let second = sim.run(plan(), &hello_payload(), 60_000);
    assert!(matches!(
        second,
        Err(ExecutorError::AuthenticationFailed(_))
    ));
}

#[test]
fn execute_llm_call_forwards_original_prompt_on_configured_plan() {
    let mut sim = sim(ExecutorConfig::mock_policy(0, 30_000), vec![]);
    let plan = hop("primary", "example-chat-model", 512);
    let payload = json(r#"{"messages":[{"role":"user","content":"only this prompt"}]}"#);
    let deadline = RequestDeadline::from_timeout(Duration::from_secs(60), sim.now);
    let call = match sim.start(plan, &payload, deadline) {
        Step::Call(call) => call,
        other => panic!("expected a call, got {other:?}"),
    };
    let model = call.plan().model_id.clone();
    let echo = call.params().messages[0].content.clone();
    sim.script
        .insert(model.clone(), VecDeque::from([success(&model, &echo)]));
    let result = sim
        .drive(Step::Call(call))
        .expect("executor call should succeed");
    assert_eq!(result.content, "only this prompt");
    assert_eq!(result.model_used, "example-chat-model");
}

#[test]
fn test_execute_with_retry_max_retries_exceeded() {
    let persistent = || {
        Err(ExecutorError::NetworkError(
            "Persistent network issue".to_string(),
        ))
    };
    let mut sim = sim(
        ExecutorConfig::mock_policy(3, 30_000),
        vec![(
            MODEL_A,
            vec![persistent(), persistent(), persistent(), persistent()],
        )],
    );
    match sim.run(hop("alpha", MODEL_A, 4_096), &payload(), 60_000) {
        Err(ExecutorError::NetworkError(msg)) => {
            assert_eq!(msg, "Persistent network issue");
        }
        _ => panic!("Expected NetworkError"),
    }
    assert_eq!(sim.calls.len(), 4);
}

#[test]
fn test_execute_with_retry_non_retryable_error() {
    let mut sim = sim(
        ExecutorConfig::mock_policy(3, 30_000),
        vec![(
            MODEL_A,
            vec![Err(ExecutorError::AuthenticationFailed(
                "Invalid API key".to_string(),
            ))],
        )],
    );
    match sim.run(hop("alpha", MODEL_A, 4_096), &payload(), 60_000) {
        Err(ExecutorError::AuthenticationFailed(msg)) => {
            assert_eq!(msg, "Invalid API key");
        }
        _ => panic!("Expected AuthenticationFailed error"),
    }
    assert_eq!(sim.calls.len(), 1);
}

#[test]
fn protocol_json_error_is_not_retried() {
    let mut sim = sim(
        ExecutorConfig::mock_policy(3, 30_000),
        vec![(
            MODEL_A,
            vec![Err(ExecutorError::JsonError(
                "malformed upstream JSON".to_string(),
            ))],
        )],
    );
    match sim.run(hop("alpha", MODEL_A, 4_096), &payload(), 60_000) {
        Err(ExecutorError::JsonError(_)) => {}
        other => panic!("expected JsonError, got {other:?}"),
    }
    assert_eq!(sim.calls.len(), 1);
}

#[test]
fn protocol_invalid_upstream_result_is_not_retried() {
    let mut sim = sim(
        ExecutorConfig::mock_policy(3, 30_000),
        vec![(MODEL_A, vec![Err(ExecutorError::InvalidUpstreamResult)])],
    );
    match sim.run(hop("alpha", MODEL_A, 4_096), &payload(), 60_000) {
        Err(ExecutorError::InvalidUpstreamResult) => {}
        other => panic!("expected InvalidUpstreamResult, got {other:?}"),
    }
    assert_eq!(sim.calls.len(), 1);
}

#[test]
fn invalid_payload_makes_no_call() {
    let mut sim = sim(policy(0, 1), vec![]);
    match sim.run(ab(), &json(r#"{"messages":"hi"}"#), 1_000) {
        Err(ExecutorError::InvalidPayload(detail)) => {
            assert_eq!(detail, "Missing or invalid 'messages' field")
        }
        other => panic!("expected InvalidPayload, got {other:?}"),
    }
    assert!(sim.calls.is_empty());
}

#[test]
fn test_execute_fallbacks_empty_list() {
    let mut sim = sim(
        policy(0, 3),
        vec![(
            MODEL_A,
            vec![Err(ExecutorError::ApiCallFailed("Primary failed".to_string()))],
        )],
    );
    match sim.run(hop("alpha", MODEL_A, 512), &payload(), 60_000) {
        Err(ExecutorError::ApiCallFailed(msg)) => assert_eq!(msg, "Primary failed"),
        other => panic!("Expected ApiCallFailed error, got {other:?}"),
    }
}

#[test]
fn test_execute_with_retry_succeeds_after_retries() {
    let mut sim = sim(
        policy(3, 4),
        vec![(
            MODEL_A,
            vec![network(), network(), success(MODEL_A, "Mock response")],
        )],
    );
    let result = sim
        .run(hop("alpha", MODEL_A, 512), &payload(), 60_000)
        .expect("third attempt succeeds");
    assert_eq!(result.model_used, MODEL_A);
    assert_eq!(sim.calls.len(), 3);
}

#[test]
fn parameters_reach_the_call_unchanged() {
    let mut sim = sim(policy(0, 1), vec![]);
    let deadline = RequestDeadline::from_timeout(Duration::from_secs(60), sim.now);
    let payload = json(
        r#"{"messages":[["system","be brief"],{"role":"user","content":"hi"}],"temperature":0.2,"top_p":1,"max_tokens":7,"stream":false}"#,
    );
    let step = sim.start(hop("alpha", MODEL_A, 512), &payload, deadline);
    match step {
        Step::Call(call) => {
            let params: &ExecutionParams = call.params();
            assert_eq!(params.messages.len(), 2);
            assert_eq!(params.messages[0].role, "system");
            assert_eq!(params.messages[1].content, "hi");
            assert_eq!(params.temperature.map(|n| f64::from_bits(n.bits)), Some(0.2));
            assert_eq!(params.top_p.map(|n| f64::from_bits(n.bits)), Some(1.0));
            assert_eq!(params.max_tokens, Some(7));
            assert_eq!(call.timeout(), Duration::from_secs(10));
        }
        other => panic!("expected a call, got {other:?}"),
    }
}

const DOTTED_A: &str = "alpha.primary";
const DOTTED_B: &str = "beta.fallback";

fn long_c() -> String {
    let id = format!("configured-long-target-{}", "c".repeat(50));
    assert!(id.len() > 64);
    id
}

fn recorded(max_retries: u32, max_total: u32, script: Vec<(&str, Vec<Outcome>)>) -> Sim {
    let mut config = with_circuit(policy(max_retries, max_total), 1, 30_000);
    config.backoff_cap_ms = 5_000;
    sim(config, script)
}

#[test]
fn retry_keeps_distinct_dotted_target_ids() {
    let mut sim = recorded(
        1,
        3,
        vec![(
            MODEL_A,
            vec![
                Err(ExecutorError::ApiCallFailed("upstream http error".into())),
                success(MODEL_A, "ok"),
            ],
        )],
    );
    let result = sim
        .run(hop(DOTTED_A, MODEL_A, 512), &payload(), 30_000)
        .expect("retry should succeed");
    assert_eq!(result.model_used, MODEL_A);
    assert_eq!(sim.calls.len(), 2);
    assert_eq!(
        sim.attempts(),
        vec![
            (DOTTED_A.to_string(), AttemptOutcome::Retryable),
            (DOTTED_A.to_string(), AttemptOutcome::Success),
        ]
    );
    assert_eq!(sim.retries(), vec![DOTTED_A.to_string()]);
    assert!(sim.fallbacks().is_empty());
    assert_eq!(sim.usage(), vec![(DOTTED_A.to_string(), 8, 4)]);
    assert!(!sim
        .events
        .iter()
        .any(|event| format!("{event:?}").contains("unknown")));
}

#[test]
fn circuit_skip_keeps_target_ids_distinct_without_fabricated_attempts() {
    let mut sim = recorded(
        0,
        3,
        vec![
            (MODEL_A, vec![network()]),
            (MODEL_B, vec![success(MODEL_B, "b-ok")]),
        ],
    );
    sim.force_open_target(DOTTED_A);
    let result = sim
        .run(
            chain(
                hop(DOTTED_A, MODEL_A, 512),
                vec![hop(DOTTED_B, MODEL_B, 512)],
            ),
            &payload(),
            30_000,
        )
        .expect("B should succeed");
    assert_eq!(result.model_used, MODEL_B);
    assert_eq!(sim.calls, vec![MODEL_B]);
    assert_eq!(
        sim.attempts(),
        vec![(DOTTED_B.to_string(), AttemptOutcome::Success)]
    );
    assert_eq!(
        sim.fallbacks(),
        vec![(DOTTED_A.to_string(), DOTTED_B.to_string())]
    );
    assert!(sim
        .circuit_transitions()
        .contains(&(DOTTED_A.to_string(), CircuitStateLabel::Open)));
    assert!(!sim
        .attempts()
        .iter()
        .any(|(target, _)| target == DOTTED_A));
}

#[test]
fn cap_skip_records_adjacent_a_to_c_without_b_attempt() {
    let long_c = long_c();
    let mut sim = recorded(
        0,
        3,
        vec![
            (MODEL_A, vec![network()]),
            (MODEL_B, vec![success(MODEL_B, "should-not-run")]),
            (MODEL_C, vec![success(MODEL_C, "c-ok")]),
        ],
    );
    let result = sim
        .run(
            chain(
                hop(DOTTED_A, MODEL_A, 512),
                vec![hop(DOTTED_B, MODEL_B, 64), hop(&long_c, MODEL_C, 512)],
            ),
            &payload_with_tokens(128),
            30_000,
        )
        .expect("C should succeed after skipping B");
    assert_eq!(result.model_used, MODEL_C);
    assert_eq!(sim.calls, vec![MODEL_A, MODEL_C]);
    assert_eq!(
        sim.attempts(),
        vec![
            (DOTTED_A.to_string(), AttemptOutcome::Retryable),
            (long_c.clone(), AttemptOutcome::Success),
        ]
    );
    assert_eq!(
        sim.fallbacks(),
        vec![(DOTTED_A.to_string(), long_c.clone())]
    );
    assert_eq!(sim.usage(), vec![(long_c, 8, 4)]);
}

#[test]
fn adjacent_evaluated_hops_record_a_to_b_then_b_to_c() {
    let long_c = long_c();
    let mut sim = recorded(
        0,
        3,
        vec![
            (MODEL_A, vec![network()]),
            (MODEL_B, vec![network()]),
            (MODEL_C, vec![success(MODEL_C, "c-ok")]),
        ],
    );
    sim.run(
        chain(
            hop(DOTTED_A, MODEL_A, 512),
            vec![hop(DOTTED_B, MODEL_B, 512), hop(&long_c, MODEL_C, 512)],
        ),
        &payload(),
        30_000,
    )
    .expect("C should succeed");
    assert_eq!(
        sim.fallbacks(),
        vec![
            (DOTTED_A.to_string(), DOTTED_B.to_string()),
            (DOTTED_B.to_string(), long_c.clone()),
        ]
    );
    assert_eq!(
        sim.attempts(),
        vec![
            (DOTTED_A.to_string(), AttemptOutcome::Retryable),
            (DOTTED_B.to_string(), AttemptOutcome::Retryable),
            (long_c.clone(), AttemptOutcome::Success),
        ]
    );
    assert_eq!(sim.usage(), vec![(long_c, 8, 4)]);
}

#[test]
fn drop_after_expiry_before_executor_repoll_records_deadline_once() {
    let mut sim = recorded(0, 1, vec![]);
    let deadline = RequestDeadline::from_timeout(Duration::from_millis(50), sim.now);
    let step = sim.start(hop(DOTTED_A, MODEL_A, 512), &payload(), deadline);
    sim.advance_ms(50);
    sim.cancel(step);
    assert_eq!(sim.calls.len(), 1);
    assert_eq!(
        sim.attempts(),
        vec![(DOTTED_A.to_string(), AttemptOutcome::Deadline)]
    );
    assert!(sim.usage().is_empty());
    assert_eq!(sim.deadline_count(), 0);
    assert!(sim.retries().is_empty());
}

#[test]
fn drop_during_attempt_before_expiry_records_cancelled_without_usage() {
    let mut sim = recorded(2, 3, vec![]);
    let deadline = RequestDeadline::from_timeout(Duration::from_secs(30), sim.now);
    let step = sim.start(hop(DOTTED_A, MODEL_A, 512), &payload(), deadline);
    sim.cancel(step);
    assert_eq!(sim.calls.len(), 1);
    assert_eq!(
        sim.attempts(),
        vec![(DOTTED_A.to_string(), AttemptOutcome::Cancelled)]
    );
    assert!(sim.usage().is_empty());
    assert_eq!(sim.deadline_count(), 0);
    assert!(sim.retries().is_empty());
}

#[test]
fn drop_during_backoff_does_not_invent_later_attempts() {
    let mut sim = recorded(3, 4, vec![(MODEL_A, vec![throttled("openai", 5_000)])]);
    let deadline = RequestDeadline::from_timeout(Duration::from_secs(30), sim.now);
    let step = match sim.start(hop(DOTTED_A, MODEL_A, 512), &payload(), deadline) {
        Step::Call(call) => sim.answer(call),
        other => panic!("expected a call, got {other:?}"),
    };
    sim.cancel(step);
    assert_eq!(sim.calls.len(), 1);
    assert_eq!(
        sim.attempts(),
        vec![(DOTTED_A.to_string(), AttemptOutcome::RateLimit)]
    );
    assert!(sim.retries().is_empty());
    assert!(sim.usage().is_empty());
    assert_eq!(sim.deadline_count(), 0);
}

#[test]
fn expired_and_permanent_ends_are_counted() {
    let mut late = recorded(0, 1, vec![(MODEL_A, vec![success(MODEL_A, "late")])]);
    late.delay = Duration::from_millis(50);
    assert!(late
        .run(hop(DOTTED_A, MODEL_A, 512), &payload(), 50)
        .is_err());
    assert_eq!(
        late.attempts(),
        vec![(DOTTED_A.to_string(), AttemptOutcome::Deadline)]
    );
    assert_eq!(late.deadline_count(), 1);
    assert!(late.usage().is_empty());

    let mut refused = recorded(1, 2, vec![(MODEL_A, vec![Err(ExecutorError::QuotaExceeded)])]);
    assert!(refused
        .run(hop(DOTTED_A, MODEL_A, 512), &payload(), 50)
        .is_err());
    assert_eq!(
        refused.attempts(),
        vec![(DOTTED_A.to_string(), AttemptOutcome::Permanent)]
    );
    assert_eq!(refused.deadline_count(), 0);
}
