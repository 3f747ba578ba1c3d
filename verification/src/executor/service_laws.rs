//! What holds of the executor's configuration, vendors, entry and records.

use vstd::prelude::*;

use crate::common::config::{Catalog, PolicyLimits, Settings};
use crate::common::contracts::RoutePlan;
use crate::common::deadline::RequestDeadline;
use crate::common::json;
use crate::common::text;
use crate::common::text_laws;
use crate::common::time::{Duration, Instant};
use crate::executor::circuit::{CircuitPhase, TargetCircuitRegistry};
use crate::executor::circuit_laws;
use crate::executor::config;
use crate::executor::config::{ExecutorConfig, OpenAIConfig};
use crate::executor::error::ExecutorError;
use crate::executor::events;
use crate::executor::events::{
    attempt_events, cancellation_event, circuit_event, step_events, AttemptOutcome,
    CircuitStateLabel, EventView, ExecutionEvent,
};
use crate::executor::models::ExecutionParams;
use crate::executor::outcome_laws;
use crate::executor::params;
use crate::executor::params::extract_params;
use crate::executor::policy;
use crate::executor::repository::ExecutorRepository;
use crate::executor::run::{AttemptEnd, ExecutionPolicy, PendingCall, Step, StepView};
use crate::executor::service::ExecutorService;
use crate::executor::vendors::openai::OpenAIVendor;

verus! {

/// Settings configure the provider for exactly the catalog's targets: a model is
/// supported when some target requests it, each target has its own prices, and
/// every limit is the operator's.
pub proof fn law_settings_configure_every_target(
    settings: &Settings,
    made: ExecutorConfig,
    target: Seq<char>,
    model: Seq<char>,
)
    requires
        call_ensures(ExecutorConfig::from_settings, (settings,), made),
    ensures
        made.max_retries == settings.limits.retries_per_target,
        made.max_total_attempts == settings.limits.max_total_attempts,
        made.timeout_ms == settings.limits.max_attempt_timeout_ms,
        made.backoff_cap_ms == settings.limits.backoff_cap_ms,
        made.circuit_failure_threshold == settings.limits.circuit_failure_threshold,
        made.circuit_cooldown_ms == settings.limits.circuit_cooldown_ms,
        made.openai matches Some(openai) && {
            &&& openai.api_key@ == settings.provider.api_key@
            &&& openai.base_url@ == settings.provider.base_url@
            &&& openai.max_response_bytes == settings.limits.max_upstream_response_bytes
            &&& openai.timeout_ms == settings.limits.max_attempt_timeout_ms
            &&& openai.pricing@.contains_key(target) <==> settings.catalog.targets@.contains_key(
                target,
            )
            &&& settings.catalog.targets@.contains_key(target) ==> {
                let priced = openai.pricing@[target];
                let pricing = settings.catalog.targets@[target].pricing;
                &&& priced.input_per_million == pricing.input_per_million
                &&& priced.output_per_million == pricing.output_per_million
                &&& exists|i: int|
                    0 <= i < openai.supported_models@.len() && (
                    #[trigger] openai.supported_models@[i])@
                        == settings.catalog.targets@[target].model@
            }
            &&& (exists|i: int|
                0 <= i < openai.supported_models@.len() && (
                #[trigger] openai.supported_models@[i])@ == model) ==> exists|id: Seq<char>|
                #[trigger] settings.catalog.targets@.contains_key(id)
                    && settings.catalog.targets@[id].model@ == model
        },
{
    let openai = made.openai.unwrap();
    let listed = openai.supported_models@;
    let texts = config::texts(listed);
    let targets = settings.catalog.targets@;
    assert forall|i: int| 0 <= i < listed.len() implies (#[trigger] listed[i])@ == texts[i] by {}
    if targets.contains_key(target) {
        assert(config::requested_model(targets, targets[target].model@));
        assert(texts.contains(targets[target].model@));
        let i = choose|i: int| 0 <= i < texts.len() && texts[i] == targets[target].model@;
        assert(listed[i]@ == targets[target].model@);
    }
    if exists|i: int| 0 <= i < listed.len() && (#[trigger] listed[i])@ == model {
        let i = choose|i: int| 0 <= i < listed.len() && (#[trigger] listed[i])@ == model;
        assert(texts[i] == model);
        assert(texts.contains(model));
        assert(config::requested_model(targets, model));
    }
}

/// A variable that writes a number sets it; one that is absent, or is no number,
/// leaves the default.
pub proof fn law_variables_set_numbers(shown: Option<Seq<char>>, n: nat, max: nat, default: nat)
    ensures
        shown is None ==> config::number_or(shown, max, default) == default,
        shown == Some(text::decimal_text(n)) && n <= max ==> config::number_or(shown, max, default)
            == n,
        shown == Some(text::decimal_text(n)) && n > max ==> config::number_or(shown, max, default)
            == default,
        shown matches Some(value) && value.len() > 0 && !('0' <= value[0] <= '9') && value[0] != '+'
            ==> config::number_or(shown, max, default) == default,
        shown matches Some(value) && value.len() == 0 ==> config::number_or(shown, max, default)
            == default,
{
    text_laws::law_decimal_text_reads_back(n);
    if shown == Some(text::decimal_text(n)) {
        assert('0' <= text::decimal_text(n)[0] <= '9');
    }
}

/// Milliseconds of the configuration become the spans and circuits of a service;
/// a threshold of zero counts as one.
pub proof fn law_configuration_becomes_policy(
    config: &ExecutorConfig,
    policy: ExecutionPolicy,
    circuits: TargetCircuitRegistry,
    target: Seq<char>,
)
    requires
        call_ensures(ExecutorConfig::policy, (config,), policy),
        call_ensures(ExecutorConfig::circuits, (config,), circuits),
    ensures
        policy.max_retries == config.max_retries,
        policy.attempt_timeout.nanos == config.timeout_ms * 1_000_000,
        policy.backoff_cap.nanos == config.backoff_cap_ms * 1_000_000,
        circuits@.cooldown.nanos == config.circuit_cooldown_ms * 1_000_000,
        circuits@.threshold == (if config.circuit_failure_threshold == 0 {
            1
        } else {
            config.circuit_failure_threshold
        }),
        circuit_laws::recorded(circuits@, target).phase == (CircuitPhase::Closed { failures: 0 }),
{
}

/// A configured vendor with a credential is registered under its name and
/// nothing else is; without one, or with a blank credential, there is no
/// service.
pub proof fn law_configured_vendor_is_registered(
    config: ExecutorConfig,
    repository: Result<ExecutorRepository, ExecutorError>,
    id: Seq<char>,
)
    requires
        call_ensures(ExecutorRepository::from_config, (config,), repository),
    ensures
        match config.openai {
            None => repository matches Err(error) && error is NoVendorsConfigured,
            Some(openai) => if text_laws::all_blank(openai.api_key@) {
                repository matches Err(error) && error is InvalidConfiguration
            } else {
                repository matches Ok(made) && {
                    &&& made.vendors@.contains_key(id) <==> id == "openai"@
                    &&& made.vendors@["openai"@].config == openai
                }
            },
        },
{
    if let Some(openai) = config.openai {
        text_laws::law_blank_texts_are_trimmed_away(openai.api_key@);
    }
}

/// A call goes to the hop's own vendor when that supports the hop's model; no
/// other vendor stands in.
pub proof fn law_calls_go_to_the_planned_vendor(
    repository: &ExecutorRepository,
    plan: &RoutePlan,
    vendor: Result<&OpenAIVendor, ExecutorError>,
)
    requires
        call_ensures(ExecutorRepository::vendor_for, (repository, plan), vendor),
    ensures
        ({
            let known = repository.vendors@.contains_key(plan.vendor_id@);
            let chosen = repository.vendors@[plan.vendor_id@];
            let supported = exists|i: int|
                0 <= i < chosen.config.supported_models@.len() && (
                #[trigger] chosen.config.supported_models@[i])@ == plan.model_id@;
            &&& !known ==> (vendor matches Err(ExecutorError::UnsupportedVendor(id)) && id@
                == plan.vendor_id@)
            &&& known && !supported ==> (vendor matches Err(
                ExecutorError::UnsupportedModel(v, m),
            ) && v@ == plan.vendor_id@ && m@ == plan.model_id@)
            &&& known && supported ==> (vendor matches Ok(found) && *found == chosen)
        }),
{
    let listed = repository.vendors@[plan.vendor_id@].config.supported_models@;
    let texts = config::texts(listed);
    assert forall|i: int| 0 <= i < listed.len() implies (#[trigger] listed[i])@ == texts[i] by {}
    if texts.contains(plan.model_id@) {
        let i = choose|i: int| 0 <= i < texts.len() && texts[i] == plan.model_id@;
        assert(listed[i]@ == plan.model_id@);
    }
}

/// Vendors are healthy together when one of them is; else the first failure is
/// reported, and without a vendor that there is none.
pub proof fn law_one_healthy_vendor_suffices(
    results: Vec<Result<(), ExecutorError>>,
    verdict: Result<(), ExecutorError>,
    i: int,
)
    requires
        call_ensures(ExecutorService::check_all_vendors_health, (results,), verdict),
    ensures
        0 <= i < results@.len() && results@[i] is Ok ==> verdict is Ok,
        results@.len() == 0 ==> verdict == Err::<(), ExecutorError>(
            ExecutorError::NoVendorsConfigured,
        ),
        results@.len() > 0 && verdict is Err ==> verdict == results@[0],
        verdict is Ok ==> exists|k: int| 0 <= k < results@.len() && (#[trigger] results@[k]) is Ok,
{
}

/// The default route is usable exactly when the circuit of its primary or of one
/// of its fallbacks is closed.
pub proof fn law_default_route_needs_one_closed_circuit(
    service: &ExecutorService,
    catalog: &Catalog,
    usable: bool,
)
    requires
        call_ensures(
            ExecutorService::default_route_has_usable_target,
            (service, catalog),
            usable,
        ),
    ensures
        usable <==> catalog.routes@.contains_key(catalog.default_route@) && ({
            let route = catalog.routes@[catalog.default_route@];
            ||| circuit_laws::recorded(service.circuits@, route.primary@).phase is Closed
            ||| exists|i: int|
                0 <= i < route.fallbacks@.len() && circuit_laws::recorded(
                    service.circuits@,
                    (#[trigger] route.fallbacks@[i])@,
                ).phase is Closed
        }),
{
    let route = catalog.routes@[catalog.default_route@];
    let targets = crate::executor::service::route_targets(route);
    let registry = service.circuits@;
    assert(targets[0] == route.primary@);
    assert forall|i: int| 0 <= i < route.fallbacks@.len() implies (#[trigger] route.fallbacks@[i])@
        == targets[i + 1] by {}
    if crate::executor::service::some_closed(targets, registry) {
        let k = choose|k: int|
            0 <= k < targets.len() && registry.circuit(#[trigger] targets[k]).phase is Closed;
        if k > 0 {
            assert(route.fallbacks@[k - 1]@ == targets[k]);
        }
    }
    if circuit_laws::recorded(registry, route.primary@).phase is Closed {
        assert(registry.circuit(targets[0]).phase is Closed);
    }
    if exists|i: int|
        0 <= i < route.fallbacks@.len() && circuit_laws::recorded(
            registry,
            (#[trigger] route.fallbacks@[i])@,
        ).phase is Closed {
        let i = choose|i: int|
            0 <= i < route.fallbacks@.len() && circuit_laws::recorded(
                registry,
                (#[trigger] route.fallbacks@[i])@,
            ).phase is Closed;
        assert(registry.circuit(targets[i + 1]).phase is Closed);
    }
}

/// Executing a plan in time, with a readable payload and a primary whose circuit
/// lets a call start, calls the primary with what the payload writes, under the
/// service's limits and the request's deadline.
pub proof fn law_execution_calls_the_primary(
    service: &mut ExecutorService,
    plan: RoutePlan,
    payload: &serde_json::Value,
    deadline: RequestDeadline,
    now: Instant,
    step: Step,
    read: Result<ExecutionParams, ExecutorError>,
)
    requires
        call_ensures(ExecutorService::execute, (service, plan, payload, deadline, now), step),
        call_ensures(extract_params, (payload,), read),
    ensures
        now.nanos >= deadline.at.nanos ==> step@ == StepView::Finish(
            Err(ExecutorError::DeadlineExceeded),
        ) && final(service).circuits@ == old(service).circuits@,
        now.nanos < deadline.at.nanos && read is Err ==> (step@ matches StepView::Finish(
            Err(ExecutorError::InvalidPayload(detail)),
        ) && detail@ == "Missing or invalid 'messages' field"@ && final(service).circuits@ == old(
            service,
        ).circuits@),
        now.nanos < deadline.at.nanos && read is Ok && circuit_laws::lets_through(
            circuit_laws::recorded(old(service).circuits@, plan.target_id@),
            now,
        ) ==> (step@ matches StepView::Call(call) && {
            let request = call.run.request;
            let config = old(service).config;
            &&& call.run.hop == 0 && call.run.attempt == 0
            &&& request.plan == plan
            &&& request.deadline == deadline
            &&& request.params.messages@.len() == read->Ok_0.messages@.len()
            &&& forall|i: int|
                0 <= i < request.params.messages@.len() ==> {
                    let sent = #[trigger] request.params.messages@[i];
                    &&& sent.role@ == read->Ok_0.messages@[i].role@
                    &&& sent.content@ == read->Ok_0.messages@[i].content@
                }
            &&& request.params.temperature == read->Ok_0.temperature
            &&& request.params.top_p == read->Ok_0.top_p
            &&& request.params.max_tokens == read->Ok_0.max_tokens
            &&& request.params.stream == read->Ok_0.stream
            &&& request.policy.max_retries == config.max_retries
            &&& request.policy.attempt_timeout.nanos == config.timeout_ms * 1_000_000
            &&& request.policy.backoff_cap.nanos == config.backoff_cap_ms * 1_000_000
            &&& request.started == 1
            &&& request.max_total == (if config.max_total_attempts == 0 {
                1
            } else {
                config.max_total_attempts as int
            })
        }),
{
    if now.nanos < deadline.at.nanos && read is Ok {
        let tree = json::json_tree(*payload);
        assert forall|sent: ExecutionParams, i: int|
            params::are_params_of(sent, tree) && 0 <= i < sent.messages@.len() implies {
            &&& sent.messages@.len() == read->Ok_0.messages@.len()
            &&& (#[trigger] sent.messages@[i])@ == read->Ok_0.messages@[i]@
        } by {
            let a = params::message_views(sent.messages@);
            let b = params::message_views(read->Ok_0.messages@);
            assert(a == b);
            assert(a.len() == sent.messages@.len() && b.len() == read->Ok_0.messages@.len());
            assert(a[i] == sent.messages@[i]@ && b[i] == read->Ok_0.messages@[i]@);
        }
        assert forall|sent: ExecutionParams| #[trigger]
            params::are_params_of(sent, tree) implies sent.messages@.len()
            == read->Ok_0.messages@.len() by {
            let a = params::message_views(sent.messages@);
            let b = params::message_views(read->Ok_0.messages@);
            assert(a == b);
            assert(a.len() == sent.messages@.len() && b.len() == read->Ok_0.messages@.len());
        }
    }
}

/// A service keeps the configuration's limits and starts with every circuit
/// closed. It exists exactly when there is a vendor with a credential.
pub proof fn law_service_keeps_its_limits(
    config: ExecutorConfig,
    service: Result<ExecutorService, ExecutorError>,
    target: Seq<char>,
)
    requires
        call_ensures(ExecutorService::from_config, (config,), service),
    ensures
        service is Ok <==> (config.openai matches Some(openai) && !text_laws::all_blank(
            openai.api_key@,
        )),
        service matches Ok(made) ==> {
            &&& made.config.timeout_ms == config.timeout_ms
            &&& made.config.max_retries == config.max_retries
            &&& made.config.max_total_attempts == config.max_total_attempts
            &&& made.config.backoff_cap_ms == config.backoff_cap_ms
            &&& made.circuits@.cooldown.nanos == config.circuit_cooldown_ms * 1_000_000
            &&& made.circuits@.threshold == (if config.circuit_failure_threshold == 0 {
                1
            } else {
                config.circuit_failure_threshold
            })
            &&& circuit_laws::recorded(made.circuits@, target).phase == (CircuitPhase::Closed {
                failures: 0,
            })
            &&& made.repository.vendors@["openai"@].config == config.openai.unwrap()
        },
{
    if let Some(openai) = config.openai {
        text_laws::law_blank_texts_are_trimmed_away(openai.api_key@);
    }
}

/// Opening a target by hand rejects its calls for a whole cooldown and changes
/// nothing else of the service.
pub proof fn law_forced_target_is_open(
    service: &mut ExecutorService,
    target: &str,
    now: Instant,
)
    requires
        call_ensures(ExecutorService::force_open_target, (service, target, now), ()),
    ensures
        final(service).config == old(service).config,
        final(service).repository == old(service).repository,
        circuit_laws::differ_at_most_in(
            old(service).circuits@,
            final(service).circuits@,
            target@,
        ),
        circuit_laws::recorded(final(service).circuits@, target@).phase matches CircuitPhase::Open {
            opened_until,
        } && opened_until.nanos == circuit_laws::cooled_down_at(old(service).circuits@, now),
{
}

/// The service judges failures and hops as the policy does.
pub proof fn law_service_follows_the_policy(
    error: &ExecutorError,
    retryable: bool,
    counts: bool,
    switches: bool,
    plan: &RoutePlan,
    params: &ExecutionParams,
    supported: bool,
)
    requires
        call_ensures(ExecutorService::is_retryable_error, (error,), retryable),
        call_ensures(ExecutorService::is_circuit_failure, (error,), counts),
        call_ensures(ExecutorService::is_fallback_eligible, (error,), switches),
        call_ensures(ExecutorService::hop_supports_params, (plan, params), supported),
    ensures
        counts <==> *error is NetworkError || *error is TimeoutError || *error is ApiCallFailed,
        retryable <==> counts || *error is RateLimitExceeded,
        switches <==> counts || *error is CircuitOpen,
        supported <==> (params.max_tokens matches Some(tokens) ==> tokens
            <= plan.max_output_tokens),
{
}

/// A policy without vendors allows a first call and every retry on one target.
pub proof fn law_policy_without_vendors(
    max_retries: u32,
    timeout_ms: u64,
    made: ExecutorConfig,
    usual: ExecutorConfig,
)
    requires
        call_ensures(ExecutorConfig::mock_policy, (max_retries, timeout_ms), made),
        call_ensures(ExecutorConfig::default, (), usual),
    ensures
        made.openai is None && made.anthropic_api_key is None,
        made.max_retries == max_retries && made.timeout_ms == timeout_ms,
        max_retries < u32::MAX ==> made.max_total_attempts == max_retries + 1,
        made.backoff_cap_ms == 2_000,
        made.circuit_failure_threshold == 3 && made.circuit_cooldown_ms == 30_000,
        usual.openai is None && usual.timeout_ms == 30_000 && usual.max_retries == 3,
        usual.max_total_attempts == 4,
{
}

/// Which failures are retried, count against a circuit, or allow another target,
/// by their kind.
pub proof fn law_failure_kinds(
    error: &ExecutorError,
    retryable: bool,
    counts: bool,
    switches: bool,
)
    requires
        call_ensures(policy::is_retryable_error, (error,), retryable),
        call_ensures(policy::is_circuit_failure, (error,), counts),
        call_ensures(policy::is_fallback_eligible, (error,), switches),
    ensures
        *error is NetworkError || *error is TimeoutError || *error is ApiCallFailed ==> retryable
            && counts && switches,
        *error is RateLimitExceeded ==> retryable && !counts && !switches,
        *error is CircuitOpen ==> !retryable && !counts && switches,
        !(*error is NetworkError || *error is TimeoutError || *error is ApiCallFailed
            || *error is RateLimitExceeded || *error is CircuitOpen) ==> !retryable && !counts
            && !switches,
{
}

/// A hop can satisfy a request exactly when its cap reaches the completion
/// length that is asked for.
pub proof fn law_hop_needs_a_large_enough_cap(
    plan: &RoutePlan,
    params: &ExecutionParams,
    supported: bool,
)
    requires
        call_ensures(policy::hop_supports_params, (plan, params), supported),
    ensures
        params.max_tokens is None ==> supported,
        params.max_tokens matches Some(tokens) ==> (supported <==> tokens
            <= plan.max_output_tokens),
{
}

/// A call that ended is recorded as one attempt on its own target: a result in
/// time as a success with its usage, throttling as such, another failure by
/// whether a retry may mend it, and anything at or after the deadline as that.
pub proof fn law_attempts_are_recorded(
    call: &PendingCall,
    end: AttemptEnd,
    now: Instant,
    recorded: Vec<ExecutionEvent>,
    error: ExecutorError,
)
    requires
        call_ensures(attempt_events, (call, &end, now), recorded),
        call@.run.hop <= call@.run.request.plan.fallback_plans@.len(),
    ensures
        ({
            let plan = call@.run.request.plan;
            let target = if call@.run.hop == 0 {
                plan.target_id@
            } else {
                plan.fallback_plans@[call@.run.hop - 1].target_id@
            };
            let attempt = |outcome: AttemptOutcome|
                recorded@.len() == 1 && recorded@[0]@ == (EventView::Attempt { target, outcome });
            let in_time = now.nanos < call@.run.request.deadline.at.nanos;
            &&& !in_time ==> attempt(AttemptOutcome::Deadline)
            &&& in_time ==> (end matches AttemptEnd::Completed(Ok(result)) ==> recorded@.len() == 2
                && recorded@[0]@ == (EventView::Attempt {
                target,
                outcome: AttemptOutcome::Success,
            }) && recorded@[1]@ == (EventView::Usage {
                target,
                prompt_tokens: result.prompt_tokens,
                completion_tokens: result.completion_tokens,
            }))
            &&& in_time && outcome_laws::ended_in(end, call@.timeout, error) ==> attempt(
                if error is RateLimitExceeded {
                    AttemptOutcome::RateLimit
                } else if error is DeadlineExceeded {
                    AttemptOutcome::Deadline
                } else if error is NetworkError || error is TimeoutError || error
                    is ApiCallFailed {
                    AttemptOutcome::Retryable
                } else {
                    AttemptOutcome::Permanent
                },
            )
        }),
{
    let seen = events::event_views(recorded@);
    assert(seen.len() == recorded@.len());
    assert(seen.len() > 0 ==> seen[0] == recorded@[0]@);
    assert(seen.len() > 1 ==> seen[1] == recorded@[1]@);
}

/// A step is recorded as what it is: a later call on a target as a retry, the
/// first call on a fallback as a move to it, an end at the deadline as that, and
/// nothing else at all.
pub proof fn law_steps_are_recorded(from: &str, next: &Step, recorded: Vec<ExecutionEvent>)
    requires
        call_ensures(step_events, (from, next), recorded),
    ensures
        match next@ {
            StepView::Call(call) => {
                let plan = call.run.request.plan;
                let to = if call.run.hop == 0 {
                    plan.target_id@
                } else {
                    plan.fallback_plans@[call.run.hop - 1].target_id@
                };
                if call.run.attempt > 0 {
                    recorded@.len() == 1 && recorded@[0]@ == (EventView::Retry { target: to })
                } else if call.run.hop > 0 {
                    recorded@.len() == 1 && recorded@[0]@ == (EventView::Fallback {
                        from: from@,
                        to,
                    })
                } else {
                    recorded@.len() == 0
                }
            },
            StepView::Sleep(_) => recorded@.len() == 0,
            StepView::Finish(Err(ExecutorError::DeadlineExceeded)) => recorded@.len() == 1
                && recorded@[0]@ == EventView::DeadlineExceeded,
            StepView::Finish(_) => recorded@.len() == 0,
        },
{
    let seen = events::event_views(recorded@);
    assert(seen.len() == recorded@.len());
    assert(seen.len() > 0 ==> seen[0] == recorded@[0]@);
}

/// A call that is given up counts as cancelled before the deadline and as that
/// from then on. A circuit is recorded when its label changes, with the new one.
pub proof fn law_cancellations_and_circuits_are_recorded(
    call: &PendingCall,
    now: Instant,
    cancelled: ExecutionEvent,
    target: &str,
    before: CircuitStateLabel,
    registry: &TargetCircuitRegistry,
    changed: Option<ExecutionEvent>,
)
    requires
        call_ensures(cancellation_event, (call, now), cancelled),
        call_ensures(circuit_event, (target, before, registry), changed),
    ensures
        cancelled@ matches EventView::Attempt { target: on, .. } && on == (if call@.run.hop == 0 {
            call@.run.request.plan.target_id@
        } else {
            call@.run.request.plan.fallback_plans@[call@.run.hop - 1].target_id@
        }),
        cancelled@ matches EventView::Attempt { outcome, .. } && outcome == (if now.nanos
            >= call@.run.request.deadline.at.nanos {
            AttemptOutcome::Deadline
        } else {
            AttemptOutcome::Cancelled
        }),
        ({
            let after = match circuit_laws::recorded(registry@, target@).phase {
                CircuitPhase::Closed { .. } => CircuitStateLabel::Closed,
                CircuitPhase::Open { .. } => CircuitStateLabel::Open,
                CircuitPhase::HalfOpen { .. } => CircuitStateLabel::HalfOpen,
            };
            &&& changed is Some <==> after != before
            &&& changed matches Some(event) ==> event@ == (EventView::Circuit {
                target: target@,
                state: after,
            })
        }),
{
}

/// The documented limits.
pub proof fn law_documented_limits(limits: PolicyLimits)
    requires
        call_ensures(PolicyLimits::documented_defaults, (), limits),
    ensures
        limits.request_deadline_ms == 30_000 && limits.max_attempt_timeout_ms == 10_000,
        limits.retries_per_target == 1 && limits.max_total_attempts == 3,
        limits.backoff_cap_ms == 2_000 && limits.max_upstream_response_bytes == 1_048_576,
        limits.circuit_failure_threshold == 3 && limits.circuit_cooldown_ms == 30_000,
        limits.max_prompt_chars == 4_000 && limits.max_metadata_bytes == 1_000,
        limits.max_concurrent_generations == 32,
{
}

/// The variables of the executor set their own numbers; without them an attempt
/// may take 30 seconds, a target is retried three times, a request makes three
/// calls and a wait is at most two seconds. A provider is configured exactly when
/// its key is set, and keeps it.
pub proof fn law_executor_variables(
    key: Option<String>,
    base_url: Option<String>,
    provider_timeout: Option<String>,
    other_key: Option<String>,
    timeout: Option<String>,
    retries: Option<String>,
    total: Option<String>,
    backoff: Option<String>,
    made: ExecutorConfig,
)
    requires
        call_ensures(
            ExecutorConfig::from_vars,
            (key, base_url, provider_timeout, other_key, timeout, retries, total, backoff),
            made,
        ),
    ensures
        made.timeout_ms == config::number_or(
            text::optional_text(timeout),
            u64::MAX as nat,
            30_000,
        ),
        made.max_retries == config::number_or(text::optional_text(retries), u32::MAX as nat, 3),
        made.max_total_attempts == config::number_or(
            text::optional_text(total),
            u32::MAX as nat,
            3,
        ),
        made.backoff_cap_ms == config::number_or(
            text::optional_text(backoff),
            u64::MAX as nat,
            2_000,
        ),
        made.circuit_failure_threshold == 3 && made.circuit_cooldown_ms == 30_000,
        made.openai is Some <==> key is Some,
        made.openai matches Some(openai) ==> {
            &&& openai.api_key@ == key.unwrap()@
            &&& base_url matches Some(url) ==> openai.base_url@ == url@
            &&& base_url is None ==> openai.base_url@ == "https://api.openai.com/v1"@
            &&& openai.timeout_ms == config::number_or(
                text::optional_text(provider_timeout),
                u64::MAX as nat,
                30_000,
            )
            &&& openai.max_response_bytes == 1_048_576
        },
        made.anthropic_api_key == other_key,
{
}

/// A configuration without any key, with an unusable provider or with an empty
/// second key is warned about, each on its own line and in this order.
pub proof fn law_operators_are_warned(config: &ExecutorConfig, warnings: Vec<String>)
    requires
        call_ensures(ExecutorConfig::validate, (config,), warnings),
    ensures
        config.openai is None && config.anthropic_api_key is None ==> warnings@.len() == 1
            && warnings@[0]@
            == "No LLM vendor API keys configured. Set OPENAI_API_KEY or ANTHROPIC_API_KEY."@,
        config.openai matches Some(openai) && openai.api_key@.len() == 0 ==> warnings@.len() >= 1
            && warnings@[0]@ == "OpenAI configuration invalid: "@
            + "OPENAI_API_KEY is not set or empty"@,
        config.openai matches Some(openai) && openai.api_key@.len() > 0
            && openai.supported_models@.len() == 0 ==> warnings@.len() >= 1 && warnings@[0]@
            == "OpenAI configuration invalid: "@ + "No supported models configured"@,
        config.anthropic_api_key matches Some(key) && key@.len() == 0 ==> warnings@.len() >= 1
            && warnings@[warnings@.len() - 1]@ == "ANTHROPIC_API_KEY is empty"@,
        config.openai matches Some(openai) && openai.api_key@.len() > 0
            && openai.supported_models@.len() > 0 && (config.anthropic_api_key matches Some(key)
            ==> key@.len() > 0) ==> warnings@.len() == 0,
{
    let shown = config::texts(warnings@);
    assert(shown.len() == warnings@.len());
    assert(shown.len() > 0 ==> shown[0] == warnings@[0]@);
    assert(shown.len() > 0 ==> shown[shown.len() - 1] == warnings@[warnings@.len() - 1]@);
}

/// Every registered vendor is listed once, by its name.
pub proof fn law_vendors_are_listed(
    repository: &ExecutorRepository,
    count: usize,
    names: Vec<String>,
    id: &str,
    vendor: Result<&OpenAIVendor, ExecutorError>,
)
    requires
        call_ensures(ExecutorRepository::vendor_count, (repository,), count),
        call_ensures(ExecutorRepository::list_vendor_names, (repository,), names),
        call_ensures(ExecutorRepository::get_vendor, (repository, id), vendor),
    ensures
        names@.len() == count,
        forall|i: int|
            0 <= i < names@.len() ==> (#[trigger] names@[i])@ == repository.vendors.names()[i],
        vendor is Ok <==> repository.vendors@.contains_key(id@),
        vendor matches Ok(found) ==> *found == repository.vendors@[id@],
        vendor matches Err(error) ==> (error matches ExecutorError::UnsupportedVendor(asked)
            && asked@ == id@),
{
    let shown = config::texts(names@);
    assert forall|i: int| 0 <= i < names@.len() implies (#[trigger] names@[i])@ == shown[i] by {}
}

/// A provider configuration is usable when it has a credential and a model; what
/// it lacks is named.
pub proof fn law_provider_configuration_faults_are_named(
    config: &OpenAIConfig,
    verdict: Result<(), String>,
)
    requires
        call_ensures(OpenAIConfig::validate, (config,), verdict),
    ensures
        verdict is Ok <==> config.api_key@.len() > 0 && config.supported_models@.len() > 0,
        verdict matches Err(reason) ==> reason@ == (if config.api_key@.len() == 0 {
            "OPENAI_API_KEY is not set or empty"@
        } else {
            "No supported models configured"@
        }),
{
}

/// A provider that is configured by variables alone supports three sample models
/// and prices each at one dollar in and two out per million tokens.
pub proof fn law_sample_models_are_priced(
    key: Option<String>,
    base_url: Option<String>,
    timeout: Option<String>,
    made: OpenAIConfig,
    name: Seq<char>,
)
    requires
        call_ensures(OpenAIConfig::from_vars, (key, base_url, timeout), made),
    ensures
        made.supported_models@.len() == 3,
        made.supported_models@[0]@ == "gpt-4"@,
        made.supported_models@[1]@ == "gpt-4-turbo"@,
        made.supported_models@[2]@ == "gpt-3.5-turbo"@,
        made.pricing@.contains_key(name) <==> name == "gpt-4"@ || name == "gpt-4-turbo"@ || name
            == "gpt-3.5-turbo"@,
        made.pricing@.contains_key(name) ==> made.pricing@[name].input_per_million.bits
            == 0x3ff0_0000_0000_0000 && made.pricing@[name].output_per_million.bits
            == 0x4000_0000_0000_0000,
        key matches Some(value) ==> made.api_key@ == value@,
        key is None ==> made.api_key@.len() == 0,
        made.max_response_bytes == 1_048_576,
{
    let shown = config::texts(made.supported_models@);
    assert(shown.len() == made.supported_models@.len());
    assert(shown[0] == made.supported_models@[0]@);
    assert(shown[1] == made.supported_models@[1]@);
    assert(shown[2] == made.supported_models@[2]@);
}

/// A local configuration reaches nothing, and prices its second target at a
/// quarter of its first.
pub proof fn law_local_configuration_reaches_nothing(made: OpenAIConfig)
    requires
        call_ensures(OpenAIConfig::for_tests, (), made),
    ensures
        made.api_key@ == "test-dummy-openai-key"@,
        made.base_url@ == "http://127.0.0.1:9/v1"@,
        made.timeout_ms == 200,
        made.supported_models@.len() == 5,
        made.supported_models@[0]@ == "example-chat-model"@,
        made.supported_models@[1]@ == "example-chat-model-mini"@,
        made.pricing@.contains_key("primary"@) && made.pricing@.contains_key("secondary"@),
        made.pricing@["primary"@].input_per_million.bits == 0x3ff0_0000_0000_0000
            && made.pricing@["primary"@].output_per_million.bits == 0x4000_0000_0000_0000,
        made.pricing@["secondary"@].input_per_million.bits == 0x3fd0_0000_0000_0000
            && made.pricing@["secondary"@].output_per_million.bits == 0x3fe0_0000_0000_0000,
{
    let shown = config::texts(made.supported_models@);
    assert(shown.len() == made.supported_models@.len());
    assert(shown[0] == made.supported_models@[0]@);
    assert(shown[1] == made.supported_models@[1]@);
    reveal_strlit("primary");
    reveal_strlit("secondary");
    reveal_strlit("example-chat-model");
    reveal_strlit("example-chat-model-mini");
    reveal_strlit("gpt-4");
    reveal_strlit("gpt-4-turbo");
    reveal_strlit("gpt-3.5-turbo");
    assert("primary"@.len() == 7 && "secondary"@.len() == 9);
    assert("example-chat-model"@.len() == 18 && "example-chat-model-mini"@.len() == 23);
    assert("gpt-4"@.len() == 5 && "gpt-4-turbo"@.len() == 11 && "gpt-3.5-turbo"@.len() == 13);
}

/// A service over registered vendors keeps them, and starts with every circuit
/// closed.
pub proof fn law_service_keeps_its_vendors(
    repository: ExecutorRepository,
    config: ExecutorConfig,
    service: ExecutorService,
    target: Seq<char>,
)
    requires
        call_ensures(ExecutorService::from_repository, (repository, config), service),
    ensures
        service.repository == repository,
        service.config == config,
        service.circuits@.cooldown.nanos == config.circuit_cooldown_ms * 1_000_000,
        service.circuits@.threshold == (if config.circuit_failure_threshold == 0 {
            1
        } else {
            config.circuit_failure_threshold
        }),
        circuit_laws::recorded(service.circuits@, target).phase == (CircuitPhase::Closed {
            failures: 0,
        }),
{
}

/// A named wait is as many milliseconds as its throttling says. It ends the
/// request when it cannot be kept: as expired once the deadline has passed, else
/// as that throttling.
pub proof fn law_named_wait_may_end_the_request(
    error: &ExecutorError,
    deadline: RequestDeadline,
    now: Instant,
    wait: Option<Duration>,
    terminal: Option<ExecutorError>,
)
    requires
        call_ensures(policy::provider_retry_after, (error,), wait),
        call_ensures(policy::terminate_for_provider_minimum, (error, deadline, now), terminal),
    ensures
        match *error {
            ExecutorError::RateLimitExceeded { retry_after_ms: Some(ms), .. } => {
                &&& wait matches Some(span) && span.nanos == ms * 1_000_000
                &&& now.nanos >= deadline.at.nanos ==> terminal == Some(
                    ExecutorError::DeadlineExceeded,
                )
                &&& now.nanos < deadline.at.nanos ==> terminal == (if ms * 1_000_000
                    > deadline.at.nanos - now.nanos {
                    Some(*error)
                } else {
                    None
                })
            },
            _ => wait is None && terminal is None,
        },
{
}

/// A circuit's label is that of its phase.
pub proof fn law_labels_follow_phases(
    registry: &TargetCircuitRegistry,
    target: &str,
    label: CircuitStateLabel,
    phase: CircuitPhase,
)
    requires
        call_ensures(events::circuit_label, (registry, target), label),
        call_ensures(TargetCircuitRegistry::phase, (registry, target), phase),
    ensures
        phase == circuit_laws::recorded(registry@, target@).phase,
        label is Closed <==> phase is Closed,
        label is Open <==> phase is Open,
        label is HalfOpen <==> phase is HalfOpen,
{
}

} // verus!
