//! Executor service: the entry to execution and its standing state.

use vstd::prelude::*;

use crate::common::config::{Catalog, Route};
use crate::common::contracts::RoutePlan;
use crate::common::deadline::RequestDeadline;
use crate::common::json;
use crate::common::time::Instant;
use crate::executor::circuit::{RegistryView, TargetCircuitRegistry};
use crate::executor::config::ExecutorConfig;
use crate::executor::error::ExecutorError;
use crate::executor::models::ExecutionParams;
use crate::executor::params;
use crate::executor::policy;
use crate::executor::repository;
use crate::executor::repository::ExecutorRepository;
use crate::executor::run;
use crate::executor::run::{RequestView, Step, StepView};

verus! {

/// Vendors, policy and circuits that all requests share.
pub struct ExecutorService {
    /// Vendor registry
    pub repository: ExecutorRepository,
    /// Retry and timeout policy
    pub config: ExecutorConfig,
    /// Circuits by catalog target
    pub circuits: TargetCircuitRegistry,
}

/// Whether two configurations set the same policy.
pub open spec fn same_policy(a: ExecutorConfig, b: ExecutorConfig) -> bool {
    &&& a.timeout_ms == b.timeout_ms
    &&& a.max_retries == b.max_retries
    &&& a.max_total_attempts == b.max_total_attempts
    &&& a.backoff_cap_ms == b.backoff_cap_ms
    &&& a.circuit_failure_threshold == b.circuit_failure_threshold
    &&& a.circuit_cooldown_ms == b.circuit_cooldown_ms
}

/// Whether a service starts with every circuit closed under a configuration's
/// threshold and cooldown.
pub open spec fn starts_closed(registry: RegistryView, config: ExecutorConfig) -> bool {
    &&& registry.circuits == Map::<Seq<char>, crate::executor::circuit::CircuitState>::empty()
    &&& registry.threshold == (if config.circuit_failure_threshold == 0 {
        1
    } else {
        config.circuit_failure_threshold
    })
    &&& registry.cooldown.nanos == config.circuit_cooldown_ms * 1_000_000
}

/// The request that a service makes of a plan under its policy.
pub open spec fn request_of(
    config: ExecutorConfig,
    plan: RoutePlan,
    params: ExecutionParams,
    deadline: RequestDeadline,
) -> RequestView {
    RequestView {
        plan,
        params,
        deadline,
        policy: crate::executor::run::ExecutionPolicy {
            max_retries: config.max_retries,
            attempt_timeout: crate::common::time::Duration {
                nanos: (config.timeout_ms * 1_000_000) as u128,
            },
            backoff_cap: crate::common::time::Duration {
                nanos: (config.backoff_cap_ms * 1_000_000) as u128,
            },
        },
        max_total: if config.max_total_attempts == 0 {
            1
        } else {
            config.max_total_attempts as nat
        },
        started: 0,
    }
}

/// The targets of a route, its primary first.
pub open spec fn route_targets(route: Route) -> Seq<Seq<char>> {
    seq![route.primary@] + crate::executor::config::texts(route.fallbacks@)
}

/// Whether some target of the catalog's default route has a closed circuit.
pub open spec fn default_route_usable(catalog: Catalog, registry: RegistryView) -> bool {
    &&& catalog.routes@.contains_key(catalog.default_route@)
    &&& some_closed(route_targets(catalog.routes@[catalog.default_route@]), registry)
}

/// Whether some of the targets has a closed circuit.
pub open spec fn some_closed(targets: Seq<Seq<char>>, registry: RegistryView) -> bool {
    exists|i: int|
        0 <= i < targets.len() && registry.circuit(#[trigger] targets[i]).phase is Closed
}

/// The first failure of a list of outcomes.
pub open spec fn first_failure(results: Seq<Result<(), ExecutorError>>) -> Option<ExecutorError>
    decreases results.len(),
{
    if results.len() == 0 {
        None
    } else {
        match results[0] {
            Err(error) => Some(error),
            Ok(()) => first_failure(results.skip(1)),
        }
    }
}

impl ExecutorService {
    /// Creates a service from configuration. The OpenAI configuration moves into
    /// the vendor registry.
    ///
    /// # Errors
    /// - `NoVendorsConfigured` if no vendors are configured
    /// - `InvalidConfiguration` if a vendor's credential is blank
    pub fn from_config(config: ExecutorConfig) -> (service: Result<ExecutorService, ExecutorError>)
        ensures
            match service {
                Ok(service) => {
                    &&& repository::is_registry_of(Ok(service.repository), config.openai)
                    &&& same_policy(service.config, config)
                    &&& service.config.openai is None
                    &&& service.config.anthropic_api_key == config.anthropic_api_key
                    &&& starts_closed(service.circuits@, config)
                },
                Err(error) => repository::is_registry_of(Err(error), config.openai),
            },
    {
        let ExecutorConfig { openai, .. } = config;
        let policy = ExecutorConfig { openai: None, ..config };
        let vendors = ExecutorConfig { openai, anthropic_api_key: None, ..policy };
        match ExecutorRepository::from_config(vendors) {
            Ok(repository) => Ok(Self::from_repository(repository, policy)),
            Err(error) => Err(error),
        }
    }

    /// Creates a service over registered vendors.
    pub fn from_repository(repository: ExecutorRepository, config: ExecutorConfig) -> (service:
        ExecutorService)
        ensures
            service.repository == repository,
            service.config == config,
            starts_closed(service.circuits@, config),
    {
        let circuits: TargetCircuitRegistry = config.circuits();
        ExecutorService { repository, config, circuits }
    }

    /// Returns the number of registered vendors.
    pub fn vendor_count(&self) -> (count: usize)
        ensures
            count == self.repository.vendors.names().len(),
    {
        self.repository.vendor_count()
    }

    /// Judges the health of all vendors from one outcome each: healthy when at least
    /// one is, else the first failure.
    ///
    /// # Errors
    /// - `NoVendorsConfigured` when there is no vendor
    /// - the first failure when no vendor is healthy
    pub fn check_all_vendors_health(results: Vec<Result<(), ExecutorError>>) -> (verdict: Result<
        (),
        ExecutorError,
    >)
        ensures
            if results@.len() == 0 {
                verdict == Err::<(), ExecutorError>(ExecutorError::NoVendorsConfigured)
            } else if exists|i: int| 0 <= i < results@.len() && (#[trigger] results@[i]) is Ok {
                verdict is Ok
            } else {
                verdict == Err::<(), ExecutorError>(first_failure(results@).unwrap())
            },
    {
        if results.len() == 0 {
            return Err(ExecutorError::NoVendorsConfigured);
        }
        let mut i: usize = 0;
        while i < results.len()
            invariant
                i <= results.len(),
                forall|k: int| 0 <= k < i ==> (#[trigger] results@[k]) is Err,
            decreases results.len() - i,
        {
            if results[i].is_ok() {
                assert(results@[i as int] is Ok);
                return Ok(());
            }
            i += 1;
        }
        assert(results@[0] is Err);
        match &results[0] {
            Err(error) => Err(error.clone()),
            Ok(()) => Ok(()),
        }
    }

    /// Whether another attempt on the same hop may mend a failure.
    pub fn is_retryable_error(error: &ExecutorError) -> (yes: bool)
        ensures
            yes == policy::retryable(*error),
    {
        policy::is_retryable_error(error)
    }

    /// Whether a failure counts against the target's circuit.
    pub fn is_circuit_failure(error: &ExecutorError) -> (yes: bool)
        ensures
            yes == policy::circuit_failure(*error),
    {
        policy::is_circuit_failure(error)
    }

    /// Whether another target may be tried after a failure.
    pub fn is_fallback_eligible(error: &ExecutorError) -> (yes: bool)
        ensures
            yes == policy::fallback_eligible(*error),
    {
        policy::is_fallback_eligible(error)
    }

    /// Whether a hop can satisfy the requested completion length.
    pub fn hop_supports_params(plan: &RoutePlan, params: &ExecutionParams) -> (yes: bool)
        ensures
            yes == policy::hop_supports(*plan, params.max_tokens),
    {
        policy::hop_supports_params(plan, params)
    }

    /// Extracts execution parameters from a request payload.
    ///
    /// # Errors
    /// Returns `InvalidPayload` if the `messages` member is missing or is not a
    /// list of messages.
    pub fn extract_params(payload: &serde_json::Value) -> (params: Result<
        ExecutionParams,
        ExecutorError,
    >)
        ensures
            match params {
                Ok(params) => params::are_params_of(params, json::json_tree(*payload)),
                Err(error) => {
                    &&& params::messages_of(
                        json::member(json::json_tree(*payload), "messages"@),
                    ) is None
                    &&& error matches ExecutorError::InvalidPayload(detail) && detail@
                        == "Missing or invalid 'messages' field"@
                },
            },
    {
        params::extract_params(payload)
    }

    /// Opens a target's circuit without recording failures.
    pub fn force_open_target(&mut self, target_id: &str, now: Instant)
        ensures
            final(self).repository == old(self).repository,
            final(self).config == old(self).config,
            final(self).circuits@ == old(self).circuits@.with(
                target_id@,
                old(self).circuits@.opened(old(self).circuits@.circuit(target_id@), now),
            ),
    {
        self.circuits.force_open(target_id, now);
    }

    /// Whether some target of the catalog's default route has a closed circuit.
    /// Asking starts no recovery probe.
    pub fn default_route_has_usable_target(&self, catalog: &Catalog) -> (usable: bool)
        ensures
            usable == default_route_usable(*catalog, self.circuits@),
    {
        let route: &Route = match catalog.routes.get(catalog.default_route.as_str()) {
            Some(route) => route,
            None => {
                return false;
            },
        };
        let ghost targets = route_targets(*route);
        assert(targets[0] == route.primary@);
        if self.circuits.target_is_usable(route.primary.as_str()) {
            assert(self.circuits@.circuit(targets[0]).phase is Closed);
            return true;
        }
        let mut i: usize = 0;
        while i < route.fallbacks.len()
            invariant
                i <= route.fallbacks.len(),
                targets == route_targets(*route),
                catalog.routes@.contains_key(catalog.default_route@),
                *route == catalog.routes@[catalog.default_route@],
                forall|k: int|
                    0 <= k <= i ==> !(self.circuits@.circuit(#[trigger] targets[k]).phase is Closed),
            decreases route.fallbacks.len() - i,
        {
            assert(targets[i + 1] == route.fallbacks@[i as int]@);
            if self.circuits.target_is_usable(route.fallbacks[i].as_str()) {
                assert(self.circuits@.circuit(targets[i + 1]).phase is Closed);
                return true;
            }
            i += 1;
        }
        false
    }

    /// Starts executing a plan.
    ///
    /// An expired deadline is the answer before anything else; then an invalid
    /// payload. Otherwise the primary is called when its circuit admits it, and
    /// its fallbacks are tried when it does not.
    pub fn execute(
        &mut self,
        plan: RoutePlan,
        payload: &serde_json::Value,
        deadline: RequestDeadline,
        now: Instant,
    ) -> (step: Step)
        ensures
            final(self).repository == old(self).repository,
            final(self).config == old(self).config,
            if deadline.expired(now) {
                &&& step@ == StepView::Finish(Err(ExecutorError::DeadlineExceeded))
                &&& final(self).circuits@ == old(self).circuits@
            } else if params::messages_of(
                json::member(json::json_tree(*payload), "messages"@),
            ) is None {
                &&& step@ matches StepView::Finish(Err(ExecutorError::InvalidPayload(detail)))
                    && detail@ == "Missing or invalid 'messages' field"@
                &&& final(self).circuits@ == old(self).circuits@
            } else {
                exists|params: ExecutionParams|
                    {
                        &&& params::are_params_of(params, json::json_tree(*payload))
                        &&& (step@, final(self).circuits@) == (#[trigger] request_of(
                            old(self).config,
                            plan,
                            params,
                            deadline,
                        )).begin(old(self).circuits@, now)
                    }
            },
    {
        if deadline.is_expired(now) {
            return Step::Finish(Err(ExecutorError::DeadlineExceeded));
        }
        let params: ExecutionParams = match params::extract_params(payload) {
            Ok(params) => params,
            Err(error) => {
                return Step::Finish(Err(error));
            },
        };
        let policy = self.config.policy();
        proof {
            let request = request_of(self.config, plan, params, deadline);
            assert(policy == request.policy);
            assert(params::messages_of(
                json::member(json::json_tree(*payload), "messages"@),
            ) is Some);
        }
        run::begin(
            plan,
            params,
            deadline,
            policy,
            self.config.max_total_attempts,
            &mut self.circuits,
            now,
        )
    }
}

} // verus!
