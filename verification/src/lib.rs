//! Verified core of an AI gateway: request validation, routing, bounded execution
//! with fallback and circuit breaking, and health decisions.
//!
//! Nothing here performs I/O or reads a clock. Requests, provider answers and
//! clock readings come in as values, and decisions go out as values.

use vstd::prelude::*;

use crate::common::admission::AdmissionLimiter;
use crate::common::config::Settings;
use crate::common::time::Instant;
use crate::executor::config::ExecutorConfig;
use crate::executor::error::ExecutorError;
use crate::executor::service::ExecutorService;
use crate::health::service::{HealthConfig, HealthService};

pub mod common;
pub mod executor;
pub mod health;
pub mod ingress;
pub mod middleware;

verus! {

/// Application state shared across all handlers.
pub struct AppState {
    /// Validated operator settings injected at startup.
    pub settings: Settings,
    /// Vendors, policy and circuits shared by all requests
    pub executor_service: ExecutorService,
    /// Health and readiness state
    pub health_service: HealthService,
    /// Non-blocking concurrent generation admission limiter, which also holds the
    /// drain flag
    pub admission: AdmissionLimiter,
}

impl AppState {
    /// Builds the state that the settings ask for, with every circuit closed,
    /// every generation slot free and nothing probed yet.
    ///
    /// # Errors
    /// Returns `InvalidConfiguration` when the provider credential is blank.
    pub fn from_settings(
        settings: Settings,
        health: HealthConfig,
        now: Instant,
    ) -> (state: Result<AppState, ExecutorError>)
        ensures
            match state {
                Ok(state) => {
                    &&& common::text::trimmed(settings.provider.api_key@).len() > 0
                    &&& state.settings == settings
                    &&& state.executor_service.repository.vendors.names() == seq!["openai"@]
                    &&& executor::config::is_catalog_config(
                        state.executor_service.repository.vendors@["openai"@].config,
                        settings,
                    )
                    &&& state.executor_service.config.max_retries
                        == settings.limits.retries_per_target
                    &&& state.executor_service.config.max_total_attempts
                        == settings.limits.max_total_attempts
                    &&& state.executor_service.config.timeout_ms
                        == settings.limits.max_attempt_timeout_ms
                    &&& state.executor_service.config.backoff_cap_ms
                        == settings.limits.backoff_cap_ms
                    &&& state.executor_service.config.circuit_failure_threshold
                        == settings.limits.circuit_failure_threshold
                    &&& state.executor_service.config.circuit_cooldown_ms
                        == settings.limits.circuit_cooldown_ms
                    &&& executor::service::starts_closed(
                        state.executor_service.circuits@,
                        state.executor_service.config,
                    )
                    &&& state.health_service == HealthService::unprobed(health, now, true, true)
                    &&& state.admission@ == (common::admission::AdmissionView {
                        capacity: settings.limits.max_concurrent_generations as nat,
                        active: 0,
                        draining: false,
                    })
                },
                Err(error) => {
                    &&& common::text::trimmed(settings.provider.api_key@).len() == 0
                    &&& error is InvalidConfiguration
                },
            },
    {
        let config: ExecutorConfig = ExecutorConfig::from_settings(&settings);
        let executor_service: ExecutorService = match ExecutorService::from_config(config) {
            Ok(service) => service,
            Err(error) => {
                return Err(error);
            },
        };
        let admission: AdmissionLimiter = AdmissionLimiter::new(
            settings.limits.max_concurrent_generations,
        );
        Ok(
            AppState {
                settings,
                executor_service,
                health_service: HealthService::with_dependencies(health, now),
                admission,
            },
        )
    }
}

} // verus!
