//! What holds of liveness, readiness and the state that both start from.

use vstd::prelude::*;

use crate::common::config::Settings;
use crate::common::text_laws;
use crate::common::time::{Duration, Instant};
use crate::executor::circuit::CircuitPhase;
use crate::executor::circuit_laws;
use crate::executor::config;
use crate::executor::error::ExecutorError;
use crate::health::error::HealthError;
use crate::health::repository::{HealthRepository, SystemStatus};
use crate::health::service::{
    plan_readiness, readiness_response, readiness_status_code, Dependency, DependencyStatus,
    HealthConfig, HealthResponse, HealthService, ProbePlan, ReadinessPlan, ReadinessResponse,
};
use crate::AppState;

verus! {

/// When a dependency was last probed with success.
pub open spec fn last_success(service: HealthService, dependency: Dependency) -> Option<Instant> {
    if dependency is Database {
        service.database_success_at
    } else {
        service.upstream_success_at
    }
}

/// Whether a status says healthy, or unhealthy with the dependency's own
/// sanitized reason.
pub open spec fn says(status: DependencyStatus, healthy: bool, dependency: Dependency) -> bool {
    if healthy {
        status.status@ == "healthy"@ && status.error is None
    } else {
        &&& status.status@ == "unhealthy"@
        &&& status.error matches Some(error) && error@ == (if dependency is Database {
            "Authentication database unavailable"@
        } else {
            "Upstream provider unreachable"@
        })
    }
}

/// A dependency is probed unless its last success is younger than the cache's
/// time, which then counts as healthy, or there is nothing to probe, which
/// counts as unhealthy.
pub proof fn law_probes_are_made_unless_fresh(
    service: &HealthService,
    dependency: Dependency,
    now: Instant,
    plan: ProbePlan,
)
    requires
        call_ensures(HealthService::plan_probe, (service, dependency, now), plan),
    ensures
        ({
            let ttl = service.config.cache_ttl_secs * 1_000_000_000;
            let fresh = last_success(*service, dependency) matches Some(at) && (if at.nanos
                <= now.nanos {
                now.nanos - at.nanos < ttl
            } else {
                0 < ttl
            });
            let has = if dependency is Database {
                service.has_database
            } else {
                service.has_upstream
            };
            &&& plan is Probe <==> !fresh && has
            &&& plan matches ProbePlan::Known(status) ==> says(status, fresh, dependency)
                && status.latency_ms is None
        }),
{
}

/// A success is remembered from the moment it was recorded and a failure is
/// never remembered; either way the other dependency is left alone, and the
/// status tells how long the probe took.
pub proof fn law_only_successes_are_remembered(
    service: &mut HealthService,
    dependency: Dependency,
    healthy: bool,
    started: Instant,
    now: Instant,
    status: DependencyStatus,
)
    requires
        call_ensures(
            HealthService::record_probe,
            (service, dependency, healthy, started, now),
            status,
        ),
        started.nanos <= now.nanos,
    ensures
        last_success(*final(service), dependency) == (if healthy {
            Some(now)
        } else {
            last_success(*old(service), dependency)
        }),
        forall|other: Dependency|
            other != dependency ==> last_success(*final(service), other) == #[trigger] last_success(
                *old(service),
                other,
            ),
        final(service).config == old(service).config,
        final(service).start_time == old(service).start_time,
        final(service).has_database == old(service).has_database,
        final(service).has_upstream == old(service).has_upstream,
        says(status, healthy, dependency),
        status.latency_ms matches Some(ms) && ((now.nanos - started.nanos) / 1_000_000 <= u64::MAX
            ==> ms == (now.nanos - started.nanos) / 1_000_000),
{
}

/// A process is ready exactly when its database, its upstream and its default
/// route are all healthy and it is not draining. The answer shows each status as
/// it is, and only a ready process answers 200.
pub proof fn law_ready_needs_everything(
    database: DependencyStatus,
    upstream: DependencyStatus,
    default_route: DependencyStatus,
    draining: bool,
    timestamp: String,
    response: ReadinessResponse,
    status: u16,
)
    requires
        call_ensures(
            readiness_response,
            (database, upstream, default_route, draining, timestamp),
            response,
        ),
        call_ensures(readiness_status_code, (&response,), status),
    ensures
        ({
            let ready = !draining && database.status@ == "healthy"@ && upstream.status@
                == "healthy"@ && default_route.status@ == "healthy"@;
            &&& response.status@ == (if ready {
                "ready"@
            } else {
                "not_ready"@
            })
            &&& status == (if ready {
                200
            } else {
                503int
            })
        }),
        response.draining == draining,
        response.timestamp@ == timestamp@,
        response.dependencies.database == database,
        response.dependencies.upstream == upstream,
        response.dependencies.default_route == default_route,
{
    reveal_strlit("ready");
    reveal_strlit("not_ready");
    assert("ready"@.len() != "not_ready"@.len());
}

/// A draining process starts no probe, is not ready whatever was healthy, and
/// shows what was last known.
pub proof fn law_draining_is_not_ready(
    draining: bool,
    plan: ReadinessPlan,
    service: &HealthService,
    usable: Option<bool>,
    timestamp: String,
    response: ReadinessResponse,
    status: u16,
)
    requires
        call_ensures(plan_readiness, (draining,), plan),
        call_ensures(HealthService::draining_response, (service, usable, timestamp), response),
        call_ensures(readiness_status_code, (&response,), status),
    ensures
        plan is AnswerDraining <==> draining,
        response.status@ == "not_ready"@ && status == 503 && response.draining,
        says(
            response.dependencies.database,
            service.database_success_at is Some,
            Dependency::Database,
        ),
        says(
            response.dependencies.upstream,
            service.upstream_success_at is Some,
            Dependency::Upstream,
        ),
        response.dependencies.default_route.status@ == (if usable == Some(true) {
            "healthy"@
        } else {
            "unhealthy"@
        }),
{
    reveal_strlit("ready");
    reveal_strlit("not_ready");
    assert("ready"@.len() != "not_ready"@.len());
}

/// The default route is healthy only when some target of it is known to be
/// usable.
pub proof fn law_default_route_is_healthy_when_usable(
    usable: Option<bool>,
    status: DependencyStatus,
)
    requires
        call_ensures(HealthService::default_route_status, (usable,), status),
    ensures
        status.status@ == (if usable == Some(true) {
            "healthy"@
        } else {
            "unhealthy"@
        }),
        status.error is None <==> usable == Some(true),
        status.latency_ms is None,
{
}

/// A process that can answer is live, whatever its dependencies are, and tells
/// its version and the whole seconds since it started.
pub proof fn law_liveness_looks_at_no_dependency(
    service: &HealthService,
    timestamp: String,
    version: String,
    now: Instant,
    response: Result<HealthResponse, HealthError>,
)
    requires
        call_ensures(HealthService::check_health, (service, timestamp, version, now), response),
        service.start_time.nanos <= now.nanos,
    ensures
        response matches Ok(shown) && {
            &&& shown.status@ == "healthy"@
            &&& shown.timestamp@ == timestamp@
            &&& shown.version matches Some(told) && told@ == version@
            &&& shown.uptime_seconds matches Some(secs) && ((now.nanos
                - service.start_time.nanos) / 1_000_000_000 <= u64::MAX ==> secs == (now.nanos
                - service.start_time.nanos) / 1_000_000_000)
        },
{
}

/// A service probes what it was made to probe, and nothing is known of it yet:
/// the database and the upstream, the upstream alone, or neither.
pub proof fn law_services_probe_what_they_were_made_for(
    config: HealthConfig,
    now: Instant,
    neither: HealthService,
    upstream: HealthService,
    both: HealthService,
)
    requires
        call_ensures(HealthService::new, (config, now), neither),
        call_ensures(HealthService::with_executor, (config, now), upstream),
        call_ensures(HealthService::with_dependencies, (config, now), both),
    ensures
        !neither.has_database && !neither.has_upstream,
        !upstream.has_database && upstream.has_upstream,
        both.has_database && both.has_upstream,
        neither.database_success_at is None && neither.upstream_success_at is None,
        upstream.database_success_at is None && upstream.upstream_success_at is None,
        both.database_success_at is None && both.upstream_success_at is None,
        neither.config == config && upstream.config == config && both.config == config,
        neither.start_time == now && upstream.start_time == now && both.start_time == now,
{
}

/// A dependency counts as healthy in a draining answer once it was, however long
/// ago.
pub proof fn law_last_known_status(
    service: &HealthService,
    dependency: Dependency,
    status: DependencyStatus,
)
    requires
        call_ensures(HealthService::cached_status, (service, dependency), status),
    ensures
        says(status, last_success(*service, dependency) is Some, dependency),
        status.latency_ms is None,
{
}

/// A status is healthy without an error, or unhealthy with the given one, and is
/// read as what it says. A success is fresh for less than the cache's time.
pub proof fn law_statuses_say_what_they_are(
    latency_ms: Option<u64>,
    message: &'static str,
    good: DependencyStatus,
    bad: DependencyStatus,
    status: DependencyStatus,
    healthy: bool,
    service: &HealthService,
    at: Instant,
    now: Instant,
    fresh: bool,
)
    requires
        call_ensures(DependencyStatus::healthy, (latency_ms,), good),
        call_ensures(DependencyStatus::unhealthy, (message, latency_ms), bad),
        call_ensures(DependencyStatus::is_healthy, (&status,), healthy),
        call_ensures(HealthService::cache_is_fresh, (service, at, now), fresh),
        at.nanos <= now.nanos,
    ensures
        good.status@ == "healthy"@ && good.latency_ms == latency_ms && good.error is None,
        bad.status@ == "unhealthy"@ && bad.latency_ms == latency_ms && (bad.error matches Some(
            error,
        ) && error@ == message@),
        healthy <==> status.status@ == "healthy"@,
        fresh <==> now.nanos - at.nanos < service.config.cache_ttl_secs * 1_000_000_000,
{
}

/// A probe may take as many seconds as configured, at least one, and a success
/// may be reused for as many.
pub proof fn law_health_limits_are_seconds(
    config: HealthConfig,
    secs: u64,
    timeout: Duration,
    ttl: Duration,
)
    requires
        call_ensures(HealthConfig::probe_timeout_secs, (&config,), secs),
        call_ensures(HealthConfig::probe_timeout, (&config,), timeout),
        call_ensures(HealthConfig::cache_ttl, (&config,), ttl),
    ensures
        secs >= 1,
        config.timeout >= 1 ==> secs == config.timeout,
        timeout.nanos == secs * 1_000_000_000,
        ttl.nanos == config.cache_ttl_secs * 1_000_000_000,
{
}

/// The health variables set their own seconds; without them a probe may take two
/// and a success is reused for five.
pub proof fn law_health_variables(
    timeout: Option<String>,
    cache_ttl_secs: Option<String>,
    made: HealthConfig,
)
    requires
        call_ensures(HealthConfig::from_vars, (timeout, cache_ttl_secs), made),
    ensures
        timeout is None ==> made.timeout == 2,
        cache_ttl_secs is None ==> made.cache_ttl_secs == 5,
        timeout matches Some(value) ==> made.timeout == config::number_or(
            Some(value@),
            u64::MAX as nat,
            2,
        ),
        cache_ttl_secs matches Some(value) ==> made.cache_ttl_secs == config::number_or(
            Some(value@),
            u64::MAX as nat,
            5,
        ),
{
}

/// A process that starts has every circuit closed, every slot free, nothing
/// probed yet and both dependencies to probe. It starts exactly when it has a
/// credential.
pub proof fn law_process_starts_closed_free_and_unprobed(
    settings: Settings,
    health: HealthConfig,
    now: Instant,
    state: Result<AppState, ExecutorError>,
    target: Seq<char>,
)
    requires
        call_ensures(AppState::from_settings, (settings, health, now), state),
    ensures
        state is Err <==> text_laws::all_blank(settings.provider.api_key@),
        state matches Err(error) ==> error is InvalidConfiguration,
        state matches Ok(made) ==> {
            let service = made.executor_service;
            &&& circuit_laws::recorded(service.circuits@, target).phase == (CircuitPhase::Closed {
                failures: 0,
            })
            &&& service.circuits@.cooldown.nanos == settings.limits.circuit_cooldown_ms
                * 1_000_000
            &&& settings.limits.circuit_failure_threshold > 0 ==> service.circuits@.threshold
                == settings.limits.circuit_failure_threshold
            &&& service.config.max_retries == settings.limits.retries_per_target
            &&& service.config.max_total_attempts == settings.limits.max_total_attempts
            &&& service.config.timeout_ms == settings.limits.max_attempt_timeout_ms
            &&& service.config.backoff_cap_ms == settings.limits.backoff_cap_ms
            &&& made.admission@.capacity == settings.limits.max_concurrent_generations
            &&& made.admission@.active == 0 && !made.admission@.draining
            &&& made.health_service.config == health
            &&& made.health_service.start_time == now
            &&& made.health_service.has_database && made.health_service.has_upstream
            &&& made.health_service.database_success_at is None
            &&& made.health_service.upstream_success_at is None
        },
{
    text_laws::law_blank_texts_are_trimmed_away(settings.provider.api_key@);
}

/// The process reports itself healthy while it can answer.
pub proof fn law_answering_process_is_healthy(
    repository: &HealthRepository,
    status: Result<SystemStatus, HealthError>,
)
    requires
        call_ensures(HealthRepository::get_system_status, (repository,), status),
    ensures
        status matches Ok(seen) && seen.is_healthy,
{
}

} // verus!
