//! Health decisions.
//!
//! Liveness is shallow. Readiness requires the authentication database, upstream
//! reachability, and at least one usable default-route target. Successful probes
//! may be reused for a configured time; failures are never cached. Draining
//! overrides cached success. Probes themselves are made by the caller.

use vstd::prelude::*;

use crate::common::text::same_text;
use crate::common::time::{duration_ms, Duration, Instant};
use crate::executor::config;
use crate::health::error::HealthError;
use crate::health::repository::HealthRepository;

verus! {

/// Response structure for health check endpoints.
///
/// Liveness is process-only. Database and upstream failures do not change
/// this response.
#[derive(Debug)]
pub struct HealthResponse {
    /// Current health status of the process (`"healthy"` while the process
    /// can answer).
    pub status: String,
    /// ISO 8601 timestamp of when the health check was performed.
    pub timestamp: String,
    /// Application version
    pub version: Option<String>,
    /// Uptime in seconds
    pub uptime_seconds: Option<u64>,
}

/// Status of one readiness dependency.
#[derive(Clone, Debug)]
pub struct DependencyStatus {
    /// Status: `"healthy"` or `"unhealthy"`.
    pub status: String,
    /// Probe latency in milliseconds when a live check ran.
    pub latency_ms: Option<u64>,
    /// Sanitized error when unhealthy. Never includes SQL, URLs, or secrets.
    pub error: Option<String>,
}

/// Named dependency statuses reported by `/ready`.
///
/// `/models` reachability is `upstream` only. It is not proof of generation
/// and cannot override `default_route` when no configured target is usable.
#[derive(Clone, Debug)]
pub struct ReadinessDependencies {
    /// Authentication schema, selected-column, locking, and last_used_at UPDATE access.
    pub database: DependencyStatus,
    /// Provider `/models` reachability and credentials.
    pub upstream: DependencyStatus,
    /// Closed targets on the configured default route.
    pub default_route: DependencyStatus,
}

/// Response structure for readiness check endpoints.
#[derive(Debug)]
pub struct ReadinessResponse {
    /// Overall readiness status (`"ready"` or `"not_ready"`).
    pub status: String,
    /// ISO 8601 timestamp
    pub timestamp: String,
    /// Bounded safe statuses for required dependencies.
    pub dependencies: ReadinessDependencies,
    /// True when the process is draining and must not receive new generation.
    pub draining: bool,
}

/// A readiness dependency that is probed.
#[derive(Clone, Copy, PartialEq, Eq, Structural, Debug)]
pub enum Dependency {
    Database,
    Upstream,
}

impl Dependency {
    /// What is reported when the dependency is not healthy.
    pub open spec fn fault(self) -> Seq<char> {
        match self {
            Dependency::Database => "Authentication database unavailable"@,
            Dependency::Upstream => "Upstream provider unreachable"@,
        }
    }

    fn fault_text(self) -> (text: &'static str)
        ensures
            text@ == self.fault(),
    {
        match self {
            Dependency::Database => "Authentication database unavailable",
            Dependency::Upstream => "Upstream provider unreachable",
        }
    }
}

impl DependencyStatus {
    /// Healthy, with the given latency and no error.
    pub open spec fn is_ok(self, latency_ms: Option<u64>) -> bool {
        self.status@ == "healthy"@ && self.latency_ms == latency_ms && self.error is None
    }

    /// Unhealthy, with the given latency and error.
    pub open spec fn is_fault(self, message: Seq<char>, latency_ms: Option<u64>) -> bool {
        &&& self.status@ == "unhealthy"@
        &&& self.latency_ms == latency_ms
        &&& self.error matches Some(error) && error@ == message
    }

    /// A healthy dependency.
    pub fn healthy(latency_ms: Option<u64>) -> (status: DependencyStatus)
        ensures
            status.is_ok(latency_ms),
    {
        DependencyStatus { status: "healthy".to_owned(), latency_ms, error: None }
    }

    /// A dependency that is not healthy, with a sanitized reason.
    pub fn unhealthy(message: &'static str, latency_ms: Option<u64>) -> (status: DependencyStatus)
        ensures
            status.is_fault(message@, latency_ms),
    {
        DependencyStatus {
            status: "unhealthy".to_owned(),
            latency_ms,
            error: Some(message.to_owned()),
        }
    }

    /// Whether the dependency is healthy.
    pub fn is_healthy(&self) -> (healthy: bool)
        ensures
            healthy == (self.status@ == "healthy"@),
    {
        same_text(self.status.as_str(), "healthy")
    }
}

/// Health check configuration.
#[derive(Clone, Copy, PartialEq, Eq, Structural, Debug)]
pub struct HealthConfig {
    /// Timeout for dependency probes in seconds.
    pub timeout: u64,
    /// Success-cache TTL in seconds. Failures are never cached.
    pub cache_ttl_secs: u64,
}

impl HealthConfig {
    /// Creates configuration with an explicit timeout and success-cache TTL.
    pub fn new(timeout: u64, cache_ttl_secs: u64) -> (config: HealthConfig)
        ensures
            config == (HealthConfig { timeout, cache_ttl_secs }),
    {
        HealthConfig { timeout, cache_ttl_secs }
    }

    /// Creates configuration from the values of `HEALTH_CHECK_TIMEOUT` (default 2
    /// seconds) and `HEALTH_CHECK_CACHE_TTL_SECS` (default 5 seconds). A TTL of
    /// zero disables the success cache, so every probe rechecks immediately.
    pub fn from_vars(timeout: Option<String>, cache_ttl_secs: Option<String>) -> (config:
        HealthConfig)
        ensures
            config.timeout == config::number_or(crate::common::text::optional_text(timeout), u64::MAX as nat, 2),
            config.cache_ttl_secs == config::number_or(
                crate::common::text::optional_text(cache_ttl_secs),
                u64::MAX as nat,
                5,
            ),
    {
        HealthConfig {
            timeout: config::u64_or(timeout, 2),
            cache_ttl_secs: config::u64_or(cache_ttl_secs, 5),
        }
    }

    /// Probe timeout in seconds, at least one.
    pub fn probe_timeout_secs(&self) -> (secs: u64)
        ensures
            secs == (if self.timeout == 0 {
                1
            } else {
                self.timeout
            }),
    {
        if self.timeout == 0 {
            1
        } else {
            self.timeout
        }
    }

    /// Probe timeout, at least one second.
    pub fn probe_timeout(&self) -> (timeout: Duration)
        ensures
            timeout.nanos == (if self.timeout == 0 {
                1
            } else {
                self.timeout as int
            }) * 1_000_000_000,
    {
        Duration::from_secs(self.probe_timeout_secs())
    }

    /// Time for which a successful probe may be reused.
    pub fn cache_ttl(&self) -> (ttl: Duration)
        ensures
            ttl.nanos == self.cache_ttl_secs * 1_000_000_000,
    {
        Duration::from_secs(self.cache_ttl_secs)
    }

    /// Whether a success at `cached_at` may still be reused at `now`.
    pub open spec fn fresh(self, cached_at: Instant, now: Instant) -> bool {
        now.spec_since(cached_at).nanos < self.cache_ttl_secs * 1_000_000_000
    }
}

/// What the readiness check has to do about a dependency.
#[derive(Debug)]
pub enum ProbePlan {
    /// The status is known without a probe.
    Known(DependencyStatus),
    /// Probe the dependency, then record the outcome.
    Probe,
}

/// Standing state of health checks.
#[derive(Debug)]
pub struct HealthService {
    /// Source of the process's own status
    pub repository: HealthRepository,
    /// Probe timeout and success-cache TTL
    pub config: HealthConfig,
    /// When the process started
    pub start_time: Instant,
    /// Whether there is a database to probe
    pub has_database: bool,
    /// Whether there is an upstream to probe
    pub has_upstream: bool,
    /// Last successful database probe. Failures are not stored.
    pub database_success_at: Option<Instant>,
    /// Last successful upstream probe. Failures are not stored.
    pub upstream_success_at: Option<Instant>,
}

impl HealthService {
    /// When a dependency was last probed successfully.
    pub open spec fn success_at(self, dependency: Dependency) -> Option<Instant> {
        match dependency {
            Dependency::Database => self.database_success_at,
            Dependency::Upstream => self.upstream_success_at,
        }
    }

    /// Whether there is something to probe for a dependency.
    pub open spec fn has(self, dependency: Dependency) -> bool {
        match dependency {
            Dependency::Database => self.has_database,
            Dependency::Upstream => self.has_upstream,
        }
    }

    /// The service with one dependency's last success replaced.
    pub open spec fn with_success(self, dependency: Dependency, at: Instant) -> HealthService {
        match dependency {
            Dependency::Database => HealthService { database_success_at: Some(at), ..self },
            Dependency::Upstream => HealthService { upstream_success_at: Some(at), ..self },
        }
    }

    /// A service in which nothing has been probed yet.
    pub open spec fn unprobed(
        config: HealthConfig,
        start_time: Instant,
        has_database: bool,
        has_upstream: bool,
    ) -> HealthService {
        HealthService {
            repository: HealthRepository,
            config,
            start_time,
            has_database,
            has_upstream,
            database_success_at: None,
            upstream_success_at: None,
        }
    }

    /// Creates a liveness-only service with no readiness dependencies. It is live
    /// but never ready.
    pub fn new(config: HealthConfig, start_time: Instant) -> (service: HealthService)
        ensures
            service == HealthService::unprobed(config, start_time, false, false),
    {
        HealthService {
            repository: HealthRepository::new(),
            config,
            start_time,
            has_database: false,
            has_upstream: false,
            database_success_at: None,
            upstream_success_at: None,
        }
    }

    /// Creates a service that probes upstream vendors only. The database stays
    /// unready.
    pub fn with_executor(config: HealthConfig, start_time: Instant) -> (service: HealthService)
        ensures
            service == HealthService::unprobed(config, start_time, false, true),
    {
        HealthService { has_upstream: true, ..Self::new(config, start_time) }
    }

    /// Creates a readiness service with database and upstream checks.
    pub fn with_dependencies(config: HealthConfig, start_time: Instant) -> (service: HealthService)
        ensures
            service == HealthService::unprobed(config, start_time, true, true),
    {
        HealthService {
            has_database: true,
            has_upstream: true,
            ..Self::new(config, start_time)
        }
    }

    /// Performs a process liveness check.
    ///
    /// This does not look at the authentication database or upstream provider.
    pub fn check_health(&self, timestamp: String, version: String, now: Instant) -> (response:
        Result<HealthResponse, HealthError>)
        ensures
            response matches Ok(response) && {
                &&& response.status@ == "healthy"@
                &&& response.timestamp == timestamp
                &&& response.version == Some(version)
                &&& response.uptime_seconds == Some(
                    crate::common::time::clip_u64(
                        now.spec_since(self.start_time).nanos as nat / 1_000_000_000,
                    ),
                )
            },
    {
        let system_status = match self.repository.get_system_status() {
            Ok(status) => status,
            Err(error) => {
                return Err(error);
            },
        };
        let status: String = if system_status.is_healthy {
            "healthy".to_owned()
        } else {
            "unhealthy".to_owned()
        };
        let uptime: u128 = now.since(self.start_time).nanos / 1_000_000_000;
        Ok(
            HealthResponse {
                status,
                timestamp,
                version: Some(version),
                uptime_seconds: Some(
                    if uptime <= u64::MAX as u128 {
                        uptime as u64
                    } else {
                        u64::MAX
                    },
                ),
            },
        )
    }

    /// Whether a success at `cached_at` may still be reused at `now`.
    pub fn cache_is_fresh(&self, cached_at: Instant, now: Instant) -> (fresh: bool)
        ensures
            fresh == self.config.fresh(cached_at, now),
    {
        let ttl: Duration = self.config.cache_ttl();
        !ttl.is_zero() && now.since(cached_at).nanos < ttl.nanos
    }

    fn last_success(&self, dependency: Dependency) -> (at: Option<Instant>)
        ensures
            at == self.success_at(dependency),
    {
        match dependency {
            Dependency::Database => self.database_success_at,
            Dependency::Upstream => self.upstream_success_at,
        }
    }

    /// Decides whether a dependency has to be probed at `now`.
    pub fn plan_probe(&self, dependency: Dependency, now: Instant) -> (plan: ProbePlan)
        ensures
            if self.success_at(dependency) matches Some(at) && self.config.fresh(at, now) {
                plan matches ProbePlan::Known(status) && status.is_ok(None)
            } else if self.has(dependency) {
                plan is Probe
            } else {
                plan matches ProbePlan::Known(status) && status.is_fault(dependency.fault(), None)
            },
    {
        if let Some(at) = self.last_success(dependency) {
            if self.cache_is_fresh(at, now) {
                return ProbePlan::Known(DependencyStatus::healthy(None));
            }
        }
        let has: bool = match dependency {
            Dependency::Database => self.has_database,
            Dependency::Upstream => self.has_upstream,
        };
        if has {
            ProbePlan::Probe
        } else {
            ProbePlan::Known(DependencyStatus::unhealthy(dependency.fault_text(), None))
        }
    }

    /// Records a probe that started at `started` and ended at `now`. A success is
    /// remembered; a failure leaves what was remembered alone.
    pub fn record_probe(
        &mut self,
        dependency: Dependency,
        healthy: bool,
        started: Instant,
        now: Instant,
    ) -> (status: DependencyStatus)
        ensures
            ({
                let latency = Some(
                    crate::common::time::clip_u64(now.spec_since(started).millis()),
                );
                if healthy {
                    *final(self) == old(self).with_success(dependency, now) && status.is_ok(latency)
                } else {
                    *final(self) == *old(self) && status.is_fault(dependency.fault(), latency)
                }
            }),
    {
        let latency: Option<u64> = Some(duration_ms(now.since(started)));
        if healthy {
            match dependency {
                Dependency::Database => {
                    self.database_success_at = Some(now);
                },
                Dependency::Upstream => {
                    self.upstream_success_at = Some(now);
                },
            }
            DependencyStatus::healthy(latency)
        } else {
            DependencyStatus::unhealthy(dependency.fault_text(), latency)
        }
    }

    /// What is last known of a dependency, without a probe and however old.
    pub fn cached_status(&self, dependency: Dependency) -> (status: DependencyStatus)
        ensures
            if self.success_at(dependency) is Some {
                status.is_ok(None)
            } else {
                status.is_fault(dependency.fault(), None)
            },
    {
        match self.last_success(dependency) {
            Some(_) => DependencyStatus::healthy(None),
            None => DependencyStatus::unhealthy(dependency.fault_text(), None),
        }
    }

    /// The status of the default route: healthy when some target of it is known to
    /// be usable.
    pub fn default_route_status(usable: Option<bool>) -> (status: DependencyStatus)
        ensures
            if usable == Some(true) {
                status.is_ok(None)
            } else {
                status.is_fault("No usable default-route target"@, None)
            },
    {
        match usable {
            Some(true) => DependencyStatus::healthy(None),
            _ => DependencyStatus::unhealthy("No usable default-route target", None),
        }
    }

    /// Answers a readiness check that meets a draining process: not ready, with
    /// what is last known of each dependency and no probe.
    pub fn draining_response(&self, default_route_usable: Option<bool>, timestamp: String) -> (response:
        ReadinessResponse)
        ensures
            response.status@ == "not_ready"@,
            response.draining,
            response.timestamp == timestamp,
            if self.database_success_at is Some {
                response.dependencies.database.is_ok(None)
            } else {
                response.dependencies.database.is_fault(Dependency::Database.fault(), None)
            },
            if self.upstream_success_at is Some {
                response.dependencies.upstream.is_ok(None)
            } else {
                response.dependencies.upstream.is_fault(Dependency::Upstream.fault(), None)
            },
            if default_route_usable == Some(true) {
                response.dependencies.default_route.is_ok(None)
            } else {
                response.dependencies.default_route.is_fault(
                    "No usable default-route target"@,
                    None,
                )
            },
    {
        ReadinessResponse {
            status: "not_ready".to_owned(),
            timestamp,
            dependencies: ReadinessDependencies {
                database: self.cached_status(Dependency::Database),
                upstream: self.cached_status(Dependency::Upstream),
                default_route: Self::default_route_status(default_route_usable),
            },
            draining: true,
        }
    }
}

/// How a readiness check goes on once it has read the drain state on entry.
#[derive(Clone, Copy, PartialEq, Eq, Structural, Debug)]
pub enum ReadinessPlan {
    /// Answer as draining with what is last known, without a probe.
    AnswerDraining,
    /// Look at every dependency, then read the drain state again.
    ProbeDependencies,
}

/// Decides how a readiness check goes on: a draining process starts no probe.
pub fn plan_readiness(draining: bool) -> (plan: ReadinessPlan)
    ensures
        draining <==> plan is AnswerDraining,
{
    if draining {
        ReadinessPlan::AnswerDraining
    } else {
        ReadinessPlan::ProbeDependencies
    }
}

/// Answers a readiness check once every dependency's status is known and the
/// process's drain state was read last.
///
/// Ready exactly when all three are healthy and the process is not draining: no
/// healthy dependency makes up for another, and a drain that starts during the
/// probes counts.
pub fn readiness_response(
    database: DependencyStatus,
    upstream: DependencyStatus,
    default_route: DependencyStatus,
    draining: bool,
    timestamp: String,
) -> (response: ReadinessResponse)
    ensures
        response.status@ == (if !draining && database.status@ == "healthy"@ && upstream.status@
            == "healthy"@ && default_route.status@ == "healthy"@ {
            "ready"@
        } else {
            "not_ready"@
        }),
        response.timestamp == timestamp,
        response.draining == draining,
        response.dependencies == (ReadinessDependencies { database, upstream, default_route }),
{
    let ready: bool = !draining && database.is_healthy() && upstream.is_healthy()
        && default_route.is_healthy();
    ReadinessResponse {
        status: if ready {
            "ready".to_owned()
        } else {
            "not_ready".to_owned()
        },
        timestamp,
        dependencies: ReadinessDependencies { database, upstream, default_route },
        draining,
    }
}

/// The HTTP status of a readiness answer.
pub fn readiness_status_code(response: &ReadinessResponse) -> (status: u16)
    ensures
        status == (if response.status@ == "ready"@ {
            200
        } else {
            503int
        }),
{
    if same_text(response.status.as_str(), "ready") {
        200
    } else {
        503
    }
}

/// A success is reused for exactly the configured time: a later reading never
/// makes a stale success fresh again, and without a TTL no success is reused.
pub proof fn law_success_cache_expires(
    config: HealthConfig,
    cached_at: Instant,
    now: Instant,
    later: Instant,
)
    requires
        now.nanos <= later.nanos,
    ensures
        !config.fresh(cached_at, now) ==> !config.fresh(cached_at, later),
        config.cache_ttl_secs == 0 ==> !config.fresh(cached_at, now),
{
}

} // verus!
