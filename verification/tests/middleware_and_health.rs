use axum::http::{HeaderMap, HeaderValue};
use gateway::common::admission::{AdmissionError, AdmissionLimiter};
use gateway::common::config::{
    Catalog, PolicyLimits, ProviderSettings, Route, Settings, Target, TargetPricing, VendorKind,
};
use gateway::common::deadline::RequestDeadline;
use gateway::common::http_error::error_envelope;
use gateway::common::names::NameMap;
use gateway::common::number::Float64;
use gateway::common::text::{decimal, header_text, is_all_digits, parse_u32, parse_u64, trim};
use gateway::common::time::{Duration, Instant, SystemTime};
use gateway::executor::error::ExecutorError;
use gateway::health::error::HealthError;
use gateway::health::service::{
    plan_readiness, readiness_response, readiness_status_code, Dependency, DependencyStatus,
    HealthConfig, HealthService, ProbePlan, ReadinessPlan,
};
use gateway::middleware::auth::{presented_api_key, AuthError, PresentedKey};
use gateway::middleware::correlation_id::{
    assign_request_context, client_correlation_id, request_id_from, response_headers,
};
use gateway::AppState;

fn presented(headers: &HeaderMap) -> PresentedKey {
    let values: Vec<Vec<u8>> = headers
        .get_all("x-api-key")
        .iter()
        .map(|value| value.as_bytes().to_vec())
        .collect();
    presented_api_key(&values)
}

#[test]
fn extract_api_key_missing_when_absent() {
    let headers = HeaderMap::new();
    assert!(matches!(presented(&headers), PresentedKey::Missing));
}

#[test]
fn extract_api_key_invalid_for_empty_duplicate_and_comma() {
    let mut headers = HeaderMap::new();
    headers.insert("x-api-key", HeaderValue::from_static(" "));
    assert!(matches!(presented(&headers), PresentedKey::Invalid));

    let mut headers = HeaderMap::new();
    headers.append("x-api-key", HeaderValue::from_static("abc"));
    headers.append("x-api-key", HeaderValue::from_static("abc"));
    assert!(matches!(presented(&headers), PresentedKey::Invalid));

    let mut headers = HeaderMap::new();
    headers.insert("x-api-key", HeaderValue::from_static("one,two"));
    assert!(matches!(presented(&headers), PresentedKey::Invalid));

    let mut headers = HeaderMap::new();
    headers.insert(
        "x-api-key",
        HeaderValue::from_bytes(&[0xff]).expect("opaque"),
    );
    assert!(matches!(presented(&headers), PresentedKey::Invalid));
}

#[test]
fn extract_api_key_value_when_single_token() {
    let mut headers = HeaderMap::new();
    headers.insert("x-api-key", HeaderValue::from_static("opmx_v1_token"));
    match presented(&headers) {
        PresentedKey::Value(value) => assert_eq!(value, "opmx_v1_token"),
        other => panic!("expected value, got header class {}", other.redacted()),
    }
}

#[test]
fn presented_keys_are_never_shown() {
    assert_eq!(PresentedKey::Missing.redacted(), "Missing");
    assert_eq!(PresentedKey::Invalid.redacted(), "Invalid");
    assert_eq!(
        PresentedKey::Value("opmx_v1_token".to_string()).redacted(),
        "Value([redacted])"
    );
}

#[test]
fn unusable_credentials_are_refused_alike() {
    assert!(matches!(
        PresentedKey::Missing.credential(),
        Err(AuthError::InvalidCredentials)
    ));
    assert!(matches!(
        PresentedKey::Invalid.credential(),
        Err(AuthError::InvalidCredentials)
    ));
    assert_eq!(
        PresentedKey::Value("opmx_v1_token".to_string())
            .credential()
            .expect("credential"),
        "opmx_v1_token"
    );
    assert_eq!(AuthError::InvalidCredentials.into_response().status, 401);
    assert_eq!(AuthError::StoreUnavailable.into_response().status, 503);
}

fn start_of_request() -> SystemTime {
    SystemTime {
        secs: 1_700_000_000,
        nanos: 42,
    }
}

#[test]
fn request_ids_come_from_random_bytes_or_from_the_time() {
    let random = [
        0x00, 0x1f, 0x2e, 0x3d, 0x4c, 0x5b, 0x6a, 0x79, 0xff, 0x97, 0xa6, 0xb5, 0xc4, 0xd3, 0xe2,
        0xf1,
    ];
    let id = request_id_from(Some(random), start_of_request());
    assert_eq!(id, "001f2e3d-4c5b-4a79-bf97-a6b5c4d3e2f1");
    assert_eq!(
        id,
        uuid::Builder::from_random_bytes(random).into_uuid().to_string()
    );
    assert_eq!(request_id_from(None, start_of_request()), "1700000000-42");
    assert_eq!(
        request_id_from(None, SystemTime { secs: -1, nanos: 7 }),
        "0-7"
    );
}

#[test]
fn draining_processes_start_no_probe() {
    assert_eq!(plan_readiness(true), ReadinessPlan::AnswerDraining);
    assert_eq!(plan_readiness(false), ReadinessPlan::ProbeDependencies);
}

#[test]
fn test_request_id_generation() {
    let context = assign_request_context(None, start_of_request());
    let headers = response_headers(&context);
    assert_eq!(headers[0].0, "X-Request-ID");
    assert_eq!(headers[0].1, context.request_id);
    let parsed = uuid::Uuid::parse_str(&context.request_id).expect("a UUID");
    assert_eq!(parsed.get_version_num(), 4);
    assert_eq!(parsed.to_string(), context.request_id);
    assert_ne!(assign_request_context(None, start_of_request()).request_id, context.request_id);
}

#[test]
fn test_client_correlation_id_extraction() {
    let context = assign_request_context(Some(b"client-abc-123"), start_of_request());
    let headers = response_headers(&context);
    assert_eq!(headers.len(), 2);
    assert_eq!(headers[1].0, "X-Correlation-ID");
    assert_eq!(headers[1].1, "client-abc-123");
}

#[test]
fn test_client_correlation_id_absence() {
    let headers = response_headers(&assign_request_context(None, start_of_request()));
    assert_eq!(headers.len(), 1);
    assert_eq!(headers[0].0, "X-Request-ID");
}

#[test]
fn test_invalid_correlation_id_too_long() {
    let long_id = "a".repeat(300);
    let headers = response_headers(&assign_request_context(
        Some(long_id.as_bytes()),
        start_of_request(),
    ));
    assert_eq!(headers.len(), 1);
    assert_eq!(headers[0].0, "X-Request-ID");
}

#[test]
fn test_empty_correlation_id() {
    let headers = response_headers(&assign_request_context(Some(b""), start_of_request()));
    assert_eq!(headers.len(), 1);
    assert_eq!(headers[0].0, "X-Request-ID");
}

#[test]
fn test_request_context_injection() {
    let context = assign_request_context(Some(b"test-correlation-id"), start_of_request());
    assert!(!context.request_id.is_empty());
    assert_eq!(
        context.client_correlation_id,
        Some("test-correlation-id".to_string())
    );
}

#[test]
fn correlation_ids_are_visible_ascii_up_to_the_limit() {
    let longest = vec![b'a'; 256];
    assert!(client_correlation_id(Some(&longest)).is_some());
    assert!(client_correlation_id(Some(&[b'a'; 257])).is_none());
    assert!(client_correlation_id(Some("é".as_bytes())).is_none());
    assert!(client_correlation_id(Some(b"a\x01b")).is_none());
    assert_eq!(
        client_correlation_id(Some(b"a\tb c")).expect("tab is readable"),
        "a\tb c"
    );
    assert_eq!(header_text(b"plain"), Some("plain"));
    assert_eq!(header_text(&[0x7f]), None);
}

#[test]
fn error_envelope_names_the_request() {
    let response = ExecutorError::DeadlineExceeded.into_response();
    let document = error_envelope(&response, "req-1");
    assert_eq!(
        document,
        serde_json::from_str::<serde_json::Value>(
            r#"{"error":{"code":"DEADLINE_EXCEEDED","message":"The request deadline was exceeded","request_id":"req-1"}}"#
        )
        .expect("envelope")
    );
}

#[test]
fn deadline_counts_down_to_zero() {
    let start = Instant { nanos: 5 };
    let deadline = RequestDeadline::from_timeout(Duration::from_millis(10), start);
    assert!(!deadline.is_expired(start));
    assert_eq!(deadline.remaining(start), Duration::from_millis(10));
    assert_eq!(
        deadline.cap(Duration::from_millis(3), start),
        Some(Duration::from_millis(3))
    );
    assert_eq!(
        deadline.cap(Duration::from_secs(3), start),
        Some(Duration::from_millis(10))
    );
    let end = start.plus(Duration::from_millis(10));
    assert!(deadline.is_expired(end));
    assert_eq!(deadline.cap(Duration::from_secs(3), end), None);
    assert!(deadline.remaining(end.plus(Duration::from_secs(1))).is_zero());
}

#[test]
fn admission_is_bounded_and_stops_while_draining() {
    let mut limiter = AdmissionLimiter::new(2);
    assert!(limiter.try_acquire().is_ok());
    assert!(limiter.try_acquire().is_ok());
    assert_eq!(limiter.try_acquire(), Err(AdmissionError::Overloaded));
    limiter.release();
    assert!(limiter.try_acquire().is_ok());
    limiter.begin_drain();
    limiter.release();
    assert!(limiter.is_draining());
    assert_eq!(limiter.try_acquire(), Err(AdmissionError::Draining));
    assert_eq!(AdmissionError::Overloaded.into_response().status, 429);
    assert_eq!(AdmissionError::Overloaded.retry_after_secs(), Some(1));
    assert_eq!(AdmissionError::Draining.into_response().status, 503);
    assert_eq!(AdmissionError::Draining.retry_after_secs(), None);
}

#[test]
fn numbers_are_read_as_the_standard_library_reads_them() {
    for text in ["0", "007", "+5", "18446744073709551615", "18446744073709551616", "", "+", "-1", " 1", "1 ", "1_0", "٣"] {
        assert_eq!(parse_u64(text), text.parse::<u64>().ok(), "{text}");
        assert_eq!(parse_u32(text), text.parse::<u32>().ok(), "{text}");
    }
    for n in [0, 9, 10, 1_234, u64::MAX] {
        assert_eq!(decimal(n), n.to_string());
    }
    assert!(is_all_digits("0123456789"));
    assert!(!is_all_digits("12a"));
    for text in ["", " ", " a b\t", "\u{a0}x\u{3000}", "\u{200b}", "\u{85}é\r\n"] {
        assert_eq!(trim(text), text.trim(), "{text:?}");
    }
}

fn fresh(config: HealthConfig) -> HealthService {
    HealthService::with_dependencies(config, Instant { nanos: 0 })
}

#[test]
fn liveness_reports_version_and_uptime() {
    let service = HealthService::new(HealthConfig::new(2, 30), Instant { nanos: 0 });
    for seconds in 0..5 {
        let response = service
            .check_health(
                "2026-01-01T00:00:00Z".to_string(),
                "1.2.3".to_string(),
                Instant {
                    nanos: seconds * 1_000_000_000 + 999_999_999,
                },
            )
            .expect("liveness");
        assert_eq!(response.status, "healthy");
        assert_eq!(response.version, Some("1.2.3".to_string()));
        assert_eq!(response.uptime_seconds, Some(seconds as u64));
        assert_eq!(response.timestamp, "2026-01-01T00:00:00Z");
    }
    assert_eq!(
        HealthError::SystemStatusCheckFailed.into_response().status,
        503
    );
}

#[test]
fn health_variables_have_documented_fallbacks() {
    assert_eq!(HealthConfig::from_vars(None, None).timeout, 2);
    assert_eq!(
        HealthConfig::from_vars(Some("5".to_string()), None).timeout,
        5
    );
    assert_eq!(
        HealthConfig::from_vars(Some("invalid".to_string()), None).timeout,
        2
    );
    assert_eq!(HealthConfig::new(0, 1).probe_timeout_secs(), 1);
    assert_eq!(HealthConfig::new(3, 1).probe_timeout(), Duration::from_secs(3));
    assert_eq!(HealthConfig::new(3, 4).cache_ttl(), Duration::from_secs(4));
}

#[test]
fn successes_are_reused_until_they_expire_and_failures_never() {
    let mut service = fresh(HealthConfig::new(2, 1));
    let start = Instant { nanos: 1_000 };
    assert!(matches!(
        service.plan_probe(Dependency::Upstream, start),
        ProbePlan::Probe
    ));
    let failed = service.record_probe(
        Dependency::Upstream,
        false,
        start,
        start.plus(Duration::from_millis(7)),
    );
    assert!(!failed.is_healthy());
    assert_eq!(failed.latency_ms, Some(7));
    assert!(matches!(
        service.plan_probe(Dependency::Upstream, start),
        ProbePlan::Probe
    ));
    let passed = service.record_probe(Dependency::Upstream, true, start, start);
    assert!(passed.is_healthy());
    match service.plan_probe(Dependency::Upstream, start.plus(Duration { nanos: 999_999_999 })) {
        ProbePlan::Known(status) => assert!(status.is_healthy()),
        ProbePlan::Probe => panic!("a fresh success is reused"),
    }
    assert!(matches!(
        service.plan_probe(Dependency::Upstream, start.plus(Duration::from_secs(1))),
        ProbePlan::Probe
    ));
    assert!(matches!(
        service.plan_probe(Dependency::Database, start),
        ProbePlan::Probe
    ));
}

#[test]
fn readiness_needs_every_dependency() {
    let healthy = || DependencyStatus::healthy(Some(1));
    let down = || DependencyStatus::unhealthy("down", None);
    let route = || HealthService::default_route_status(Some(true));
    let at = || "t".to_string();
    let ready = readiness_response(healthy(), healthy(), route(), false, at());
    assert_eq!(ready.status, "ready");
    assert_eq!(readiness_status_code(&ready), 200);
    for response in [
        readiness_response(down(), healthy(), route(), false, at()),
        readiness_response(healthy(), down(), route(), false, at()),
        readiness_response(
            healthy(),
            healthy(),
            HealthService::default_route_status(Some(false)),
            false,
            at(),
        ),
        readiness_response(
            healthy(),
            healthy(),
            HealthService::default_route_status(None),
            false,
            at(),
        ),
        readiness_response(healthy(), healthy(), route(), true, at()),
    ] {
        assert_eq!(response.status, "not_ready");
        assert_eq!(readiness_status_code(&response), 503);
    }
}

#[test]
fn draining_reports_what_is_last_known() {
    let mut service = fresh(HealthConfig::new(2, 0));
    let now = Instant { nanos: 0 };
    service.record_probe(Dependency::Database, true, now, now);
    let response = service.draining_response(Some(true), "t".to_string());
    assert!(response.draining);
    assert_eq!(response.status, "not_ready");
    assert!(response.dependencies.database.is_healthy());
    assert!(!response.dependencies.upstream.is_healthy());
    assert!(response.dependencies.default_route.is_healthy());
}

#[test]
fn a_service_without_dependencies_is_live_but_not_ready() {
    let service = HealthService::new(HealthConfig::new(2, 30), Instant { nanos: 0 });
    for dependency in [Dependency::Database, Dependency::Upstream] {
        match service.plan_probe(dependency, Instant { nanos: 0 }) {
            ProbePlan::Known(status) => assert!(!status.is_healthy()),
            ProbePlan::Probe => panic!("nothing to probe"),
        }
    }
    let upstream_only = HealthService::with_executor(HealthConfig::new(2, 30), Instant { nanos: 0 });
    assert!(matches!(
        upstream_only.plan_probe(Dependency::Upstream, Instant { nanos: 0 }),
        ProbePlan::Probe
    ));
}

#[test]
fn state_is_built_from_settings() {
    let settings = |api_key: &str| {
        let mut routes = NameMap::new();
        routes.insert(
            "default".to_string(),
            Route {
                primary: "primary".to_string(),
                fallbacks: vec![],
            },
        );
        let mut targets = NameMap::new();
        targets.insert(
            "primary".to_string(),
            Target {
                vendor: VendorKind::Openai,
                model: "example-chat-model".to_string(),
                max_output_tokens: 512,
                pricing: TargetPricing {
                    input_per_million: Float64 {
                        bits: 1.0f64.to_bits(),
                    },
                    output_per_million: Float64 {
                        bits: 2.0f64.to_bits(),
                    },
                },
            },
        );
        Settings {
            catalog: Catalog {
                default_route: "default".to_string(),
                routes,
                targets,
            },
            provider: ProviderSettings {
                api_key: api_key.to_string(),
                base_url: "http://127.0.0.1:9/v1".to_string(),
            },
            limits: PolicyLimits {
                circuit_failure_threshold: 7,
                circuit_cooldown_ms: 12_345,
                ..PolicyLimits::documented_defaults()
            },
        }
    };
    let now = Instant { nanos: 0 };
    let state = match AppState::from_settings(
        settings("test-dummy-openai-key"),
        HealthConfig::new(2, 30),
        now,
    ) {
        Ok(state) => state,
        Err(error) => panic!("expected a state, got {error:?}"),
    };
    assert_eq!(state.executor_service.vendor_count(), 1);
    assert_eq!(state.executor_service.config.circuit_failure_threshold, 7);
    assert_eq!(state.executor_service.config.circuit_cooldown_ms, 12_345);
    assert!(state
        .executor_service
        .default_route_has_usable_target(&state.settings.catalog));
    assert!(!state.admission.is_draining());
    assert!(matches!(
        AppState::from_settings(settings("  "), HealthConfig::new(2, 30), now),
        Err(ExecutorError::InvalidConfiguration)
    ));
}

#[test]
fn name_maps_keep_their_first_order() {
    let mut map = NameMap::new();
    map.insert("b".to_string(), 1);
    map.insert("a".to_string(), 2);
    map.insert("b".to_string(), 3);
    assert_eq!(map.len(), 2);
    assert_eq!(map.get("b"), Some(&3));
    assert_eq!(map.get("c"), None);
    assert!(map.contains_key("a"));
    assert_eq!(map.entry(0), ("b", &3));
    assert_eq!(map.entry(1), ("a", &2));
}

#[test]
fn float_checks_agree_with_the_hardware() {
    let samples = [
        0.0,
        -0.0,
        1.0,
        -1.0,
        2.0,
        2.0000000000000004,
        f64::MIN_POSITIVE,
        -f64::MIN_POSITIVE,
        5e-324,
        f64::MAX,
        f64::INFINITY,
        f64::NEG_INFINITY,
        f64::NAN,
    ];
    for value in samples {
        let held = Float64 {
            bits: value.to_bits(),
        };
        assert_eq!(
            held.is_finite_nonnegative(),
            value.is_finite() && value >= 0.0,
            "{value}"
        );
        assert_eq!(
            held.is_within(Float64 {
                bits: 2.0f64.to_bits()
            }),
            (0.0..=2.0).contains(&value),
            "{value}"
        );
    }
}

fn liveness(service: &HealthService, now: Instant) -> gateway::health::service::HealthResponse {
    service
        .check_health(
            chrono::Utc::now().to_rfc3339(),
            "0.1.0".to_string(),
            now,
        )
        .expect("liveness")
}

/// Runs a readiness check whose database and route are healthy and whose
/// upstream probe, if one is made, ends as given.
fn readiness(
    service: &mut HealthService,
    upstream_healthy: bool,
    now: Instant,
) -> gateway::health::service::ReadinessResponse {
    let upstream = match service.plan_probe(Dependency::Upstream, now) {
        ProbePlan::Known(status) => status,
        ProbePlan::Probe => service.record_probe(Dependency::Upstream, upstream_healthy, now, now),
    };
    let database = match service.plan_probe(Dependency::Database, now) {
        ProbePlan::Known(status) => status,
        ProbePlan::Probe => service.record_probe(Dependency::Database, true, now, now),
    };
    readiness_response(
        database,
        upstream,
        HealthService::default_route_status(Some(true)),
        false,
        chrono::Utc::now().to_rfc3339(),
    )
}

#[test]
fn test_check_health_returns_version_and_uptime() {
    let start = Instant { nanos: 0 };
    let service = HealthService::new(HealthConfig::from_vars(None, None), start);
    let result = liveness(&service, start);
    assert_eq!(result.status, "healthy");
    assert_eq!(result.version, Some("0.1.0".to_string()));
    assert!(result.uptime_seconds.is_some());
}

#[test]
fn test_check_health_always_returns_healthy() {
    let start = Instant { nanos: 0 };
    let service = HealthService::new(HealthConfig::from_vars(None, None), start);
    for _ in 0..5 {
        assert_eq!(liveness(&service, start).status, "healthy");
    }
}

#[test]
fn test_check_health_timestamp_format() {
    let start = Instant { nanos: 0 };
    let service = HealthService::new(HealthConfig::from_vars(None, None), start);
    let result = liveness(&service, start);
    assert!(result.timestamp.contains("T"));
    assert!(result.timestamp.contains("+") || result.timestamp.contains("Z"));
}

#[test]
fn test_check_readiness_timestamp_format() {
    let mut service = fresh(HealthConfig::from_vars(None, None));
    let result = readiness(&mut service, true, Instant { nanos: 0 });
    assert!(result.timestamp.contains("T"));
    assert!(result.timestamp.contains("+") || result.timestamp.contains("Z"));
}

#[test]
fn test_check_readiness_with_executor_service_healthy() {
    let mut service = fresh(HealthConfig::from_vars(None, None));
    let result = readiness(&mut service, true, Instant { nanos: 0 });
    assert_eq!(result.status, "ready");
    assert_eq!(result.dependencies.upstream.status, "healthy");
    assert!(result.dependencies.upstream.latency_ms.is_some());
    assert!(result.dependencies.upstream.error.is_none());
}

#[test]
fn unreachable_upstream_is_not_ready_and_says_no_more() {
    let mut service = fresh(HealthConfig::from_vars(None, None));
    let result = readiness(&mut service, false, Instant { nanos: 0 });
    assert_eq!(result.status, "not_ready");
    assert_eq!(readiness_status_code(&result), 503);
    assert_eq!(result.dependencies.upstream.status, "unhealthy");
    assert!(result.dependencies.upstream.latency_ms.is_some());
    assert_eq!(
        result.dependencies.upstream.error,
        Some("Upstream provider unreachable".to_string())
    );
}

#[test]
fn test_cache_hit_returns_cached_result() {
    let mut service = fresh(HealthConfig::from_vars(None, None));
    let start = Instant { nanos: 0 };
    let result1 = readiness(&mut service, true, start);
    assert_eq!(result1.status, "ready");
    let result2 = readiness(&mut service, false, start.plus(Duration::from_secs(1)));
    assert_eq!(result2.status, "ready", "the cached success is reused");
    assert_eq!(
        result1.dependencies.upstream.status,
        result2.dependencies.upstream.status
    );
}

#[test]
fn test_cache_miss_after_ttl_expiry() {
    let mut service = fresh(HealthConfig::from_vars(None, Some("1".to_string())));
    let start = Instant { nanos: 0 };
    let result1 = readiness(&mut service, true, start);
    assert_eq!(result1.status, "ready");
    let later = start.plus(Duration::from_millis(1500));
    assert!(matches!(
        service.plan_probe(Dependency::Upstream, later),
        ProbePlan::Probe
    ));
    let result2 = readiness(&mut service, true, later);
    assert_eq!(result2.status, "ready");
}

#[test]
fn test_failed_health_check_not_cached() {
    let mut service = fresh(HealthConfig::from_vars(None, None));
    let start = Instant { nanos: 0 };
    let result1 = readiness(&mut service, false, start);
    assert_eq!(result1.status, "not_ready");
    let result2 = readiness(&mut service, true, start);
    assert_eq!(result2.status, "ready");
}

#[test]
fn test_health_config_from_env_default() {
    let config = HealthConfig::from_vars(None, None);
    assert_eq!(config.timeout, 2);
}

#[test]
fn test_health_config_from_env_custom() {
    let config = HealthConfig::from_vars(Some("5".to_string()), None);
    assert_eq!(config.timeout, 5);
}

#[test]
fn test_health_config_from_env_invalid() {
    let config = HealthConfig::from_vars(Some("invalid".to_string()), None);
    assert_eq!(config.timeout, 2);
}
