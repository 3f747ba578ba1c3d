use gateway::common::config::{
    Catalog, PolicyLimits, Route, Target, TargetPricing, VendorKind,
};
use gateway::common::http_error::error_envelope;
use gateway::common::json::Number;
use gateway::common::names::NameMap;
use gateway::common::number::Float64;
use gateway::executor::config::OpenAIConfig;
use gateway::executor::error::ExecutorError;
use gateway::executor::models::ExecutionResult;
use gateway::executor::repository::ExecutorRepository;
use gateway::executor::service::ExecutorService;
use gateway::executor::vendors::openai::OpenAIVendor;
use gateway::ingress::error::IngressError;
use gateway::ingress::handler::accept_request;
use gateway::ingress::routing::resolve_route;
use gateway::ingress::service::{
    answer_request, generation_payload, plan_request, GenerationParameters, IngressRequest,
    IngressService,
};
use gateway::ingress::validate::parse_ingress_request;
use gateway::middleware::auth::ApiKeyKind;
use serde_json::Value;

fn float(value: f64) -> Float64 {
    Float64 {
        bits: value.to_bits(),
    }
}

fn json(text: &str) -> Value {
    serde_json::from_str(text).expect("test JSON")
}

fn target(model: &str, max_output_tokens: u32, input: f64, output: f64) -> Target {
    Target {
        vendor: VendorKind::Openai,
        model: model.to_string(),
        max_output_tokens,
        pricing: TargetPricing {
            input_per_million: float(input),
            output_per_million: float(output),
        },
    }
}

fn catalog() -> Catalog {
    let mut routes = NameMap::new();
    routes.insert(
        "default".to_string(),
        Route {
            primary: "primary".to_string(),
            fallbacks: vec!["secondary".to_string()],
        },
    );
    routes.insert(
        "fast".to_string(),
        Route {
            primary: "secondary".to_string(),
            fallbacks: vec![],
        },
    );
    let mut targets = NameMap::new();
    targets.insert(
        "primary".to_string(),
        target("example-chat-model", 512, 1.0, 2.0),
    );
    targets.insert(
        "secondary".to_string(),
        target("example-chat-model-mini", 256, 0.25, 0.5),
    );
    Catalog {
        default_route: "default".to_string(),
        routes,
        targets,
    }
}

#[test]
fn omitted_route_selects_default_primary_and_configured_fallbacks() {
    let resolved = resolve_route(&catalog(), None, None).expect("default route");
    assert_eq!(resolved.route_id, "default");
    assert_eq!(resolved.target_id, "primary");
    assert_eq!(resolved.plan.vendor_id, "openai");
    assert_eq!(resolved.plan.target_id, "primary");
    assert_eq!(resolved.plan.model_id, "example-chat-model");
    assert_eq!(resolved.max_output_tokens, 512);
    assert_eq!(resolved.plan.fallback_plans.len(), 1);
    assert_eq!(resolved.plan.fallback_plans[0].target_id, "secondary");
    assert_eq!(
        resolved.plan.fallback_plans[0].model_id,
        "example-chat-model-mini"
    );
    assert_eq!(resolved.plan.fallback_plans[0].max_output_tokens, 256);
    assert!(resolved.plan.fallback_plans[0].fallback_plans.is_empty());
}

#[test]
fn named_route_selects_its_configured_primary() {
    let resolved = resolve_route(&catalog(), Some("fast"), None).expect("named route");
    assert_eq!(resolved.route_id, "fast");
    assert_eq!(resolved.target_id, "secondary");
    assert_eq!(resolved.plan.target_id, "secondary");
    assert_eq!(resolved.plan.model_id, "example-chat-model-mini");
    assert_eq!(resolved.max_output_tokens, 256);
    assert!(resolved.plan.fallback_plans.is_empty());
}

#[test]
fn allow_fallback_false_omits_configured_fallbacks() {
    let resolved = resolve_route(&catalog(), None, Some(false)).expect("opt-out");
    assert_eq!(resolved.plan.target_id, "primary");
    assert_eq!(resolved.plan.model_id, "example-chat-model");
    assert!(resolved.plan.fallback_plans.is_empty());
}

#[test]
fn allow_fallback_true_keeps_configured_fallbacks() {
    let resolved = resolve_route(&catalog(), None, Some(true)).expect("opt-in");
    assert_eq!(resolved.plan.fallback_plans.len(), 1);
}

#[test]
fn same_requested_model_targets_keep_distinct_plan_identity() {
    let mut catalog = catalog();
    let shared_model = catalog
        .targets
        .get("primary")
        .expect("primary target")
        .model
        .clone();
    catalog.targets.insert(
        "same-model-alt".to_string(),
        target(&shared_model, 512, 10.0, 20.0),
    );
    catalog.routes.insert(
        "same-model-chain".to_string(),
        Route {
            primary: "primary".to_string(),
            fallbacks: vec!["same-model-alt".to_string()],
        },
    );

    let resolved =
        resolve_route(&catalog, Some("same-model-chain"), None).expect("same-model chain");
    assert_eq!(resolved.plan.target_id, "primary");
    assert_eq!(resolved.plan.model_id, shared_model);
    assert_eq!(resolved.plan.fallback_plans.len(), 1);
    assert_eq!(resolved.plan.fallback_plans[0].target_id, "same-model-alt");
    assert_eq!(resolved.plan.fallback_plans[0].model_id, shared_model);
    assert_ne!(
        resolved.plan.target_id,
        resolved.plan.fallback_plans[0].target_id
    );
}

#[test]
fn unknown_or_blank_route_is_invalid() {
    for name in ["not-a-configured-route", "", " fast ", "default "] {
        match resolve_route(&catalog(), Some(name), None) {
            Err(IngressError::InvalidRequest(message)) => {
                assert_eq!(message, "Unknown route");
            }
            other => panic!("expected unknown route, got {other:?}"),
        }
    }
}

#[test]
fn broken_catalog_is_an_orchestration_failure() {
    let mut catalog = catalog();
    catalog.routes.insert(
        "default".to_string(),
        Route {
            primary: "primary".to_string(),
            fallbacks: vec!["no-such-target".to_string()],
        },
    );
    assert!(matches!(
        resolve_route(&catalog, None, None),
        Err(IngressError::RequestOrchestrationFailed)
    ));
    assert!(resolve_route(&catalog, None, Some(false)).is_ok());
    catalog.default_route = "no-such-route".to_string();
    assert!(matches!(
        resolve_route(&catalog, None, None),
        Err(IngressError::RequestOrchestrationFailed)
    ));
}

fn limits_with_prompt(max_prompt_chars: u64) -> PolicyLimits {
    let mut limits = PolicyLimits::documented_defaults();
    limits.max_prompt_chars = max_prompt_chars;
    limits
}

fn parse(body: &str) -> Result<IngressRequest, IngressError> {
    parse_ingress_request(&json(body), &PolicyLimits::documented_defaults())
}

fn invalid(body: &str) -> String {
    match parse(body) {
        Err(IngressError::InvalidRequest(message)) => message,
        other => panic!("expected invalid request, got success={}", other.is_ok()),
    }
}

#[test]
fn prompt_and_metadata_use_documented_defaults() {
    let request =
        parse(r#"{"prompt": "hello", "metadata": {}}"#).unwrap_or_else(|_| panic!("valid default request"));
    assert_eq!(request.prompt, "hello");
    assert_eq!(request.metadata, json("{}"));
    assert_eq!(request.route, None);
    assert_eq!(request.allow_fallback, None);
    assert!(request.parameters.temperature.is_none());
    assert!(request.parameters.top_p.is_none());
    assert!(request.parameters.max_tokens.is_none());
}

#[test]
fn accepted_numeric_endpoints_preserve_json_numbers() {
    let request = parse(
        r#"{
            "prompt": "hello",
            "metadata": {"trace": true},
            "parameters": {
                "temperature": 0.0,
                "top_p": 1.0,
                "max_tokens": 32
            }
        }"#,
    )
    .unwrap_or_else(|_| panic!("valid endpoints"));
    assert_eq!(
        request.parameters.temperature.as_ref().map(Number::to_value),
        Some(json("0.0"))
    );
    assert_eq!(
        request.parameters.top_p.as_ref().map(Number::to_value),
        Some(json("1.0"))
    );
    assert_eq!(request.parameters.max_tokens, Some(32));
}

#[test]
fn original_prompt_bounds_reject_padding_and_keep_accepted_text() {
    let limits = limits_with_prompt(8);
    let accepted =
        parse_ingress_request(&json(r#"{ "prompt": " ab cd ", "metadata": {} }"#), &limits)
            .unwrap_or_else(|_| panic!("padded-but-in-bound prompt"));
    assert_eq!(accepted.prompt, " ab cd ");

    match parse_ingress_request(&json(r#"{ "prompt": "abcdefgh ", "metadata": {} }"#), &limits) {
        Err(IngressError::InvalidRequest(message)) => {
            assert!(message.contains("characters"));
        }
        other => panic!(
            "expected padded over-limit failure, got success={}",
            other.is_ok()
        ),
    }

    match parse_ingress_request(&json(r#"{ "prompt": "ééééé", "metadata": {} }"#), &limits) {
        Err(IngressError::InvalidRequest(message)) => {
            assert!(message.contains("bytes"));
        }
        other => panic!("expected over-byte failure, got success={}", other.is_ok()),
    }
}

#[test]
fn unknown_and_unsupported_controls_are_rejected() {
    assert_eq!(
        invalid(r#"{ "prompt": "hello", "metadata": {}, "model": "x" }"#),
        "unknown control"
    );
    assert_eq!(
        invalid(r#"{ "prompt": "hello", "metadata": {}, "stream": true }"#),
        "stream is not supported"
    );
    assert_eq!(
        invalid(r#"{ "prompt": "hello", "metadata": {}, "rewrite": true }"#),
        "rewrite is not supported"
    );
    assert_eq!(
        invalid(r#"{ "prompt": "hello", "metadata": {}, "parameters": { "n": 1 } }"#),
        "unknown parameter"
    );
}

#[test]
fn wrong_types_and_ranges_are_rejected() {
    assert_eq!(invalid(r#"{ "metadata": {} }"#), "prompt is required");
    assert_eq!(invalid(r#"{ "prompt": "hello" }"#), "metadata is required");
    assert_eq!(
        invalid(r#"{ "prompt": 1, "metadata": {} }"#),
        "prompt must be a string"
    );
    assert_eq!(
        invalid(r#"{ "prompt": " \n", "metadata": {} }"#),
        "Prompt cannot be empty"
    );
    assert_eq!(
        invalid(r#"{ "prompt": "hello", "metadata": {}, "route": 1 }"#),
        "route must be a string"
    );
    assert_eq!(
        invalid(r#"{ "prompt": "hello", "metadata": {}, "allow_fallback": "false" }"#),
        "allow_fallback must be a boolean"
    );
    assert_eq!(
        invalid(r#"{ "prompt": "hello", "metadata": {}, "parameters": { "temperature": "0.5" } }"#),
        "temperature must be a number"
    );
    assert_eq!(
        invalid(r#"{ "prompt": "hello", "metadata": {}, "parameters": { "temperature": 2.1 } }"#),
        "temperature must be between 0.0 and 2.0"
    );
    assert_eq!(
        invalid(r#"{ "prompt": "hello", "metadata": {}, "parameters": { "top_p": true } }"#),
        "top_p must be a number"
    );
    assert_eq!(
        invalid(r#"{ "prompt": "hello", "metadata": {}, "parameters": { "max_tokens": 0 } }"#),
        "max_tokens must be a positive integer"
    );
}

#[test]
fn sampling_ranges_include_their_ends() {
    for accepted in ["0", "2", "2.0", "-0.0", "1e0"] {
        assert!(parse(&format!(
            r#"{{ "prompt": "hello", "metadata": {{}}, "parameters": {{ "temperature": {accepted} }} }}"#
        ))
        .is_ok());
    }
    for refused in ["-1", "3", "-0.1", "2.0000000000000004", "18446744073709551615"] {
        assert_eq!(
            invalid(&format!(
                r#"{{ "prompt": "hello", "metadata": {{}}, "parameters": {{ "temperature": {refused} }} }}"#
            )),
            "temperature must be between 0.0 and 2.0"
        );
    }
    assert_eq!(
        invalid(r#"{ "prompt": "hello", "metadata": {}, "parameters": { "top_p": 1.1 } }"#),
        "top_p must be between 0.0 and 1.0"
    );
}

#[test]
fn fractional_max_tokens_is_rejected() {
    assert_eq!(
        invalid(r#"{"prompt":"hello","metadata":{},"parameters":{"max_tokens":1.5}}"#),
        "max_tokens must be a positive integer"
    );
}

#[test]
fn object_key_order_does_not_affect_required_fields() {
    let mut object = serde_json::Map::new();
    object.insert("metadata".to_string(), json("{}"));
    object.insert("prompt".to_string(), json(r#""hello""#));
    let request = parse_ingress_request(
        &Value::Object(object),
        &PolicyLimits::documented_defaults(),
    )
    .unwrap_or_else(|_| panic!("required fields"));
    assert_eq!(request.prompt, "hello");
}

#[test]
fn metadata_serialized_byte_bound_is_inclusive() {
    let mut limits = PolicyLimits::documented_defaults();
    limits.max_metadata_bytes = 8;
    let exact = json(r#"{ "k": "" }"#);
    assert_eq!(serde_json::to_vec(&exact).expect("exact").len(), 8);
    assert!(parse_ingress_request(
        &json(r#"{ "prompt": "hello", "metadata": { "k": "" } }"#),
        &limits
    )
    .is_ok());

    let over = json(r#"{ "k": "a" }"#);
    assert!(serde_json::to_vec(&over).expect("over").len() > 8);
    match parse_ingress_request(
        &json(r#"{ "prompt": "hello", "metadata": { "k": "a" } }"#),
        &limits,
    ) {
        Err(IngressError::InvalidRequest(message)) => {
            assert!(message.contains("Metadata exceeds maximum size of 8 bytes"));
        }
        other => panic!(
            "expected over-limit metadata failure, got success={}",
            other.is_ok()
        ),
    }
}

#[test]
fn documented_prompt_and_metadata_limits_apply() {
    let long_prompt = "a".repeat(4001);
    assert!(
        invalid(&format!(r#"{{ "prompt": "{long_prompt}", "metadata": {{}} }}"#))
            .contains("Prompt exceeds maximum length")
    );
    let largest = "a".repeat(4000);
    assert!(parse(&format!(r#"{{ "prompt": "{largest}", "metadata": {{}} }}"#)).is_ok());
    let large_value = "x".repeat(1_200);
    assert!(invalid(&format!(
        r#"{{ "prompt": "Hello", "metadata": {{ "blob": "{large_value}" }} }}"#
    ))
    .contains("Metadata exceeds maximum size"));
}

#[test]
fn only_inference_keys_may_generate() {
    let body = json(r#"{ "prompt": "Hello", "metadata": {} }"#);
    let limits = PolicyLimits::documented_defaults();
    match accept_request(ApiKeyKind::Management, &body, &limits) {
        Err(error) => assert_eq!(error.into_response().status, 403),
        Ok(_) => panic!("management keys must not generate"),
    }
    assert!(accept_request(ApiKeyKind::Inference, &body, &limits).is_ok());
}

fn request(prompt: &str, route: Option<&str>, max_tokens: Option<u32>) -> IngressRequest {
    IngressRequest {
        prompt: prompt.to_string(),
        metadata: json(r#"{ "rewrite": false, "conversation_id": "ignored" }"#),
        route: route.map(|name| name.to_string()),
        allow_fallback: Some(false),
        parameters: GenerationParameters {
            max_tokens,
            ..GenerationParameters::default()
        },
    }
}

#[test]
fn named_route_uses_configured_primary_model() {
    let planned = match plan_request(&catalog(), &request("Named route", Some("fast"), None)) {
        Ok(planned) => planned,
        Err(error) => panic!("named route should succeed, got {error:?}"),
    };
    assert_eq!(planned.resolved.plan.model_id, "example-chat-model-mini");
    assert_eq!(planned.payload["max_tokens"], json("256"));
}

#[test]
fn unknown_route_fails_before_execution() {
    match plan_request(&catalog(), &request("Unknown route", Some("missing"), None)) {
        Err(IngressError::InvalidRequest(message)) => {
            assert_eq!(message, "Unknown route");
        }
        _ => panic!("expected unknown route"),
    }
}

#[test]
fn max_tokens_above_primary_cap_fails_before_execution() {
    assert!(plan_request(&catalog(), &request("enough", None, Some(512))).is_ok());
    match plan_request(&catalog(), &request("too many tokens", None, Some(513))) {
        Err(IngressError::InvalidRequest(message)) => {
            assert!(message.contains("max_output_tokens"));
        }
        other => panic!(
            "expected primary cap rejection, got success={}",
            other.is_ok()
        ),
    }
}

#[test]
fn payload_carries_the_prompt_and_nothing_of_the_metadata() {
    let mut asked = request("only this prompt", None, Some(64));
    assert!(Number::from_value(json(r#""0.25""#)).is_none());
    asked.parameters.temperature = Number::from_value(json("0.25"));
    asked.parameters.top_p = Number::from_value(json("1"));
    let planned = match plan_request(&catalog(), &asked) {
        Ok(planned) => planned,
        Err(error) => panic!("expected a plan, got {error:?}"),
    };
    assert_eq!(
        planned.payload,
        json(
            r#"{"messages":[{"role":"user","content":"only this prompt"}],"temperature":0.25,"top_p":1,"max_tokens":64}"#
        )
    );
    let params = ExecutorService::extract_params(&planned.payload).expect("readable payload");
    assert_eq!(params.messages.len(), 1);
    assert_eq!(params.messages[0].content, "only this prompt");
    assert_eq!(params.max_tokens, Some(64));
    assert_eq!(params.temperature, Some(float(0.25)));
    let bare = generation_payload("p", &GenerationParameters::default(), 7);
    assert_eq!(
        bare,
        json(r#"{"messages":[{"role":"user","content":"p"}],"max_tokens":7}"#)
    );
}

#[test]
fn answers_keep_what_the_provider_reported() {
    let answer = answer_request(
        Ok(ExecutionResult {
            content: "Mock ingress response".to_string(),
            role: "assistant".to_string(),
            model_used: "example-chat-model".to_string(),
            prompt_tokens: 15,
            completion_tokens: 25,
            total_cost: float(0.001),
            finish_reason: "stop".to_string(),
        }),
        12,
    )
    .expect("answer");
    assert_eq!(answer.response.role, "assistant");
    assert_eq!(answer.response.content, "Mock ingress response");
    assert_eq!(answer.response.finish_reason, Some("stop".to_string()));
    assert_eq!(answer.model_used, "example-chat-model");
    assert_eq!(answer.cost, float(0.001));
    assert_eq!(answer.usage.prompt_tokens, 15);
    assert_eq!(answer.usage.completion_tokens, 25);
    assert_eq!(answer.processing_time_ms, 12);

    match answer_request(
        Err(ExecutorError::UnsupportedModel(
            "openai".to_string(),
            "example-chat-model".to_string(),
        )),
        12,
    ) {
        Err(IngressError::ExecutionFailed(ExecutorError::UnsupportedModel(vendor, model))) => {
            assert_eq!(vendor, "openai");
            assert_eq!(model, "example-chat-model");
        }
        _ => panic!("Expected UnsupportedModel wrapped by IngressError::ExecutionFailed"),
    }
}

#[test]
fn ingress_errors_have_their_responses() {
    let cases = vec![
        (
            IngressError::InvalidRequest("why".to_string()),
            400,
            "INVALID_REQUEST",
        ),
        (
            IngressError::AuthenticationRequired,
            401,
            "AUTHENTICATION_REQUIRED",
        ),
        (IngressError::AuthorizationFailed, 403, "AUTHORIZATION_FAILED"),
        (
            IngressError::RequestOrchestrationFailed,
            500,
            "REQUEST_ORCHESTRATION_FAILED",
        ),
        (
            IngressError::ExecutionFailed(ExecutorError::UnsupportedModel(
                "openai".to_string(),
                "m".to_string(),
            )),
            400,
            "unsupported_model",
        ),
    ];
    for (error, status, code) in cases {
        let response = error.into_response();
        assert_eq!(response.status, status);
        assert_eq!(response.code, code);
    }
}

#[test]
fn slow_requests_follow_the_configured_threshold() {
    let service = IngressService::new(None);
    assert_eq!(service.slow_request_threshold_ms, 1000);
    assert!(!service.is_slow(999));
    assert!(service.is_slow(1000));
    assert_eq!(
        IngressService::new(Some("25".to_string())).slow_request_threshold_ms,
        25
    );
}

/// Takes a body through acceptance, planning, vendor choice and the answer, with
/// a provider that echoes the planned model.
fn handle(
    catalog: &Catalog,
    models: Vec<&str>,
    body: &Value,
) -> Result<gateway::ingress::service::IngressResponse, IngressError> {
    let request = accept_request(
        ApiKeyKind::Inference,
        body,
        &PolicyLimits::documented_defaults(),
    )?;
    process(catalog, models, &request)
}

fn process(
    catalog: &Catalog,
    models: Vec<&str>,
    request: &IngressRequest,
) -> Result<gateway::ingress::service::IngressResponse, IngressError> {
    let mut vendors = NameMap::new();
    vendors.insert(
        "openai".to_string(),
        OpenAIVendor::new(OpenAIConfig {
            supported_models: models.into_iter().map(|model| model.to_string()).collect(),
            ..OpenAIConfig::for_tests()
        })
        .expect("vendor"),
    );
    let repository = ExecutorRepository { vendors };
    let planned = plan_request(catalog, request)?;
    let plan = planned.resolved.plan;
    let outcome = repository.vendor_for(&plan).map(|_| ExecutionResult {
        content: "Mock ingress response".to_string(),
        role: "assistant".to_string(),
        model_used: plan.model_id.clone(),
        prompt_tokens: 15,
        completion_tokens: 25,
        total_cost: float(0.001),
        finish_reason: "stop".to_string(),
    });
    answer_request(outcome, 3)
}

fn gpt_4_catalog() -> Catalog {
    let mut catalog = catalog();
    catalog
        .targets
        .insert("primary".to_string(), target("gpt-4", 512, 1.0, 2.0));
    catalog
}

fn rejected(catalog: &Catalog, models: Vec<&str>, body: &str) -> (u16, String) {
    match handle(catalog, models, &json(body)) {
        Ok(_) => panic!("expected a rejection"),
        Err(error) => {
            let response = error.into_response();
            let shown = error_envelope(&response, "req-handler-1").to_string();
            (response.status, shown)
        }
    }
}

#[test]
fn test_process_request_success_returns_expected_response_shape() {
    let request = IngressRequest {
        prompt: "Hello ingress".to_string(),
        metadata: json(r#"{ "rewrite": false, "conversation_id": "ignored" }"#),
        route: None,
        allow_fallback: None,
        parameters: GenerationParameters::default(),
    };
    let result = process(
        &catalog(),
        vec!["example-chat-model", "example-chat-model-mini"],
        &request,
    )
    .expect("ingress request should succeed");
    assert_eq!(result.response.role, "assistant");
    assert_eq!(result.response.content, "Mock ingress response");
    assert_eq!(result.response.finish_reason, Some("stop".to_string()));
    assert_eq!(result.model_used, "example-chat-model");
    assert_eq!(f64::from_bits(result.cost.bits), 0.001);
    assert_eq!(result.usage.prompt_tokens, 15);
    assert_eq!(result.usage.completion_tokens, 25);
    assert!(result.processing_time_ms < 5_000);
}

#[test]
fn test_process_request_returns_execution_failed_for_unsupported_model() {
    let request = IngressRequest {
        prompt: "Trigger unsupported model".to_string(),
        metadata: json("{}"),
        route: None,
        allow_fallback: Some(false),
        parameters: GenerationParameters::default(),
    };
    match process(&catalog(), vec!["gpt-3.5-turbo"], &request) {
        Err(IngressError::ExecutionFailed(ExecutorError::UnsupportedModel(vendor, model))) => {
            assert_eq!(vendor, "openai");
            assert_eq!(model, "example-chat-model");
        }
        _ => panic!("Expected UnsupportedModel wrapped by IngressError::ExecutionFailed"),
    }
}

#[test]
fn test_ingress_handler_returns_400_for_empty_prompt() {
    let (status, body) = rejected(
        &gpt_4_catalog(),
        vec!["gpt-4"],
        r#"{ "prompt": "   ", "metadata": {} }"#,
    );
    assert_eq!(status, 400);
    assert!(body.contains("Prompt cannot be empty"));
}

#[test]
fn test_ingress_handler_returns_200_for_valid_request() {
    let answer = handle(
        &gpt_4_catalog(),
        vec!["gpt-4"],
        &json(r#"{ "prompt": "Hello", "metadata": {} }"#),
    )
    .expect("valid request");
    assert_eq!(answer.response.role, "assistant");
    assert_eq!(answer.model_used, "gpt-4");
}

#[test]
fn test_ingress_handler_returns_400_for_executor_unsupported_model() {
    let (status, body) = rejected(
        &gpt_4_catalog(),
        vec!["gpt-3.5-turbo"],
        r#"{ "prompt": "Trigger unsupported model", "metadata": {} }"#,
    );
    assert_eq!(status, 400);
    assert!(body.contains("unsupported_model"));
}

#[test]
fn test_ingress_handler_returns_400_for_prompt_too_long() {
    let long_prompt = "a".repeat(4001);
    let (status, body) = rejected(
        &gpt_4_catalog(),
        vec!["gpt-4"],
        &format!(r#"{{ "prompt": "{long_prompt}", "metadata": {{}} }}"#),
    );
    assert_eq!(status, 400);
    assert!(body.contains("Prompt exceeds maximum length"));
}

#[test]
fn test_ingress_handler_returns_400_for_metadata_too_large() {
    let large_value = "x".repeat(1_200);
    let (status, body) = rejected(
        &gpt_4_catalog(),
        vec!["gpt-4"],
        &format!(r#"{{ "prompt": "Hello", "metadata": {{ "blob": "{large_value}" }} }}"#),
    );
    assert_eq!(status, 400);
    assert!(body.contains("Metadata exceeds maximum size"));
}
