use gateway::common::number::Float64;
use gateway::executor::config::OpenAIConfig;
use gateway::executor::error::ExecutorError;
use gateway::executor::models::ExecutionResult;
use gateway::executor::openai_response::{
    is_quota_document, parse_successful_chat_completion, refine_throttling,
};
use gateway::executor::pricing::{estimate_successful_response_cost, ModelPricing};
use gateway::executor::vendors::openai::OpenAIVendor;
use serde_json::Value;

fn float(value: f64) -> Float64 {
    Float64 {
        bits: value.to_bits(),
    }
}

fn raw_cost(prompt_tokens: i64, completion_tokens: i64, pricing: ModelPricing) -> Float64 {
    let input = f64::from_bits(pricing.input_per_million.bits);
    let output = f64::from_bits(pricing.output_per_million.bits);
    float(
        (prompt_tokens as f64) / 1_000_000.0 * input
            + (completion_tokens as f64) / 1_000_000.0 * output,
    )
}

fn round_cost(cost: Float64) -> Float64 {
    float((f64::from_bits(cost.bits) * 100_000_000.0).round() / 100_000_000.0)
}

fn estimate(
    prompt_tokens: i64,
    completion_tokens: i64,
    pricing: Option<&ModelPricing>,
) -> Result<f64, ExecutorError> {
    estimate_successful_response_cost(
        prompt_tokens,
        completion_tokens,
        pricing,
        raw_cost,
        round_cost,
    )
    .map(|cost| f64::from_bits(cost.bits))
}

fn prices(input_per_million: f64, output_per_million: f64) -> ModelPricing {
    ModelPricing::new(float(input_per_million), float(output_per_million))
}

fn json(text: &str) -> Value {
    serde_json::from_str(text).expect("test JSON")
}

fn valid_body() -> Value {
    json(
        r#"{
            "id": "chatcmpl-local-fixture",
            "object": "chat.completion",
            "created": 0,
            "model": "reported-snapshot-model",
            "choices": [{
                "index": 0,
                "message": {"role": "assistant", "content": "SIMULATED_OPENAI_OK"},
                "finish_reason": "stop"
            }],
            "usage": {
                "prompt_tokens": 120,
                "completion_tokens": 30,
                "total_tokens": 150
            }
        }"#,
    )
}

fn parse_bytes(body: &[u8]) -> Result<ExecutionResult, ExecutorError> {
    parse_successful_chat_completion(body, Some(&prices(1.0, 2.0)), raw_cost, round_cost)
}

fn parse_value(value: Value) -> Result<ExecutionResult, ExecutorError> {
    parse_bytes(value.to_string().as_bytes())
}

fn assert_invalid(result: Result<ExecutionResult, ExecutorError>) {
    match result {
        Err(ExecutorError::InvalidUpstreamResult) => {}
        Err(ExecutorError::JsonError(_)) => {
            panic!("expected InvalidUpstreamResult, got JsonError")
        }
        Ok(result) => panic!(
            "fabricated success model={} content={} cost={:?}",
            result.model_used, result.content, result.total_cost
        ),
        Err(other) => panic!("expected InvalidUpstreamResult, got {other:?}"),
    }
}

#[test]
fn valid_payload_uses_reported_model_and_priced_usage() {
    let result = parse_value(valid_body()).expect("valid payload");
    assert_eq!(result.content, "SIMULATED_OPENAI_OK");
    assert_eq!(result.role, "assistant");
    assert_eq!(result.finish_reason, "stop");
    assert_eq!(result.model_used, "reported-snapshot-model");
    assert_eq!(result.prompt_tokens, 120);
    assert_eq!(result.completion_tokens, 30);
    assert_eq!(f64::from_bits(result.total_cost.bits), 0.00018);
}

#[test]
fn malformed_json_is_a_protocol_parse_error() {
    let sentinel = b"{not-json RAW_UPSTREAM_SENTINEL";
    match parse_bytes(sentinel) {
        Err(ExecutorError::JsonError(message)) => {
            assert_eq!(message, "malformed upstream JSON");
            assert!(!message.contains("RAW_UPSTREAM_SENTINEL"));
        }
        other => panic!("expected JsonError, got {other:?}"),
    }
}

#[test]
fn empty_choices_cannot_become_success() {
    let mut body = valid_body();
    body["choices"] = json("[]");
    assert_invalid(parse_value(body));
}

#[test]
fn missing_required_fields_cannot_become_success() {
    for field in ["model", "choices", "usage"] {
        let mut body = valid_body();
        body.as_object_mut().unwrap().remove(field);
        assert_invalid(parse_value(body));
    }

    let mut missing_content = valid_body();
    missing_content["choices"][0]["message"]
        .as_object_mut()
        .unwrap()
        .remove("content");
    assert_invalid(parse_value(missing_content));

    let mut missing_role = valid_body();
    missing_role["choices"][0]["message"]
        .as_object_mut()
        .unwrap()
        .remove("role");
    assert_invalid(parse_value(missing_role));

    let mut missing_finish = valid_body();
    missing_finish["choices"][0]
        .as_object_mut()
        .unwrap()
        .remove("finish_reason");
    assert_invalid(parse_value(missing_finish));
}

#[test]
fn empty_required_strings_cannot_become_success() {
    let mut body = valid_body();
    body["model"] = json(r#""""#);
    assert_invalid(parse_value(body));
}

#[test]
fn non_text_content_cannot_become_success() {
    let mut body = valid_body();
    body["choices"][0]["message"]["content"] =
        json(r#"[{"type": "text", "text": "SIMULATED_OPENAI_OK"}]"#);
    assert_invalid(parse_value(body));
}

#[test]
fn negative_and_fractional_usage_cannot_become_success() {
    let mut negative = valid_body();
    negative["usage"]["prompt_tokens"] = json("-1");
    assert_invalid(parse_value(negative));

    let mut fractional = valid_body();
    fractional["usage"]["completion_tokens"] = json("1.5");
    assert_invalid(parse_value(fractional));
}

#[test]
fn inconsistent_total_tokens_cannot_become_success() {
    let mut body = valid_body();
    body["usage"]["total_tokens"] = json("999");
    assert_invalid(parse_value(body));
}

#[test]
fn valid_payload_still_parses_after_an_invalid_one() {
    assert_invalid(parse_value({
        let mut body = valid_body();
        body["choices"] = json("[]");
        body
    }));
    let result = parse_value(valid_body()).expect("later valid payload");
    assert_eq!(result.content, "SIMULATED_OPENAI_OK");
    assert_eq!(result.model_used, "reported-snapshot-model");
    assert_eq!(f64::from_bits(result.total_cost.bits), 0.00018);
}

#[test]
fn usage_is_read_up_to_the_signed_limit() {
    let mut body = valid_body();
    body["usage"]["prompt_tokens"] = json("9223372036854775807");
    body["usage"]["completion_tokens"] = json("0");
    body["usage"]["total_tokens"] = json("9223372036854775807");
    let result = parse_value(body).expect("largest signed count");
    assert_eq!(result.prompt_tokens, i64::MAX);

    let mut overflowing = valid_body();
    overflowing["usage"]["prompt_tokens"] = json("9223372036854775807");
    overflowing["usage"]["completion_tokens"] = json("1");
    assert_invalid(parse_value(overflowing));

    let mut beyond = valid_body();
    beyond["usage"]["prompt_tokens"] = json("18446744073709551615");
    assert_invalid(parse_value(beyond));
}

#[test]
fn only_the_assistant_role_is_a_result() {
    let mut body = valid_body();
    body["choices"][0]["message"]["role"] = json(r#""user""#);
    assert_invalid(parse_value(body));
}

#[test]
fn quota_reports_replace_throttling() {
    let throttling = || ExecutorError::RateLimitExceeded {
        vendor: "openai".into(),
        retry_after_ms: Some(1_000),
    };
    let quota = br#"{"error":{"code":"insufficient_quota","type":"insufficient_quota"}}"#;
    assert!(is_quota_document(
        &serde_json::from_slice(quota).expect("quota body")
    ));
    assert!(matches!(
        refine_throttling(throttling(), Some(quota)),
        ExecutorError::QuotaExceeded
    ));
    let busy: &[u8] = br#"{"error":{"code":"rate_limit_exceeded","type":"requests"}}"#;
    for body in [None, Some(busy), Some(b"not json".as_slice())] {
        assert!(matches!(
            refine_throttling(throttling(), body),
            ExecutorError::RateLimitExceeded {
                retry_after_ms: Some(1_000),
                ..
            }
        ));
    }
}

#[test]
fn illustrative_primary_prices_yield_documented_cost() {
    let cost = estimate(120, 30, Some(&prices(1.0, 2.0))).expect("priced estimate");
    assert_eq!(cost, 0.00018);
}

#[test]
fn second_target_prices_are_used_for_the_same_usage() {
    let cost = estimate(120, 30, Some(&prices(0.25, 0.5))).expect("priced estimate");
    assert_eq!(cost, 0.000045);
}

#[test]
fn missing_prices_do_not_become_zero() {
    match estimate(120, 30, None) {
        Err(ExecutorError::MissingPricing) => {}
        other => panic!("expected MissingPricing, got {other:?}"),
    }
}

#[test]
fn zero_tokens_with_configured_prices_may_be_zero() {
    let cost = estimate(0, 0, Some(&prices(1.0, 2.0))).expect("zero-token estimate");
    assert_eq!(cost, 0.0);
}

#[test]
fn negative_usage_is_not_a_successful_estimate() {
    match estimate(-1, 30, Some(&prices(1.0, 2.0))) {
        Err(ExecutorError::InvalidUpstreamResult) => {}
        other => panic!("expected InvalidUpstreamResult, got {other:?}"),
    }
}

#[test]
fn unusable_prices_are_missing_prices() {
    for bad in [f64::NAN, f64::INFINITY, -1.0] {
        assert!(matches!(
            estimate(1, 1, Some(&prices(bad, 1.0))),
            Err(ExecutorError::MissingPricing)
        ));
        assert!(matches!(
            estimate(1, 1, Some(&prices(1.0, bad))),
            Err(ExecutorError::MissingPricing)
        ));
    }
    assert_eq!(
        estimate(1, 1, Some(&prices(-0.0, 0.0))).expect("negative zero is zero"),
        0.0
    );
    assert!(matches!(
        estimate(i64::MAX, 1, Some(&prices(f64::MAX, 1.0))),
        Err(ExecutorError::InvalidUpstreamResult)
    ));
    assert!(
        matches!(
            estimate(1_000_000, 0, Some(&prices(1e308, 1.0))),
            Err(ExecutorError::InvalidUpstreamResult)
        ),
        "a finite cost whose rounding overflows is no estimate"
    );
}

#[test]
fn vendor_prices_by_target() {
    let vendor = OpenAIVendor::new(OpenAIConfig::for_tests()).expect("vendor");
    match vendor.calculate_cost(1, 1, "no-such-target", raw_cost, round_cost) {
        Err(ExecutorError::MissingPricing) => {}
        other => panic!("expected MissingPricing, got {other:?}"),
    }
    let body = valid_body().to_string();
    match vendor.complete(body.as_bytes(), "no-such-target", raw_cost, round_cost) {
        Err(ExecutorError::MissingPricing) => {}
        other => panic!("expected MissingPricing, got {other:?}"),
    }
}
