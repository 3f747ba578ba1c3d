//! Request planning and response assembly.

use vstd::prelude::*;

use crate::common::config::Catalog;
use crate::common::json;
use crate::common::json::{
    add_member, array_value, integer_value, object_value, text_value, JsonTree, Number,
};
use crate::common::number::Float64;
use crate::executor::config;
use crate::executor::error::ExecutorError;
use crate::executor::models::{ExecutionParams, ExecutionResult, MessageView};
use crate::executor::params;
use crate::ingress::constants::SLOW_REQUEST_THRESHOLD_MS;
use crate::ingress::error::IngressError;
use crate::ingress::routing;
use crate::ingress::routing::{resolve_route, ResolvedRoute};

verus! {

/// Generation options that a client may set.
pub struct GenerationParameters {
    /// Sampling temperature as sent
    pub temperature: Option<Number>,
    /// Nucleus sampling parameter as sent
    pub top_p: Option<Number>,
    /// Largest completion to generate
    pub max_tokens: Option<u32>,
}

impl Default for GenerationParameters {
    fn default() -> (parameters: GenerationParameters)
        ensures
            parameters.temperature is None,
            parameters.top_p is None,
            parameters.max_tokens is None,
    {
        GenerationParameters { temperature: None, top_p: None, max_tokens: None }
    }
}

/// Incoming AI routing request from clients.
pub struct IngressRequest {
    /// User's prompt/message for AI processing.
    pub prompt: String,
    /// Bounded opaque metadata. Never forwarded, logged, or persisted.
    pub metadata: serde_json::Value,
    /// Optional configured route name. Omitted selects the catalog default.
    pub route: Option<String>,
    /// Optional fallback opt-out. Omitted or `true` follows the configured
    /// chain; `false` limits execution to the primary without disabling retries.
    pub allow_fallback: Option<bool>,
    /// Generation options
    pub parameters: GenerationParameters,
}

/// AI assistant response structure.
#[derive(Debug)]
pub struct AIResponse {
    /// AI-generated response content.
    pub content: String,
    /// Response role as the provider reported it (always "assistant").
    pub role: String,
    /// Reason for response completion ("stop", "length", etc.).
    pub finish_reason: Option<String>,
}

/// Token usage as the provider reported it.
#[derive(Clone, Copy, PartialEq, Eq, Structural, Debug)]
pub struct Usage {
    pub prompt_tokens: i64,
    pub completion_tokens: i64,
}

/// Complete ingress response with AI content and metadata.
#[derive(Debug)]
pub struct IngressResponse {
    /// AI assistant response.
    pub response: AIResponse,
    /// AI model used for generation.
    pub model_used: String,
    /// Request cost in USD.
    pub cost: Float64,
    /// Token usage of the successful call.
    pub usage: Usage,
    /// Total processing time in milliseconds.
    pub processing_time_ms: u64,
}

/// A request ready for the executor.
pub struct PlannedRequest {
    /// The selected route with its plan
    pub resolved: ResolvedRoute,
    /// The payload to execute
    pub payload: serde_json::Value,
}

/// The completion length that is asked for: the client's, or the primary
/// target's cap.
pub open spec fn chosen_max_tokens(requested: Option<u32>, cap: u32) -> u32 {
    match requested {
        Some(requested) => requested,
        None => cap,
    }
}

/// Whether `message` is the user's prompt and nothing else.
pub open spec fn is_user_message(message: JsonTree, prompt: Seq<char>) -> bool {
    &&& message is Object
    &&& json::member(message, "role"@) == Some(JsonTree::Text("user"@))
    &&& json::member(message, "content"@) == Some(JsonTree::Text(prompt))
    &&& forall|key: Seq<char>| #[trigger]
        json::member(message, key) is Some ==> key == "role"@ || key == "content"@
}

/// Whether `payload` carries one user message with the prompt, the sampling
/// parameters as sent, the chosen completion length, and nothing else.
pub open spec fn is_payload(
    payload: JsonTree,
    prompt: Seq<char>,
    temperature: Option<JsonTree>,
    top_p: Option<JsonTree>,
    max_tokens: u32,
) -> bool {
    &&& json::member(payload, "messages"@) matches Some(JsonTree::Array(messages))
        && messages.len() == 1 && is_user_message(messages[0], prompt)
    &&& json::member(payload, "temperature"@) == temperature
    &&& json::member(payload, "top_p"@) == top_p
    &&& params::signed_of(json::member(payload, "max_tokens"@)) == Some(max_tokens as i64)
    &&& forall|key: Seq<char>| #[trigger]
        json::member(payload, key) is Some ==> key == "messages"@ || key == "temperature"@ || key
            == "top_p"@ || key == "max_tokens"@
}

proof fn lemma_payload_keys_are_distinct()
    ensures
        "messages"@ != "temperature"@,
        "messages"@ != "top_p"@,
        "messages"@ != "max_tokens"@,
        "messages"@ != "stream"@,
        "temperature"@ != "top_p"@,
        "temperature"@ != "max_tokens"@,
        "temperature"@ != "stream"@,
        "top_p"@ != "max_tokens"@,
        "top_p"@ != "stream"@,
        "max_tokens"@ != "stream"@,
        "role"@ != "content"@,
{
    reveal_strlit("messages");
    reveal_strlit("temperature");
    reveal_strlit("top_p");
    reveal_strlit("max_tokens");
    reveal_strlit("stream");
    reveal_strlit("role");
    reveal_strlit("content");
    assert("messages"@[0] != "temperature"@[0]);
    assert("messages"@[0] != "top_p"@[0]);
    assert("messages"@[1] != "max_tokens"@[1]);
    assert("messages"@[0] != "stream"@[0]);
    assert("temperature"@[1] != "top_p"@[1]);
    assert("temperature"@[0] != "max_tokens"@[0]);
    assert("temperature"@[0] != "stream"@[0]);
    assert("top_p"@[0] != "max_tokens"@[0]);
    assert("top_p"@[0] != "stream"@[0]);
    assert("max_tokens"@[0] != "stream"@[0]);
    assert("role"@[0] != "content"@[0]);
}

fn user_message(prompt: &str) -> (message: serde_json::Value)
    ensures
        is_user_message(json::json_tree(message), prompt@),
{
    let mut members: Vec<(String, serde_json::Value)> = Vec::new();
    add_member(&mut members, "role", text_value("user"));
    add_member(&mut members, "content", text_value(prompt));
    proof {
        lemma_payload_keys_are_distinct();
    }
    let ghost listed = json::listed_members(members@);
    assert(json::last_member(listed, "role"@) == Some(JsonTree::Text("user"@)));
    assert(json::last_member(listed, "content"@) == Some(JsonTree::Text(prompt@)));
    object_value(members)
}

/// Builds the payload of a generation.
pub fn generation_payload(
    prompt: &str,
    parameters: &GenerationParameters,
    max_tokens: u32,
) -> (payload: serde_json::Value)
    ensures
        is_payload(
            json::json_tree(payload),
            prompt@,
            json::optional_number(parameters.temperature),
            json::optional_number(parameters.top_p),
            max_tokens,
        ),
{
    let mut messages: Vec<serde_json::Value> = Vec::new();
    messages.push(user_message(prompt));
    let ghost message = json::json_tree(messages@[0]);
    let mut members: Vec<(String, serde_json::Value)> = Vec::new();
    assert(json::listed_members(members@) =~= Seq::empty());
    let messages_value: serde_json::Value = array_value(messages);
    let ghost messages_tree = json::json_tree(messages_value);
    assert(messages_tree->Array_0 =~= seq![message]);
    add_member(&mut members, "messages", messages_value);
    match &parameters.temperature {
        Some(temperature) => add_member(&mut members, "temperature", temperature.to_value()),
        None => {},
    }
    match &parameters.top_p {
        Some(top_p) => add_member(&mut members, "top_p", top_p.to_value()),
        None => {},
    }
    let tokens: serde_json::Value = integer_value(max_tokens as i64);
    let ghost tokens_tree = json::json_tree(tokens);
    add_member(&mut members, "max_tokens", tokens);
    proof {
        lemma_payload_keys_are_distinct();
        let listed = json::listed_members(members@);
        assert(json::last_member(listed, "messages"@) == Some(messages_tree));
        assert(json::last_member(listed, "temperature"@) == json::optional_number(parameters.temperature));
        assert(json::last_member(listed, "top_p"@) == json::optional_number(parameters.top_p));
        assert(json::last_member(listed, "max_tokens"@) == Some(tokens_tree));
    }
    object_value(members)
}

/// Selects the route of a request and builds what the executor is handed: the
/// plan, and a payload with the original prompt and the accepted parameters.
///
/// # Errors
/// - `InvalidRequest` for an unknown route, or for `max_tokens` above the
///   selected primary's cap; both before any provider access
/// - `RequestOrchestrationFailed` when the catalog lacks what the route names
pub fn plan_request(catalog: &Catalog, request: &IngressRequest) -> (planned: Result<
    PlannedRequest,
    IngressError,
>)
    ensures
        ({
            let requested = crate::common::text::optional_text(request.route);
            let route_id = routing::selected_route(*catalog, requested);
            let include_fallbacks = request.allow_fallback != Some(false);
            let cap =
                catalog.targets@[catalog.routes@[route_id].primary@].max_output_tokens;
            if requested matches Some(name) && !routing::configured_route(*catalog, name) {
                planned matches Err(IngressError::InvalidRequest(message)) && message@
                    == "Unknown route"@
            } else if !routing::route_is_complete(*catalog, route_id, include_fallbacks) {
                planned matches Err(error) && error is RequestOrchestrationFailed
            } else if request.parameters.max_tokens matches Some(n) && n > cap {
                planned matches Err(IngressError::InvalidRequest(message)) && message@
                    == "max_tokens exceeds max_output_tokens of the selected target"@
            } else {
                planned matches Ok(planned) && {
                    &&& routing::is_resolution(
                        planned.resolved,
                        *catalog,
                        route_id,
                        include_fallbacks,
                    )
                    &&& is_payload(
                        json::json_tree(planned.payload),
                        request.prompt@,
                        json::optional_number(request.parameters.temperature),
                        json::optional_number(request.parameters.top_p),
                        chosen_max_tokens(request.parameters.max_tokens, cap),
                    )
                }
            }
        }),
{
    let requested: Option<&str> = match &request.route {
        Some(route) => Some(route.as_str()),
        None => None,
    };
    let resolved: ResolvedRoute = match resolve_route(catalog, requested, request.allow_fallback) {
        Ok(resolved) => resolved,
        Err(error) => {
            return Err(error);
        },
    };
    let max_tokens: u32 = match request.parameters.max_tokens {
        Some(requested) => {
            if requested > resolved.max_output_tokens {
                return Err(
                    IngressError::InvalidRequest(
                        "max_tokens exceeds max_output_tokens of the selected target".to_owned(),
                    ),
                );
            }
            requested
        },
        None => resolved.max_output_tokens,
    };
    let payload: serde_json::Value = generation_payload(
        request.prompt.as_str(),
        &request.parameters,
        max_tokens,
    );
    Ok(PlannedRequest { resolved, payload })
}

/// What the executor reads from a planned payload is the original prompt as the
/// only message, by the user, with the parameters as sent and the chosen
/// completion length, without streaming. No metadata takes part in it.
pub proof fn law_payload_carries_only_the_request(
    payload: JsonTree,
    prompt: Seq<char>,
    temperature: Option<JsonTree>,
    top_p: Option<JsonTree>,
    max_tokens: u32,
    read: ExecutionParams,
)
    requires
        is_payload(payload, prompt, temperature, top_p, max_tokens),
        params::are_params_of(read, payload),
    ensures
        params::message_views(read.messages@) == seq![
            MessageView { role: "user"@, content: prompt },
        ],
        match temperature {
            Some(JsonTree::Number(number)) => read.temperature == number.double,
            _ => read.temperature is None,
        },
        match top_p {
            Some(JsonTree::Number(number)) => read.top_p == number.double,
            _ => read.top_p is None,
        },
        read.max_tokens == Some(max_tokens as i64),
        !read.stream,
{
    lemma_payload_keys_are_distinct();
    let listed = json::member(payload, "messages"@).unwrap()->Array_0;
    assert(params::message_of(listed[0]) == Some(
        MessageView { role: "user"@, content: prompt },
    ));
    let views = params::messages_of(json::member(payload, "messages"@)).unwrap();
    assert(views =~= seq![MessageView { role: "user"@, content: prompt }]);
    if json::member(payload, "stream"@) is Some {
        assert(false);
    }
}

/// A payload that was planned is always readable: it never fails for its
/// messages.
pub proof fn law_planned_payload_is_readable(
    payload: JsonTree,
    prompt: Seq<char>,
    temperature: Option<JsonTree>,
    top_p: Option<JsonTree>,
    max_tokens: u32,
)
    requires
        is_payload(payload, prompt, temperature, top_p, max_tokens),
    ensures
        params::messages_of(json::member(payload, "messages"@)) is Some,
{
    let listed = json::member(payload, "messages"@).unwrap()->Array_0;
    assert(params::message_of(listed[0]) is Some);
}

/// Answers a request from what its execution brought.
///
/// # Errors
/// Returns `ExecutionFailed` with the executor's failure.
pub fn answer_request(
    outcome: Result<ExecutionResult, ExecutorError>,
    processing_time_ms: u64,
) -> (answer: Result<IngressResponse, IngressError>)
    ensures
        match outcome {
            Ok(result) => answer == Ok::<IngressResponse, IngressError>(
                IngressResponse {
                    response: AIResponse {
                        content: result.content,
                        role: result.role,
                        finish_reason: Some(result.finish_reason),
                    },
                    model_used: result.model_used,
                    cost: result.total_cost,
                    usage: Usage {
                        prompt_tokens: result.prompt_tokens,
                        completion_tokens: result.completion_tokens,
                    },
                    processing_time_ms,
                },
            ),
            Err(error) => answer == Err::<IngressResponse, IngressError>(
                IngressError::ExecutionFailed(error),
            ),
        },
{
    match outcome {
        Ok(result) => Ok(
            IngressResponse {
                response: AIResponse {
                    content: result.content,
                    role: result.role,
                    finish_reason: Some(result.finish_reason),
                },
                model_used: result.model_used,
                cost: result.total_cost,
                usage: Usage {
                    prompt_tokens: result.prompt_tokens,
                    completion_tokens: result.completion_tokens,
                },
                processing_time_ms,
            },
        ),
        Err(error) => Err(IngressError::ExecutionFailed(error)),
    }
}

/// Standing state of request processing.
#[derive(Clone, Copy, PartialEq, Eq, Structural, Debug)]
pub struct IngressService {
    /// Processing time from which a request counts as slow
    pub slow_request_threshold_ms: u64,
}

impl IngressService {
    /// Creates the service from the value of `INGRESS_SLOW_REQUEST_THRESHOLD_MS`.
    pub fn new(slow_request_threshold: Option<String>) -> (service: IngressService)
        ensures
            service.slow_request_threshold_ms == config::number_or(
                crate::common::text::optional_text(slow_request_threshold),
                u64::MAX as nat,
                SLOW_REQUEST_THRESHOLD_MS as nat,
            ),
    {
        IngressService {
            slow_request_threshold_ms: config::u64_or(
                slow_request_threshold,
                SLOW_REQUEST_THRESHOLD_MS,
            ),
        }
    }

    /// Whether a request that took this long is to be warned about.
    pub fn is_slow(&self, processing_time_ms: u64) -> (slow: bool)
        ensures
            slow == (processing_time_ms >= self.slow_request_threshold_ms),
    {
        processing_time_ms >= self.slow_request_threshold_ms
    }
}

} // verus!
