//! Validation of successful OpenAI Chat Completions payloads.

use vstd::prelude::*;

use crate::common::json;
use crate::common::json::{decode, get, shape, JsonTree, Shape};
use crate::common::number::Float64;
use crate::common::text::same_text;
use crate::executor::error::ExecutorError;
use crate::executor::models::ExecutionResult;
use crate::executor::pricing;
use crate::executor::pricing::{estimate_successful_response_cost, ModelPricing};

verus! {

/// What a successful completion reports.
#[verifier::ext_equal]
pub struct CompletionView {
    pub content: Seq<char>,
    pub role: Seq<char>,
    pub model_used: Seq<char>,
    pub prompt_tokens: i64,
    pub completion_tokens: i64,
    pub finish_reason: Seq<char>,
}

/// The text that a member holds.
pub open spec fn text_of(value: Option<JsonTree>) -> Option<Seq<char>> {
    match value {
        Some(JsonTree::Text(text)) => Some(text),
        _ => None,
    }
}

/// The text that a member holds, when it is not empty.
pub open spec fn nonempty_text_of(value: Option<JsonTree>) -> Option<Seq<char>> {
    match text_of(value) {
        Some(text) => if text.len() > 0 {
            Some(text)
        } else {
            None
        },
        None => None,
    }
}

/// The token count that a member holds: a whole number that is not negative and
/// fits in 63 bits.
pub open spec fn token_count_of(value: Option<JsonTree>) -> Option<i64> {
    match value {
        Some(JsonTree::Number(number)) => match number.signed {
            Some(n) => if n >= 0 {
                Some(n)
            } else {
                None
            },
            None => match number.unsigned {
                Some(n) => if n <= i64::MAX {
                    Some(n as i64)
                } else {
                    None
                },
                None => None,
            },
        },
        _ => None,
    }
}

/// The first element of an array member.
pub open spec fn first_of(value: Option<JsonTree>) -> Option<JsonTree> {
    match value {
        Some(JsonTree::Array(items)) => if items.len() > 0 {
            Some(items[0])
        } else {
            None
        },
        _ => None,
    }
}

/// What a document reports as a completion; `None` when it is not a valid one:
/// a named model, a first choice whose message is text by the assistant and
/// whose finish reason is named, and usage whose total is the sum of its parts.
pub open spec fn completion_of(document: JsonTree) -> Option<CompletionView> {
    let choice = first_of(json::member(document, "choices"@));
    let message = json::inner_member(choice, "message"@);
    let usage = json::member(document, "usage"@);
    match (
        nonempty_text_of(json::member(document, "model"@)),
        text_of(json::inner_member(message, "content"@)),
        text_of(json::inner_member(message, "role"@)),
        nonempty_text_of(json::inner_member(choice, "finish_reason"@)),
        token_count_of(json::inner_member(usage, "prompt_tokens"@)),
        token_count_of(json::inner_member(usage, "completion_tokens"@)),
        token_count_of(json::inner_member(usage, "total_tokens"@)),
    ) {
        (
            Some(model_used),
            Some(content),
            Some(role),
            Some(finish_reason),
            Some(prompt_tokens),
            Some(completion_tokens),
            Some(total_tokens),
        ) => if role == "assistant"@ && prompt_tokens + completion_tokens == total_tokens {
            Some(
                CompletionView {
                    content,
                    role,
                    model_used,
                    prompt_tokens,
                    completion_tokens,
                    finish_reason,
                },
            )
        } else {
            None
        },
        _ => None,
    }
}

/// The completion part of a result.
pub open spec fn completion_view(result: ExecutionResult) -> CompletionView {
    CompletionView {
        content: result.content@,
        role: result.role@,
        model_used: result.model_used@,
        prompt_tokens: result.prompt_tokens,
        completion_tokens: result.completion_tokens,
        finish_reason: result.finish_reason@,
    }
}

/// Whether `result` is what a successful answer holding `document` amounts to.
pub open spec fn is_result_of<
    R: Fn(i64, i64, ModelPricing) -> Float64,
    T: Fn(Float64) -> Float64,
>(
    document: JsonTree,
    pricing: Option<ModelPricing>,
    raw_cost: R,
    round_cost: T,
    result: Result<ExecutionResult, ExecutorError>,
) -> bool {
    match completion_of(document) {
        None => result == Err::<ExecutionResult, ExecutorError>(
            ExecutorError::InvalidUpstreamResult,
        ),
        Some(completion) => exists|cost: Result<Float64, ExecutorError>|
            {
                &&& #[trigger] pricing::is_estimate(
                    completion.prompt_tokens,
                    completion.completion_tokens,
                    pricing,
                    raw_cost,
                    round_cost,
                    cost,
                )
                &&& match cost {
                    Ok(cost) => result matches Ok(result) && completion_view(result) == completion
                        && result.total_cost == cost,
                    Err(error) => result == Err::<ExecutionResult, ExecutorError>(error),
                }
            },
    }
}

fn required_string(value: Option<&serde_json::Value>) -> (text: Result<String, ExecutorError>)
    ensures
        match text_of(json::tree_of(value)) {
            Some(found) => text matches Ok(text) && text@ == found,
            None => text == Err::<String, ExecutorError>(ExecutorError::InvalidUpstreamResult),
        },
{
    match value {
        Some(value) => match shape(value) {
            Shape::Text(text) => Ok(text.to_owned()),
            _ => Err(ExecutorError::InvalidUpstreamResult),
        },
        None => Err(ExecutorError::InvalidUpstreamResult),
    }
}

fn required_nonempty_string(value: Option<&serde_json::Value>) -> (text: Result<
    String,
    ExecutorError,
>)
    ensures
        match nonempty_text_of(json::tree_of(value)) {
            Some(found) => text matches Ok(text) && text@ == found,
            None => text == Err::<String, ExecutorError>(ExecutorError::InvalidUpstreamResult),
        },
{
    let text: String = match required_string(value) {
        Ok(text) => text,
        Err(error) => {
            return Err(error);
        },
    };
    if text.as_str().is_empty() {
        return Err(ExecutorError::InvalidUpstreamResult);
    }
    Ok(text)
}

fn required_token_count(value: Option<&serde_json::Value>) -> (tokens: Result<i64, ExecutorError>)
    ensures
        match token_count_of(json::tree_of(value)) {
            Some(found) => tokens == Ok::<i64, ExecutorError>(found),
            None => tokens == Err::<i64, ExecutorError>(ExecutorError::InvalidUpstreamResult),
        },
{
    let value: &serde_json::Value = match value {
        Some(value) => value,
        None => {
            return Err(ExecutorError::InvalidUpstreamResult);
        },
    };
    match shape(value) {
        Shape::Number(number) => {
            let tokens: i64 = match number.signed {
                Some(n) => n,
                None => match number.unsigned {
                    Some(n) => {
                        if n > i64::MAX as u64 {
                            return Err(ExecutorError::InvalidUpstreamResult);
                        }
                        n as i64
                    },
                    None => {
                        return Err(ExecutorError::InvalidUpstreamResult);
                    },
                },
            };
            if tokens < 0 {
                return Err(ExecutorError::InvalidUpstreamResult);
            }
            Ok(tokens)
        },
        _ => Err(ExecutorError::InvalidUpstreamResult),
    }
}

fn get_inner<'a>(value: Option<&'a serde_json::Value>, key: &str) -> (found: Option<
    &'a serde_json::Value,
>)
    ensures
        json::tree_of(found) == json::inner_member(json::tree_of(value), key@),
{
    match value {
        Some(value) => get(value, key),
        None => None,
    }
}

fn first<'a>(value: Option<&'a serde_json::Value>) -> (found: Option<&'a serde_json::Value>)
    ensures
        json::tree_of(found) == first_of(json::tree_of(value)),
{
    match value {
        Some(value) => match shape(value) {
            Shape::Array(items) => {
                if items.len() > 0 {
                    Some(items[0])
                } else {
                    None
                }
            },
            _ => None,
        },
        None => None,
    }
}

fn read_completion(document: &serde_json::Value) -> (result: Result<
    (String, String, String, String, i64, i64),
    ExecutorError,
>)
    ensures
        match completion_of(json::json_tree(*document)) {
            Some(completion) => result matches Ok((model, content, role, finish, p, c)) && {
                &&& model@ == completion.model_used
                &&& content@ == completion.content
                &&& role@ == completion.role
                &&& finish@ == completion.finish_reason
                &&& p == completion.prompt_tokens
                &&& c == completion.completion_tokens
            },
            None => result == Err::<(String, String, String, String, i64, i64), ExecutorError>(
                ExecutorError::InvalidUpstreamResult,
            ),
        },
{
    let model_used: String = required_nonempty_string(get(document, "model"))?;
    let choice: Option<&serde_json::Value> = first(get(document, "choices"));
    let message: Option<&serde_json::Value> = get_inner(choice, "message");
    let content: String = required_string(get_inner(message, "content"))?;
    let role: String = required_string(get_inner(message, "role"))?;
    if !same_text(role.as_str(), "assistant") {
        return Err(ExecutorError::InvalidUpstreamResult);
    }
    let finish_reason: String = required_nonempty_string(get_inner(choice, "finish_reason"))?;
    let usage: Option<&serde_json::Value> = get(document, "usage");
    let prompt_tokens: i64 = required_token_count(get_inner(usage, "prompt_tokens"))?;
    let completion_tokens: i64 = required_token_count(get_inner(usage, "completion_tokens"))?;
    let total_tokens: i64 = required_token_count(get_inner(usage, "total_tokens"))?;
    match prompt_tokens.checked_add(completion_tokens) {
        Some(expected) => {
            if total_tokens != expected {
                return Err(ExecutorError::InvalidUpstreamResult);
            }
        },
        None => {
            return Err(ExecutorError::InvalidUpstreamResult);
        },
    }
    Ok((model_used, content, role, finish_reason, prompt_tokens, completion_tokens))
}

/// Validates a decoded Chat Completions document and prices it.
///
/// Empty choices, missing required fields, roles other than `assistant`,
/// non-text content and impossible usage are invalid upstream results. None of
/// them fabricates model, content, usage, or cost.
pub fn validate_chat_completion<
    R: Fn(i64, i64, ModelPricing) -> Float64,
    T: Fn(Float64) -> Float64,
>(
    document: &serde_json::Value,
    pricing: Option<&ModelPricing>,
    raw_cost: R,
    round_cost: T,
) -> (result: Result<ExecutionResult, ExecutorError>)
    requires
        forall|p: i64, c: i64, m: ModelPricing| #[trigger] raw_cost.requires((p, c, m)),
        forall|cost: Float64| #[trigger] round_cost.requires((cost,)),
    ensures
        is_result_of(
            json::json_tree(*document),
            pricing::prices_of(pricing),
            raw_cost,
            round_cost,
            result,
        ),
{
    match read_completion(document) {
        Ok((model_used, content, role, finish_reason, prompt_tokens, completion_tokens)) => {
            let cost: Result<Float64, ExecutorError> = estimate_successful_response_cost(
                prompt_tokens,
                completion_tokens,
                pricing,
                raw_cost,
                round_cost,
            );
            match cost {
                Ok(total_cost) => Ok(
                    ExecutionResult {
                        content,
                        role,
                        model_used,
                        prompt_tokens,
                        completion_tokens,
                        total_cost,
                        finish_reason,
                    },
                ),
                Err(error) => Err(error),
            }
        },
        Err(error) => Err(error),
    }
}

/// Parses a successful Chat Completions body into a validated result.
///
/// Malformed JSON is a protocol parse error, reported without the body's text.
pub fn parse_successful_chat_completion<
    R: Fn(i64, i64, ModelPricing) -> Float64,
    T: Fn(Float64) -> Float64,
>(body: &[u8], pricing: Option<&ModelPricing>, raw_cost: R, round_cost: T) -> (result: Result<
    ExecutionResult,
    ExecutorError,
>)
    requires
        forall|p: i64, c: i64, m: ModelPricing| #[trigger] raw_cost.requires((p, c, m)),
        forall|cost: Float64| #[trigger] round_cost.requires((cost,)),
    ensures
        match json::json_document(body@) {
            None => result matches Err(ExecutorError::JsonError(detail)) && detail@
                == "malformed upstream JSON"@,
            Some(document) => is_result_of(
                document,
                pricing::prices_of(pricing),
                raw_cost,
                round_cost,
                result,
            ),
        },
{
    match decode(body) {
        Some(document) => validate_chat_completion(&document, pricing, raw_cost, round_cost),
        None => Err(ExecutorError::JsonError("malformed upstream JSON".to_owned())),
    }
}

/// Whether a throttled answer's document says that the account's quota is used
/// up.
pub open spec fn reports_quota(document: JsonTree) -> bool {
    let error = json::member(document, "error"@);
    ||| text_of(json::inner_member(error, "code"@)) == Some("insufficient_quota"@)
    ||| text_of(json::inner_member(error, "type"@)) == Some("insufficient_quota"@)
}

fn is_text(value: Option<&serde_json::Value>, expected: &str) -> (yes: bool)
    ensures
        yes == (text_of(json::tree_of(value)) == Some(expected@)),
{
    match value {
        Some(value) => match shape(value) {
            Shape::Text(text) => same_text(text, expected),
            _ => false,
        },
        None => false,
    }
}

/// Whether a decoded answer says that the account's quota is used up.
pub fn is_quota_document(document: &serde_json::Value) -> (yes: bool)
    ensures
        yes == reports_quota(json::json_tree(*document)),
{
    let error: Option<&serde_json::Value> = get(document, "error");
    is_text(get_inner(error, "code"), "insufficient_quota") || is_text(
        get_inner(error, "type"),
        "insufficient_quota",
    )
}

/// Refines throttling by the answer's body: a complete JSON body that reports
/// `insufficient_quota` is terminal quota; a body that did not arrive whole, is
/// not JSON or says anything else keeps the throttling.
pub fn refine_throttling(throttling: ExecutorError, body: Option<&[u8]>) -> (error: ExecutorError)
    ensures
        error == (match body {
            Some(body) => match json::json_document(body@) {
                Some(document) => if reports_quota(document) {
                    ExecutorError::QuotaExceeded
                } else {
                    throttling
                },
                None => throttling,
            },
            None => throttling,
        }),
{
    match body {
        Some(body) => match decode(body) {
            Some(document) => {
                if is_quota_document(&document) {
                    ExecutorError::QuotaExceeded
                } else {
                    throttling
                }
            },
            None => throttling,
        },
        None => throttling,
    }
}

} // verus!
