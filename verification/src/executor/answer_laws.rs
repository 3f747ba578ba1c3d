//! What a provider's answer amounts to, in terms of what it says.

use vstd::prelude::*;

use crate::common::json;
use crate::common::json::JsonTree;
use crate::common::number::Float64;
use crate::common::text_laws;
use crate::common::time::SystemTime;
use crate::executor::config::OpenAIConfig;
use crate::executor::error::{ExecutorError, TransportFault};
use crate::executor::models::{ExecutionParams, ExecutionResult};
use crate::executor::openai_response;
use crate::executor::openai_response::{
    parse_successful_chat_completion, refine_throttling, validate_chat_completion,
};
use crate::executor::pricing::{estimate_successful_response_cost, ModelPricing};
use crate::executor::vendors::openai::{
    AfterHeaders, ChatCompletionRequest, HealthProbe, OpenAIVendor,
};

verus! {

/// A finite number that is not below zero, by its bits: the sign bit alone is
/// negative zero.
pub open spec fn is_amount(number: Float64) -> bool {
    number.bits < 0x7ff0_0000_0000_0000 || number.bits == 0x8000_0000_0000_0000
}

/// Whether prices are there and both are amounts.
pub open spec fn is_priced(pricing: Option<ModelPricing>) -> bool {
    pricing matches Some(prices) && is_amount(prices.input_per_million) && is_amount(
        prices.output_per_million,
    )
}

/// Whether a member is a whole number of tokens that is not negative.
pub open spec fn counts(member: Option<JsonTree>, tokens: i64) -> bool {
    &&& tokens >= 0
    &&& member matches Some(JsonTree::Number(number)) && (number.signed == Some(tokens) || (
    number.signed is None && number.unsigned == Some(tokens as u64)))
}

/// Whether a document says that `model` gave the assistant's text `content`, why
/// it stopped, and how many tokens that took.
pub open spec fn reports(
    document: JsonTree,
    model: Seq<char>,
    content: Seq<char>,
    finish_reason: Seq<char>,
    prompt_tokens: i64,
    completion_tokens: i64,
) -> bool {
    &&& json::member(document, "model"@) == Some(JsonTree::Text(model))
    &&& model.len() > 0
    &&& json::member(document, "choices"@) matches Some(JsonTree::Array(choices)) && choices.len()
        > 0 && {
        &&& json::member(choices[0], "finish_reason"@) == Some(JsonTree::Text(finish_reason))
        &&& finish_reason.len() > 0
        &&& json::member(choices[0], "message"@) matches Some(message) && json::member(
            message,
            "content"@,
        ) == Some(JsonTree::Text(content)) && json::member(message, "role"@) == Some(
            JsonTree::Text("assistant"@),
        )
    }
    &&& json::member(document, "usage"@) matches Some(usage) && {
        &&& counts(json::member(usage, "prompt_tokens"@), prompt_tokens)
        &&& counts(json::member(usage, "completion_tokens"@), completion_tokens)
        &&& prompt_tokens + completion_tokens <= i64::MAX
        &&& counts(
            json::member(usage, "total_tokens"@),
            (prompt_tokens + completion_tokens) as i64,
        )
    }
}

/// Whether the arithmetic that is handed in stays within amounts.
pub open spec fn stays_finite<
    R: Fn(i64, i64, ModelPricing) -> Float64,
    T: Fn(Float64) -> Float64,
>(raw_cost: R, round_cost: T) -> bool {
    &&& forall|p: i64, c: i64, m: ModelPricing, cost: Float64| #[trigger]
        raw_cost.ensures((p, c, m), cost) ==> is_amount(cost)
    &&& forall|cost: Float64, rounded: Float64| #[trigger]
        round_cost.ensures((cost,), rounded) ==> is_amount(rounded)
}

/// Whether `cost` is the rounded estimate for this usage at these prices.
pub open spec fn is_cost<R: Fn(i64, i64, ModelPricing) -> Float64, T: Fn(Float64) -> Float64>(
    prompt_tokens: i64,
    completion_tokens: i64,
    prices: ModelPricing,
    raw_cost: R,
    round_cost: T,
    cost: Float64,
) -> bool {
    exists|raw: Float64| #[trigger]
        raw_cost.ensures((prompt_tokens, completion_tokens, prices), raw) && round_cost.ensures(
            (raw,),
            cost,
        )
}

/// A document that names a model, whose first choice is the assistant's text
/// with any finish reason at all, and whose usage adds up, is accepted as
/// exactly that, at the price of its usage.
pub proof fn law_usable_answer_is_accepted<
    R: Fn(i64, i64, ModelPricing) -> Float64,
    T: Fn(Float64) -> Float64,
>(
    document: &serde_json::Value,
    pricing: Option<&ModelPricing>,
    raw_cost: R,
    round_cost: T,
    result: Result<ExecutionResult, ExecutorError>,
    model: Seq<char>,
    content: Seq<char>,
    finish_reason: Seq<char>,
    prompt_tokens: i64,
    completion_tokens: i64,
)
    requires
        call_ensures(
            validate_chat_completion::<R, T>,
            (document, pricing, raw_cost, round_cost),
            result,
        ),
        reports(
            json::json_tree(*document),
            model,
            content,
            finish_reason,
            prompt_tokens,
            completion_tokens,
        ),
        pricing matches Some(prices) && is_priced(Some(*prices)),
        stays_finite(raw_cost, round_cost),
    ensures
        result matches Ok(answer) && {
            &&& answer.model_used@ == model
            &&& answer.content@ == content
            &&& answer.role@ == "assistant"@
            &&& answer.finish_reason@ == finish_reason
            &&& answer.prompt_tokens == prompt_tokens
            &&& answer.completion_tokens == completion_tokens
            &&& is_cost(
                prompt_tokens,
                completion_tokens,
                *pricing.unwrap(),
                raw_cost,
                round_cost,
                answer.total_cost,
            )
        },
{
}

/// Whatever is accepted is what the document says, is priced, and costs an
/// amount: nothing is made up.
pub proof fn law_accepted_answer_is_what_was_said<
    R: Fn(i64, i64, ModelPricing) -> Float64,
    T: Fn(Float64) -> Float64,
>(
    document: &serde_json::Value,
    pricing: Option<&ModelPricing>,
    raw_cost: R,
    round_cost: T,
    result: Result<ExecutionResult, ExecutorError>,
)
    requires
        call_ensures(
            validate_chat_completion::<R, T>,
            (document, pricing, raw_cost, round_cost),
            result,
        ),
    ensures
        match result {
            Ok(answer) => {
                &&& reports(
                    json::json_tree(*document),
                    answer.model_used@,
                    answer.content@,
                    answer.finish_reason@,
                    answer.prompt_tokens,
                    answer.completion_tokens,
                )
                &&& answer.role@ == "assistant"@
                &&& pricing matches Some(prices) && is_priced(Some(*prices)) && is_cost(
                    answer.prompt_tokens,
                    answer.completion_tokens,
                    *prices,
                    raw_cost,
                    round_cost,
                    answer.total_cost,
                )
                &&& is_amount(answer.total_cost)
            },
            Err(error) => {
                &&& error is InvalidUpstreamResult || error is MissingPricing
                &&& error is MissingPricing ==> pricing is None || !is_priced(
                    Some(*pricing.unwrap()),
                )
            },
        },
{
}

/// A document that reports nothing usable is refused as an invalid upstream
/// result, whatever the prices.
pub proof fn law_unusable_answer_is_refused<
    R: Fn(i64, i64, ModelPricing) -> Float64,
    T: Fn(Float64) -> Float64,
>(
    document: &serde_json::Value,
    pricing: Option<&ModelPricing>,
    raw_cost: R,
    round_cost: T,
    result: Result<ExecutionResult, ExecutorError>,
)
    requires
        call_ensures(
            validate_chat_completion::<R, T>,
            (document, pricing, raw_cost, round_cost),
            result,
        ),
        forall|
            model: Seq<char>,
            content: Seq<char>,
            finish_reason: Seq<char>,
            prompt_tokens: i64,
            completion_tokens: i64,
        |
            !#[trigger] reports(
                json::json_tree(*document),
                model,
                content,
                finish_reason,
                prompt_tokens,
                completion_tokens,
            ),
    ensures
        result == Err::<ExecutionResult, ExecutorError>(ExecutorError::InvalidUpstreamResult),
{
    let tree = json::json_tree(*document);
    if let Some(seen) = openai_response::completion_of(tree) {
        assert(reports(
            tree,
            seen.model_used,
            seen.content,
            seen.finish_reason,
            seen.prompt_tokens,
            seen.completion_tokens,
        ));
    }
}

/// A body that is JSON is read as its document is, at the prices of the target
/// that was called; one that is not is a protocol error that quotes nothing of
/// it.
pub proof fn law_answer_is_read_from_its_body<
    R: Fn(i64, i64, ModelPricing) -> Float64,
    T: Fn(Float64) -> Float64,
>(
    vendor: &OpenAIVendor,
    body: &[u8],
    target: &str,
    raw_cost: R,
    round_cost: T,
    result: Result<ExecutionResult, ExecutorError>,
    model: Seq<char>,
    content: Seq<char>,
    finish_reason: Seq<char>,
    prompt_tokens: i64,
    completion_tokens: i64,
)
    requires
        call_ensures(
            OpenAIVendor::complete::<R, T>,
            (vendor, body, target, raw_cost, round_cost),
            result,
        ),
        stays_finite(raw_cost, round_cost),
    ensures
        json::json_document(body@) is None ==> (result matches Err(ExecutorError::JsonError(detail))
            && detail@ == "malformed upstream JSON"@),
        json::json_document(body@) matches Some(document) && reports(
            document,
            model,
            content,
            finish_reason,
            prompt_tokens,
            completion_tokens,
        ) ==> if vendor.config.pricing@.contains_key(target@) && is_priced(
            Some(vendor.config.pricing@[target@]),
        ) {
            result matches Ok(answer) && {
                &&& answer.model_used@ == model
                &&& answer.content@ == content
                &&& answer.role@ == "assistant"@
                &&& answer.finish_reason@ == finish_reason
                &&& answer.prompt_tokens == prompt_tokens
                &&& answer.completion_tokens == completion_tokens
                &&& is_cost(
                    prompt_tokens,
                    completion_tokens,
                    vendor.config.pricing@[target@],
                    raw_cost,
                    round_cost,
                    answer.total_cost,
                )
            }
        } else {
            result == Err::<ExecutionResult, ExecutorError>(ExecutorError::MissingPricing)
        },
{
}

/// Parsing a body is validating its document.
pub proof fn law_parsing_validates_the_document<
    R: Fn(i64, i64, ModelPricing) -> Float64,
    T: Fn(Float64) -> Float64,
>(
    body: &[u8],
    document: &serde_json::Value,
    pricing: Option<&ModelPricing>,
    raw_cost: R,
    round_cost: T,
    parsed: Result<ExecutionResult, ExecutorError>,
    validated: Result<ExecutionResult, ExecutorError>,
)
    requires
        call_ensures(
            parse_successful_chat_completion::<R, T>,
            (body, pricing, raw_cost, round_cost),
            parsed,
        ),
        call_ensures(
            validate_chat_completion::<R, T>,
            (document, pricing, raw_cost, round_cost),
            validated,
        ),
        json::json_document(body@) == Some(json::json_tree(*document)),
        stays_finite(raw_cost, round_cost),
    ensures
        parsed is Ok <==> validated is Ok,
        parsed matches Err(error) ==> validated == Err::<ExecutionResult, ExecutorError>(error),
        parsed is Ok ==> {
            let (a, b) = (parsed->Ok_0, validated->Ok_0);
            &&& a.content@ == b.content@ && a.role@ == b.role@ && a.model_used@ == b.model_used@
            &&& a.finish_reason@ == b.finish_reason@
            &&& a.prompt_tokens == b.prompt_tokens && a.completion_tokens == b.completion_tokens
        },
{
}

/// Usage costs the rounded estimate at the given prices. Absent or unusable
/// prices fail as missing and never count as free; negative usage is refused.
pub proof fn law_usage_is_priced_or_refused<
    R: Fn(i64, i64, ModelPricing) -> Float64,
    T: Fn(Float64) -> Float64,
>(
    prompt_tokens: i64,
    completion_tokens: i64,
    pricing: Option<&ModelPricing>,
    raw_cost: R,
    round_cost: T,
    result: Result<Float64, ExecutorError>,
)
    requires
        call_ensures(
            estimate_successful_response_cost::<R, T>,
            (prompt_tokens, completion_tokens, pricing, raw_cost, round_cost),
            result,
        ),
    ensures
        match pricing {
            None => result == Err::<Float64, ExecutorError>(ExecutorError::MissingPricing),
            Some(prices) => if prompt_tokens < 0 || completion_tokens < 0 {
                result == Err::<Float64, ExecutorError>(ExecutorError::InvalidUpstreamResult)
            } else if !is_priced(Some(*prices)) {
                result == Err::<Float64, ExecutorError>(ExecutorError::MissingPricing)
            } else {
                &&& stays_finite(raw_cost, round_cost) ==> result is Ok
                &&& match result {
                    Ok(cost) => is_amount(cost) && is_cost(
                        prompt_tokens,
                        completion_tokens,
                        *prices,
                        raw_cost,
                        round_cost,
                        cost,
                    ),
                    Err(error) => error is InvalidUpstreamResult,
                }
            },
        },
{
}

/// A target's cost is estimated at that target's own prices.
pub proof fn law_each_target_has_its_own_prices<
    R: Fn(i64, i64, ModelPricing) -> Float64,
    T: Fn(Float64) -> Float64,
>(
    vendor: &OpenAIVendor,
    prompt_tokens: i64,
    completion_tokens: i64,
    target: &str,
    raw_cost: R,
    round_cost: T,
    result: Result<Float64, ExecutorError>,
)
    requires
        call_ensures(
            OpenAIVendor::calculate_cost::<R, T>,
            (vendor, prompt_tokens, completion_tokens, target, raw_cost, round_cost),
            result,
        ),
        prompt_tokens >= 0,
        completion_tokens >= 0,
        stays_finite(raw_cost, round_cost),
    ensures
        if vendor.config.pricing@.contains_key(target@) && is_priced(
            Some(vendor.config.pricing@[target@]),
        ) {
            result matches Ok(cost) && is_cost(
                prompt_tokens,
                completion_tokens,
                vendor.config.pricing@[target@],
                raw_cost,
                round_cost,
                cost,
            )
        } else {
            result == Err::<Float64, ExecutorError>(ExecutorError::MissingPricing)
        },
{
}

/// A throttled answer whose whole body names an exhausted quota, as the error's
/// code or as its type, is exhausted quota; any other body, and none, leaves the
/// throttling as it was.
pub proof fn law_only_a_named_quota_refines_throttling(
    throttling: ExecutorError,
    body: Option<&[u8]>,
    error: ExecutorError,
)
    requires
        call_ensures(refine_throttling, (throttling, body), error),
    ensures
        ({
            let named = body matches Some(bytes) && json::json_document(bytes@) matches Some(
                document,
            ) && json::member(document, "error"@) matches Some(reason) && (json::member(
                reason,
                "code"@,
            ) == Some(JsonTree::Text("insufficient_quota"@)) || json::member(reason, "type"@)
                == Some(JsonTree::Text("insufficient_quota"@)));
            error == (if named {
                ExecutorError::QuotaExceeded
            } else {
                throttling
            })
        }),
{
}

/// What a status means: success is read, refused credentials, throttling and
/// other client errors are told apart, and everything else is a provider failure
/// that names the status as shown.
pub proof fn law_status_decides(
    vendor: &OpenAIVendor,
    status: u16,
    shown: &str,
    retry_after: Option<&[u8]>,
    now: SystemTime,
    after: AfterHeaders,
)
    requires
        call_ensures(
            OpenAIVendor::classify_headers,
            (vendor, status, shown, retry_after, now),
            after,
        ),
    ensures
        after is ParseBody <==> 200 <= status < 300,
        after is Refine <==> status == 429,
        after matches AfterHeaders::Refine(error) ==> (error matches
            ExecutorError::RateLimitExceeded { vendor: id, .. } && id@ == "openai"@),
        status == 401 || status == 403 ==> (after matches AfterHeaders::Fail(
            ExecutorError::AuthenticationFailed(id),
        ) && id@ == "openai"@),
        400 <= status < 500 && status != 401 && status != 403 && status != 429 ==> (after matches
            AfterHeaders::Fail(error) && error is UpstreamRejected),
        status < 200 || 300 <= status < 400 || status >= 500 ==> (after matches AfterHeaders::Fail(
            ExecutorError::ApiCallFailed(detail),
        ) && detail@ == "OpenAI API error "@ + shown@),
        retry_after is None ==> (after matches AfterHeaders::Refine(error) ==> error matches
            ExecutorError::RateLimitExceeded { retry_after_ms: None, .. }),
{
}

/// A call's request carries the hop's model and the parameters as they are. A
/// model that is not configured and streaming are refused.
pub proof fn law_call_carries_the_parameters(
    vendor: &OpenAIVendor,
    model: &str,
    params: ExecutionParams,
    request: Result<ChatCompletionRequest, ExecutorError>,
)
    requires
        call_ensures(OpenAIVendor::prepare, (vendor, model, params), request),
    ensures
        ({
            let listed = exists|i: int|
                0 <= i < vendor.config.supported_models@.len() && (
                #[trigger] vendor.config.supported_models@[i])@ == model@;
            &&& request is Ok <==> listed && !params.stream
            &&& !listed ==> (request matches Err(ExecutorError::UnsupportedModel(id, asked)) && id@
                == "openai"@ && asked@ == model@)
            &&& listed && params.stream ==> (request matches Err(ExecutorError::InvalidPayload(detail))
                && detail@ == "Streaming is not supported for OpenAI requests"@)
        }),
        request matches Ok(sent) ==> {
            &&& sent.model@ == model@
            &&& sent.messages@ == params.messages@
            &&& sent.temperature == params.temperature
            &&& sent.top_p == params.top_p
            &&& sent.max_tokens == params.max_tokens
        },
{
    let listed = vendor.config.supported_models@;
    let texts = crate::executor::config::texts(listed);
    assert forall|i: int| 0 <= i < listed.len() implies (#[trigger] listed[i])@ == texts[i] by {}
    if texts.contains(model@) {
        let i = choose|i: int| 0 <= i < texts.len() && texts[i] == model@;
        assert(listed[i]@ == model@);
    }
}

/// A call goes to the provider's completions endpoint and a probe to its model
/// list, both below the configured address and with the configured credential.
pub proof fn law_addresses_and_credential(
    vendor: &OpenAIVendor,
    completions: String,
    models: String,
    authorization: String,
)
    requires
        call_ensures(OpenAIVendor::completions_url, (vendor,), completions),
        call_ensures(OpenAIVendor::models_url, (vendor,), models),
        call_ensures(OpenAIVendor::authorization, (vendor,), authorization),
    ensures
        completions@ == vendor.config.base_url@ + "/chat/completions"@,
        models@ == vendor.config.base_url@ + "/models"@,
        authorization@ == "Bearer "@ + vendor.config.api_key@,
{
}

/// A provider is healthy exactly when it answers a probe with status 200; a
/// refused credential, throttling, a timeout and a failed connection are told
/// apart.
pub proof fn law_probe_is_healthy_only_on_success(
    vendor: &OpenAIVendor,
    probe: HealthProbe,
    timeout_secs: u64,
    verdict: Result<(), ExecutorError>,
)
    requires
        call_ensures(OpenAIVendor::classify_health, (vendor, probe, timeout_secs), verdict),
    ensures
        verdict is Ok <==> (probe matches HealthProbe::Answered(status, _) && status == 200),
        probe matches HealthProbe::Answered(status, _) && (status == 401 || status == 403)
            ==> (verdict matches Err(error) && error is AuthenticationFailed),
        probe matches HealthProbe::Answered(status, _) && status == 429 ==> (verdict matches Err(
            error,
        ) && error is RateLimitExceeded),
        probe matches HealthProbe::Answered(status, _) && status != 200 && status != 401 && status
            != 403 && status != 429 ==> (verdict matches Err(error) && error is ApiCallFailed),
        probe is TimedOut && timeout_secs * 1000 <= u64::MAX ==> (verdict matches Err(ExecutorError::TimeoutError(ms)) && ms
            == timeout_secs * 1000),
        probe is Failed ==> (verdict matches Err(error) && error is NetworkError),
        probe matches HealthProbe::Failed { connect, detail } ==> (verdict matches Err(
            ExecutorError::NetworkError(reason),
        ) && reason@ == (if connect {
            "Failed to connect to OpenAI API: "@ + detail@
        } else {
            detail@
        })),
        probe matches HealthProbe::Answered(_, shown) ==> (verdict matches Err(
            ExecutorError::ApiCallFailed(reason),
        ) ==> reason@ == "Health check failed with status: "@ + shown@),
{
}

/// A transport fault is a timeout when it ran out of time, malformed JSON when
/// the answer could not be decoded, a status when the answer's status was taken
/// as the error, and a network failure otherwise; none of these is ever a
/// success or a fault of the request.
pub proof fn law_transport_faults_are_told_apart(fault: TransportFault, error: ExecutorError)
    requires
        call_ensures(ExecutorError::from_transport, (fault,), error),
    ensures
        error is TimeoutError <==> fault.timeout,
        error matches ExecutorError::JsonError(detail) ==> detail@ == "malformed upstream JSON"@,
        error matches ExecutorError::NetworkError(detail) ==> detail@
            == "upstream transport error"@,
        error matches ExecutorError::ApiCallFailed(detail) ==> detail@ == (match fault.status {
            Some((_, shown)) => "HTTP "@ + shown@,
            None => "HTTP status error"@,
        }),
        error is JsonError <==> !fault.timeout && fault.decode,
        error is NetworkError <==> !fault.timeout && !fault.decode && (fault.connect
            || fault.request || !fault.status_error),
        error is AuthenticationFailed ==> (fault.status matches Some((status, _)) && status == 401),
        error is RateLimitExceeded ==> (fault.status matches Some((status, _)) && status == 429),
        !fault.timeout && !fault.decode && !fault.connect && !fault.request && fault.status_error
            ==> match fault.status {
            Some((status, _)) => if status == 401 {
                error is AuthenticationFailed
            } else if status == 429 {
                error is RateLimitExceeded
            } else {
                error is ApiCallFailed
            },
            None => error is ApiCallFailed,
        },
{
}

/// Whether a number is an amount, and whether it lies between zero and a bound
/// that is one, goes by its bits.
pub proof fn law_numbers_are_judged_by_their_bits(
    number: Float64,
    max: Float64,
    amount: bool,
    within: bool,
)
    requires
        call_ensures(Float64::is_finite_nonnegative, (&number,), amount),
        call_ensures(Float64::is_within, (&number, max), within),
        max.bits < 0x7ff0_0000_0000_0000,
    ensures
        amount <==> is_amount(number),
        within <==> number.bits <= max.bits || number.bits == 0x8000_0000_0000_0000,
{
}

/// A document names an exhausted quota by its error's code or type.
pub proof fn law_quota_is_named_by_code_or_type(document: &serde_json::Value, yes: bool)
    requires
        call_ensures(openai_response::is_quota_document, (document,), yes),
    ensures
        yes <==> (json::member(json::json_tree(*document), "error"@) matches Some(reason) && (
        json::member(reason, "code"@) == Some(JsonTree::Text("insufficient_quota"@))
            || json::member(reason, "type"@) == Some(JsonTree::Text("insufficient_quota"@)))),
{
}

/// A vendor supports the models that are listed for it, goes by its own name,
/// and needs a credential that is not blank.
pub proof fn law_vendor_supports_its_list(
    config: OpenAIConfig,
    made: Result<OpenAIVendor, ExecutorError>,
    vendor: &OpenAIVendor,
    id: &str,
    model: &str,
    supported: bool,
)
    requires
        call_ensures(OpenAIVendor::new, (config,), made),
        call_ensures(OpenAIVendor::vendor_id, (vendor,), id),
        call_ensures(OpenAIVendor::supports_model, (vendor, model), supported),
    ensures
        made is Ok <==> !text_laws::all_blank(config.api_key@),
        made matches Ok(vendor) ==> vendor.config == config,
        made matches Err(error) ==> error is InvalidConfiguration,
        id@ == "openai"@,
        supported <==> exists|i: int|
            0 <= i < vendor.config.supported_models@.len() && (
            #[trigger] vendor.config.supported_models@[i])@ == model@,
{
    text_laws::law_blank_texts_are_trimmed_away(config.api_key@);
    let listed = vendor.config.supported_models@;
    let texts = crate::executor::config::texts(listed);
    assert forall|i: int| 0 <= i < listed.len() implies (#[trigger] listed[i])@ == texts[i] by {}
    if texts.contains(model@) {
        let i = choose|i: int| 0 <= i < texts.len() && texts[i] == model@;
        assert(listed[i]@ == model@);
    }
}

} // verus!
