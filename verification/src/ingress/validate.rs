//! Canonical ingress request parsing and validation.

use vstd::prelude::*;
use vstd::string::*;

use crate::common::config::PolicyLimits;
use crate::common::json;
use crate::common::json::{copy_value, encode, shape, JsonTree, Number, Shape};
use crate::common::number::Float64;
use crate::common::text;
use crate::common::text::{decimal, same_text, trim};
use crate::executor::openai_response;
use crate::ingress::constants::{MAX_TEMPERATURE_BITS, MAX_TOP_P_BITS};
use crate::ingress::error::IngressError;
use crate::ingress::service::{GenerationParameters, IngressRequest};

verus! {

/// Why a sampling parameter is not accepted.
pub open spec fn number_fault(
    value: JsonTree,
    field: Seq<char>,
    max: Float64,
    max_text: Seq<char>,
) -> Option<Seq<char>> {
    match value {
        JsonTree::Number(number) => match number.double {
            Some(double) => if double.within(max) {
                None
            } else {
                Some(field + " must be between 0.0 and "@ + max_text)
            },
            None => Some(field + " must be a number"@),
        },
        _ => Some(field + " must be a number"@),
    }
}

/// The token count that a parameter asks for: a positive whole number of at most
/// 32 bits.
pub open spec fn max_tokens_of(value: JsonTree) -> Option<u32> {
    match value {
        JsonTree::Number(number) => match number.unsigned {
            Some(n) => if 0 < n <= u32::MAX {
                Some(n as u32)
            } else {
                None
            },
            None => None,
        },
        _ => None,
    }
}

/// Why a member of `parameters` is not accepted.
pub open spec fn parameter_fault(key: Seq<char>, value: JsonTree) -> Option<Seq<char>> {
    if key == "temperature"@ {
        number_fault(value, "temperature"@, Float64 { bits: MAX_TEMPERATURE_BITS }, "2.0"@)
    } else if key == "top_p"@ {
        number_fault(value, "top_p"@, Float64 { bits: MAX_TOP_P_BITS }, "1.0"@)
    } else if key == "max_tokens"@ {
        if max_tokens_of(value) is Some {
            None
        } else {
            Some("max_tokens must be a positive integer"@)
        }
    } else {
        Some("unknown parameter"@)
    }
}

/// The first fault among the members of `parameters`.
pub open spec fn first_parameter_fault(members: Seq<(Seq<char>, JsonTree)>) -> Option<Seq<char>>
    decreases members.len(),
{
    if members.len() == 0 {
        None
    } else {
        match parameter_fault(members[0].0, members[0].1) {
            Some(fault) => Some(fault),
            None => first_parameter_fault(members.skip(1)),
        }
    }
}

/// Why a request's `parameters` are not accepted.
pub open spec fn parameters_fault(value: JsonTree) -> Option<Seq<char>> {
    match value {
        JsonTree::Object(members) => first_parameter_fault(members),
        _ => Some("parameters must be an object"@),
    }
}

/// Why a top-level member of a request is not accepted.
pub open spec fn control_fault(key: Seq<char>, value: JsonTree) -> Option<Seq<char>> {
    if key == "prompt"@ {
        if value is Text {
            None
        } else {
            Some("prompt must be a string"@)
        }
    } else if key == "metadata"@ {
        None
    } else if key == "route"@ {
        if value is Text {
            None
        } else {
            Some("route must be a string"@)
        }
    } else if key == "allow_fallback"@ {
        if value is Bool {
            None
        } else {
            Some("allow_fallback must be a boolean"@)
        }
    } else if key == "parameters"@ {
        parameters_fault(value)
    } else if key == "stream"@ {
        Some("stream is not supported"@)
    } else if key == "rewrite"@ {
        Some("rewrite is not supported"@)
    } else {
        Some("unknown control"@)
    }
}

/// The first fault among the top-level members.
pub open spec fn first_control_fault(members: Seq<(Seq<char>, JsonTree)>) -> Option<Seq<char>>
    decreases members.len(),
{
    if members.len() == 0 {
        None
    } else {
        match control_fault(members[0].0, members[0].1) {
            Some(fault) => Some(fault),
            None => first_control_fault(members.skip(1)),
        }
    }
}

/// Why a prompt is not accepted. Bounds apply to the text as it was sent.
pub open spec fn prompt_fault(prompt: Seq<char>, limits: PolicyLimits) -> Option<Seq<char>> {
    if text::trimmed(prompt).len() == 0 {
        Some("Prompt cannot be empty"@)
    } else if prompt.len() > limits.max_prompt_chars {
        Some(
            "Prompt exceeds maximum length of "@ + text::decimal_text(
                limits.max_prompt_chars as nat,
            ) + " characters"@,
        )
    } else if vstd::utf8::encode_utf8(prompt).len() > limits.max_prompt_chars {
        Some(
            "Prompt exceeds maximum size of "@ + text::decimal_text(limits.max_prompt_chars as nat)
                + " bytes"@,
        )
    } else {
        None
    }
}

/// The size of metadata as compact JSON.
pub open spec fn metadata_size(metadata: JsonTree) -> nat {
    match json::json_encoding(metadata) {
        Some(bytes) => bytes.len(),
        None => u64::MAX as nat,
    }
}

/// Why metadata is not accepted.
pub open spec fn metadata_fault(metadata: JsonTree, limits: PolicyLimits) -> Option<Seq<char>> {
    if metadata_size(metadata) > limits.max_metadata_bytes {
        Some(
            "Metadata exceeds maximum size of "@ + text::decimal_text(
                limits.max_metadata_bytes as nat,
            ) + " bytes"@,
        )
    } else {
        None
    }
}

/// Why a request body is not accepted; `None` when it is. Members are judged in
/// the order in which the object lists them, which is its map's, then required
/// members, then bounds.
pub open spec fn request_fault(body: JsonTree, limits: PolicyLimits) -> Option<Seq<char>> {
    match body {
        JsonTree::Object(members) => match first_control_fault(members) {
            Some(fault) => Some(fault),
            None => match openai_response::text_of(json::last_member(members, "prompt"@)) {
                None => Some("prompt is required"@),
                Some(prompt) => match json::last_member(members, "metadata"@) {
                    None => Some("metadata is required"@),
                    Some(metadata) => match prompt_fault(prompt, limits) {
                        Some(fault) => Some(fault),
                        None => metadata_fault(metadata, limits),
                    },
                },
            },
        },
        _ => Some("request must be a JSON object"@),
    }
}

/// What an optional JSON value holds.
pub open spec fn optional_tree(value: Option<serde_json::Value>) -> Option<JsonTree> {
    match value {
        Some(value) => Some(json::json_tree(value)),
        None => None,
    }
}

/// The token count that an optional member asks for.
pub open spec fn optional_max_tokens(value: Option<JsonTree>) -> Option<u32> {
    match value {
        Some(tree) => max_tokens_of(tree),
        None => None,
    }
}

/// Whether `parameters` are the accepted ones of an optional object.
pub open spec fn are_parameters_of(
    parameters: GenerationParameters,
    value: Option<JsonTree>,
) -> bool {
    &&& json::optional_number(parameters.temperature) == json::inner_member(value, "temperature"@)
    &&& json::optional_number(parameters.top_p) == json::inner_member(value, "top_p"@)
    &&& parameters.max_tokens == optional_max_tokens(json::inner_member(value, "max_tokens"@))
}

/// The flag that an optional member holds.
pub open spec fn flag_of(value: Option<JsonTree>) -> Option<bool> {
    match value {
        Some(JsonTree::Bool(flag)) => Some(flag),
        _ => None,
    }
}

/// Whether `request` is what an accepted body asks for, unchanged.
pub open spec fn is_request_of(request: IngressRequest, body: JsonTree) -> bool {
    &&& Some(request.prompt@) == openai_response::text_of(json::member(body, "prompt"@))
    &&& Some(json::json_tree(request.metadata)) == json::member(body, "metadata"@)
    &&& text::optional_text(request.route) == openai_response::text_of(json::member(body, "route"@))
    &&& request.allow_fallback == flag_of(json::member(body, "allow_fallback"@))
    &&& are_parameters_of(request.parameters, json::member(body, "parameters"@))
}

/// Whether an error is a rejection of the request with this message.
pub open spec fn is_rejection(error: IngressError, message: Seq<char>) -> bool {
    error matches IngressError::InvalidRequest(shown) && shown@ == message
}

fn reject(message: &str) -> (error: IngressError)
    ensures
        is_rejection(error, message@),
{
    IngressError::InvalidRequest(message.to_owned())
}

fn reject_joined(a: &str, b: &str, c: &str) -> (error: IngressError)
    ensures
        is_rejection(error, a@ + b@ + c@),
{
    let mut message: String = a.to_owned();
    message.append(b);
    message.append(c);
    IngressError::InvalidRequest(message)
}

fn parse_prompt(value: &serde_json::Value) -> (prompt: Result<String, IngressError>)
    ensures
        match prompt {
            Ok(prompt) => json::json_tree(*value) == JsonTree::Text(prompt@),
            Err(error) => !(json::json_tree(*value) is Text) && is_rejection(
                error,
                "prompt must be a string"@,
            ),
        },
{
    match shape(value) {
        Shape::Text(text) => Ok(text.to_owned()),
        _ => Err(reject("prompt must be a string")),
    }
}

fn parse_string_control(value: &serde_json::Value, field: &str) -> (control: Result<
    String,
    IngressError,
>)
    ensures
        match control {
            Ok(control) => json::json_tree(*value) == JsonTree::Text(control@),
            Err(error) => !(json::json_tree(*value) is Text) && is_rejection(
                error,
                field@ + " must be a string"@,
            ),
        },
{
    match shape(value) {
        Shape::Text(text) => Ok(text.to_owned()),
        _ => {
            proof {
                reveal_strlit("");
            }
            Err(reject_joined(field, " must be a string", ""))
        },
    }
}

fn parse_bool_control(value: &serde_json::Value, field: &str) -> (control: Result<
    bool,
    IngressError,
>)
    ensures
        match control {
            Ok(control) => json::json_tree(*value) == JsonTree::Bool(control),
            Err(error) => !(json::json_tree(*value) is Bool) && is_rejection(
                error,
                field@ + " must be a boolean"@,
            ),
        },
{
    match shape(value) {
        Shape::Bool(flag) => Ok(flag),
        _ => {
            proof {
                reveal_strlit("");
            }
            Err(reject_joined(field, " must be a boolean", ""))
        },
    }
}

fn parse_bounded_number(
    value: &serde_json::Value,
    field: &str,
    max: Float64,
    max_text: &str,
) -> (number: Result<Number, IngressError>)
    requires
        max.finite(),
        !max.below_zero(),
    ensures
        match number {
            Ok(number) => {
                &&& number_fault(json::json_tree(*value), field@, max, max_text@) is None
                &&& json::json_tree(*value) == JsonTree::Number(number@)
            },
            Err(error) => {
                &&& number_fault(json::json_tree(*value), field@, max, max_text@) matches Some(
                    fault,
                ) && is_rejection(error, fault)
            },
        },
{
    proof {
        reveal_strlit("");
    }
    match shape(value) {
        Shape::Number(number) => match number.double {
            Some(double) => {
                if double.is_within(max) {
                    match Number::from_value(copy_value(value)) {
                        Some(number) => Ok(number),
                        None => Err(reject_joined(field, " must be a number", "")),
                    }
                } else {
                    Err(reject_joined(field, " must be between 0.0 and ", max_text))
                }
            },
            None => Err(reject_joined(field, " must be a number", "")),
        },
        _ => Err(reject_joined(field, " must be a number", "")),
    }
}

fn parse_max_tokens(value: &serde_json::Value) -> (tokens: Result<u32, IngressError>)
    ensures
        match tokens {
            Ok(tokens) => max_tokens_of(json::json_tree(*value)) == Some(tokens),
            Err(error) => max_tokens_of(json::json_tree(*value)) is None && is_rejection(
                error,
                "max_tokens must be a positive integer"@,
            ),
        },
{
    match shape(value) {
        Shape::Number(number) => match number.unsigned {
            Some(n) => {
                if 0 < n && n <= u32::MAX as u64 {
                    return Ok(n as u32);
                }
            },
            None => {},
        },
        _ => {},
    }
    Err(reject("max_tokens must be a positive integer"))
}

proof fn lemma_last_member_step(
    members: Seq<(Seq<char>, JsonTree)>,
    i: int,
    key: Seq<char>,
)
    requires
        0 <= i < members.len(),
    ensures
        json::last_member(members.take(i + 1), key) == (if members[i].0 == key {
            Some(members[i].1)
        } else {
            json::last_member(members.take(i), key)
        }),
{
    assert(members.take(i + 1).drop_last() =~= members.take(i));
    assert(members.take(i + 1).last() == members[i]);
}

proof fn lemma_controls_are_distinct()
    ensures
        "prompt"@ != "metadata"@,
        "prompt"@ != "route"@,
        "prompt"@ != "allow_fallback"@,
        "prompt"@ != "parameters"@,
        "metadata"@ != "route"@,
        "metadata"@ != "allow_fallback"@,
        "metadata"@ != "parameters"@,
        "route"@ != "allow_fallback"@,
        "route"@ != "parameters"@,
        "allow_fallback"@ != "parameters"@,
{
    reveal_strlit("prompt");
    reveal_strlit("metadata");
    reveal_strlit("route");
    reveal_strlit("allow_fallback");
    reveal_strlit("parameters");
    assert("prompt"@[0] != "metadata"@[0]);
    assert("prompt"@[0] != "route"@[0]);
    assert("prompt"@[0] != "allow_fallback"@[0]);
    assert("prompt"@[1] != "parameters"@[1]);
    assert("metadata"@[0] != "route"@[0]);
    assert("metadata"@[0] != "allow_fallback"@[0]);
    assert("metadata"@[0] != "parameters"@[0]);
    assert("route"@[0] != "allow_fallback"@[0]);
    assert("route"@[0] != "parameters"@[0]);
    assert("allow_fallback"@[0] != "parameters"@[0]);
}

proof fn lemma_parameters_are_distinct()
    ensures
        "temperature"@ != "top_p"@,
        "temperature"@ != "max_tokens"@,
        "top_p"@ != "max_tokens"@,
{
    reveal_strlit("temperature");
    reveal_strlit("top_p");
    reveal_strlit("max_tokens");
    assert("temperature"@[1] != "top_p"@[1]);
    assert("temperature"@[0] != "max_tokens"@[0]);
    assert("top_p"@[0] != "max_tokens"@[0]);
}

fn parse_parameters(value: &serde_json::Value) -> (parameters: Result<
    GenerationParameters,
    IngressError,
>)
    ensures
        match parameters {
            Ok(parameters) => {
                &&& parameters_fault(json::json_tree(*value)) is None
                &&& are_parameters_of(parameters, Some(json::json_tree(*value)))
            },
            Err(error) => parameters_fault(json::json_tree(*value)) matches Some(fault)
                && is_rejection(error, fault),
        },
{
    let members: Vec<(&str, &serde_json::Value)> = match shape(value) {
        Shape::Object(members) => members,
        _ => {
            return Err(reject("parameters must be an object"));
        },
    };
    let ghost all = json::listed(members@);
    let mut parameters: GenerationParameters = GenerationParameters {
        temperature: None,
        top_p: None,
        max_tokens: None,
    };
    let mut i: usize = 0;
    proof {
        assert(all.skip(0) =~= all);
        assert(all.take(0) =~= Seq::empty());
        lemma_parameters_are_distinct();
    }
    while i < members.len()
        invariant
            i <= members.len(),
            all == json::listed(members@),
            json::json_tree(*value) == JsonTree::Object(all),
            first_parameter_fault(all) == first_parameter_fault(all.skip(i as int)),
            json::optional_number(parameters.temperature) == json::last_member(
                all.take(i as int),
                "temperature"@,
            ),
            json::optional_number(parameters.top_p) == json::last_member(all.take(i as int), "top_p"@),
            parameters.max_tokens == optional_max_tokens(
                json::last_member(all.take(i as int), "max_tokens"@),
            ),
            "temperature"@ != "top_p"@,
            "temperature"@ != "max_tokens"@,
            "top_p"@ != "max_tokens"@,
        decreases members.len() - i,
    {
        let (key, member): (&str, &serde_json::Value) = members[i];
        proof {
            assert(all[i as int] == (key@, json::json_tree(*member)));
            assert(all.skip(i as int)[0] == all[i as int]);
            assert(all.skip(i as int).skip(1) =~= all.skip(i + 1));
            lemma_last_member_step(all, i as int, "temperature"@);
            lemma_last_member_step(all, i as int, "top_p"@);
            lemma_last_member_step(all, i as int, "max_tokens"@);
        }
        if same_text(key, "temperature") {
            match parse_bounded_number(
                member,
                "temperature",
                Float64 { bits: MAX_TEMPERATURE_BITS },
                "2.0",
            ) {
                Ok(number) => {
                    parameters.temperature = Some(number);
                },
                Err(error) => {
                    return Err(error);
                },
            }
        } else if same_text(key, "top_p") {
            match parse_bounded_number(member, "top_p", Float64 { bits: MAX_TOP_P_BITS }, "1.0") {
                Ok(number) => {
                    parameters.top_p = Some(number);
                },
                Err(error) => {
                    return Err(error);
                },
            }
        } else if same_text(key, "max_tokens") {
            match parse_max_tokens(member) {
                Ok(tokens) => {
                    parameters.max_tokens = Some(tokens);
                },
                Err(error) => {
                    return Err(error);
                },
            }
        } else {
            return Err(reject("unknown parameter"));
        }
        i += 1;
    }
    assert(all.take(all.len() as int) =~= all);
    Ok(parameters)
}

fn validate_prompt_bounds(prompt: &str, limits: &PolicyLimits) -> (verdict: Result<
    (),
    IngressError,
>)
    ensures
        match verdict {
            Ok(()) => prompt_fault(prompt@, *limits) is None,
            Err(error) => prompt_fault(prompt@, *limits) matches Some(fault) && is_rejection(
                error,
                fault,
            ),
        },
{
    if trim(prompt).is_empty() {
        return Err(reject("Prompt cannot be empty"));
    }
    let char_count: usize = prompt.unicode_len();
    let bound: String = decimal(limits.max_prompt_chars);
    if char_count as u64 > limits.max_prompt_chars {
        return Err(
            reject_joined("Prompt exceeds maximum length of ", bound.as_str(), " characters"),
        );
    }
    let byte_count: usize = prompt.as_bytes().len();
    if byte_count as u64 > limits.max_prompt_chars {
        return Err(reject_joined("Prompt exceeds maximum size of ", bound.as_str(), " bytes"));
    }
    Ok(())
}

fn validate_metadata_size(metadata: &serde_json::Value, limits: &PolicyLimits) -> (verdict: Result<
    (),
    IngressError,
>)
    ensures
        match verdict {
            Ok(()) => metadata_fault(json::json_tree(*metadata), *limits) is None,
            Err(error) => metadata_fault(json::json_tree(*metadata), *limits) matches Some(fault)
                && is_rejection(error, fault),
        },
{
    let size: u64 = match encode(metadata) {
        Some(bytes) => bytes.len() as u64,
        None => u64::MAX,
    };
    if size > limits.max_metadata_bytes {
        let bound: String = decimal(limits.max_metadata_bytes);
        return Err(reject_joined("Metadata exceeds maximum size of ", bound.as_str(), " bytes"));
    }
    Ok(())
}

/// Parses and validates a `POST /api/v1/route` JSON object.
///
/// Unknown top-level controls and unsupported `stream`/`rewrite` fields are
/// rejected. Prompt bounds use the original untrimmed string. Parameter range
/// checks happen here; the selected target token cap is enforced after routing.
///
/// # Errors
/// Returns `InvalidRequest` for missing fields, wrong types, unknown controls,
/// unsupported rewrite/stream flags, empty prompts, and out-of-range values.
pub fn parse_ingress_request(body: &serde_json::Value, limits: &PolicyLimits) -> (request: Result<
    IngressRequest,
    IngressError,
>)
    ensures
        match request {
            Ok(request) => {
                &&& request_fault(json::json_tree(*body), *limits) is None
                &&& is_request_of(request, json::json_tree(*body))
            },
            Err(error) => request_fault(json::json_tree(*body), *limits) matches Some(fault)
                && is_rejection(error, fault),
        },
{
    let members: Vec<(&str, &serde_json::Value)> = match shape(body) {
        Shape::Object(members) => members,
        _ => {
            return Err(reject("request must be a JSON object"));
        },
    };
    let ghost all = json::listed(members@);
    let mut prompt: Option<String> = None;
    let mut metadata: Option<serde_json::Value> = None;
    let mut route: Option<String> = None;
    let mut allow_fallback: Option<bool> = None;
    let mut parameters: GenerationParameters = GenerationParameters {
        temperature: None,
        top_p: None,
        max_tokens: None,
    };
    let mut i: usize = 0;
    proof {
        assert(all.skip(0) =~= all);
        assert(all.take(0) =~= Seq::empty());
    }
    while i < members.len()
        invariant
            i <= members.len(),
            all == json::listed(members@),
            json::json_tree(*body) == JsonTree::Object(all),
            first_control_fault(all) == first_control_fault(all.skip(i as int)),
            text::optional_text(prompt) == openai_response::text_of(
                json::last_member(all.take(i as int), "prompt"@),
            ),
            optional_tree(metadata) == json::last_member(all.take(i as int), "metadata"@),
            text::optional_text(route) == openai_response::text_of(
                json::last_member(all.take(i as int), "route"@),
            ),
            allow_fallback == flag_of(json::last_member(all.take(i as int), "allow_fallback"@)),
            are_parameters_of(
                parameters,
                json::last_member(all.take(i as int), "parameters"@),
            ),
        decreases members.len() - i,
    {
        let (key, member): (&str, &serde_json::Value) = members[i];
        proof {
            lemma_controls_are_distinct();
            assert(all[i as int] == (key@, json::json_tree(*member)));
            assert(all.skip(i as int)[0] == all[i as int]);
            assert(all.skip(i as int).skip(1) =~= all.skip(i + 1));
            lemma_last_member_step(all, i as int, "prompt"@);
            lemma_last_member_step(all, i as int, "metadata"@);
            lemma_last_member_step(all, i as int, "route"@);
            lemma_last_member_step(all, i as int, "allow_fallback"@);
            lemma_last_member_step(all, i as int, "parameters"@);
        }
        if same_text(key, "prompt") {
            match parse_prompt(member) {
                Ok(text) => {
                    prompt = Some(text);
                },
                Err(error) => {
                    return Err(error);
                },
            }
        } else if same_text(key, "metadata") {
            metadata = Some(copy_value(member));
        } else if same_text(key, "route") {
            match parse_string_control(member, "route") {
                Ok(text) => {
                    route = Some(text);
                },
                Err(error) => {
                    proof {
                        reveal_strlit("route");
                        reveal_strlit(" must be a string");
                        reveal_strlit("route must be a string");
                        assert("route"@ + " must be a string"@ =~= "route must be a string"@);
                    }
                    return Err(error);
                },
            }
        } else if same_text(key, "allow_fallback") {
            match parse_bool_control(member, "allow_fallback") {
                Ok(flag) => {
                    allow_fallback = Some(flag);
                },
                Err(error) => {
                    proof {
                        reveal_strlit("allow_fallback");
                        reveal_strlit(" must be a boolean");
                        reveal_strlit("allow_fallback must be a boolean");
                        assert("allow_fallback"@ + " must be a boolean"@
                            =~= "allow_fallback must be a boolean"@);
                    }
                    return Err(error);
                },
            }
        } else if same_text(key, "parameters") {
            match parse_parameters(member) {
                Ok(parsed) => {
                    parameters = parsed;
                },
                Err(error) => {
                    return Err(error);
                },
            }
        } else if same_text(key, "stream") {
            return Err(reject("stream is not supported"));
        } else if same_text(key, "rewrite") {
            return Err(reject("rewrite is not supported"));
        } else {
            return Err(reject("unknown control"));
        }
        i += 1;
    }
    assert(all.take(all.len() as int) =~= all);
    let prompt: String = match prompt {
        Some(prompt) => prompt,
        None => {
            return Err(reject("prompt is required"));
        },
    };
    let metadata: serde_json::Value = match metadata {
        Some(metadata) => metadata,
        None => {
            return Err(reject("metadata is required"));
        },
    };
    match validate_prompt_bounds(prompt.as_str(), limits) {
        Ok(()) => {},
        Err(error) => {
            return Err(error);
        },
    }
    match validate_metadata_size(&metadata, limits) {
        Ok(()) => {},
        Err(error) => {
            return Err(error);
        },
    }
    Ok(IngressRequest { prompt, metadata, route, allow_fallback, parameters })
}

/// Members are without fault exactly when each of them is.
pub proof fn lemma_no_control_fault(members: Seq<(Seq<char>, JsonTree)>)
    ensures
        first_control_fault(members) is None <==> forall|i: int|
            0 <= i < members.len() ==> control_fault(
                (#[trigger] members[i]).0,
                members[i].1,
            ) is None,
    decreases members.len(),
{
    if members.len() > 0 {
        let rest = members.skip(1);
        lemma_no_control_fault(rest);
        assert forall|i: int| 0 <= i < rest.len() implies #[trigger] rest[i] == members[i + 1] by {}
        if first_control_fault(members) is None {
            assert forall|i: int| 0 <= i < members.len() implies control_fault(
                (#[trigger] members[i]).0,
                members[i].1,
            ) is None by {
                if i > 0 {
                    assert(rest[i - 1] == members[i]);
                }
            }
        } else if control_fault(members[0].0, members[0].1) is None {
            let i = choose|i: int|
                0 <= i < rest.len() && control_fault((#[trigger] rest[i]).0, rest[i].1) is Some;
            assert(control_fault(members[i + 1].0, members[i + 1].1) is Some);
        }
    }
}

proof fn lemma_controls_carry_over(
    a: Seq<(Seq<char>, JsonTree)>,
    b: Seq<(Seq<char>, JsonTree)>,
)
    requires
        json::distinct_keys(b),
        forall|key: Seq<char>| #[trigger]
            json::last_member(a, key) == json::last_member(b, key),
        first_control_fault(a) is None,
    ensures
        first_control_fault(b) is None,
{
    lemma_no_control_fault(a);
    lemma_no_control_fault(b);
    assert forall|i: int| 0 <= i < b.len() implies control_fault((#[trigger] b[i]).0, b[i].1)
        is None by {
        json::lemma_listed_member(b, i);
        json::lemma_member_is_listed(a, b[i].0);
    }
}

/// The order of a request's members does not decide whether it is accepted: two
/// bodies that list each key once and hold the same members are accepted or
/// rejected alike.
pub proof fn law_member_order_does_not_decide(
    a: Seq<(Seq<char>, JsonTree)>,
    b: Seq<(Seq<char>, JsonTree)>,
    limits: PolicyLimits,
)
    requires
        json::distinct_keys(a),
        json::distinct_keys(b),
        forall|key: Seq<char>| #[trigger]
            json::last_member(a, key) == json::last_member(b, key),
    ensures
        request_fault(JsonTree::Object(a), limits) is None <==> request_fault(
            JsonTree::Object(b),
            limits,
        ) is None,
{
    if first_control_fault(a) is None {
        lemma_controls_carry_over(a, b);
    }
    if first_control_fault(b) is None {
        lemma_controls_carry_over(b, a);
    }
}

} // verus!
