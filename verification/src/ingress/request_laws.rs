//! What a client's request leads to, in terms of what the client sent.

use vstd::prelude::*;

use crate::common::config::{Catalog, PolicyLimits};
use crate::common::contracts::RoutePlan;
use crate::common::json;
use crate::common::json::{JsonNumber, JsonTree};
use crate::common::text;
use crate::common::text_laws;
use crate::executor::error::ExecutorError;
use crate::executor::models::{ExecutionParams, ExecutionResult};
use crate::executor::params;
use crate::executor::params::extract_params;
use crate::ingress::error::IngressError;
use crate::ingress::handler::accept_request;
use crate::ingress::routing;
use crate::ingress::routing::{resolve_route, ResolvedRoute};
use crate::ingress::service::{
    answer_request, generation_payload, plan_request, GenerationParameters, IngressRequest,
    IngressResponse, IngressService, PlannedRequest,
};
use crate::ingress::validate;
use crate::ingress::validate::parse_ingress_request;
use crate::middleware::auth::ApiKeyKind;

verus! {

/// Whether a value is a number from zero up to the double with these bits. The
/// sign bit alone is negative zero.
pub open spec fn is_number_up_to(value: JsonTree, max_bits: u64) -> bool {
    value matches JsonTree::Number(number) && number.double matches Some(double) && (double.bits
        <= max_bits || double.bits == 0x8000_0000_0000_0000)
}

/// Whether a member may stand in `parameters`: a temperature from 0.0 to 2.0, a
/// top_p from 0.0 to 1.0, or a positive 32-bit completion length.
pub open spec fn is_parameter(key: Seq<char>, value: JsonTree) -> bool {
    ||| key == "temperature"@ && is_number_up_to(value, 0x4000_0000_0000_0000)
    ||| key == "top_p"@ && is_number_up_to(value, 0x3ff0_0000_0000_0000)
    ||| key == "max_tokens"@ && (value matches JsonTree::Number(number)
        && number.unsigned matches Some(tokens) && 1 <= tokens <= u32::MAX)
}

/// Whether a member may stand in a request.
pub open spec fn is_control(key: Seq<char>, value: JsonTree) -> bool {
    ||| key == "prompt"@ && value is Text
    ||| key == "metadata"@
    ||| key == "route"@ && value is Text
    ||| key == "allow_fallback"@ && value is Bool
    ||| key == "parameters"@ && (value matches JsonTree::Object(members) && forall|i: int|
        0 <= i < members.len() ==> is_parameter((#[trigger] members[i]).0, members[i].1))
}

/// Whether a body is an object of known members that has a prompt and metadata
/// within bounds, where some character of the prompt is not blank.
pub open spec fn is_acceptable(body: JsonTree, limits: PolicyLimits) -> bool {
    &&& body matches JsonTree::Object(members) && forall|i: int|
        0 <= i < members.len() ==> is_control((#[trigger] members[i]).0, members[i].1)
    &&& json::member(body, "prompt"@) matches Some(JsonTree::Text(prompt)) && {
        &&& !text_laws::all_blank(prompt)
        &&& prompt.len() <= limits.max_prompt_chars
        &&& vstd::utf8::encode_utf8(prompt).len() <= limits.max_prompt_chars
    }
    &&& json::member(body, "metadata"@) matches Some(metadata) && match json::json_encoding(
        metadata,
    ) {
        Some(bytes) => bytes.len() <= limits.max_metadata_bytes,
        None => limits.max_metadata_bytes == u64::MAX,
    }
}

proof fn lemma_keys()
    ensures
        "prompt"@.len() == 6,
        "metadata"@.len() == 8,
        "route"@.len() == 5,
        "allow_fallback"@.len() == 14,
        "parameters"@.len() == 10,
        "stream"@.len() == 6,
        "rewrite"@.len() == 7,
        "prompt"@ != "stream"@,
        "temperature"@.len() == 11,
        "top_p"@.len() == 5,
        "max_tokens"@.len() == 10,
{
    reveal_strlit("prompt");
    reveal_strlit("metadata");
    reveal_strlit("route");
    reveal_strlit("allow_fallback");
    reveal_strlit("parameters");
    reveal_strlit("stream");
    reveal_strlit("rewrite");
    reveal_strlit("temperature");
    reveal_strlit("top_p");
    reveal_strlit("max_tokens");
    assert("prompt"@[0] != "stream"@[0]);
}

proof fn lemma_parameter(key: Seq<char>, value: JsonTree)
    ensures
        validate::parameter_fault(key, value) is None <==> is_parameter(key, value),
{
    lemma_keys();
}

proof fn lemma_parameters(members: Seq<(Seq<char>, JsonTree)>)
    ensures
        validate::first_parameter_fault(members) is None <==> forall|i: int|
            0 <= i < members.len() ==> is_parameter((#[trigger] members[i]).0, members[i].1),
    decreases members.len(),
{
    if members.len() > 0 {
        let rest = members.skip(1);
        lemma_parameter(members[0].0, members[0].1);
        lemma_parameters(rest);
        if validate::first_parameter_fault(members) is None {
            assert forall|i: int| 0 <= i < members.len() implies is_parameter(
                (#[trigger] members[i]).0,
                members[i].1,
            ) by {
                if i > 0 {
                    assert(rest[i - 1] == members[i]);
                }
            }
        } else if is_parameter(members[0].0, members[0].1) {
            let i = choose|i: int|
                0 <= i < rest.len() && !is_parameter((#[trigger] rest[i]).0, rest[i].1);
            assert(!is_parameter(members[i + 1].0, members[i + 1].1));
        }
    }
}

proof fn lemma_control(key: Seq<char>, value: JsonTree)
    ensures
        validate::control_fault(key, value) is None <==> is_control(key, value),
{
    lemma_keys();
    if let JsonTree::Object(members) = value {
        lemma_parameters(members);
    }
}

proof fn lemma_acceptable(body: JsonTree, limits: PolicyLimits)
    ensures
        validate::request_fault(body, limits) is None <==> is_acceptable(body, limits),
{
    if let JsonTree::Object(members) = body {
        validate::lemma_no_control_fault(members);
        assert forall|i: int| 0 <= i < members.len() implies (validate::control_fault(
            (#[trigger] members[i]).0,
            members[i].1,
        ) is None <==> is_control(members[i].0, members[i].1)) by {
            lemma_control(members[i].0, members[i].1);
        }
        if let Some(JsonTree::Text(prompt)) = json::member(body, "prompt"@) {
            text_laws::law_blank_texts_are_trimmed_away(prompt);
        }
    }
}

/// A body is accepted exactly when all its members are known and well formed,
/// prompt and metadata are there, and both are within bounds; every other is an
/// invalid request.
pub proof fn law_acceptable_requests_are_accepted(
    body: &serde_json::Value,
    limits: &PolicyLimits,
    request: Result<IngressRequest, IngressError>,
)
    requires
        call_ensures(parse_ingress_request, (body, limits), request),
    ensures
        request is Ok <==> is_acceptable(json::json_tree(*body), *limits),
        request matches Err(error) ==> error is InvalidRequest,
{
    lemma_acceptable(json::json_tree(*body), *limits);
}

/// An accepted request is what the client sent: the prompt and the metadata as
/// they are, and each optional control as given, either value of a flag
/// included, or absent when it was not.
pub proof fn law_accepted_request_is_what_was_sent(
    body: &serde_json::Value,
    limits: &PolicyLimits,
    request: IngressRequest,
    flag: bool,
    name: Seq<char>,
)
    requires
        call_ensures(
            parse_ingress_request,
            (body, limits),
            Ok::<IngressRequest, IngressError>(request),
        ),
    ensures
        json::member(json::json_tree(*body), "prompt"@) == Some(JsonTree::Text(request.prompt@)),
        json::member(json::json_tree(*body), "metadata"@) == Some(
            json::json_tree(request.metadata),
        ),
        json::member(json::json_tree(*body), "allow_fallback"@) == Some(JsonTree::Bool(flag))
            <==> request.allow_fallback == Some(flag),
        json::member(json::json_tree(*body), "allow_fallback"@) is None
            <==> request.allow_fallback is None,
        json::member(json::json_tree(*body), "route"@) == Some(JsonTree::Text(name)) <==> (
        request.route matches Some(route) && route@ == name),
        json::member(json::json_tree(*body), "route"@) is None <==> request.route is None,
{
    let tree = json::json_tree(*body);
    lemma_acceptable(tree, *limits);
    let members = tree->Object_0;
    if json::member(tree, "allow_fallback"@) is Some {
        json::lemma_member_is_listed(members, "allow_fallback"@);
        lemma_keys();
    }
    if json::member(tree, "route"@) is Some {
        json::lemma_member_is_listed(members, "route"@);
        lemma_keys();
    }
}

/// The same of the generation parameters: a number is kept as it was sent, and a
/// completion length is the whole number that was asked for.
pub proof fn law_accepted_parameters_are_what_was_sent(
    body: &serde_json::Value,
    limits: &PolicyLimits,
    request: IngressRequest,
    number: JsonNumber,
)
    requires
        call_ensures(
            parse_ingress_request,
            (body, limits),
            Ok::<IngressRequest, IngressError>(request),
        ),
    ensures
        ({
            let sent = |key: Seq<char>|
                match json::member(json::json_tree(*body), "parameters"@) {
                    Some(parameters) => json::member(parameters, key),
                    None => None,
                };
            let asked = request.parameters;
            &&& sent("temperature"@) is None <==> asked.temperature is None
            &&& sent("temperature"@) == Some(JsonTree::Number(number)) <==> (
            asked.temperature matches Some(kept) && kept@ == number)
            &&& sent("top_p"@) is None <==> asked.top_p is None
            &&& sent("top_p"@) == Some(JsonTree::Number(number)) <==> (asked.top_p matches Some(
                kept,
            ) && kept@ == number)
            &&& sent("max_tokens"@) is None <==> asked.max_tokens is None
            &&& sent("max_tokens"@) == Some(JsonTree::Number(number)) ==> (
            asked.max_tokens matches Some(tokens) && number.unsigned == Some(tokens as u64))
        }),
{
    let tree = json::json_tree(*body);
    lemma_acceptable(tree, *limits);
    let members = tree->Object_0;
    if json::member(tree, "parameters"@) is Some {
        json::lemma_member_is_listed(members, "parameters"@);
        lemma_keys();
        let listed = json::member(tree, "parameters"@).unwrap()->Object_0;
        if json::last_member(listed, "max_tokens"@) is Some {
            json::lemma_member_is_listed(listed, "max_tokens"@);
        }
        if json::last_member(listed, "temperature"@) is Some {
            json::lemma_member_is_listed(listed, "temperature"@);
        }
        if json::last_member(listed, "top_p"@) is Some {
            json::lemma_member_is_listed(listed, "top_p"@);
        }
    }
}

/// What is said of a parameter that may not stand there.
pub open spec fn parameter_message(key: Seq<char>, value: JsonTree) -> Seq<char> {
    let readable = value matches JsonTree::Number(number) && number.double is Some;
    if key == "temperature"@ {
        if readable {
            "temperature must be between 0.0 and 2.0"@
        } else {
            "temperature must be a number"@
        }
    } else if key == "top_p"@ {
        if readable {
            "top_p must be between 0.0 and 1.0"@
        } else {
            "top_p must be a number"@
        }
    } else if key == "max_tokens"@ {
        "max_tokens must be a positive integer"@
    } else {
        "unknown parameter"@
    }
}

proof fn lemma_parameter_message(key: Seq<char>, value: JsonTree)
    requires
        !is_parameter(key, value),
    ensures
        validate::parameter_fault(key, value) == Some(parameter_message(key, value)),
{
    lemma_keys();
    reveal_strlit("temperature");
    reveal_strlit("top_p");
    reveal_strlit(" must be between 0.0 and ");
    reveal_strlit(" must be a number");
    reveal_strlit("2.0");
    reveal_strlit("1.0");
    reveal_strlit("temperature must be between 0.0 and 2.0");
    reveal_strlit("temperature must be a number");
    reveal_strlit("top_p must be between 0.0 and 1.0");
    reveal_strlit("top_p must be a number");
    assert("temperature"@ + " must be between 0.0 and "@ + "2.0"@
        =~= "temperature must be between 0.0 and 2.0"@);
    assert("temperature"@ + " must be a number"@ =~= "temperature must be a number"@);
    assert("top_p"@ + " must be between 0.0 and "@ + "1.0"@
        =~= "top_p must be between 0.0 and 1.0"@);
    assert("top_p"@ + " must be a number"@ =~= "top_p must be a number"@);
}

proof fn lemma_first_parameter(members: Seq<(Seq<char>, JsonTree)>, i: int)
    requires
        0 <= i < members.len(),
        forall|k: int|
            0 <= k < i ==> is_parameter((#[trigger] members[k]).0, members[k].1),
        !is_parameter(members[i].0, members[i].1),
    ensures
        validate::first_parameter_fault(members) == Some(
            parameter_message(members[i].0, members[i].1),
        ),
    decreases i,
{
    lemma_parameter(members[0].0, members[0].1);
    if i == 0 {
        lemma_parameter_message(members[0].0, members[0].1);
    } else {
        let rest = members.skip(1);
        assert(is_parameter(members[0].0, members[0].1));
        assert forall|k: int| 0 <= k < i - 1 implies is_parameter(
            (#[trigger] rest[k]).0,
            rest[k].1,
        ) by {
            assert(rest[k] == members[k + 1]);
        }
        lemma_first_parameter(rest, i - 1);
    }
}

/// What is said of a member that may not stand in a request, where `at` is the
/// place of the first parameter that may not stand among `parameters`.
pub open spec fn control_message(key: Seq<char>, value: JsonTree, at: int) -> Seq<char> {
    if key == "prompt"@ {
        "prompt must be a string"@
    } else if key == "route"@ {
        "route must be a string"@
    } else if key == "allow_fallback"@ {
        "allow_fallback must be a boolean"@
    } else if key == "parameters"@ {
        match value {
            JsonTree::Object(members) => parameter_message(members[at].0, members[at].1),
            _ => "parameters must be an object"@,
        }
    } else if key == "stream"@ {
        "stream is not supported"@
    } else if key == "rewrite"@ {
        "rewrite is not supported"@
    } else {
        "unknown control"@
    }
}

proof fn lemma_first_control(members: Seq<(Seq<char>, JsonTree)>, i: int, at: int)
    requires
        0 <= i < members.len(),
        forall|k: int| 0 <= k < i ==> is_control((#[trigger] members[k]).0, members[k].1),
        !is_control(members[i].0, members[i].1),
        members[i].0 == "parameters"@ ==> (members[i].1 matches JsonTree::Object(parameters)
            ==> 0 <= at < parameters.len() && !is_parameter(parameters[at].0, parameters[at].1)
            && forall|k: int|
            0 <= k < at ==> is_parameter((#[trigger] parameters[k]).0, parameters[k].1)),
    ensures
        validate::first_control_fault(members) == Some(
            control_message(members[i].0, members[i].1, at),
        ),
    decreases i,
{
    lemma_control(members[0].0, members[0].1);
    lemma_keys();
    if i == 0 {
        if members[0].0 == "parameters"@ {
            if let JsonTree::Object(parameters) = members[0].1 {
                lemma_first_parameter(parameters, at);
            }
        }
    } else {
        let rest = members.skip(1);
        assert(is_control(members[0].0, members[0].1));
        assert forall|k: int| 0 <= k < i - 1 implies is_control(
            (#[trigger] rest[k]).0,
            rest[k].1,
        ) by {
            assert(rest[k] == members[k + 1]);
        }
        assert(rest[i - 1] == members[i]);
        lemma_first_control(rest, i - 1, at);
    }
}

/// A refused request is told of the first member, in the order of the object,
/// that may not stand there. Streaming and rewriting are refused by name.
pub proof fn law_first_fault_is_named(
    body: &serde_json::Value,
    limits: &PolicyLimits,
    request: Result<IngressRequest, IngressError>,
    members: Seq<(Seq<char>, JsonTree)>,
    i: int,
    at: int,
)
    requires
        call_ensures(parse_ingress_request, (body, limits), request),
        json::json_tree(*body) == JsonTree::Object(members),
        0 <= i < members.len(),
        forall|k: int| 0 <= k < i ==> is_control((#[trigger] members[k]).0, members[k].1),
        !is_control(members[i].0, members[i].1),
        members[i].0 == "parameters"@ ==> (members[i].1 matches JsonTree::Object(parameters)
            ==> 0 <= at < parameters.len() && !is_parameter(parameters[at].0, parameters[at].1)
            && forall|k: int|
            0 <= k < at ==> is_parameter((#[trigger] parameters[k]).0, parameters[k].1)),
    ensures
        request matches Err(IngressError::InvalidRequest(shown)) && shown@ == control_message(
            members[i].0,
            members[i].1,
            at,
        ),
{
    lemma_first_control(members, i, at);
}

/// A body whose members may all stand is refused for what it lacks or for its
/// size, in this order: no object, no prompt, no metadata, a blank prompt, one
/// that is too long in characters, then in bytes, and metadata that is too
/// large. The bound is named.
pub proof fn law_bounds_are_named(
    body: &serde_json::Value,
    limits: &PolicyLimits,
    request: Result<IngressRequest, IngressError>,
)
    requires
        call_ensures(parse_ingress_request, (body, limits), request),
        json::json_tree(*body) matches JsonTree::Object(members) ==> forall|k: int|
            0 <= k < members.len() ==> is_control((#[trigger] members[k]).0, members[k].1),
    ensures
        request matches Err(IngressError::InvalidRequest(shown)) ==> {
            let tree = json::json_tree(*body);
            let chars = text::decimal_text(limits.max_prompt_chars as nat);
            shown@ == if !(tree is Object) {
                "request must be a JSON object"@
            } else if json::member(tree, "prompt"@) is None {
                "prompt is required"@
            } else if json::member(tree, "metadata"@) is None {
                "metadata is required"@
            } else if text_laws::all_blank(json::member(tree, "prompt"@).unwrap()->Text_0) {
                "Prompt cannot be empty"@
            } else if json::member(tree, "prompt"@).unwrap()->Text_0.len()
                > limits.max_prompt_chars {
                "Prompt exceeds maximum length of "@ + chars + " characters"@
            } else if vstd::utf8::encode_utf8(
                json::member(tree, "prompt"@).unwrap()->Text_0,
            ).len() > limits.max_prompt_chars {
                "Prompt exceeds maximum size of "@ + chars + " bytes"@
            } else {
                "Metadata exceeds maximum size of "@ + text::decimal_text(
                    limits.max_metadata_bytes as nat,
                ) + " bytes"@
            }
        },
{
    let tree = json::json_tree(*body);
    if let JsonTree::Object(members) = tree {
        validate::lemma_no_control_fault(members);
        assert forall|i: int| 0 <= i < members.len() implies validate::control_fault(
            (#[trigger] members[i]).0,
            members[i].1,
        ) is None by {
            lemma_control(members[i].0, members[i].1);
        }
        if json::member(tree, "prompt"@) is Some {
            json::lemma_member_is_listed(members, "prompt"@);
            lemma_keys();
            text_laws::law_blank_texts_are_trimmed_away(json::member(tree, "prompt"@).unwrap()->Text_0);
        }
    }
}

/// Only inference keys may generate: a management key is refused whatever the
/// body holds, and an inference key's request is judged by its body alone.
pub proof fn law_only_inference_keys_generate(
    kind: ApiKeyKind,
    body: &serde_json::Value,
    limits: &PolicyLimits,
    request: Result<IngressRequest, IngressError>,
    parsed: Result<IngressRequest, IngressError>,
)
    requires
        call_ensures(accept_request, (kind, body, limits), request),
        call_ensures(parse_ingress_request, (body, limits), parsed),
    ensures
        kind is Management ==> request == Err::<IngressRequest, IngressError>(
            IngressError::AuthorizationFailed,
        ),
        kind is Inference ==> {
            &&& request is Ok <==> is_acceptable(json::json_tree(*body), *limits)
            &&& request is Err ==> request->Err_0 is InvalidRequest && parsed is Err
                && parsed->Err_0 is InvalidRequest && request->Err_0->InvalidRequest_0@
                == parsed->Err_0->InvalidRequest_0@
            &&& request is Ok ==> {
                let (a, b) = (request->Ok_0, parsed->Ok_0);
                &&& a.prompt@ == b.prompt@
                &&& json::json_tree(a.metadata) == json::json_tree(b.metadata)
                &&& a.allow_fallback == b.allow_fallback
                &&& text::optional_text(a.route) == text::optional_text(b.route)
                &&& a.parameters.max_tokens == b.parameters.max_tokens
                &&& json::optional_number(a.parameters.temperature) == json::optional_number(
                    b.parameters.temperature,
                )
                &&& json::optional_number(a.parameters.top_p) == json::optional_number(
                    b.parameters.top_p,
                )
            }
        },
{
    lemma_acceptable(json::json_tree(*body), *limits);
}

/// Whether a document writes a message with this role and content: an object
/// with these two texts, or a list of just the two.
pub open spec fn writes_message(
    document: JsonTree,
    role: Seq<char>,
    content: Seq<char>,
) -> bool {
    match document {
        JsonTree::Object(_) => json::member(document, "role"@) == Some(JsonTree::Text(role))
            && json::member(document, "content"@) == Some(JsonTree::Text(content)),
        JsonTree::Array(items) => items.len() == 2 && items[0] == JsonTree::Text(role) && items[1]
            == JsonTree::Text(content),
        _ => false,
    }
}

/// Whether a document writes a message.
pub open spec fn is_message(document: JsonTree) -> bool {
    exists|role: Seq<char>, content: Seq<char>| writes_message(document, role, content)
}

/// Parameters are read as the payload writes them: every message in order, the
/// double that a temperature or top_p is, zero included, the integer that a
/// completion length is, and streaming only where it is asked for. A payload
/// fails only for messages that are missing or are none.
pub proof fn law_payload_is_read_as_written(
    payload: &serde_json::Value,
    read: Result<ExecutionParams, ExecutorError>,
    number: JsonNumber,
)
    requires
        call_ensures(extract_params, (payload,), read),
    ensures
        ({
            let tree = json::json_tree(*payload);
            &&& read is Ok <==> (json::member(tree, "messages"@) matches Some(
                JsonTree::Array(items),
            ) && forall|i: int| 0 <= i < items.len() ==> is_message(#[trigger] items[i]))
            &&& read matches Err(error) ==> (error matches ExecutorError::InvalidPayload(detail)
                && detail@ == "Missing or invalid 'messages' field"@)
            &&& read matches Ok(params) ==> {
                &&& json::member(tree, "messages"@) matches Some(JsonTree::Array(items))
                    && params.messages@.len() == items.len() && forall|i: int|
                    0 <= i < items.len() ==> writes_message(
                        #[trigger] items[i],
                        params.messages@[i].role@,
                        params.messages@[i].content@,
                    )
                &&& json::member(tree, "temperature"@) == Some(JsonTree::Number(number))
                    ==> params.temperature == number.double
                &&& !(json::member(tree, "temperature"@) matches Some(JsonTree::Number(_)))
                    ==> params.temperature is None
                &&& json::member(tree, "top_p"@) == Some(JsonTree::Number(number))
                    ==> params.top_p == number.double
                &&& !(json::member(tree, "top_p"@) matches Some(JsonTree::Number(_)))
                    ==> params.top_p is None
                &&& json::member(tree, "max_tokens"@) == Some(JsonTree::Number(number))
                    ==> params.max_tokens == number.signed
                &&& !(json::member(tree, "max_tokens"@) matches Some(JsonTree::Number(_)))
                    ==> params.max_tokens is None
                &&& params.stream <==> json::member(tree, "stream"@) == Some(JsonTree::Bool(true))
            }
        }),
{
    let tree = json::json_tree(*payload);
    if let Some(JsonTree::Array(items)) = json::member(tree, "messages"@) {
        assert forall|i: int| 0 <= i < items.len() implies (params::message_of(
            #[trigger] items[i],
        ) is Some <==> is_message(items[i])) by {
            if let Some(message) = params::message_of(items[i]) {
                assert(writes_message(items[i], message.role, message.content));
            }
        }
        if read is Ok {
            let messages = read->Ok_0.messages@;
            let views = params::message_views(messages);
            let written = params::messages_of(Some(JsonTree::Array(items))).unwrap();
            assert(views == written);
            assert(views.len() == messages.len());
            assert forall|i: int| 0 <= i < items.len() implies writes_message(
                #[trigger] items[i],
                messages[i].role@,
                messages[i].content@,
            ) by {
                assert(views[i] == messages[i]@);
                assert(written[i] == params::message_of(items[i]).unwrap());
            }
        }
    }
}

/// What a planned request hands to the executor is what the client asked for:
/// the prompt as the user's only message, each sampling number as the double
/// that it is, and the completion length, the primary's cap where none was
/// asked for. Nothing else is in it, the metadata least of all.
pub proof fn law_request_reaches_the_executor(
    catalog: &Catalog,
    request: &IngressRequest,
    planned: PlannedRequest,
    read: Result<ExecutionParams, ExecutorError>,
    key: Seq<char>,
)
    requires
        call_ensures(
            plan_request,
            (catalog, request),
            Ok::<PlannedRequest, IngressError>(planned),
        ),
        call_ensures(extract_params, (&planned.payload,), read),
    ensures
        read matches Ok(params) && {
            &&& params.messages@.len() == 1
            &&& params.messages@[0].role@ == "user"@
            &&& params.messages@[0].content@ == request.prompt@
            &&& match request.parameters.temperature {
                Some(number) => params.temperature == number@.double,
                None => params.temperature is None,
            }
            &&& match request.parameters.top_p {
                Some(number) => params.top_p == number@.double,
                None => params.top_p is None,
            }
            &&& params.max_tokens == Some(
                match request.parameters.max_tokens {
                    Some(tokens) => tokens as i64,
                    None => planned.resolved.plan.max_output_tokens as i64,
                },
            )
            &&& !params.stream
        },
        json::member(json::json_tree(planned.payload), key) is Some ==> key == "messages"@ || key
            == "temperature"@ || key == "top_p"@ || key == "max_tokens"@,
        json::member(json::json_tree(planned.payload), "messages"@) matches Some(
            JsonTree::Array(items),
        ) && items.len() == 1 && (json::member(items[0], key) is Some ==> key == "role"@ || key
            == "content"@),
{
    let tree = json::json_tree(planned.payload);
    let listed = json::member(tree, "messages"@).unwrap()->Array_0;
    assert(writes_message(listed[0], "user"@, request.prompt@));
    assert(params::message_of(listed[0]) is Some);
    if read is Ok {
        let views = params::message_views(read->Ok_0.messages@);
        let written = params::messages_of(json::member(tree, "messages"@)).unwrap();
        assert(views == written);
        assert(views.len() == 1);
        assert(views[0] == read->Ok_0.messages@[0]@);
        assert(written[0] == params::message_of(listed[0]).unwrap());
        reveal_strlit("stream");
        reveal_strlit("messages");
        lemma_keys();
        if json::member(tree, "stream"@) is Some {
            assert(false);
        }
    }
}

/// Whether a hop is the one that a catalog configures for a target, without hops
/// of its own to follow.
pub open spec fn is_configured_hop(plan: RoutePlan, catalog: Catalog, target: Seq<char>) -> bool {
    &&& plan.vendor_id@ == "openai"@
    &&& plan.target_id@ == target
    &&& plan.model_id@ == catalog.targets@[target].model@
    &&& plan.max_output_tokens == catalog.targets@[target].max_output_tokens
}

/// A route that is named must be configured under exactly that name. One that is
/// not, that is empty or that is blank at an end is refused.
pub proof fn law_unknown_route_is_refused(
    catalog: &Catalog,
    name: &str,
    allow_fallback: Option<bool>,
    resolved: Result<ResolvedRoute, IngressError>,
)
    requires
        call_ensures(resolve_route, (catalog, Some(name), allow_fallback), resolved),
    ensures
        name@.len() == 0 || text_laws::is_blank(name@[0]) || text_laws::is_blank(name@.last())
            || !catalog.routes@.contains_key(name@) <==> (resolved matches Err(
            IngressError::InvalidRequest(shown),
        ) && shown@ == "Unknown route"@),
{
    text_laws::law_only_outer_blanks_are_trimmed(name@);
}

/// Whether a catalog has a route, its primary target and, where they are wanted,
/// the targets of all its fallbacks.
pub open spec fn has_all_of(catalog: Catalog, id: Seq<char>, fallbacks: bool) -> bool {
    &&& catalog.routes@.contains_key(id)
    &&& catalog.targets@.contains_key(catalog.routes@[id].primary@)
    &&& fallbacks ==> forall|i: int|
        0 <= i < catalog.routes@[id].fallbacks@.len() ==> catalog.targets@.contains_key(
            (#[trigger] catalog.routes@[id].fallbacks@[i])@,
        )
}

/// The route that a request selects is the one it names, or the default where it
/// names none. Its plan calls the route's primary and, unless the request opted
/// out, every fallback in the configured order. A route that lacks something is
/// an internal failure.
#[verifier::spinoff_prover]
pub proof fn law_route_is_followed(
    catalog: &Catalog,
    requested: Option<&str>,
    allow_fallback: Option<bool>,
    resolved: Result<ResolvedRoute, IngressError>,
    id: Seq<char>,
)
    requires
        call_ensures(resolve_route, (catalog, requested, allow_fallback), resolved),
        match requested {
            Some(name) => id == name@ && catalog.routes@.contains_key(id) && id.len() > 0
                && !text_laws::is_blank(id[0]) && !text_laws::is_blank(id.last()),
            None => id == catalog.default_route@,
        },
    ensures
        !has_all_of(*catalog, id, allow_fallback != Some(false)) ==> resolved == Err::<
            ResolvedRoute,
            IngressError,
        >(IngressError::RequestOrchestrationFailed),
        has_all_of(*catalog, id, allow_fallback != Some(false)) ==> resolved is Ok,
        resolved matches Ok(chosen) ==> {
            let plan = chosen.plan;
            let route = catalog.routes@[id];
            &&& chosen.route_id@ == id
            &&& chosen.target_id@ == route.primary@
            &&& chosen.max_output_tokens == plan.max_output_tokens
            &&& is_configured_hop(plan, *catalog, route.primary@)
            &&& plan.fallback_plans@.len() == (if allow_fallback == Some(false) {
                0
            } else {
                route.fallbacks@.len()
            })
            &&& forall|i: int|
                0 <= i < plan.fallback_plans@.len() ==> is_configured_hop(
                    #[trigger] plan.fallback_plans@[i],
                    *catalog,
                    route.fallbacks@[i]@,
                ) && plan.fallback_plans@[i].fallback_plans@.len() == 0
        },
{
    if let Some(name) = requested {
        text_laws::law_only_outer_blanks_are_trimmed(name@);
    }
    let wanted = allow_fallback != Some(false);
    assert(has_all_of(*catalog, id, wanted) <==> routing::route_is_complete(
        *catalog,
        id,
        wanted,
    ));
}

/// Planning a request resolves its route and refuses a completion length above
/// the selected primary's cap before anything is called.
pub proof fn law_planning_respects_the_cap(
    catalog: &Catalog,
    request: &IngressRequest,
    planned: Result<PlannedRequest, IngressError>,
    requested: Option<&str>,
    resolved: Result<ResolvedRoute, IngressError>,
)
    requires
        call_ensures(plan_request, (catalog, request), planned),
        call_ensures(resolve_route, (catalog, requested, request.allow_fallback), resolved),
        match requested {
            Some(name) => request.route matches Some(route) && route@ == name@,
            None => request.route is None,
        },
    ensures
        match resolved {
            Err(error) => {
                &&& planned is Err
                &&& error is InvalidRequest <==> planned->Err_0 is InvalidRequest
                &&& error matches IngressError::InvalidRequest(shown)
                    ==> planned->Err_0->InvalidRequest_0@ == shown@
                &&& error is RequestOrchestrationFailed
                    <==> planned->Err_0 is RequestOrchestrationFailed
            },
            Ok(chosen) => if request.parameters.max_tokens matches Some(tokens) && tokens
                > chosen.max_output_tokens {
                planned matches Err(IngressError::InvalidRequest(shown)) && shown@
                    == "max_tokens exceeds max_output_tokens of the selected target"@
            } else {
                planned matches Ok(planned) && {
                    let (a, b) = (planned.resolved, chosen);
                    &&& a.route_id@ == b.route_id@
                    &&& a.target_id@ == b.target_id@
                    &&& a.plan.target_id@ == b.plan.target_id@
                    &&& a.plan.model_id@ == b.plan.model_id@
                    &&& a.plan.vendor_id@ == b.plan.vendor_id@
                    &&& a.plan.max_output_tokens == b.plan.max_output_tokens
                    &&& a.plan.fallback_plans@.len() == b.plan.fallback_plans@.len()
                    &&& forall|i: int|
                        0 <= i < a.plan.fallback_plans@.len() ==> {
                            let hop = #[trigger] a.plan.fallback_plans@[i];
                            &&& hop.target_id@ == b.plan.fallback_plans@[i].target_id@
                            &&& hop.model_id@ == b.plan.fallback_plans@[i].model_id@
                            &&& hop.max_output_tokens
                                == b.plan.fallback_plans@[i].max_output_tokens
                        }
                }
            },
        },
{
}

/// A request is slow from the configured time on; without one that is a second.
pub proof fn law_slow_requests(
    threshold: Option<String>,
    service: IngressService,
    processing_time_ms: u64,
    slow: bool,
)
    requires
        call_ensures(IngressService::new, (threshold,), service),
        call_ensures(IngressService::is_slow, (&service, processing_time_ms), slow),
    ensures
        threshold is None ==> (slow <==> processing_time_ms >= 1000),
        threshold matches Some(shown) ==> forall|n: u64|
            shown@ == #[trigger] text::decimal_text(n as nat) ==> (slow <==> processing_time_ms
                >= n),
{
    if let Some(shown) = threshold {
        assert forall|n: u64| shown@ == #[trigger] text::decimal_text(n as nat) implies (slow
            <==> processing_time_ms >= n) by {
            text_laws::law_decimal_text_reads_back(n as nat);
            assert('0' <= text::decimal_text(n as nat)[0] <= '9');
        }
    }
}

/// A successful execution is answered with what the provider said, its usage and
/// its cost; a failed one with the executor's own failure.
pub proof fn law_answer_is_the_outcome(
    outcome: Result<ExecutionResult, ExecutorError>,
    processing_time_ms: u64,
    answer: Result<IngressResponse, IngressError>,
)
    requires
        call_ensures(answer_request, (outcome, processing_time_ms), answer),
    ensures
        match outcome {
            Ok(result) => answer matches Ok(shown) && {
                &&& shown.response.content@ == result.content@
                &&& shown.response.role@ == result.role@
                &&& shown.response.finish_reason matches Some(reason) && reason@
                    == result.finish_reason@
                &&& shown.model_used@ == result.model_used@
                &&& shown.cost == result.total_cost
                &&& shown.usage.prompt_tokens == result.prompt_tokens
                &&& shown.usage.completion_tokens == result.completion_tokens
                &&& shown.processing_time_ms == processing_time_ms
            },
            Err(error) => answer == Err::<IngressResponse, IngressError>(
                IngressError::ExecutionFailed(error),
            ),
        },
{
}

/// A generation's payload is one message by the user, the sampling numbers as
/// they were sent, the completion length, and nothing else.
pub proof fn law_payload_is_the_generation(
    prompt: &str,
    parameters: &GenerationParameters,
    max_tokens: u32,
    payload: serde_json::Value,
    key: Seq<char>,
)
    requires
        call_ensures(generation_payload, (prompt, parameters, max_tokens), payload),
    ensures
        ({
            let tree = json::json_tree(payload);
            &&& json::member(tree, "messages"@) matches Some(JsonTree::Array(items)) && items.len()
                == 1 && writes_message(items[0], "user"@, prompt@)
            &&& match parameters.temperature {
                Some(number) => json::member(tree, "temperature"@) == Some(
                    JsonTree::Number(number@),
                ),
                None => json::member(tree, "temperature"@) is None,
            }
            &&& match parameters.top_p {
                Some(number) => json::member(tree, "top_p"@) == Some(JsonTree::Number(number@)),
                None => json::member(tree, "top_p"@) is None,
            }
            &&& json::member(tree, "max_tokens"@) matches Some(JsonTree::Number(number))
                && number.signed == Some(max_tokens as i64)
            &&& json::member(tree, key) is Some ==> key == "messages"@ || key == "temperature"@
                || key == "top_p"@ || key == "max_tokens"@
        }),
{
}

} // verus!
