//! Execution parameters read from a request payload.

use vstd::prelude::*;

use crate::common::json;
use crate::common::json::{get, shape, JsonTree, Shape};
use crate::common::number::Float64;
use crate::executor::error::ExecutorError;
use crate::executor::models::{ExecutionParams, Message, MessageView};
use crate::executor::openai_response;

verus! {

/// The message that a document writes: an object with text members `role` and
/// `content`, or an array of exactly these two texts.
pub open spec fn message_of(document: JsonTree) -> Option<MessageView> {
    let parts = match document {
        JsonTree::Object(_) => (
            json::member(document, "role"@),
            json::member(document, "content"@),
        ),
        JsonTree::Array(items) => if items.len() == 2 {
            (Some(items[0]), Some(items[1]))
        } else {
            (None, None)
        },
        _ => (None, None),
    };
    match (openai_response::text_of(parts.0), openai_response::text_of(parts.1)) {
        (Some(role), Some(content)) => Some(MessageView { role, content }),
        _ => None,
    }
}

/// The messages that an array of documents writes, when each writes one.
pub open spec fn messages_of(document: Option<JsonTree>) -> Option<Seq<MessageView>> {
    match document {
        Some(JsonTree::Array(items)) => if forall|i: int|
            0 <= i < items.len() ==> message_of(#[trigger] items[i]) is Some {
            Some(items.map_values(|item: JsonTree| message_of(item).unwrap()))
        } else {
            None
        },
        _ => None,
    }
}

/// The nearest double of a number member.
pub open spec fn double_of(value: Option<JsonTree>) -> Option<Float64> {
    match value {
        Some(JsonTree::Number(number)) => number.double,
        _ => None,
    }
}

/// The signed integer of a number member.
pub open spec fn signed_of(value: Option<JsonTree>) -> Option<i64> {
    match value {
        Some(JsonTree::Number(number)) => number.signed,
        _ => None,
    }
}

/// The contents of a message list.
pub open spec fn message_views(messages: Seq<Message>) -> Seq<MessageView> {
    messages.map_values(|message: Message| message@)
}

/// Whether `params` is what a payload holding `payload` asks for. Optional
/// members of another type count as absent.
pub open spec fn are_params_of(params: ExecutionParams, payload: JsonTree) -> bool {
    &&& messages_of(json::member(payload, "messages"@)) == Some(message_views(params.messages@))
    &&& params.temperature == double_of(json::member(payload, "temperature"@))
    &&& params.max_tokens == signed_of(json::member(payload, "max_tokens"@))
    &&& params.top_p == double_of(json::member(payload, "top_p"@))
    &&& params.stream == (json::member(payload, "stream"@) == Some(JsonTree::Bool(true)))
}

fn text_member(value: Option<&serde_json::Value>) -> (text: Option<String>)
    ensures
        match text {
            Some(text) => openai_response::text_of(json::tree_of(value)) == Some(text@),
            None => openai_response::text_of(json::tree_of(value)) is None,
        },
{
    match value {
        Some(value) => match shape(value) {
            Shape::Text(text) => Some(text.to_owned()),
            _ => None,
        },
        None => None,
    }
}

fn read_message(document: &serde_json::Value) -> (message: Option<Message>)
    ensures
        match message {
            Some(message) => message_of(json::json_tree(*document)) == Some(message@),
            None => message_of(json::json_tree(*document)) is None,
        },
{
    let (role, content): (Option<String>, Option<String>) = match shape(document) {
        Shape::Object(_) => (
            text_member(get(document, "role")),
            text_member(get(document, "content")),
        ),
        Shape::Array(items) => {
            if items.len() == 2 {
                (text_member(Some(items[0])), text_member(Some(items[1])))
            } else {
                (None, None)
            }
        },
        _ => (None, None),
    };
    match (role, content) {
        (Some(role), Some(content)) => Some(Message { role, content }),
        _ => None,
    }
}

fn read_messages(document: Option<&serde_json::Value>) -> (messages: Option<Vec<Message>>)
    ensures
        match messages {
            Some(messages) => messages_of(json::tree_of(document)) == Some(
                message_views(messages@),
            ),
            None => messages_of(json::tree_of(document)) is None,
        },
{
    let listed: &serde_json::Value = match document {
        Some(listed) => listed,
        None => {
            return None;
        },
    };
    match shape(listed) {
        Shape::Array(items) => {
            let ghost trees = items@.map_values(|item: &serde_json::Value| json::json_tree(*item));
            let mut messages: Vec<Message> = Vec::new();
            let mut i: usize = 0;
            while i < items.len()
                invariant
                    i <= items.len(),
                    trees == items@.map_values(|item: &serde_json::Value| json::json_tree(*item)),
                    json::tree_of(document) == Some(JsonTree::Array(trees)),
                    messages@.len() == i,
                    forall|k: int|
                        0 <= k < i ==> message_of(#[trigger] trees[k]) == Some(messages@[k]@),
                decreases items.len() - i,
            {
                match read_message(items[i]) {
                    Some(message) => {
                        assert(message_of(trees[i as int]) == Some(message@));
                        messages.push(message);
                    },
                    None => {
                        assert(message_of(trees[i as int]) is None);
                        return None;
                    },
                }
                i += 1;
            }
            assert(message_views(messages@) =~= trees.map_values(
                |item: JsonTree| message_of(item).unwrap(),
            )) by {
                assert forall|k: int| 0 <= k < trees.len() implies #[trigger] message_views(
                    messages@,
                )[k] == message_of(trees[k]).unwrap() by {}
            }
            Some(messages)
        },
        _ => None,
    }
}

fn read_double(value: Option<&serde_json::Value>) -> (number: Option<Float64>)
    ensures
        number == double_of(json::tree_of(value)),
{
    match value {
        Some(value) => match shape(value) {
            Shape::Number(number) => number.double,
            _ => None,
        },
        None => None,
    }
}

fn read_signed(value: Option<&serde_json::Value>) -> (number: Option<i64>)
    ensures
        number == signed_of(json::tree_of(value)),
{
    match value {
        Some(value) => match shape(value) {
            Shape::Number(number) => number.signed,
            _ => None,
        },
        None => None,
    }
}

fn read_flag(value: Option<&serde_json::Value>) -> (flag: bool)
    ensures
        flag == (json::tree_of(value) == Some(JsonTree::Bool(true))),
{
    match value {
        Some(value) => match shape(value) {
            Shape::Bool(flag) => flag,
            _ => false,
        },
        None => false,
    }
}

/// Extracts execution parameters from a request payload.
///
/// # Errors
/// Returns `InvalidPayload` if the `messages` member is missing or is not a list
/// of messages.
pub fn extract_params(payload: &serde_json::Value) -> (params: Result<
    ExecutionParams,
    ExecutorError,
>)
    ensures
        match params {
            Ok(params) => are_params_of(params, json::json_tree(*payload)),
            Err(error) => {
                &&& messages_of(json::member(json::json_tree(*payload), "messages"@)) is None
                &&& error matches ExecutorError::InvalidPayload(detail) && detail@
                    == "Missing or invalid 'messages' field"@
            },
        },
{
    let messages: Vec<Message> = match read_messages(get(payload, "messages")) {
        Some(messages) => messages,
        None => {
            return Err(
                ExecutorError::InvalidPayload("Missing or invalid 'messages' field".to_owned()),
            );
        },
    };
    Ok(
        ExecutionParams {
            messages,
            temperature: read_double(get(payload, "temperature")),
            max_tokens: read_signed(get(payload, "max_tokens")),
            top_p: read_double(get(payload, "top_p")),
            stream: read_flag(get(payload, "stream")),
        },
    )
}

} // verus!
