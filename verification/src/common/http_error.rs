//! What a failed request is answered with.

use vstd::prelude::*;

use crate::common::json;
use crate::common::json::{add_member, object_value, text_value, JsonTree};

verus! {

/// Status, stable code and client-safe message of an error response.
#[derive(Debug)]
pub struct ErrorResponse {
    /// HTTP status
    pub status: u16,
    /// Stable machine-readable code
    pub code: &'static str,
    /// Client-safe message
    pub message: String,
}

/// The contents of an error response.
#[verifier::ext_equal]
pub struct ErrorResponseView {
    pub status: u16,
    pub code: Seq<char>,
    pub message: Seq<char>,
}

impl View for ErrorResponse {
    type V = ErrorResponseView;

    open spec fn view(&self) -> ErrorResponseView {
        ErrorResponseView { status: self.status, code: self.code@, message: self.message@ }
    }
}

/// Whether a document is the envelope of an error answer: one member `error`
/// with the code, the message and the request's identifier.
pub open spec fn is_envelope(
    document: JsonTree,
    response: ErrorResponseView,
    request_id: Seq<char>,
) -> bool {
    &&& json::member(document, "error"@) matches Some(error) && json::member(error, "code"@)
        == Some(JsonTree::Text(response.code)) && json::member(error, "message"@) == Some(
        JsonTree::Text(response.message),
    ) && json::member(error, "request_id"@) == Some(JsonTree::Text(request_id))
    &&& forall|key: Seq<char>| #[trigger] json::member(document, key) is Some ==> key == "error"@
    &&& forall|key: Seq<char>| #[trigger]
        json::member(json::member(document, "error"@).unwrap(), key) is Some ==> key == "code"@
            || key == "message"@ || key == "request_id"@
}

/// Builds the body of an error answer.
pub fn error_envelope(response: &ErrorResponse, request_id: &str) -> (document: serde_json::Value)
    ensures
        is_envelope(json::json_tree(document), response@, request_id@),
{
    let mut members: Vec<(String, serde_json::Value)> = Vec::new();
    add_member(&mut members, "code", text_value(response.code));
    add_member(&mut members, "message", text_value(response.message.as_str()));
    add_member(&mut members, "request_id", text_value(request_id));
    proof {
        reveal_strlit("code");
        reveal_strlit("message");
        reveal_strlit("request_id");
        assert("code"@[0] != "message"@[0]);
        assert("code"@[0] != "request_id"@[0]);
        assert("message"@[0] != "request_id"@[0]);
        let listed = json::listed_members(members@);
        assert(json::last_member(listed, "code"@) == Some(JsonTree::Text(response.code@)));
        assert(json::last_member(listed, "message"@) == Some(JsonTree::Text(response.message@)));
        assert(json::last_member(listed, "request_id"@) == Some(JsonTree::Text(request_id@)));
    }
    let error: serde_json::Value = object_value(members);
    let mut outer: Vec<(String, serde_json::Value)> = Vec::new();
    assert(json::listed_members(outer@) =~= Seq::empty());
    let ghost error_tree = json::json_tree(error);
    add_member(&mut outer, "error", error);
    assert(json::last_member(json::listed_members(outer@), "error"@) == Some(error_tree));
    object_value(outer)
}

} // verus!
