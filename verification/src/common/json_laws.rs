//! What holds of JSON documents and of looking things up in them.

use vstd::prelude::*;

use crate::common::http_error::{error_envelope, ErrorResponse};
use crate::common::json;
use crate::common::json::{add_member, find_member, get, JsonTree, Number};

verus! {

/// In an object that lists each key once, the member of a key is the value that
/// stands beside it.
pub proof fn law_member_stands_beside_its_key(members: Seq<(Seq<char>, JsonTree)>, i: int)
    requires
        0 <= i < members.len(),
        forall|j: int, k: int|
            0 <= j < k < members.len() ==> (#[trigger] members[j]).0 != (#[trigger] members[k]).0,
    ensures
        json::member(JsonTree::Object(members), members[i].0) == Some(members[i].1),
{
    json::lemma_listed_member(members, i);
}

/// A key that an object does not list has no member, and nothing but an object
/// has members.
pub proof fn law_unlisted_key_has_no_member(tree: JsonTree, key: Seq<char>)
    requires
        tree matches JsonTree::Object(members) ==> forall|i: int|
            0 <= i < members.len() ==> (#[trigger] members[i]).0 != key,
    ensures
        json::member(tree, key) is None,
{
    if let JsonTree::Object(members) = tree {
        if json::last_member(members, key) is Some {
            json::lemma_member_is_listed(members, key);
        }
    }
}

/// Looking a key up gives the member that stands beside it, or nothing where the
/// key is not listed.
pub proof fn law_lookup_finds_what_is_listed(
    value: &serde_json::Value,
    key: &str,
    found: Option<&serde_json::Value>,
    members: Seq<(Seq<char>, JsonTree)>,
)
    requires
        call_ensures(get, (value, key), found),
        json::json_tree(*value) == JsonTree::Object(members),
        forall|j: int, k: int|
            0 <= j < k < members.len() ==> (#[trigger] members[j]).0 != (#[trigger] members[k]).0,
    ensures
        match found {
            Some(member) => exists|i: int|
                0 <= i < members.len() && #[trigger] members[i] == (
                    key@,
                    json::json_tree(*member),
                ),
            None => forall|i: int| 0 <= i < members.len() ==> (#[trigger] members[i]).0 != key@,
        },
{
    match found {
        Some(_) => {
            json::lemma_member_is_listed(members, key@);
        },
        None => {
            assert forall|i: int| 0 <= i < members.len() implies (#[trigger] members[i]).0
                != key@ by {
                if members[i].0 == key@ {
                    json::lemma_listed_member(members, i);
                }
            }
        },
    }
}

/// The same of members that were listed already.
pub proof fn law_search_finds_what_is_listed<'a>(
    members: &Vec<(&'a str, &'a serde_json::Value)>,
    key: &str,
    found: Option<&'a serde_json::Value>,
    i: int,
)
    requires
        call_ensures(find_member, (members, key), found),
        0 <= i < members@.len(),
        members@[i].0@ == key@,
        forall|k: int| i < k < members@.len() ==> (#[trigger] members@[k]).0@ != key@,
    ensures
        found matches Some(value) && json::json_tree(*value) == json::json_tree(*members@[i].1),
{
    lemma_last_listed(json::listed(members@), key@, i);
}

proof fn lemma_last_listed(members: Seq<(Seq<char>, JsonTree)>, key: Seq<char>, i: int)
    requires
        0 <= i < members.len(),
        members[i].0 == key,
        forall|k: int| i < k < members.len() ==> (#[trigger] members[k]).0 != key,
    ensures
        json::last_member(members, key) == Some(members[i].1),
    decreases members.len(),
{
    if i < members.len() - 1 {
        assert(members[members.len() - 1].0 != key);
        lemma_last_listed(members.drop_last(), key, i);
    }
}

/// A number goes in and comes out as it was, and nothing else is a number.
pub proof fn law_numbers_are_kept(
    value: serde_json::Value,
    number: Option<Number>,
    back: serde_json::Value,
)
    requires
        call_ensures(Number::from_value, (value,), number),
        number matches Some(kept) ==> call_ensures(Number::to_value, (&kept,), back),
    ensures
        number is Some <==> json::json_tree(value) is Number,
        number is Some ==> json::json_tree(back) == json::json_tree(value),
{
}

/// An error answer is one object `error` with exactly the code, the message and
/// the request's identifier.
pub proof fn law_envelope_holds_the_answer(
    response: &ErrorResponse,
    request_id: &str,
    document: serde_json::Value,
    key: Seq<char>,
)
    requires
        call_ensures(error_envelope, (response, request_id), document),
    ensures
        json::member(json::json_tree(document), "error"@) matches Some(error) && {
            &&& json::member(error, "code"@) == Some(JsonTree::Text(response.code@))
            &&& json::member(error, "message"@) == Some(JsonTree::Text(response.message@))
            &&& json::member(error, "request_id"@) == Some(JsonTree::Text(request_id@))
            &&& json::member(error, key) is Some ==> key == "code"@ || key == "message"@ || key
                == "request_id"@
        },
        json::member(json::json_tree(document), key) is Some ==> key == "error"@,
{
}

/// Listing one more member leaves the others as they were and puts the new one
/// last, under its key.
pub proof fn law_new_member_is_listed_last(
    members: &mut Vec<(String, serde_json::Value)>,
    key: &str,
    value: serde_json::Value,
    other: Seq<char>,
)
    requires
        call_ensures(add_member, (members, key, value), ()),
    ensures
        json::last_member(json::listed_members(final(members)@), key@) == Some(
            json::json_tree(value),
        ),
        other != key@ ==> json::last_member(json::listed_members(final(members)@), other)
            == json::last_member(json::listed_members(old(members)@), other),
{
}

} // verus!
