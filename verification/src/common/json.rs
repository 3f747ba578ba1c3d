//! JSON documents of `serde_json`, read one level at a time.
//!
//! A `serde_json::Value` is an outside collection. Its contents are named by
//! [`json_tree`]; the functions here open one level of it, look members up, and
//! build new values, and each says over those names what it does.

use vstd::prelude::*;

use crate::common::number::Float64;
use crate::common::text::same_text;

verus! {

/// `serde_json::Value`, carried without looking inside.
#[verifier::external_type_specification]
#[verifier::external_body]
pub struct ExValue(serde_json::Value);

/// A JSON number through each of the readings that callers take of it.
#[derive(Clone, Copy, PartialEq, Eq, Structural, Debug)]
pub struct JsonNumber {
    /// The number as a signed 64-bit integer, when it is one
    pub signed: Option<i64>,
    /// The number as an unsigned 64-bit integer, when it is one
    pub unsigned: Option<u64>,
    /// The nearest double
    pub double: Option<Float64>,
}

/// What a JSON document holds. Object members stand in the order of the map that
/// holds them.
pub enum JsonTree {
    Null,
    Bool(bool),
    Number(JsonNumber),
    Text(Seq<char>),
    Array(Seq<JsonTree>),
    Object(Seq<(Seq<char>, JsonTree)>),
}

/// What a `serde_json::Value` holds.
pub uninterp spec fn json_tree(value: serde_json::Value) -> JsonTree;

/// The document that `serde_json::from_slice` reads from bytes; `None` when they
/// are not one JSON document.
pub uninterp spec fn json_document(bytes: Seq<u8>) -> Option<JsonTree>;

/// The bytes that `serde_json::to_vec` writes for a document; `None` when it
/// reports an error.
pub uninterp spec fn json_encoding(tree: JsonTree) -> Option<Seq<u8>>;

/// One level of a JSON document, with the levels below left closed.
pub enum Shape<'a> {
    Null,
    Bool(bool),
    Number(JsonNumber),
    Text(&'a str),
    Array(Vec<&'a serde_json::Value>),
    Object(Vec<(&'a str, &'a serde_json::Value)>),
}

impl<'a> View for Shape<'a> {
    type V = JsonTree;

    open spec fn view(&self) -> JsonTree {
        match self {
            Shape::Null => JsonTree::Null,
            Shape::Bool(flag) => JsonTree::Bool(*flag),
            Shape::Number(number) => JsonTree::Number(*number),
            Shape::Text(text) => JsonTree::Text(text@),
            Shape::Array(items) => JsonTree::Array(
                items@.map_values(|item: &serde_json::Value| json_tree(*item)),
            ),
            Shape::Object(members) => JsonTree::Object(
                members@.map_values(
                    |member: (&str, &serde_json::Value)| (member.0@, json_tree(*member.1)),
                ),
            ),
        }
    }
}

/// `serde_json::Value`, matched by variant: opens the outermost level. Numbers
/// are read through `as_i64`, `as_u64` and `as_f64`; members are listed as the
/// object's map iterates, each key once.
#[verifier::external_body]
pub(crate) fn shape<'a>(value: &'a serde_json::Value) -> (shape: Shape<'a>)
    ensures
        shape@ == json_tree(*value),
        lists_keys_once(shape@),
{
    match value {
        serde_json::Value::Null => Shape::Null,
        serde_json::Value::Bool(flag) => Shape::Bool(*flag),
        serde_json::Value::Number(n) => Shape::Number(JsonNumber {
            signed: n.as_i64(),
            unsigned: n.as_u64(),
            double: n.as_f64().map(|d| Float64 { bits: d.to_bits() }),
        }),
        serde_json::Value::String(text) => Shape::Text(text.as_str()),
        serde_json::Value::Array(items) => Shape::Array(items.iter().collect()),
        serde_json::Value::Object(map) => Shape::Object(map.iter().map(|(k, v)| (k.as_str(), v)).collect()),
    }
}

/// `serde_json::from_slice` into a `Value`: the document that `body` writes, or
/// `None` when the parser reports an error. The result is named
/// [`json_document`]; nothing else is claimed of it.
#[verifier::external_body]
pub(crate) fn decode(body: &[u8]) -> (document: Option<serde_json::Value>)
    ensures
        (match document {
            Some(value) => Some(json_tree(value)),
            None => None,
        }) == json_document(body@),
{
    serde_json::from_slice::<serde_json::Value>(body).ok()
}

/// `serde_json::to_vec` on a `Value`: the compact text of the document. The
/// result is named [`json_encoding`]; nothing else is claimed of it.
#[verifier::external_body]
pub(crate) fn encode(value: &serde_json::Value) -> (bytes: Option<Vec<u8>>)
    ensures
        (match bytes {
            Some(bytes) => Some(bytes@),
            None => None,
        }) == json_encoding(json_tree(*value)),
{
    serde_json::to_vec(value).ok()
}

/// `serde_json::Value`'s `Clone`: a second value that holds the same document.
#[verifier::external_body]
pub(crate) fn copy_value(value: &serde_json::Value) -> (copy: serde_json::Value)
    ensures
        json_tree(copy) == json_tree(*value),
{
    value.clone()
}

/// `serde_json::Value::from` on text: a string document.
#[verifier::external_body]
pub(crate) fn text_value(text: &str) -> (value: serde_json::Value)
    ensures
        json_tree(value) == JsonTree::Text(text@),
{
    serde_json::Value::from(text)
}

/// `serde_json::Value::from` on a signed integer: a number that reads back as
/// that integer. That it also reads as a double is claimed; as which one is not.
#[verifier::external_body]
pub(crate) fn integer_value(n: i64) -> (value: serde_json::Value)
    ensures
        json_tree(value) is Number,
        json_tree(value)->Number_0.signed == Some(n),
        json_tree(value)->Number_0.unsigned == (if n >= 0 {
            Some(n as u64)
        } else {
            None
        }),
        json_tree(value)->Number_0.double is Some,
{
    serde_json::Value::from(n)
}

/// `serde_json::Value::Array`: the documents in order.
#[verifier::external_body]
pub(crate) fn array_value(items: Vec<serde_json::Value>) -> (value: serde_json::Value)
    ensures
        json_tree(value) == JsonTree::Array(
            items@.map_values(|item: serde_json::Value| json_tree(item)),
        ),
{
    serde_json::Value::Array(items)
}

/// `serde_json::Value::from_iter` on members whose keys are distinct: an object
/// that lists each key once, with its value.
#[verifier::external_body]
pub(crate) fn object_value(members: Vec<(String, serde_json::Value)>) -> (value: serde_json::Value)
    requires
        distinct_keys(listed_members(members@)),
    ensures
        json_tree(value) is Object,
        lists_keys_once(json_tree(value)),
        forall|key: Seq<char>| #[trigger]
            member(json_tree(value), key) == last_member(listed_members(members@), key),
{
    serde_json::Value::from_iter(members)
}

/// The value listed last for `key`.
pub open spec fn last_member(members: Seq<(Seq<char>, JsonTree)>, key: Seq<char>) -> Option<
    JsonTree,
>
    decreases members.len(),
{
    if members.len() == 0 {
        None
    } else if members.last().0 == key {
        Some(members.last().1)
    } else {
        last_member(members.drop_last(), key)
    }
}

/// The member `key` of an object; `None` for other documents.
pub open spec fn member(tree: JsonTree, key: Seq<char>) -> Option<JsonTree> {
    match tree {
        JsonTree::Object(members) => last_member(members, key),
        _ => None,
    }
}

/// The member `key` of an optional document; nothing when that is absent.
pub open spec fn inner_member(value: Option<JsonTree>, key: Seq<char>) -> Option<JsonTree> {
    match value {
        Some(tree) => member(tree, key),
        None => None,
    }
}

/// Whether members list each key once.
pub open spec fn distinct_keys(members: Seq<(Seq<char>, JsonTree)>) -> bool {
    forall|i: int, j: int|
        0 <= i < j < members.len() ==> (#[trigger] members[i]).0 != (#[trigger] members[j]).0
}

/// Whether an object lists each key once; other documents list none.
pub open spec fn lists_keys_once(tree: JsonTree) -> bool {
    match tree {
        JsonTree::Object(members) => distinct_keys(members),
        _ => true,
    }
}

/// In an object that lists each key once, a member is what stands at its key's
/// place.
pub proof fn lemma_listed_member(members: Seq<(Seq<char>, JsonTree)>, i: int)
    requires
        distinct_keys(members),
        0 <= i < members.len(),
    ensures
        last_member(members, members[i].0) == Some(members[i].1),
    decreases members.len(),
{
    if i < members.len() - 1 {
        assert(members[i].0 != members[members.len() - 1].0);
        lemma_listed_member(members.drop_last(), i);
    }
}

/// A member stands at some place.
pub proof fn lemma_member_is_listed(members: Seq<(Seq<char>, JsonTree)>, key: Seq<char>)
    requires
        last_member(members, key) is Some,
    ensures
        exists|i: int| 0 <= i < members.len() && #[trigger] members[i] == (
            key,
            last_member(members, key).unwrap(),
        ),
    decreases members.len(),
{
    if members.last().0 == key {
        assert(members[members.len() - 1] == (key, last_member(members, key).unwrap()));
    } else {
        lemma_member_is_listed(members.drop_last(), key);
        let i = choose|i: int| 0 <= i < members.drop_last().len() && #[trigger]
            members.drop_last()[i] == (key, last_member(members, key).unwrap());
        assert(members[i] == (key, last_member(members, key).unwrap()));
    }
}

/// What a found member holds.
pub open spec fn tree_of(found: Option<&serde_json::Value>) -> Option<JsonTree> {
    match found {
        Some(value) => Some(json_tree(*value)),
        None => None,
    }
}

/// The members that an opened object lists.
pub open spec fn listed<'a>(members: Seq<(&'a str, &'a serde_json::Value)>) -> Seq<
    (Seq<char>, JsonTree),
> {
    members.map_values(|member: (&str, &serde_json::Value)| (member.0@, json_tree(*member.1)))
}

/// The member `key` among those that an opened object lists.
pub fn find_member<'a>(
    members: &Vec<(&'a str, &'a serde_json::Value)>,
    key: &str,
) -> (found: Option<&'a serde_json::Value>)
    ensures
        tree_of(found) == last_member(listed(members@), key@),
{
    let mut end: usize = members.len();
    assert(listed(members@).take(end as int) =~= listed(members@));
    while end > 0
        invariant
            end <= members.len(),
            last_member(listed(members@).take(end as int), key@) == last_member(
                listed(members@),
                key@,
            ),
        decreases end,
    {
        let ghost prefix = listed(members@).take(end as int);
        assert(prefix.drop_last() =~= listed(members@).take(end - 1));
        assert(prefix.last() == listed(members@)[end - 1]);
        if same_text(members[end - 1].0, key) {
            return Some(members[end - 1].1);
        }
        end -= 1;
    }
    None
}

/// The members that a list of new members holds.
pub open spec fn listed_members(members: Seq<(String, serde_json::Value)>) -> Seq<
    (Seq<char>, JsonTree),
> {
    members.map_values(|listed: (String, serde_json::Value)| (listed.0@, json_tree(listed.1)))
}

/// Lists one more member for a new object.
pub fn add_member(
    members: &mut Vec<(String, serde_json::Value)>,
    key: &str,
    value: serde_json::Value,
)
    ensures
        forall|k: Seq<char>| #[trigger]
            last_member(listed_members(final(members)@), k) == (if key@ == k {
                Some(json_tree(value))
            } else {
                last_member(listed_members(old(members)@), k)
            }),
        distinct_keys(listed_members(old(members)@)) && last_member(
            listed_members(old(members)@),
            key@,
        ) is None ==> distinct_keys(listed_members(final(members)@)),
{
    members.push((key.to_owned(), value));
    proof {
        let shorter = listed_members(old(members)@);
        let longer = listed_members(members@);
        assert(longer.drop_last() =~= shorter);
        assert(longer.last() == (key@, json_tree(value)));
        if distinct_keys(shorter) && last_member(shorter, key@) is None {
            assert forall|i: int, j: int| 0 <= i < j < longer.len() implies (
            #[trigger] longer[i]).0 != (#[trigger] longer[j]).0 by {
                assert(longer[i] == shorter[i]);
                if j < shorter.len() {
                    assert(longer[j] == shorter[j]);
                } else {
                    lemma_listed_member(shorter, i);
                }
            }
        }
    }
}

/// A JSON number as it was sent.
pub struct Number {
    value: serde_json::Value,
}

impl View for Number {
    type V = JsonNumber;

    closed spec fn view(&self) -> JsonNumber {
        json_tree(self.value)->Number_0
    }
}

impl Number {
    #[verifier::type_invariant]
    spec fn holds_a_number(self) -> bool {
        json_tree(self.value) is Number
    }

    /// The number that a document is, when it is one.
    pub fn from_value(value: serde_json::Value) -> (number: Option<Number>)
        ensures
            match number {
                Some(number) => json_tree(value) == JsonTree::Number(number@),
                None => !(json_tree(value) is Number),
            },
    {
        let is_number: bool = match shape(&value) {
            Shape::Number(_) => true,
            _ => false,
        };
        if is_number {
            Some(Number { value })
        } else {
            None
        }
    }

    /// The number as a document.
    pub fn to_value(&self) -> (value: serde_json::Value)
        ensures
            json_tree(value) == JsonTree::Number(self@),
    {
        proof {
            use_type_invariant(self);
        }
        copy_value(&self.value)
    }
}

/// The document that an optional number is.
pub open spec fn optional_number(number: Option<Number>) -> Option<JsonTree> {
    match number {
        Some(number) => Some(JsonTree::Number(number@)),
        None => None,
    }
}

/// The member `key` of an object; `None` for other documents.
pub fn get<'a>(value: &'a serde_json::Value, key: &str) -> (found: Option<&'a serde_json::Value>)
    ensures
        tree_of(found) == member(json_tree(*value), key@),
{
    match shape(value) {
        Shape::Object(members) => find_member(&members, key),
        _ => None,
    }
}

} // verus!
