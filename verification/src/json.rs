//! The JSON documents that requests carry, as plain values.

use vstd::prelude::*;

verus! {

/// A JSON document as the library builds it. Object members are kept in the
/// order in which they were added; that order is not what is sent, since the
/// server turns them into a `serde_json` map, whose keys are sorted.
#[derive(Debug, PartialEq, Eq)]
pub enum JsonValue {
    Bool(bool),
    Number(u64),
    Text(String),
    Array(Vec<JsonValue>),
    Object(Vec<(String, JsonValue)>),
}

/// The mathematical content of a JSON document.
pub enum Json {
    Bool(bool),
    Number(nat),
    Text(Seq<char>),
    Array(Seq<Json>),
    Object(Seq<(Seq<char>, Json)>),
}

/// The content of a document.
pub open spec fn json_of(v: JsonValue) -> Json
    decreases v,
{
    match v {
        JsonValue::Bool(b) => Json::Bool(b),
        JsonValue::Number(n) => Json::Number(n as nat),
        JsonValue::Text(s) => Json::Text(s@),
        JsonValue::Array(items) => Json::Array(
            Seq::new(
                items@.len(),
                |i: int|
                    if 0 <= i < items@.len() {
                        json_of(items@[i])
                    } else {
                        Json::Bool(false)
                    },
            ),
        ),
        JsonValue::Object(members) => Json::Object(
            Seq::new(
                members@.len(),
                |i: int|
                    if 0 <= i < members@.len() {
                        (members@[i].0@, json_of(members@[i].1))
                    } else {
                        (Seq::empty(), Json::Bool(false))
                    },
            ),
        ),
    }
}

/// The content of an optional document.
pub open spec fn body_of(body: Option<JsonValue>) -> Option<Json> {
    match body {
        Some(v) => Some(json_of(v)),
        None => None,
    }
}

/// An array of strings.
pub open spec fn text_array(items: Seq<Seq<char>>) -> Json {
    Json::Array(items.map_values(|s: Seq<char>| Json::Text(s)))
}

/// The contents of the members of an object, in order.
pub open spec fn members_of(members: Seq<(String, JsonValue)>) -> Seq<(Seq<char>, Json)> {
    members.map_values(|m: (String, JsonValue)| (m.0@, json_of(m.1)))
}

/// The contents of the items of an array, in order.
pub open spec fn items_of(items: Seq<JsonValue>) -> Seq<Json> {
    items.map_values(|v: JsonValue| json_of(v))
}

/// The content of an object is the contents of its members.
pub proof fn lemma_object_content(members: Vec<(String, JsonValue)>)
    ensures
        json_of(JsonValue::Object(members)) == Json::Object(members_of(members@)),
{
    if let Json::Object(content) = json_of(JsonValue::Object(members)) {
        assert(content =~= members_of(members@));
    }
}

/// The content of an array is the contents of its items.
pub proof fn lemma_array_content(items: Vec<JsonValue>)
    ensures
        json_of(JsonValue::Array(items)) == Json::Array(items_of(items@)),
{
    if let Json::Array(content) = json_of(JsonValue::Array(items)) {
        assert(content =~= items_of(items@));
    }
}

/// Adds a member at the end of an object's members.
pub fn push_member(members: &mut Vec<(String, JsonValue)>, key: &str, value: JsonValue)
    ensures
        members_of(final(members)@) == members_of(old(members)@).push((key@, json_of(value))),
{
    let ghost before = members@;
    members.push((String::from_str(key), value));
    assert(members_of(members@) =~= members_of(before).push((key@, json_of(value))));
}

/// Adds an item at the end of an array's items.
pub fn push_item(items: &mut Vec<JsonValue>, value: JsonValue)
    ensures
        items_of(final(items)@) == items_of(old(items)@).push(json_of(value)),
{
    let ghost before = items@;
    items.push(value);
    assert(items_of(items@) =~= items_of(before).push(json_of(value)));
}

} // verus!
