//! JSON objects, as far as signed claims need them: members that are text or
//! integers, built and read through `serde_json`.

use vstd::prelude::*;

verus! {

/// `serde_json::Value`: any JSON value. Nothing is known of what is inside.
#[verifier::external_type_specification]
#[verifier::external_body]
pub struct ExJsonValue(serde_json::Value);

/// `serde_json::Map`: the members of a JSON object. What it holds is named
/// `json_members`.
#[verifier::external_type_specification]
#[verifier::external_body]
#[verifier::reject_recursive_types(K)]
#[verifier::reject_recursive_types(V)]
pub struct ExJsonMap<K, V>(serde_json::Map<K, V>);

/// A JSON object as `serde_json` holds it.
pub type JsonObject = serde_json::Map<String, serde_json::Value>;

/// What one member of a JSON object holds.
pub enum JsonMember {
    /// A JSON string.
    Text(Seq<char>),
    /// A JSON number that is an integer of at most 64 signed bits.
    Integer(int),
    /// Any other JSON value.
    Other,
}

/// The members of a JSON object, by key.
pub uninterp spec fn json_members(object: JsonObject) -> Map<Seq<char>, JsonMember>;

/// Every member is text or an integer, so that the members determine the object.
pub open spec fn plain_members(members: Map<Seq<char>, JsonMember>) -> bool {
    forall|key: Seq<char>| members.contains_key(key) ==> !(#[trigger] members[key] is Other)
}

/// The text under `key`, when that member is a JSON string.
pub open spec fn text_at(members: Map<Seq<char>, JsonMember>, key: Seq<char>) -> Option<Seq<char>> {
    if members.contains_key(key) {
        match members[key] {
            JsonMember::Text(text) => Some(text),
            _ => None,
        }
    } else {
        None
    }
}

/// The number under `key`, when that member is an integer.
pub open spec fn integer_at(members: Map<Seq<char>, JsonMember>, key: Seq<char>) -> Option<int> {
    if members.contains_key(key) {
        match members[key] {
            JsonMember::Integer(number) => Some(number),
            _ => None,
        }
    } else {
        None
    }
}

/// Calls `serde_json::Map::new`: an object without members.
#[verifier::external_body]
pub(crate) fn json_object_new() -> (object: JsonObject)
    ensures
        json_members(object) == (Map::<Seq<char>, JsonMember>::empty()),
{
    serde_json::Map::new()
}

/// Calls `serde_json::Map::insert` with a string value: the member under
/// `key` becomes that text, whether or not the key was present; no other
/// member changes.
#[verifier::external_body]
pub(crate) fn json_insert_text(
    object: &mut JsonObject,
    key: &str,
    text: &str,
)
    ensures
        json_members(*final(object)) == json_members(*old(object)).insert(
            key@,
            JsonMember::Text(text@),
        ),
{
    object.insert(key.to_string(), serde_json::Value::String(text.to_string()));
}

/// Calls `serde_json::Map::insert` with an integer value: the member under
/// `key` becomes that number; no other member changes.
#[verifier::external_body]
pub(crate) fn json_insert_integer(
    object: &mut JsonObject,
    key: &str,
    number: i64,
)
    ensures
        json_members(*final(object)) == json_members(*old(object)).insert(
            key@,
            JsonMember::Integer(number as int),
        ),
{
    object.insert(key.to_string(), serde_json::Value::from(number));
}

/// Calls `serde_json::Map::get` and keeps the value when it is a JSON string.
#[verifier::external_body]
pub(crate) fn json_text_member(
    object: &JsonObject,
    key: &str,
) -> (text: Option<String>)
    ensures
        match text {
            Some(t) => text_at(json_members(*object), key@) == Some(t@),
            None => text_at(json_members(*object), key@) is None,
        },
{
    match object.get(key) {
        Some(serde_json::Value::String(text)) => Some(text.clone()),
        _ => None,
    }
}

/// Calls `serde_json::Map::get` and `serde_json::Value::as_i64`, which gives
/// the number when the value is an integer that fits in an `i64`.
#[verifier::external_body]
pub(crate) fn json_integer_member(
    object: &JsonObject,
    key: &str,
) -> (number: Option<i64>)
    ensures
        match number {
            Some(n) => integer_at(json_members(*object), key@) == Some(n as int),
            None => integer_at(json_members(*object), key@) is None,
        },
{
    match object.get(key) {
        Some(value) => value.as_i64(),
        None => None,
    }
}

} // verus!
