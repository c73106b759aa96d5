//! JSON documents, parsed and read through `serde_json`.
//!
//! A parsed document stays a `serde_json::Value`. The verifier cannot look
//! inside one, so this module states what it holds by a mathematical model,
//! [`Json`], and reaches it only through the three operations below, whose
//! contracts are taken on trust from `serde_json`.

use vstd::prelude::*;

verus! {

/// `serde_json::Value`, opaque to the verifier.
#[verifier::external_type_specification]
#[verifier::external_body]
pub struct ExValue(serde_json::Value);

/// `serde_json::Error`, opaque to the verifier.
#[verifier::external_type_specification]
#[verifier::external_body]
pub struct ExError(serde_json::Error);

/// The mathematical shape of a JSON value. It mirrors the variants of
/// `serde_json::Value`; what a number holds is never read here and is left out.
pub enum Json {
    Null,
    Boolean(bool),
    Number,
    Text(Seq<char>),
    Array(Seq<Json>),
    Object(Map<Seq<char>, Json>),
}

/// The shape of the JSON value that `value` holds.
pub uninterp spec fn json_of(value: serde_json::Value) -> Json;

/// The shape of the document that `text` parses to under `serde_json`, or
/// `None` where `text` is not one JSON value with nothing but whitespace
/// around it.
pub uninterp spec fn parsed(text: Seq<char>) -> Option<Json>;

/// The member of an object under `key`; `None` for a missing key and for
/// anything that is not an object.
pub open spec fn member_of(json: Json, key: Seq<char>) -> Option<Json> {
    match json {
        Json::Object(members) => if members.contains_key(key) {
            Some(members[key])
        } else {
            None
        },
        _ => None,
    }
}

/// The string under `key`; `None` where the member is missing or is not a
/// string.
pub open spec fn text_member_of(json: Json, key: Seq<char>) -> Option<Seq<char>> {
    match member_of(json, key) {
        Some(Json::Text(text)) => Some(text),
        _ => None,
    }
}

/// Calls `serde_json::from_str` at type `serde_json::Value`.
///
/// Trusted: the call succeeds exactly on the texts that `parsed` accepts, and
/// the value it returns has the shape `parsed` names. The same text always
/// gives the same shape.
#[verifier::external_body]
fn value_from_str(text: &str) -> (r: Result<serde_json::Value, serde_json::Error>)
    ensures
        match r {
            Ok(value) => parsed(text@) == Some(json_of(value)),
            Err(_) => parsed(text@) is None,
        },
{
    serde_json::from_str::<serde_json::Value>(text)
}

/// Calls `serde_json::Value::get` with a string index.
///
/// Trusted: on an object that has `key` it returns that member; on an object
/// without it, and on every value that is not an object, it returns `None`.
#[verifier::external_body]
fn value_get<'a>(value: &'a serde_json::Value, key: &str) -> (r: Option<&'a serde_json::Value>)
    ensures
        match r {
            Some(found) => member_of(json_of(*value), key@) == Some(json_of(*found)),
            None => member_of(json_of(*value), key@) is None,
        },
{
    value.get(key)
}

/// Calls `serde_json::Value::as_str`.
///
/// Trusted: on a JSON string it returns the string's text; on every other
/// value it returns `None`.
#[verifier::external_body]
fn value_as_str<'a>(value: &'a serde_json::Value) -> (r: Option<&'a str>)
    ensures
        match r {
            Some(s) => json_of(*value) == Json::Text(s@),
            None => !(json_of(*value) is Text),
        },
{
    value.as_str()
}

/// Parses `text` as one JSON document.
pub fn parse(text: &str) -> (document: Option<serde_json::Value>)
    ensures
        match document {
            Some(value) => parsed(text@) == Some(json_of(value)),
            None => parsed(text@) is None,
        },
{
    match value_from_str(text) {
        Ok(value) => Some(value),
        Err(_) => None,
    }
}

/// Reads the string member `key` of `document`.
pub fn string_member(document: &serde_json::Value, key: &str) -> (found: Option<String>)
    ensures
        match found {
            Some(s) => text_member_of(json_of(*document), key@) == Some(s@),
            None => text_member_of(json_of(*document), key@) is None,
        },
{
    match value_get(document, key) {
        Some(value) => match value_as_str(value) {
            Some(s) => Some(s.to_owned()),
            None => None,
        },
        None => None,
    }
}

} // verus!
