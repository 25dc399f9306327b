//! The JSON values that travel through the bridge.
//!
//! Values are parsed, inspected and printed by `serde_json`. Nothing in this
//! module is proved: each function states what the library assumes of the
//! `serde_json` call it makes.

use vstd::prelude::*;
use serde_json::Value;
use crate::text::str_view;

verus! {

/// `serde_json::Value`, carried through as an opaque value.
#[verifier::external_type_specification]
#[verifier::external_body]
pub struct ExValue(serde_json::Value);

/// `serde_json::Number`, carried through as an opaque value.
#[verifier::external_type_specification]
#[verifier::external_body]
pub struct ExNumber(serde_json::Number);

/// `serde_json::Error`, carried through as an opaque value.
#[verifier::external_type_specification]
#[verifier::external_body]
pub struct ExJsonError(serde_json::Error);

/// What `serde_json::from_str` makes of a text: the value it stands for, or
/// the reason it is not JSON.
pub uninterp spec fn json_parse(text: Seq<char>) -> Result<serde_json::Value, serde_json::Error>;

/// What a JSON value holds.
pub enum Json {
    Null,
    Bool(bool),
    Number(serde_json::Number),
    /// A string, as its characters.
    Text(Seq<char>),
    /// An array, as its elements in order.
    Array(Seq<Json>),
    /// An object, as its members by name.
    Object(Map<Seq<char>, Json>),
}

/// What a `serde_json::Value` holds: `Value` has the same six kinds, and
/// `Value::get` and `Value::as_str` read them as stated below.
pub uninterp spec fn json_model(value: serde_json::Value) -> Json;

/// The member of an object under a name; nothing where there is no such
/// member, or no object.
pub open spec fn member_of(json: Json, key: Seq<char>) -> Option<Json> {
    match json {
        Json::Object(members) => if members.dom().contains(key) {
            Some(members[key])
        } else {
            None
        },
        _ => None,
    }
}

/// The text of a string; nothing for any other kind of value.
pub open spec fn text_in(json: Json) -> Option<Seq<char>> {
    match json {
        Json::Text(text) => Some(text),
        _ => None,
    }
}

/// What a value that may be absent holds.
pub open spec fn found_model(found: Option<&serde_json::Value>) -> Option<Json> {
    match found {
        Some(value) => Some(json_model(*value)),
        None => None,
    }
}

/// A print or the reason there is none, with the print as a sequence of
/// characters.
pub open spec fn printed_view(printed: Result<String, serde_json::Error>) -> Result<
    Seq<char>,
    serde_json::Error,
> {
    match printed {
        Ok(text) => Ok(text@),
        Err(e) => Err(e),
    }
}

/// What `serde_json::to_string_pretty` prints for a value.
pub uninterp spec fn json_pretty(value: serde_json::Value) -> Result<Seq<char>, serde_json::Error>;

/// `serde_json::from_str` at type `Value`. The result depends on the text
/// alone. The parser bounds its own nesting depth and reports what it cannot
/// read as an error.
#[verifier::external_body]
pub(crate) fn parse(text: &str) -> (r: Result<Value, serde_json::Error>)
    ensures
        r == json_parse(text@),
{
    serde_json::from_str::<Value>(text)
}

/// `Value::get` with a string key: the member of that name where the value
/// is an object that has one, nothing where it is an object without such a
/// member or no object at all.
#[verifier::external_body]
pub(crate) fn member<'a>(value: &'a Value, key: &str) -> (r: Option<&'a Value>)
    ensures
        found_model(r) == member_of(json_model(*value), key@),
{
    value.get(key)
}

/// `Value::as_str`: the text where the value is a string, nothing where it
/// is of any other kind.
#[verifier::external_body]
pub(crate) fn text_of<'a>(value: &'a Value) -> (r: Option<&'a str>)
    ensures
        str_view(r) == text_in(json_model(*value)),
{
    value.as_str()
}

/// `serde_json::to_string_pretty` on a value. The result depends on the value
/// alone.
#[verifier::external_body]
pub(crate) fn pretty(value: &Value) -> (r: Result<String, serde_json::Error>)
    ensures
        printed_view(r) == json_pretty(*value),
{
    serde_json::to_string_pretty(value)
}

} // verus!
