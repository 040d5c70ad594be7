//! The boundary with `serde_json`.
//!
//! A parsed body is a `serde_json::Value`, which the verifier cannot look
//! into. This module declares the type, names what each accessor reports of a
//! value, and wraps the accessors that the rest of the crate calls. Nothing
//! here is proved: each contract restates what `serde_json` documents.

use serde::Deserialize;
use serde_json::Value;
use vstd::prelude::*;

verus! {

/// `serde_json::Value`, a parsed JSON value, carried as it is.
#[verifier::external_type_specification]
#[verifier::external_body]
pub struct ExValue(serde_json::Value);

/// `serde_json::Error`, the parser's report of a text that is not JSON,
/// carried as it is.
#[verifier::external_type_specification]
#[verifier::external_body]
pub struct ExJsonError(serde_json::Error);

/// What `serde_json::from_str` makes of a body: the value it parses to, or the
/// error that reports why it is not JSON.
pub uninterp spec fn json_parsed(body: Seq<char>) -> Result<Value, serde_json::Error>;

/// What `value[key]` refers to: the member under `key`, or JSON `null` where
/// `value` is no object or has no such member.
pub uninterp spec fn json_index(value: Value, key: Seq<char>) -> Value;

/// The members of an object, keyed by name; no members for any other value.
pub uninterp spec fn json_members(value: Value) -> Map<Seq<char>, Value>;

/// The elements of an array, in order; `None` for any other value.
pub uninterp spec fn json_elements(value: Value) -> Option<Seq<Value>>;

/// Whether the value is an object.
pub uninterp spec fn json_is_object(value: Value) -> bool;

/// The text of a JSON string; `None` for any other value.
pub uninterp spec fn json_text(value: Value) -> Option<Seq<char>>;

/// The compact JSON text that `Display` writes for a value.
pub uninterp spec fn json_rendering(value: Value) -> Seq<char>;

/// The error with which a value that is no JSON string is refused where a
/// `String` is read from it. It says what kind of value was found.
pub uninterp spec fn json_string_error(value: Value) -> serde_json::Error;

/// The error that `serde_json` makes of a message.
pub uninterp spec fn json_custom_error(message: Seq<char>) -> serde_json::Error;

/// `serde_json::from_str::<Value>`: parses `body` as one JSON value. The
/// outcome depends on the text alone, and is named `json_parsed`.
#[verifier::external_body]
pub(crate) fn parse(body: &str) -> (outcome: Result<Value, serde_json::Error>)
    ensures
        outcome == json_parsed(body@),
{
    serde_json::from_str(body)
}

/// `Index<&str>` on `Value`, that is `value[key]`: never fails, and refers to
/// what `json_index` names.
#[verifier::external_body]
pub(crate) fn index<'a>(value: &'a Value, key: &str) -> (member: &'a Value)
    ensures
        *member == json_index(*value, key@),
{
    &value[key]
}

/// `Value::get` with a string key: the member under `key` of an object, and
/// `None` where there is none or `value` is no object.
#[verifier::external_body]
pub(crate) fn get<'a>(value: &'a Value, key: &str) -> (member: Option<&'a Value>)
    ensures
        match member {
            Some(m) => json_members(*value).contains_key(key@) && *m == json_members(*value)[key@],
            None => !json_members(*value).contains_key(key@),
        },
{
    value.get(key)
}

/// `Value::as_array`: the elements where `value` is an array.
#[verifier::external_body]
pub(crate) fn as_array<'a>(value: &'a Value) -> (elements: Option<&'a Vec<Value>>)
    ensures
        match elements {
            Some(e) => json_elements(*value) == Some(e@),
            None => json_elements(*value) is None,
        },
{
    value.as_array()
}

/// `Value::is_object`.
#[verifier::external_body]
pub(crate) fn is_object(value: &Value) -> (yes: bool)
    ensures
        yes == json_is_object(*value),
{
    value.is_object()
}

/// `Value::as_str`: the text where `value` is a JSON string.
#[verifier::external_body]
pub(crate) fn as_str<'a>(value: &'a Value) -> (text: Option<&'a str>)
    ensures
        match text {
            Some(t) => json_text(*value) == Some(t@),
            None => json_text(*value) is None,
        },
{
    value.as_str()
}

/// `PartialEq<&str>` on `Value`, that is `value == text`: true exactly where
/// `value` is a JSON string with that text.
#[verifier::external_body]
pub(crate) fn is_text(value: &Value, text: &str) -> (yes: bool)
    ensures
        yes == (json_text(*value) == Some(text@)),
{
    *value == text
}

/// `ToString` on `Value`, through its `Display`: the compact JSON text.
#[verifier::external_body]
pub(crate) fn render(value: &Value) -> (text: String)
    ensures
        text@ == json_rendering(*value),
{
    value.to_string()
}

/// `String::deserialize` with a `&Value` as the deserializer: a JSON string
/// gives its text, and any other value is refused with the type error that
/// `json_string_error` names.
#[verifier::external_body]
pub(crate) fn read_string(value: &Value) -> (outcome: Result<String, serde_json::Error>)
    ensures
        match outcome {
            Ok(text) => json_text(*value) == Some(text@),
            Err(error) => json_text(*value) is None && error == json_string_error(*value),
        },
{
    String::deserialize(value)
}

/// `serde::de::Error::custom` for `serde_json::Error`: the error that carries
/// the message.
#[verifier::external_body]
pub(crate) fn custom_error(message: &str) -> (error: serde_json::Error)
    ensures
        error == json_custom_error(message@),
{
    serde::de::Error::custom(message)
}

} // verus!
