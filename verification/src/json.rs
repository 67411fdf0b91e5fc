//! The structured values that cross the boundary, and their text.
//!
//! A value is a `serde_json::Value`. This library never looks inside one: it
//! carries values through, and asks `serde_json` for the text of a value and
//! for the value of a text. What `serde_json` answers is not proved here. The
//! functions of this file state it, and the rest of the library is proved from
//! what they state.

use vstd::prelude::*;

verus! {

/// `serde_json::Value`, taken as a whole: nothing is known of what is inside.
#[verifier::external_type_specification]
#[verifier::external_body]
pub struct ExValue(serde_json::Value);

/// `serde_json::Error`, taken as a whole: nothing is known of what is inside.
#[verifier::external_type_specification]
#[verifier::external_body]
pub struct ExError(serde_json::Error);

/// The compact JSON text that `serde_json::to_vec` gives for `value`, or
/// `None` where it reports an error.
pub uninterp spec fn json_text(value: serde_json::Value) -> Option<Seq<u8>>;

/// The value that `serde_json::from_slice` reads from `text`, or `None` where
/// it reports an error: where `text` is not one JSON value, with nothing but
/// white space around it.
pub uninterp spec fn json_value(text: Seq<u8>) -> Option<serde_json::Value>;

/// Calls `serde_json::to_vec` on a value.
///
/// Claims that the text depends on the value alone: the same value gives the
/// same bytes, or an error, every time. Nothing is claimed of what the bytes
/// are. Rendering walks the value recursively, so a value nested deeper than
/// the machine's stack allows ends the process.
#[verifier::external_body]
pub(crate) fn to_vec(value: &serde_json::Value) -> (rendered: Result<Vec<u8>, serde_json::Error>)
    ensures
        json_text(*value) == match rendered {
            Ok(text) => Some(text@),
            Err(_) => None,
        },
{
    serde_json::to_vec(value)
}

/// Calls `serde_json::from_slice` for a `serde_json::Value`.
///
/// Claims that the value depends on the bytes alone: the same bytes give the
/// same value, or an error, every time. Nothing is claimed of which bytes are
/// accepted.
#[verifier::external_body]
pub(crate) fn from_slice(text: &[u8]) -> (parsed: Result<serde_json::Value, serde_json::Error>)
    ensures
        json_value(text@) == match parsed {
            Ok(value) => Some(value),
            Err(_) => None,
        },
{
    serde_json::from_slice::<serde_json::Value>(text)
}

/// The JSON string whose characters are `text`: what `serde_json::Value::from`
/// gives for a string slice.
pub uninterp spec fn json_string(text: Seq<char>) -> serde_json::Value;

/// The member that `serde_json::Value::get` finds under `key` in `value`, or
/// `None` where `value` is no object or has no such member.
pub uninterp spec fn json_member(value: serde_json::Value, key: Seq<char>) -> Option<
    serde_json::Value,
>;

/// The JSON object whose one member is `member` under `key`: what
/// `serde_json::Value::from_iter` gives for that one pair.
pub uninterp spec fn json_object(key: Seq<char>, member: serde_json::Value) -> serde_json::Value;

/// The characters of `value` where it is a JSON string, as
/// `serde_json::Value::as_str` gives them, and `None` where it is anything
/// else.
pub uninterp spec fn json_as_string(value: serde_json::Value) -> Option<Seq<char>>;

/// Calls `serde_json::Value::from` on a string slice, which copies the slice
/// into a JSON string.
///
/// Claims that the value depends on the characters alone.
#[verifier::external_body]
pub(crate) fn string_value(text: &str) -> (value: serde_json::Value)
    ensures
        value == json_string(text@),
{
    serde_json::Value::from(text)
}

/// Calls `serde_json::Value::get` with a string key and copies what it finds.
///
/// Claims that the answer depends on the value and the key alone.
#[verifier::external_body]
pub(crate) fn member(value: &serde_json::Value, key: &str) -> (found: Option<serde_json::Value>)
    ensures
        found == json_member(*value, key@),
{
    value.get(key).cloned()
}

/// Calls `serde_json::Value::from_iter` on one pair of a key and a value,
/// which collects the pair into a JSON object.
///
/// Claims that the object depends on the key and the value alone.
#[verifier::external_body]
pub(crate) fn object_value(key: &str, member: serde_json::Value) -> (value: serde_json::Value)
    ensures
        value == json_object(key@, member),
{
    <serde_json::Value as FromIterator<(&str, serde_json::Value)>>::from_iter([(key, member)])
}

/// Calls `serde_json::Value::as_str`.
///
/// Claims that the answer depends on the value alone.
#[verifier::external_body]
pub(crate) fn as_str(value: &serde_json::Value) -> (text: Option<&str>)
    ensures
        json_as_string(*value) == match text {
            Some(characters) => Some(characters@),
            None => None,
        },
{
    value.as_str()
}

} // verus!
