//! JSON documents, read and written by `serde_json`.
//!
//! A document is a `serde_json::Value`, which the verifier cannot look into.
//! What a document holds is therefore named by the functions `json_*` below,
//! one for each way of reading it, and every call into `serde_json` is made by
//! one of the functions of this file, whose contract says over those names
//! what the call returns. None of these contracts is proved: each states what
//! the source of `serde_json` shows of the function it calls.

use vstd::prelude::*;

verus! {

#[verifier::external_type_specification]
#[verifier::external_body]
pub struct ExJsonValue(serde_json::Value);

#[verifier::external_type_specification]
#[verifier::external_body]
pub struct ExJsonError(serde_json::Error);

/// The document that `text` is the JSON text of; `None` where `text` is not
/// the text of one JSON document.
pub uninterp spec fn json_document(text: Seq<char>) -> Option<serde_json::Value>;

/// The JSON text of `value`; `None` where `serde_json` cannot write it.
pub uninterp spec fn json_text(value: serde_json::Value) -> Option<Seq<char>>;

/// The members of `value` by their keys; `None` where `value` is no object.
pub uninterp spec fn json_object(value: serde_json::Value) -> Option<
    Map<Seq<char>, serde_json::Value>,
>;

/// The elements of `value` in order; `None` where `value` is no array.
pub uninterp spec fn json_array(value: serde_json::Value) -> Option<Seq<serde_json::Value>>;

/// The characters of `value`; `None` where `value` is no string.
pub uninterp spec fn json_string(value: serde_json::Value) -> Option<Seq<char>>;

/// The number that `value` is, where `value` is an integer that fits in 64
/// bits with a sign; `None` for every other document, a number with a
/// fraction or an exponent included.
pub uninterp spec fn json_integer(value: serde_json::Value) -> Option<i64>;

/// The truth value that `value` is; `None` where `value` is no boolean.
pub uninterp spec fn json_bool(value: serde_json::Value) -> Option<bool>;

/// The member of `value` under `key`; `None` where `value` is no object or
/// has no such member.
pub open spec fn json_member(value: serde_json::Value, key: Seq<char>) -> Option<
    serde_json::Value,
> {
    match json_object(value) {
        Some(members) => if members.contains_key(key) {
            Some(members[key])
        } else {
            None
        },
        None => None,
    }
}

/// Calls `serde_json::from_str` for a `Value`. The contract names the
/// outcome: the document of `text`, or an error where `text` has none.
#[verifier::external_body]
pub(crate) fn parse(text: &str) -> (r: Result<serde_json::Value, serde_json::Error>)
    ensures
        match r {
            Ok(value) => json_document(text@) == Some(value),
            Err(_) => json_document(text@).is_none(),
        },
{
    serde_json::from_str::<serde_json::Value>(text)
}

/// Calls `serde_json::to_string` on a `Value`. The contract names the
/// outcome: the text of `value`, or an error where it has none.
#[verifier::external_body]
pub(crate) fn render(value: &serde_json::Value) -> (r: Result<String, serde_json::Error>)
    ensures
        match r {
            Ok(text) => json_text(*value) == Some(text@),
            Err(_) => json_text(*value).is_none(),
        },
{
    serde_json::to_string(value)
}

/// Calls `Value::get` with a string index, which looks `key` up in the map of
/// an object and gives `None` for every other document.
#[verifier::external_body]
pub(crate) fn member<'a>(value: &'a serde_json::Value, key: &str) -> (r: Option<
    &'a serde_json::Value,
>)
    ensures
        match r {
            Some(found) => json_member(*value, key@) == Some(*found),
            None => json_member(*value, key@).is_none(),
        },
{
    value.get(key)
}

/// Calls `Value::as_object` and `Map::len`: the number of members of an
/// object, `None` for every other document. An object has finitely many
/// members.
#[verifier::external_body]
pub(crate) fn member_count(value: &serde_json::Value) -> (r: Option<usize>)
    ensures
        match r {
            Some(count) => json_object(*value).is_some() && json_object(
                *value,
            ).unwrap().dom().finite() && json_object(*value).unwrap().dom().len() == count,
            None => json_object(*value).is_none(),
        },
{
    match value.as_object() {
        Some(members) => Some(members.len()),
        None => None,
    }
}

/// Calls `Value::as_array`: the elements of an array, `None` for every other
/// document.
#[verifier::external_body]
pub(crate) fn elements(value: &serde_json::Value) -> (r: Option<&Vec<serde_json::Value>>)
    ensures
        match r {
            Some(items) => json_array(*value) == Some(items@),
            None => json_array(*value).is_none(),
        },
{
    value.as_array()
}

/// Calls `Value::as_str`: the characters of a string, `None` for every other
/// document.
#[verifier::external_body]
pub(crate) fn string(value: &serde_json::Value) -> (r: Option<&str>)
    ensures
        match r {
            Some(text) => json_string(*value) == Some(text@),
            None => json_string(*value).is_none(),
        },
{
    value.as_str()
}

/// Calls `Value::as_i64`.
#[verifier::external_body]
pub(crate) fn integer(value: &serde_json::Value) -> (r: Option<i64>)
    ensures
        r == json_integer(*value),
{
    value.as_i64()
}

/// Calls `Value::as_bool`.
#[verifier::external_body]
pub(crate) fn boolean(value: &serde_json::Value) -> (r: Option<bool>)
    ensures
        r == json_bool(*value),
{
    value.as_bool()
}

/// Builds `Value::Bool`, which `Value::as_bool` reads back.
#[verifier::external_body]
pub(crate) fn from_boolean(truth: bool) -> (r: serde_json::Value)
    ensures
        json_bool(r) == Some(truth),
{
    serde_json::Value::Bool(truth)
}

/// Calls `Value::from` on an `i64`, which makes the number that
/// `Value::as_i64` reads back.
#[verifier::external_body]
pub(crate) fn from_integer(number: i64) -> (r: serde_json::Value)
    ensures
        json_integer(r) == Some(number),
{
    serde_json::Value::from(number)
}

/// Calls `Value::from` on a `&str`, which makes the string that
/// `Value::as_str` reads back.
#[verifier::external_body]
pub(crate) fn from_string(text: &str) -> (r: serde_json::Value)
    ensures
        json_string(r) == Some(text@),
{
    serde_json::Value::from(text)
}

/// Builds `Value::Array`, which `Value::as_array` reads back.
#[verifier::external_body]
pub(crate) fn from_elements(items: Vec<serde_json::Value>) -> (r: serde_json::Value)
    ensures
        json_array(r) == Some(items@),
{
    serde_json::Value::Array(items)
}

/// Builds `Value::Object` over `Map::new`: an object without members.
#[verifier::external_body]
pub(crate) fn empty_object() -> (r: serde_json::Value)
    ensures
        json_object(r) == Some(Map::<Seq<char>, serde_json::Value>::empty()),
{
    serde_json::Value::Object(serde_json::Map::new())
}

/// Calls `Map::insert` on the map of an object: `item` becomes the member
/// under `key`, in place of an earlier one if there was one. A document that
/// is no object is left as it is.
#[verifier::external_body]
pub(crate) fn set_member(object: &mut serde_json::Value, key: &str, item: serde_json::Value)
    ensures
        match json_object(*old(object)) {
            Some(members) => json_object(*final(object)) == Some(members.insert(key@, item)),
            None => *final(object) == *old(object),
        },
{
    if let serde_json::Value::Object(members) = object {
        members.insert(key.to_string(), item);
    }
}

} // verus!
