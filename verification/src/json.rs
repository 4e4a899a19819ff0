//! JSON documents as `serde_json` reads them, and the few questions that the
//! decoders ask of a parsed value.
//!
//! Nothing here is proved of `serde_json` itself. Each item below that calls
//! it carries a contract that is taken on trust from the documentation of the
//! function it names; the decoders built on top are verified against those
//! contracts.

use vstd::prelude::*;
use vstd::string::StringExecFns;

verus! {

/// Declares `serde_json::Value`, a parsed JSON value. Nothing inside it is
/// visible to the verifier; the functions below are the only way in.
#[verifier::external_type_specification]
#[verifier::external_body]
pub struct ExJsonValue(serde_json::Value);

/// Declares `serde_json::Error`, what `serde_json` reports of bytes that it
/// cannot read. The decoders only tell it from a success.
#[verifier::external_type_specification]
#[verifier::external_body]
pub struct ExJsonError(serde_json::Error);

/// The value that `serde_json::from_slice` reads from `bytes`, or `None` where
/// it reports an error.
pub uninterp spec fn json_document(bytes: Seq<u8>) -> Option<serde_json::Value>;

/// The member under `key` where `value` is an object that has one.
pub uninterp spec fn json_member(value: serde_json::Value, key: Seq<char>) -> Option<
    serde_json::Value,
>;

/// The characters of `value` where it is a JSON string.
pub uninterp spec fn json_text(value: serde_json::Value) -> Option<Seq<char>>;

/// The elements of `value` where it is a JSON array.
pub uninterp spec fn json_items(value: serde_json::Value) -> Option<Seq<serde_json::Value>>;

/// The number that `value` holds where it is a non-negative integer below 2^64.
pub uninterp spec fn json_unsigned(value: serde_json::Value) -> Option<u64>;

/// Whether `value` is the JSON `null`.
pub uninterp spec fn json_is_null(value: serde_json::Value) -> bool;

/// `Clone` as `serde_json` derives it for `Value`. Trusted: the copy holds what
/// the value holds.
pub assume_specification[ <serde_json::Value as Clone>::clone ](value: &serde_json::Value) -> (copy:
    serde_json::Value)
    ensures
        copy == *value,
;

/// Calls `serde_json::from_slice` for a `serde_json::Value`. Trusted: the
/// outcome depends on the bytes alone, so it is given the name
/// [`json_document`]; an error stands for any input that is not one JSON
/// document.
#[verifier::external_body]
pub(crate) fn parse_document(bytes: &[u8]) -> (parsed: Result<
    serde_json::Value,
    serde_json::Error,
>)
    ensures
        parsed is Ok <==> json_document(bytes@) is Some,
        parsed is Ok ==> parsed->Ok_0 == json_document(bytes@)->0,
{
    serde_json::from_slice::<serde_json::Value>(bytes)
}

/// Calls `serde_json::Value::get` with a string key. Trusted: it returns the
/// member of an object under that key, and `None` for a missing key or a value
/// that is no object.
#[verifier::external_body]
pub(crate) fn member<'a>(value: &'a serde_json::Value, key: &str) -> (found: Option<
    &'a serde_json::Value,
>)
    ensures
        found is Some <==> json_member(*value, key@) is Some,
        found is Some ==> *found->0 == json_member(*value, key@)->0,
{
    value.get(key)
}

/// Calls `serde_json::Value::as_str`. Trusted: it returns the text of a JSON
/// string and `None` for every other kind of value.
#[verifier::external_body]
pub(crate) fn text<'a>(value: &'a serde_json::Value) -> (found: Option<&'a str>)
    ensures
        found is Some <==> json_text(*value) is Some,
        found is Some ==> found->0@ == json_text(*value)->0,
{
    value.as_str()
}

/// Calls `serde_json::Value::as_array`. Trusted: it returns the elements of a
/// JSON array in their order and `None` for every other kind of value.
#[verifier::external_body]
pub(crate) fn items<'a>(value: &'a serde_json::Value) -> (found: Option<&'a Vec<serde_json::Value>>)
    ensures
        found is Some <==> json_items(*value) is Some,
        found is Some ==> found->0@ == json_items(*value)->0,
{
    value.as_array()
}

/// Calls `serde_json::Value::as_u64`. Trusted: it returns the number where the
/// value is an integer from 0 to 2^64 - 1, and `None` for a negative number, a
/// fraction or any other kind of value.
#[verifier::external_body]
pub(crate) fn unsigned(value: &serde_json::Value) -> (found: Option<u64>)
    ensures
        found == json_unsigned(*value),
{
    value.as_u64()
}

/// Calls `serde_json::Value::is_null`.
#[verifier::external_body]
pub(crate) fn is_null(value: &serde_json::Value) -> (null: bool)
    ensures
        null == json_is_null(*value),
{
    value.is_null()
}

/// The text of the member under `key` where `value` is an object whose member
/// of that name is a JSON string.
pub open spec fn json_member_text(value: serde_json::Value, key: Seq<char>) -> Option<Seq<char>> {
    match json_member(value, key) {
        Some(found) => json_text(found),
        None => None,
    }
}

/// The string member of an object under `key`.
pub fn member_text<'a>(value: &'a serde_json::Value, key: &str) -> (found: Option<&'a str>)
    ensures
        match found {
            Some(text) => json_member_text(*value, key@) == Some(text@),
            None => json_member_text(*value, key@) is None,
        },
{
    match member(value, key) {
        Some(found) => text(found),
        None => None,
    }
}

/// The text of an optional string member: `Some(None)` where the object has no
/// member under `key` or has `null` there, `Some(Some(..))` where it has a
/// string, and `None` where it has anything else.
pub open spec fn json_optional_text(value: serde_json::Value, key: Seq<char>) -> Option<
    Option<Seq<char>>,
> {
    match json_member(value, key) {
        None => Some(None),
        Some(found) => if json_is_null(found) {
            Some(None)
        } else {
            match json_text(found) {
                Some(text) => Some(Some(text)),
                None => None,
            }
        },
    }
}

/// What stands for an optional string in contracts.
pub open spec fn optional_text_view(found: Option<Option<String>>) -> Option<Option<Seq<char>>> {
    match found {
        Some(Some(text)) => Some(Some(text@)),
        Some(None) => Some(None),
        None => None,
    }
}

/// The optional string member of an object under `key`; the outer `None`
/// reports a member that is neither a string nor `null`.
pub fn optional_text(value: &serde_json::Value, key: &str) -> (found: Option<Option<String>>)
    ensures
        optional_text_view(found) == json_optional_text(*value, key@),
{
    match member(value, key) {
        None => Some(None),
        Some(found) => {
            if is_null(found) {
                Some(None)
            } else {
                match text(found) {
                    Some(text) => Some(Some(String::from_str(text))),
                    None => None,
                }
            }
        },
    }
}

/// An optional member that is itself structured: `Some(None)` where the object
/// has no member under `key` or has `null` there, else the member.
pub open spec fn json_optional_member(value: serde_json::Value, key: Seq<char>) -> Option<
    serde_json::Value,
> {
    match json_member(value, key) {
        None => None,
        Some(found) => if json_is_null(found) {
            None
        } else {
            Some(found)
        },
    }
}

/// The member of an object under `key`, unless it is missing or `null`.
pub fn optional_member<'a>(value: &'a serde_json::Value, key: &str) -> (found: Option<
    &'a serde_json::Value,
>)
    ensures
        match found {
            Some(found) => json_optional_member(*value, key@) == Some(*found),
            None => json_optional_member(*value, key@) is None,
        },
{
    match member(value, key) {
        None => None,
        Some(found) => {
            if is_null(found) {
                None
            } else {
                Some(found)
            }
        },
    }
}

/// The port number under `key`: the member must be an integer from 0 to
/// 65535.
pub open spec fn json_member_port(value: serde_json::Value, key: Seq<char>) -> Option<u16> {
    match json_member(value, key) {
        Some(found) => match json_unsigned(found) {
            Some(number) => if number <= u16::MAX {
                Some(number as u16)
            } else {
                None
            },
            None => None,
        },
        None => None,
    }
}

/// The port number that an object holds under `key`.
pub fn member_port(value: &serde_json::Value, key: &str) -> (port: Option<u16>)
    ensures
        port == json_member_port(*value, key@),
{
    match member(value, key) {
        Some(found) => match unsigned(found) {
            Some(number) => {
                if number <= 65535 {
                    Some(number as u16)
                } else {
                    None
                }
            },
            None => None,
        },
        None => None,
    }
}

} // verus!
