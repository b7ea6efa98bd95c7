//! Trusted access to `serde_json` for taking response bodies apart.
//!
//! Each executable function here wraps exactly one `serde_json` operation.
//! What an operation returns is a function of its input alone, so each result
//! is given a name (an uninterpreted spec function); verified code elsewhere
//! composes those names into exact decoding contracts.

use vstd::prelude::*;

verus! {

#[verifier::external_type_specification]
#[verifier::external_body]
pub struct ExValue(serde_json::Value);

/// The document a JSON text parses to, if it is valid JSON.
pub uninterp spec fn spec_json_of(s: Seq<char>) -> Option<serde_json::Value>;

/// The member of a JSON object under `key`, if the value is an object that
/// has that member.
pub uninterp spec fn spec_field_of(v: serde_json::Value, key: Seq<char>) -> Option<
    serde_json::Value,
>;

/// The payload of a JSON string, if the value is a string.
pub uninterp spec fn spec_str_of(v: serde_json::Value) -> Option<Seq<char>>;

/// The payload of a JSON number, if it is an unsigned integer in `u64` range.
pub uninterp spec fn spec_u64_of(v: serde_json::Value) -> Option<u64>;

/// The elements of a JSON array, if the value is an array.
pub uninterp spec fn spec_elements_of(v: serde_json::Value) -> Option<Seq<serde_json::Value>>;

/// Whether the value is JSON `null`.
pub uninterp spec fn spec_is_null(v: serde_json::Value) -> bool;

/// Relies on `serde_json::from_str::<serde_json::Value>`: parses a JSON text
/// into a document; the result depends on the text alone.
#[verifier::external_body]
pub(crate) fn parse_json(s: &str) -> (r: Option<serde_json::Value>)
    ensures
        r == spec_json_of(s@),
{
    serde_json::from_str::<serde_json::Value>(s).ok()
}

/// Relies on `serde_json::Value::get` with a string index: looks a member up
/// in a JSON object, `None` for non-objects and missing members.
#[verifier::external_body]
pub(crate) fn get_field<'a>(v: &'a serde_json::Value, key: &str) -> (r: Option<
    &'a serde_json::Value,
>)
    ensures
        match r {
            Some(f) => spec_field_of(*v, key@) == Some(*f),
            None => spec_field_of(*v, key@) is None,
        },
{
    v.get(key)
}

/// Relies on `serde_json::Value::as_str`: the payload of a JSON string,
/// `None` for every other kind of value.
#[verifier::external_body]
pub(crate) fn value_as_str<'a>(v: &'a serde_json::Value) -> (r: Option<&'a str>)
    ensures
        match r {
            Some(s) => spec_str_of(*v) == Some(s@),
            None => spec_str_of(*v) is None,
        },
{
    v.as_str()
}

/// Relies on `serde_json::Value::as_u64`: the payload of a JSON number when
/// it is an unsigned integer in range, `None` otherwise.
#[verifier::external_body]
pub(crate) fn value_as_u64(v: &serde_json::Value) -> (r: Option<u64>)
    ensures
        r == spec_u64_of(*v),
{
    v.as_u64()
}

/// Relies on `serde_json::Value::as_array`: the elements of a JSON array,
/// `None` for every other kind of value.
#[verifier::external_body]
pub(crate) fn value_as_array<'a>(v: &'a serde_json::Value) -> (r: Option<
    &'a Vec<serde_json::Value>,
>)
    ensures
        match r {
            Some(a) => spec_elements_of(*v) == Some(a@),
            None => spec_elements_of(*v) is None,
        },
{
    v.as_array()
}

/// Relies on `serde_json::Value::is_null`: whether the value is JSON `null`.
#[verifier::external_body]
pub(crate) fn value_is_null(v: &serde_json::Value) -> (r: bool)
    ensures
        r == spec_is_null(*v),
{
    v.is_null()
}

} // verus!
