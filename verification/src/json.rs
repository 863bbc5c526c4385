//! JSON documents, as `serde_json` reads them.
//!
//! Nothing in this file is proved: it states what the crate relies on when
//! it hands a response body to `serde_json` and walks the result. A document
//! is known here only through the three questions that the providers'
//! parsers ask of it.

use vstd::prelude::*;

verus! {

/// `serde_json::Value`, a JSON document or a part of one; nothing of its
/// inside is known here.
#[verifier::external_type_specification]
#[verifier::external_body]
pub struct ExJsonValue(serde_json::Value);

/// `serde_json::Error`, the reason why a text is no JSON.
#[verifier::external_type_specification]
#[verifier::external_body]
pub struct ExJsonError(serde_json::Error);

/// The document that `serde_json::from_str` reads from `body`, or `None`
/// where it reports an error.
pub uninterp spec fn json_document(body: Seq<char>) -> Option<serde_json::Value>;

/// What `serde_json::Value::get` finds in `value` under the key `key`: the
/// member of that name if `value` is an object that has one.
pub uninterp spec fn json_member(value: serde_json::Value, key: Seq<char>) -> Option<
    serde_json::Value,
>;

/// What `serde_json::Value::as_array` finds in `value`: its elements in
/// order, if `value` is an array.
pub uninterp spec fn json_items(value: serde_json::Value) -> Option<Seq<serde_json::Value>>;

/// What `serde_json::Value::as_str` finds in `value`: its characters, if
/// `value` is a string.
pub uninterp spec fn json_text(value: serde_json::Value) -> Option<Seq<char>>;

/// Calls `serde_json::from_str` for a `serde_json::Value`. The result
/// depends on the text alone, so it has a name: [`json_document`].
#[verifier::external_body]
pub(crate) fn parse_json(body: &str) -> (r: Result<serde_json::Value, serde_json::Error>)
    ensures
        match r {
            Ok(value) => json_document(body@) == Some(value),
            Err(_) => json_document(body@) is None,
        },
{
    serde_json::from_str::<serde_json::Value>(body)
}

/// Calls `serde_json::Value::get` with a string key, which looks the key up
/// in an object and finds nothing in any other kind of value.
#[verifier::external_body]
pub(crate) fn member<'a>(value: &'a serde_json::Value, key: &str) -> (r: Option<
    &'a serde_json::Value,
>)
    ensures
        match r {
            Some(found) => json_member(*value, key@) == Some(*found),
            None => json_member(*value, key@) is None,
        },
{
    value.get(key)
}

/// `serde_json::Value::as_array` hands out the vector of an array and
/// nothing for any other kind of value.
pub assume_specification<'a>[ serde_json::Value::as_array ](value: &'a serde_json::Value) -> (r:
    Option<&'a Vec<serde_json::Value>>)
    ensures
        match r {
            Some(items) => json_items(*value) == Some(items@),
            None => json_items(*value) is None,
        },
;

/// `serde_json::Value::as_str` hands out the slice of a string and nothing
/// for any other kind of value.
pub assume_specification<'a>[ serde_json::Value::as_str ](value: &'a serde_json::Value) -> (r:
    Option<&'a str>)
    ensures
        match r {
            Some(text) => json_text(*value) == Some(text@),
            None => json_text(*value) is None,
        },
;

} // verus!
