//! JSON text read with `serde_json`. A parsed value is carried as the parser
//! hands it over; the contracts of the accessors below say what each gives
//! in terms of the document that the value holds, and are taken on trust
//! from the parser's source.

use vstd::prelude::*;
use vstd::string::*;
use crate::document::JsonView;

verus! {

/// A JSON value of `serde_json`. Nothing of its inside is visible to the
/// verifier.
#[verifier::external_type_specification]
#[verifier::external_body]
pub struct ExJsonValue(serde_json::Value);

/// The document that a value holds: null, a boolean, a number as it is
/// written, a string, the documents of the items of an array, or the names
/// and documents of the members of an object, each name once.
pub uninterp spec fn document_of(value: serde_json::Value) -> JsonView;

/// The document that `serde_json::from_str` reads from a text, or `None`
/// where it reports an error.
pub uninterp spec fn parsed_document(text: Seq<char>) -> Option<JsonView>;

/// Calls `serde_json::from_str` for a `serde_json::Value` and drops the
/// error. The contract claims that the document read depends on the text
/// alone; the parser refuses malformed or too deeply nested text with an
/// error and does not panic.
#[verifier::external_body]
pub(crate) fn parse_json(text: &str) -> (r: Option<serde_json::Value>)
    ensures
        match r {
            Some(value) => parsed_document(text@) == Some(document_of(value)),
            None => parsed_document(text@) is None,
        },
{
    serde_json::from_str::<serde_json::Value>(text).ok()
}

/// Calls `serde_json::Value::get` with a string key: the member of that
/// name where the value is an object that has one, nothing otherwise.
#[verifier::external_body]
pub(crate) fn json_get<'a>(value: &'a serde_json::Value, key: &str) -> (r: Option<
    &'a serde_json::Value,
>)
    ensures
        match r {
            Some(member) => document_of(*value).get(key@) == Some(document_of(*member)),
            None => document_of(*value).get(key@) is None,
        },
{
    value.get(key)
}

/// Calls `serde_json::Value::as_str`: the characters of the value where it
/// is a string, nothing otherwise.
#[verifier::external_body]
pub(crate) fn json_str<'a>(value: &'a serde_json::Value) -> (r: Option<&'a str>)
    ensures
        r.deep_view() == document_of(*value).as_str(),
{
    value.as_str()
}

/// Calls `serde_json::Value::as_bool`: the value where it is a boolean,
/// nothing otherwise.
#[verifier::external_body]
pub(crate) fn json_bool(value: &serde_json::Value) -> (r: Option<bool>)
    ensures
        r == document_of(*value).as_bool(),
{
    value.as_bool()
}

} // verus!
