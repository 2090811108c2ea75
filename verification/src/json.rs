//! What the library relies on from `serde_json`.
//!
//! The content of a `serde_json::Value` cannot be seen in contracts. Each
//! operation that the library performs on one is given a name here, and the
//! contracts of the library speak of the results under those names.

use vstd::prelude::*;

verus! {

/// `serde_json::Value`, a JSON document or a part of one. Contracts see
/// nothing of its content.
#[verifier::external_type_specification]
#[verifier::external_body]
pub struct ExValue(serde_json::Value);

/// `serde_json::Error`, the reason for which bytes were rejected.
#[verifier::external_type_specification]
#[verifier::external_body]
pub struct ExError(serde_json::Error);

/// What `serde_json::from_slice` makes of `body` when asked for a
/// `serde_json::Value`: the document, or the error with which it rejects the
/// bytes.
pub uninterp spec fn parsed_document(body: Seq<u8>) -> Result<
    serde_json::Value,
    serde_json::Error,
>;

/// The value found by indexing `document` with the string `key`.
pub uninterp spec fn member_of(document: serde_json::Value, key: Seq<char>) -> serde_json::Value;

/// What `serde_json::Value::as_str` returns for `value`: its text where it is
/// a JSON string, `None` where it is anything else.
pub uninterp spec fn text_of(value: serde_json::Value) -> Option<Seq<char>>;

/// The message that a `serde_json::Error` displays.
pub uninterp spec fn message_of(error: serde_json::Error) -> Seq<char>;

/// Calls `serde_json::from_slice::<serde_json::Value>`. Believed without
/// proof: the outcome is determined by the bytes, so it is the one that goes
/// by the name `parsed_document`. Which bytes are accepted is not stated.
#[verifier::external_body]
pub(crate) fn parse_document(body: &[u8]) -> (r: Result<serde_json::Value, serde_json::Error>)
    ensures
        r == parsed_document(body@),
{
    serde_json::from_slice::<serde_json::Value>(body)
}

/// Indexes a `serde_json::Value` with a string, through the crate's
/// `Index<&str>` impl. Believed without proof: the value handed out is
/// determined by the document and the key, so it is the one that goes by the
/// name `member_of`. On a shared reference the impl does not panic; where
/// there is no such member it hands out a null value.
#[verifier::external_body]
pub(crate) fn member<'a>(document: &'a serde_json::Value, key: &str) -> (r: &'a serde_json::Value)
    ensures
        *r == member_of(*document, key@),
{
    &document[key]
}

/// `serde_json::Value::as_str`. Believed without proof: the result is
/// determined by the value, so it is the one that goes by the name `text_of`.
pub assume_specification<'a>[ serde_json::Value::as_str ](value: &'a serde_json::Value) -> (r:
    Option<&'a str>)
    ensures
        match r {
            Some(text) => text_of(*value) == Some(text@),
            None => text_of(*value) is None,
        },
;

/// Renders a `serde_json::Error` through its `Display` impl. Believed
/// without proof: the text is determined by the error, so it is the one that
/// goes by the name `message_of`.
#[verifier::external_body]
pub(crate) fn error_message(error: &serde_json::Error) -> (r: String)
    ensures
        r@ == message_of(*error),
{
    error.to_string()
}

} // verus!
