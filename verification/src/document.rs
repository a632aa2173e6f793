//! Structured documents, as `serde_json` holds them.
//!
//! The control plane carries documents through without looking at them, but
//! for the few members of a status answer that it keeps. A document is
//! opaque here; what is read of one is what `serde_json` says of it.

use crate::text::text_view;
use vstd::prelude::*;

verus! {

#[verifier::external_type_specification]
#[verifier::external_body]
pub struct ExValue(serde_json::Value);

#[verifier::external_type_specification]
#[verifier::external_body]
pub struct ExError(serde_json::Error);

/// The document that `serde_json::from_slice` reads from `bytes`, if it
/// reads one.
pub uninterp spec fn parsed(bytes: Seq<u8>) -> Option<serde_json::Value>;

/// The member that `Value::get` finds in `doc` under `key`.
pub uninterp spec fn member(doc: serde_json::Value, key: Seq<char>) -> Option<serde_json::Value>;

/// What `Value::as_bool` makes of `value`.
pub uninterp spec fn as_boolean(value: serde_json::Value) -> Option<bool>;

/// What `Value::as_u64` makes of `value`.
pub uninterp spec fn as_unsigned(value: serde_json::Value) -> Option<u64>;

/// What `Value::as_str` makes of `value`.
pub uninterp spec fn as_text(value: serde_json::Value) -> Option<Seq<char>>;

/// Calls `serde_json::from_slice` for a `Value`: the bytes must hold one
/// JSON text and nothing but whitespace after it. Whether a document is
/// read, and which, depends on the bytes alone.
#[verifier::external_body]
pub(crate) fn parse(bytes: &[u8]) -> (result: Result<serde_json::Value, serde_json::Error>)
    ensures
        result matches Ok(doc) ==> parsed(bytes@) == Some(doc),
        result is Err ==> parsed(bytes@) is None,
{
    serde_json::from_slice(bytes)
}

/// Calls `to_string` on a `serde_json::Error`, that is its `Display`: the
/// parser's words for what it met, and where. Nothing is promised of the
/// text.
#[verifier::external_body]
pub(crate) fn describe(error: &serde_json::Error) -> (words: String) {
    error.to_string()
}

/// Calls `Value::get` with a text key: the member of that name where `doc`
/// is an object that has one, nothing otherwise.
#[verifier::external_body]
pub(crate) fn get<'a>(doc: &'a serde_json::Value, key: &str) -> (found: Option<&'a serde_json::Value>)
    ensures
        found matches Some(value) ==> member(*doc, key@) == Some(*value),
        found is None ==> member(*doc, key@) is None,
{
    doc.get(key)
}

/// Calls `Value::as_bool`: the truth value where `value` is one.
#[verifier::external_body]
pub(crate) fn to_bool(value: &serde_json::Value) -> (read: Option<bool>)
    ensures
        read == as_boolean(*value),
{
    value.as_bool()
}

/// Calls `Value::as_u64`: the number where `value` is an integer that is
/// not negative and fits 64 bits.
#[verifier::external_body]
pub(crate) fn to_u64(value: &serde_json::Value) -> (read: Option<u64>)
    ensures
        read == as_unsigned(*value),
{
    value.as_u64()
}

/// Calls `Value::as_str`: a copy of the text where `value` is a string.
#[verifier::external_body]
pub(crate) fn to_text(value: &serde_json::Value) -> (read: Option<String>)
    ensures
        text_view(read) == as_text(*value),
{
    value.as_str().map(str::to_owned)
}

/// The truth value under `key`, where `doc` has one there.
pub open spec fn boolean_at(doc: serde_json::Value, key: Seq<char>) -> Option<bool> {
    match member(doc, key) {
        Some(value) => as_boolean(value),
        None => None,
    }
}

/// The unsigned integer under `key`, where `doc` has one there.
pub open spec fn unsigned_at(doc: serde_json::Value, key: Seq<char>) -> Option<u64> {
    match member(doc, key) {
        Some(value) => as_unsigned(value),
        None => None,
    }
}

/// The text under `key`, where `doc` has one there.
pub open spec fn text_at(doc: serde_json::Value, key: Seq<char>) -> Option<Seq<char>> {
    match member(doc, key) {
        Some(value) => as_text(value),
        None => None,
    }
}

/// Reads the truth value under `key`.
pub fn read_boolean(doc: &serde_json::Value, key: &str) -> (read: Option<bool>)
    ensures
        read == boolean_at(*doc, key@),
{
    match get(doc, key) {
        Some(value) => to_bool(value),
        None => None,
    }
}

/// Reads the unsigned integer under `key`.
pub fn read_unsigned(doc: &serde_json::Value, key: &str) -> (read: Option<u64>)
    ensures
        read == unsigned_at(*doc, key@),
{
    match get(doc, key) {
        Some(value) => to_u64(value),
        None => None,
    }
}

/// Reads the text under `key`.
pub fn read_text(doc: &serde_json::Value, key: &str) -> (read: Option<String>)
    ensures
        text_view(read) == text_at(*doc, key@),
{
    match get(doc, key) {
        Some(value) => to_text(value),
        None => None,
    }
}

} // verus!
