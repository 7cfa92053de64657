//! Reading JSON documents and changing the case of texts: what this
//! crate takes on trust from `serde_json` and from the standard library.

use vstd::prelude::*;

verus! {

/// The text member `key` of the JSON document `document`, as
/// `serde_json` reads it: nothing where the document is not well formed;
/// no member where the document is no object, has no such member, or has
/// one that is no string.
pub uninterp spec fn json_text_member_of(document: Seq<char>, key: Seq<char>) -> Option<
    Option<Seq<char>>,
>;

/// The member `key` of the JSON document `document` where it is a number
/// that `serde_json` gives as a `u64`: nothing where the document is not
/// well formed; no member where there is no such number.
pub uninterp spec fn json_unsigned_member_of(document: Seq<char>, key: Seq<char>) -> Option<
    Option<u64>,
>;

/// The member `key` of the JSON document `document` where it is a number
/// that `serde_json` gives as an `i64`: nothing where the document is not
/// well formed; no member where there is no such number.
pub uninterp spec fn json_signed_member_of(document: Seq<char>, key: Seq<char>) -> Option<
    Option<i64>,
>;

/// The elements of the JSON array `document`, each written out as a JSON
/// document of its own, as `serde_json` reads and writes them: nothing
/// where the document is not a well-formed array.
pub uninterp spec fn json_items_of(document: Seq<char>) -> Option<Seq<Seq<char>>>;

/// `s` in lower case, as `str::to_lowercase` gives it.
pub uninterp spec fn lowercase_of(s: Seq<char>) -> Seq<char>;

/// `s` in upper case, as `str::to_uppercase` gives it.
pub uninterp spec fn uppercase_of(s: Seq<char>) -> Seq<char>;

/// Parses `document` with `serde_json::from_str` and reads the member
/// `key` with `Value::get` and `Value::as_str`. Nothing is claimed of the
/// result but that it depends on the two texts alone.
#[verifier::external_body]
pub(crate) fn json_text_member(document: &str, key: &str) -> (r: Option<Option<String>>)
    ensures
        r.deep_view() == json_text_member_of(document@, key@),
{
    match serde_json::from_str::<serde_json::Value>(document) {
        Ok(value) => Some(value.get(key).and_then(|member| member.as_str()).map(String::from)),
        Err(_) => None,
    }
}

/// Parses `document` with `serde_json::from_str` and reads the member
/// `key` with `Value::get` and `Value::as_u64`. Nothing is claimed of the
/// result but that it depends on the two texts alone.
#[verifier::external_body]
pub(crate) fn json_unsigned_member(document: &str, key: &str) -> (r: Option<Option<u64>>)
    ensures
        r == json_unsigned_member_of(document@, key@),
{
    match serde_json::from_str::<serde_json::Value>(document) {
        Ok(value) => Some(value.get(key).and_then(|member| member.as_u64())),
        Err(_) => None,
    }
}

/// Parses `document` with `serde_json::from_str` and reads the member
/// `key` with `Value::get` and `Value::as_i64`. Nothing is claimed of the
/// result but that it depends on the two texts alone.
#[verifier::external_body]
pub(crate) fn json_signed_member(document: &str, key: &str) -> (r: Option<Option<i64>>)
    ensures
        r == json_signed_member_of(document@, key@),
{
    match serde_json::from_str::<serde_json::Value>(document) {
        Ok(value) => Some(value.get(key).and_then(|member| member.as_i64())),
        Err(_) => None,
    }
}

/// Parses `document` as an array with `serde_json::from_str` and writes
/// each element out again with `Value::to_string`. Nothing is claimed of
/// the result but that it depends on the text alone.
#[verifier::external_body]
pub(crate) fn json_items(document: &str) -> (r: Option<Vec<String>>)
    ensures
        r.deep_view() == json_items_of(document@),
{
    match serde_json::from_str::<Vec<serde_json::Value>>(document) {
        Ok(items) => Some(items.iter().map(|item| item.to_string()).collect()),
        Err(_) => None,
    }
}

/// `str::to_lowercase`. Nothing is claimed of the result but that it
/// depends on the text alone.
pub assume_specification[ str::to_lowercase ](s: &str) -> (r: String)
    ensures
        r@ == lowercase_of(s@),
;

/// `str::to_uppercase`. Nothing is claimed of the result but that it
/// depends on the text alone.
pub assume_specification[ str::to_uppercase ](s: &str) -> (r: String)
    ensures
        r@ == uppercase_of(s@),
;

} // verus!
