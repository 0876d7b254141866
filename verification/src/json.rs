//! The JSON documents that `serde_json` reads and writes.
//!
//! A `serde_json::Value` is opaque to the verifier. What the rest of the
//! library needs to know of one is given a name here, and each call into
//! `serde_json` is stated over those names. Nothing in this file is proved:
//! every contract in it is taken from `serde_json` as it is written.

use serde_json::Value;
use vstd::prelude::*;

verus! {

/// `serde_json::Value`, a JSON document of any shape, as a type whose inside
/// the verifier does not see.
#[verifier::external_type_specification]
#[verifier::external_body]
pub struct ExValue(serde_json::Value);

/// The document that `serde_json::from_slice` reads from `bytes`, if it reads one.
pub uninterp spec fn json_parse(bytes: Seq<u8>) -> Option<Value>;

/// The member of `doc` under `key`, as `Value::get` finds it.
pub uninterp spec fn json_member(doc: Value, key: Seq<char>) -> Option<Value>;

/// The text of `doc`, as `Value::as_str` gives it.
pub uninterp spec fn json_str(doc: Value) -> Option<Seq<char>>;

/// The number of `doc`, as `Value::as_u64` gives it.
pub uninterp spec fn json_u64(doc: Value) -> Option<u64>;

/// The flag of `doc`, as `Value::as_bool` gives it.
pub uninterp spec fn json_bool(doc: Value) -> Option<bool>;

/// The document that `Value::from` makes of a string.
pub uninterp spec fn json_from_str(text: Seq<char>) -> Value;

/// The document that `Value::from` makes of a `bool`.
pub uninterp spec fn json_from_bool(flag: bool) -> Value;

/// The document that `Value::from` makes of a `u64`.
pub uninterp spec fn json_from_u64(number: u64) -> Value;

/// The object that `Value::from_iter` makes of keyed documents, in their order.
pub uninterp spec fn json_from_members(members: Seq<(Seq<char>, Value)>) -> Value;

/// The text that `serde_json::to_vec` writes for `doc`.
pub uninterp spec fn json_bytes(doc: Value) -> Seq<u8>;

/// The keyed documents of `members`, each key by its characters.
pub open spec fn member_views(members: Seq<(&str, Value)>) -> Seq<(Seq<char>, Value)> {
    members.map_values(|m: (&str, Value)| (m.0@, m.1))
}

/// The document of the last pair of `members` whose key is `key`.
pub open spec fn last_under(members: Seq<(Seq<char>, Value)>, key: Seq<char>) -> Option<Value>
    decreases members.len(),
{
    if members.len() == 0 {
        None
    } else if members.last().0 == key {
        Some(members.last().1)
    } else {
        last_under(members.drop_last(), key)
    }
}

/// Calls `serde_json::from_slice` for a `Value` and drops the error's detail.
/// The result is a function of the bytes alone, and `json_parse` is its name.
#[verifier::external_body]
pub(crate) fn parse(bytes: &[u8]) -> (doc: Option<Value>)
    ensures
        doc == json_parse(bytes@),
{
    serde_json::from_slice::<Value>(bytes).ok()
}

/// Calls `Value::get` with a string key: the member under that key where
/// `doc` is an object that has one, and nothing otherwise.
#[verifier::external_body]
pub(crate) fn member<'a>(doc: &'a Value, key: &str) -> (found: Option<&'a Value>)
    ensures
        found matches Some(v) ==> json_member(*doc, key@) == Some(*v),
        found is None ==> json_member(*doc, key@) is None,
{
    doc.get(key)
}

/// Calls `Value::as_str`: the text where `doc` is a string, nothing otherwise.
#[verifier::external_body]
pub(crate) fn as_str<'a>(doc: &'a Value) -> (text: Option<&'a str>)
    ensures
        text matches Some(s) ==> json_str(*doc) == Some(s@),
        text is None ==> json_str(*doc) is None,
{
    doc.as_str()
}

/// Calls `Value::as_u64`: the number where `doc` is a non-negative integer
/// that fits 64 bits, nothing otherwise.
#[verifier::external_body]
pub(crate) fn as_u64(doc: &Value) -> (number: Option<u64>)
    ensures
        number == json_u64(*doc),
{
    doc.as_u64()
}

/// Calls `Value::as_bool`: the flag where `doc` is `true` or `false`, nothing
/// otherwise.
#[verifier::external_body]
pub(crate) fn as_bool(doc: &Value) -> (flag: Option<bool>)
    ensures
        flag == json_bool(*doc),
{
    doc.as_bool()
}

/// Calls `Value::from` on a string, which makes `Value::String`; `as_str`
/// gives that string back.
#[verifier::external_body]
pub(crate) fn from_str(text: &str) -> (doc: Value)
    ensures
        doc == json_from_str(text@),
        json_str(doc) == Some(text@),
{
    Value::from(text)
}

/// Calls `Value::from` on a `bool`, which makes `Value::Bool`; `as_bool` gives
/// that flag back.
#[verifier::external_body]
pub(crate) fn from_bool(flag: bool) -> (doc: Value)
    ensures
        doc == json_from_bool(flag),
        json_bool(doc) == Some(flag),
{
    Value::from(flag)
}

/// Calls `Value::from` on a `u64`, which makes a non-negative integer;
/// `as_u64` gives that number back.
#[verifier::external_body]
pub(crate) fn from_u64(number: u64) -> (doc: Value)
    ensures
        doc == json_from_u64(number),
        json_u64(doc) == Some(number),
{
    Value::from(number)
}

/// Calls `Value::from_iter` on pairs of a key and a document, which makes an
/// object by inserting the pairs in order. `get` finds under a key the
/// document of the last pair that has it.
#[verifier::external_body]
pub(crate) fn from_members(members: Vec<(&str, Value)>) -> (doc: Value)
    ensures
        doc == json_from_members(member_views(members@)),
        forall|key: Seq<char>| #[trigger]
            json_member(doc, key) == last_under(member_views(members@), key),
{
    Value::from_iter(members)
}

/// Calls `serde_json::to_vec` and drops the error's detail. There always is a
/// text: the serializer fails only where its writer does or where a map's key
/// is no string, and here it writes a `Value`, whose keys are strings, into a
/// `Vec`, which takes every write. The text is a function of the document
/// alone, and `json_bytes` is its name.
#[verifier::external_body]
pub(crate) fn to_bytes(doc: &Value) -> (text: Option<Vec<u8>>)
    ensures
        text is Some,
        text matches Some(bytes) ==> bytes@ == json_bytes(*doc),
{
    serde_json::to_vec(doc).ok()
}

} // verus!
