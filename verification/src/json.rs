//! The part of `serde_json` that reading a template needs.
//!
//! A `serde_json::Value` is opaque to the verifier. What the functions of
//! `serde_json` return is named here by uninterpreted functions, and the
//! contracts below are taken on trust from that crate's source: nothing in
//! this module is proved.

use vstd::prelude::*;
use serde_json::Value;
use crate::text::text_precedes;

verus! {

/// `serde_json::Value`: a JSON document, or a part of one.
#[verifier::external_type_specification]
#[verifier::external_body]
pub struct ExJsonValue(serde_json::Value);

/// `serde_json::Error`: why a text is no JSON document.
#[verifier::external_type_specification]
#[verifier::external_body]
pub struct ExJsonError(serde_json::Error);

/// `serde_json::Map`: the members of a JSON object.
#[verifier::external_type_specification]
#[verifier::external_body]
#[verifier::reject_recursive_types(K)]
#[verifier::reject_recursive_types(V)]
pub struct ExJsonMap<K, V>(serde_json::Map<K, V>);

/// The document that `serde_json::from_str` reads from `text`; `None` where
/// it reports an error.
pub uninterp spec fn json_document(text: Seq<char>) -> Option<Value>;

/// The map inside a JSON object; `None` for a value of any other kind.
pub uninterp spec fn json_object(value: Value) -> Option<serde_json::Map<String, Value>>;

/// The text of a JSON string; `None` for a value of any other kind.
pub uninterp spec fn json_text(value: Value) -> Option<Seq<char>>;

/// The entries that a JSON map holds, key and value, in the order in which
/// the map hands them out.
pub uninterp spec fn object_entries(map: serde_json::Map<String, Value>) -> Seq<(Seq<char>, Value)>;

/// Whether some entry of `entries` has the key `key`.
pub open spec fn has_key(entries: Seq<(Seq<char>, Value)>, key: Seq<char>) -> bool {
    exists|i: int| 0 <= i < entries.len() && (#[trigger] entries[i]).0 == key
}

/// The value that `entries` holds under `key`.
pub open spec fn value_at(entries: Seq<(Seq<char>, Value)>, key: Seq<char>) -> Value {
    entries[choose|i: int| 0 <= i < entries.len() && (#[trigger] entries[i]).0 == key].1
}

/// The member of `value` under `key`: `None` where `value` is no object,
/// or has no such key.
pub open spec fn json_member(value: Value, key: Seq<char>) -> Option<Value> {
    match json_object(value) {
        Some(map) => if has_key(object_entries(map), key) {
            Some(value_at(object_entries(map), key))
        } else {
            None
        },
        None => None,
    }
}

/// The text of the member of `value` under `key`, where there is such a
/// member and it is a string.
pub open spec fn json_text_member(value: Value, key: Seq<char>) -> Option<Seq<char>> {
    match json_member(value, key) {
        Some(member) => json_text(member),
        None => None,
    }
}

/// The entries of a vector of owned keys and borrowed values.
pub open spec fn entries_view(entries: Seq<(String, &Value)>) -> Seq<(Seq<char>, Value)> {
    entries.map_values(|entry: (String, &Value)| (entry.0@, *entry.1))
}

/// Calls `serde_json::from_str`. Trusted: the outcome depends on the text
/// alone, so it is the named document, or an error where there is none.
#[verifier::external_body]
pub(crate) fn parse_document(text: &str) -> (r: Result<Value, serde_json::Error>)
    ensures
        match r {
            Ok(document) => json_document(text@) == Some(document),
            Err(_) => json_document(text@) is None,
        },
{
    serde_json::from_str::<Value>(text)
}

/// Calls `Value::get` with a string key. Trusted: it returns the value under
/// that key when `value` is an object that holds the key, and `None`
/// otherwise.
#[verifier::external_body]
pub(crate) fn member<'a>(value: &'a Value, key: &str) -> (r: Option<&'a Value>)
    ensures
        match r {
            Some(found) => json_member(*value, key@) == Some(*found),
            None => json_member(*value, key@) is None,
        },
{
    value.get(key)
}

/// Calls `Value::as_object`. Trusted: it returns the map of an object and
/// `None` for any other value.
#[verifier::external_body]
pub(crate) fn as_object<'a>(value: &'a Value) -> (r: Option<&'a serde_json::Map<String, Value>>)
    ensures
        match r {
            Some(map) => json_object(*value) == Some(*map),
            None => json_object(*value) is None,
        },
{
    value.as_object()
}

/// Calls `Value::as_str`. Trusted: it returns the text of a JSON string and
/// `None` for any other value.
#[verifier::external_body]
pub(crate) fn as_text<'a>(value: &'a Value) -> (r: Option<&'a str>)
    ensures
        match r {
            Some(text) => json_text(*value) == Some(text@),
            None => json_text(*value) is None,
        },
{
    value.as_str()
}

/// Calls `Map::iter` and hands out each entry with its key copied. Trusted:
/// the entries come in the map's own order, which is the ascending order of
/// their keys. (The map is a `BTreeMap` keyed by `String`, unless the
/// feature `preserve_order` of `serde_json` is switched on.)
#[verifier::external_body]
pub(crate) fn entries_of<'a>(map: &'a serde_json::Map<String, Value>) -> (r: Vec<(String, &'a Value)>)
    ensures
        entries_view(r@) == object_entries(*map),
        forall|i: int, j: int|
            0 <= i < j < r@.len() ==> text_precedes((#[trigger] r@[i]).0@, (#[trigger] r@[j]).0@),
{
    map.iter().map(|(key, value)| (key.clone(), value)).collect()
}

} // verus!
