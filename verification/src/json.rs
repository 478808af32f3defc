//! JSON values, built by `serde_json`.
//!
//! A `serde_json::Value` is opaque here. The functions of this module build
//! the few values the dispatcher needs and name what they build, so that
//! callers can say exactly which value they send.

use vstd::prelude::*;

verus! {

/// `serde_json::Value`: any JSON value. Nothing of its inside is visible
/// here.
#[verifier::external_type_specification]
#[verifier::external_body]
pub struct ExJsonValue(serde_json::Value);

/// `serde_json::Map`: the members of a JSON object while it is built.
#[verifier::external_type_specification]
#[verifier::external_body]
#[verifier::reject_recursive_types(K)]
#[verifier::reject_recursive_types(V)]
pub struct ExJsonMap<K, V>(serde_json::Map<K, V>);

/// The JSON string that holds the given text.
pub uninterp spec fn json_text(text: Seq<char>) -> serde_json::Value;

/// The members of a `serde_json::Map`, by key.
pub uninterp spec fn json_members(object: serde_json::Map<String, serde_json::Value>) -> Map<
    Seq<char>,
    serde_json::Value,
>;

/// The JSON object that holds the given members.
pub uninterp spec fn json_object(members: Map<Seq<char>, serde_json::Value>) -> serde_json::Value;

/// `serde_json::Value::from` on a string slice: the `Value::String` that
/// holds a copy of the text. What is claimed is that the value depends on
/// the text alone.
#[verifier::external_body]
pub(crate) fn text_value(text: &str) -> (value: serde_json::Value)
    ensures
        value == json_text(text@),
{
    serde_json::Value::from(text)
}

/// `serde_json::Map::new`: a map without members.
#[verifier::external_body]
pub(crate) fn empty_object() -> (object: serde_json::Map<String, serde_json::Value>)
    ensures
        json_members(object) == (Map::<Seq<char>, serde_json::Value>::empty()),
{
    serde_json::Map::new()
}

/// `serde_json::Map::insert`: afterwards the map holds `value` under `key`
/// and its other members as before. What it held under `key` before, if
/// anything, is returned.
#[verifier::external_body]
pub(crate) fn put_member(
    object: &mut serde_json::Map<String, serde_json::Value>,
    key: String,
    value: serde_json::Value,
) -> (replaced: Option<serde_json::Value>)
    ensures
        json_members(*final(object)) == json_members(*old(object)).insert(key@, value),
        replaced == (if json_members(*old(object)).contains_key(key@) {
            Some(json_members(*old(object))[key@])
        } else {
            None
        }),
{
    object.insert(key, value)
}

/// `serde_json::Value::from` on a map: the `Value::Object` that holds the
/// map. What is claimed is that the value depends on the members alone.
#[verifier::external_body]
pub(crate) fn object_value(object: serde_json::Map<String, serde_json::Value>) -> (value:
    serde_json::Value)
    ensures
        value == json_object(json_members(object)),
{
    serde_json::Value::from(object)
}

} // verus!
