//! JSON documents as the decoders of this library read them.

use vstd::prelude::*;

verus! {

#[verifier::external_type_specification]
#[verifier::external_body]
pub struct ExJsonValue(serde_json::Value);

/// A JSON value.
#[derive(Debug, PartialEq, Eq)]
pub enum Json {
    Null,
    Bool(bool),
    /// A number, with its value where it is a whole number from 0 to `u64::MAX`.
    Number(Option<u64>),
    Text(String),
    List(Vec<Json>),
    /// The members of an object, each name once.
    Object(Vec<(String, Json)>),
}

/// What `serde_json::from_slice` reads from a buffer as a `serde_json::Value`:
/// `None` where it refuses the buffer, else the value as [`json_tree`] shows it.
pub uninterp spec fn json_document(bytes: Seq<u8>) -> Option<Json>;

/// A `serde_json::Value` as a [`Json`]: the same variant with the same
/// contents, the members of an object in the order in which its map hands
/// them out.
pub uninterp spec fn json_tree(value: serde_json::Value) -> Json;

/// Calls `serde_json::from_slice` for a `serde_json::Value`. Trusted: the
/// call succeeds or fails as [`json_document`] says of the buffer, and the
/// value returned is the one that [`json_document`] shows.
#[verifier::external_body]
fn read_value(bytes: &[u8]) -> (value: Option<serde_json::Value>)
    ensures
        match value {
            Some(v) => json_document(bytes@) == Some(json_tree(v)),
            None => json_document(bytes@) is None,
        },
{
    serde_json::from_slice::<serde_json::Value>(bytes).ok()
}

/// Converts a `serde_json::Value`, variant by variant and member by member;
/// of a number it keeps what `serde_json::Number::as_u64` returns. Trusted:
/// the result is the value as [`json_tree`] shows it.
#[verifier::external_body]
fn convert(value: &serde_json::Value) -> (json: Json)
    ensures
        json == json_tree(*value),
{
    match value {
        serde_json::Value::Null => Json::Null,
        serde_json::Value::Bool(b) => Json::Bool(*b),
        serde_json::Value::Number(n) => Json::Number(n.as_u64()),
        serde_json::Value::String(s) => Json::Text(s.clone()),
        serde_json::Value::Array(items) => Json::List(items.iter().map(convert).collect()),
        serde_json::Value::Object(members) => Json::Object(
            members.iter().map(|(name, member)| (name.clone(), convert(member))).collect(),
        ),
    }
}

/// Reads a buffer as a JSON document.
pub fn parse(bytes: &[u8]) -> (document: Option<Json>)
    ensures
        document == json_document(bytes@),
{
    match read_value(bytes) {
        Some(value) => Some(convert(&value)),
        None => None,
    }
}

} // verus!
