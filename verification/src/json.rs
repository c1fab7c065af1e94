//! JSON documents carried through the library. The library never looks
//! inside a document; what it needs of one is its encoding, and the few
//! documents it builds itself.
use vstd::prelude::*;

verus! {

/// `serde_json::Value`, held opaque: the library stores and forwards
/// documents but never looks inside one.
#[verifier::external_type_specification]
#[verifier::external_body]
pub struct ExJsonValue(serde_json::Value);

/// `serde_json::Value::clone`, which `derive(Clone)` writes: the copy is the
/// same document.
pub assume_specification[ <serde_json::Value as Clone>::clone ](v: &serde_json::Value) -> (res:
    serde_json::Value)
    ensures
        res == *v,
;

/// The bytes `serde_json::to_vec` writes for a document (compact JSON), or
/// the empty byte string where it fails. They depend on the document alone.
pub uninterp spec fn json_encoding_of(v: serde_json::Value) -> Seq<u8>;

/// The compact encoding of the empty object: `{}`.
pub open spec fn empty_object_encoding() -> Seq<u8> {
    seq![123u8, 125u8]
}

/// `serde_json::to_vec` on a document, an empty byte string where it fails.
/// The bytes are named `json_encoding_of`.
#[verifier::external_body]
pub(crate) fn json_bytes(value: &serde_json::Value) -> (res: Vec<u8>)
    ensures
        res@ == json_encoding_of(*value),
{
    serde_json::to_vec(value).unwrap_or_default()
}

/// The empty JSON object (`Value::Object` of `serde_json::Map::new`). Its
/// compact encoding is `{}`: `to_vec` writes an object as `{`, its entries,
/// and `}`.
#[verifier::external_body]
pub(crate) fn empty_object() -> (res: serde_json::Value)
    ensures
        json_encoding_of(res) == empty_object_encoding(),
{
    serde_json::Value::Object(serde_json::Map::new())
}

/// The object `{key: value}` with one entry holding a JSON string. It
/// depends on the key and the string alone.
pub uninterp spec fn string_entry_object_of(key: Seq<char>, value: Seq<char>) -> serde_json::Value;

/// Builds `{key: value}` with `serde_json::Map::insert` on a new map, the
/// value as `Value::String`.
#[verifier::external_body]
pub(crate) fn string_entry_object(key: &str, value: &str) -> (res: serde_json::Value)
    ensures
        res == string_entry_object_of(key@, value@),
{
    let mut m = serde_json::Map::new();
    m.insert(key.to_string(), serde_json::Value::String(value.to_string()));
    serde_json::Value::Object(m)
}

/// The object `{key: n}` with one entry holding a JSON number. It depends
/// on the key and the number alone.
pub uninterp spec fn number_entry_object_of(key: Seq<char>, n: u64) -> serde_json::Value;

/// Builds `{key: n}` with `serde_json::Map::insert` on a new map, the
/// number as `Value::from(u64)`.
#[verifier::external_body]
pub(crate) fn number_entry_object(key: &str, n: u64) -> (res: serde_json::Value)
    ensures
        res == number_entry_object_of(key@, n),
{
    let mut m = serde_json::Map::new();
    m.insert(key.to_string(), serde_json::Value::from(n));
    serde_json::Value::Object(m)
}

} // verus!
