//! The boundary to `serde_json`: the values that the projections build, and
//! what is taken on trust about the calls that build them.
//!
//! A `serde_json::Value` is opaque to the verifier. Contracts speak of it
//! through [`json_of`], which reads a value as a [`Json`] tree. Nothing here
//! is proved: each item states what the source of `serde_json` shows.

use vstd::prelude::*;

verus! {

/// The type `serde_json::Value`, carried through verified code unopened.
#[verifier::external_type_specification]
#[verifier::external_body]
pub struct ExValue(serde_json::Value);

/// The type `serde_json::Map`, the fields of an object while it is built.
#[verifier::external_type_specification]
#[verifier::external_body]
#[verifier::reject_recursive_types(K)]
#[verifier::reject_recursive_types(V)]
pub struct ExMap<K, V>(serde_json::Map<K, V>);

/// The shape of a JSON value, as far as the projections build one.
pub ghost enum Json {
    /// `null`.
    Null,
    /// A string, by its characters.
    Text(Seq<char>),
    /// An array, by its items in order.
    List(Seq<Json>),
    /// An object, by its fields.
    Record(Map<Seq<char>, Json>),
    /// A boolean or a number: nothing here builds or reads one.
    Scalar,
}

/// What a `serde_json::Value` holds.
pub uninterp spec fn json_of(value: serde_json::Value) -> Json;

/// The fields that a `serde_json::Map` holds, each key with its value.
pub uninterp spec fn fields_of(fields: serde_json::Map<String, serde_json::Value>) -> Map<
    Seq<char>,
    Json,
>;

/// `serde_json::Value::Null`: the value is JSON `null`.
#[verifier::external_body]
pub(crate) fn json_null() -> (value: serde_json::Value)
    ensures
        json_of(value) == Json::Null,
{
    serde_json::Value::Null
}

/// `serde_json::Value::from` on a `&str`: the value is the variant `String`
/// holding a copy of `text`.
#[verifier::external_body]
pub(crate) fn json_text(text: &str) -> (value: serde_json::Value)
    ensures
        json_of(value) == Json::Text(text@),
{
    serde_json::Value::from(text)
}

/// `serde_json::Value::from` on a `Vec<Value>`: the value is the variant
/// `Array` holding the items in their order. Each item is converted by
/// `Into<Value>`, which for a `Value` is the identity.
#[verifier::external_body]
pub(crate) fn json_list(items: Vec<serde_json::Value>) -> (value: serde_json::Value)
    ensures
        json_of(value) == Json::List(items@.map_values(|item: serde_json::Value| json_of(item))),
{
    serde_json::Value::from(items)
}

/// `serde_json::Map::new`: a map without fields.
#[verifier::external_body]
pub(crate) fn json_fields_new() -> (fields: serde_json::Map<String, serde_json::Value>)
    ensures
        fields_of(fields) == (Map::<Seq<char>, Json>::empty()),
{
    serde_json::Map::new()
}

/// `serde_json::Map::insert`: afterwards the map holds `value` under `key`,
/// in place of what it held there, and every other field as before. The
/// value that the call hands back, the one replaced, is dropped.
#[verifier::external_body]
pub(crate) fn json_fields_insert(
    fields: &mut serde_json::Map<String, serde_json::Value>,
    key: &str,
    value: serde_json::Value,
)
    ensures
        fields_of(*final(fields)) == fields_of(*old(fields)).insert(key@, json_of(value)),
{
    fields.insert(key.to_owned(), value);
}

/// `serde_json::Value::from` on a `Map<String, Value>`: the value is the
/// variant `Object` holding the map.
#[verifier::external_body]
pub(crate) fn json_record(fields: serde_json::Map<String, serde_json::Value>) -> (value:
    serde_json::Value)
    ensures
        json_of(value) == Json::Record(fields_of(fields)),
{
    serde_json::Value::from(fields)
}

} // verus!
