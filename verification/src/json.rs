//! The boundary to `serde_json`.
//!
//! JSON text is parsed and printed by `serde_json`; the values it hands out
//! are opaque to the verifier. Everything verified about them is stated over
//! [`JsonModel`], the tree that a value stands for. The declarations of
//! outside types, the two names without a body and the functions marked
//! `external_body` are believed, not proved: each says in its comment which
//! item of `serde_json` it describes and what it claims of it. The claims
//! are made of `serde_json` as it is built with its default features.

use vstd::prelude::*;

verus! {

/// The tree that a JSON value stands for.
///
/// Numbers are told apart only as far as the protocol reads them: one that
/// `serde_json` hands out as an `i64` is an `Integer`, every other one is
/// `OtherNumber`. An object maps each of its keys to one value.
pub enum JsonModel {
    Null,
    Bool(bool),
    Integer(i64),
    OtherNumber,
    Text(Seq<char>),
    Array(Seq<JsonModel>),
    Object(Map<Seq<char>, JsonModel>),
}

/// `serde_json::Value`, carried through as an opaque value.
#[verifier::external_type_specification]
#[verifier::external_body]
pub struct ExValue(serde_json::Value);

/// `serde_json::Error`, carried through as an opaque value.
#[verifier::external_type_specification]
#[verifier::external_body]
pub struct ExError(serde_json::Error);

/// The tree that a `serde_json::Value` holds.
pub uninterp spec fn json_model(v: serde_json::Value) -> JsonModel;

/// What `serde_json::from_str` makes of `text` when asked for a `Value`:
/// the tree of the value, or `None` where it reports an error.
pub uninterp spec fn json_parse(text: Seq<char>) -> Option<JsonModel>;

/// The value under `key` in `j`, where `j` is an object that has the key.
pub open spec fn member(j: JsonModel, key: Seq<char>) -> Option<JsonModel> {
    match j {
        JsonModel::Object(fields) => if fields.contains_key(key) {
            Some(fields[key])
        } else {
            None
        },
        _ => None,
    }
}

/// The trees of a sequence of values, in order.
pub open spec fn models_of(items: Seq<serde_json::Value>) -> Seq<JsonModel> {
    Seq::new(items.len(), |i: int| json_model(items[i]))
}

/// The texts `items` as JSON strings, in order.
pub open spec fn text_models(items: Seq<Seq<char>>) -> Seq<JsonModel> {
    Seq::new(items.len(), |i: int| JsonModel::Text(items[i]))
}

/// The object that `entries` describe, a later entry replacing an earlier
/// one under the same key.
pub open spec fn fields_of(entries: Seq<(String, serde_json::Value)>) -> Map<Seq<char>, JsonModel>
    decreases entries.len(),
{
    if entries.len() == 0 {
        Map::empty()
    } else {
        fields_of(entries.drop_last()).insert(entries.last().0@, json_model(entries.last().1))
    }
}

/// No two of `entries` have the same key.
pub open spec fn distinct_keys(entries: Seq<(String, serde_json::Value)>) -> bool {
    forall|i: int, j: int|
        0 <= i < j < entries.len() ==> (#[trigger] entries[i]).0@ != (#[trigger] entries[j]).0@
}

/// `j` is null, a string, or an array of strings.
pub open spec fn is_flat(j: JsonModel) -> bool {
    match j {
        JsonModel::Null => true,
        JsonModel::Text(_) => true,
        JsonModel::Array(items) => forall|i: int| 0 <= i < items.len() ==> #[trigger] items[i] is Text,
        _ => false,
    }
}

/// `j` is an object each of whose fields is null, a string, or an array of
/// strings.
pub open spec fn is_flat_object(j: JsonModel) -> bool {
    match j {
        JsonModel::Object(fields) => forall|k: Seq<char>|
            fields.contains_key(k) ==> is_flat(#[trigger] fields[k]),
        _ => false,
    }
}

/// `serde_json::from_str::<Value>`. It succeeds on the texts that
/// [`json_parse`] names a tree for, and the value it returns holds that tree.
#[verifier::external_body]
pub(crate) fn parse(text: &str) -> (r: Result<serde_json::Value, serde_json::Error>)
    ensures
        match r {
            Ok(v) => json_parse(text@) == Some(json_model(v)),
            Err(_) => json_parse(text@) is None,
        },
{
    serde_json::from_str::<serde_json::Value>(text)
}

/// `serde_json::to_string` on a `Value` that is an object of nulls, strings
/// and arrays of strings.
///
/// Two things are claimed. The call succeeds: of the causes of failure that
/// `to_string` documents, a `Serialize` impl that fails and a map key that is
/// no string, neither can occur in a `Value`. And the text it returns is read
/// back by `serde_json::from_str` as the same tree.
#[verifier::external_body]
pub(crate) fn print(v: &serde_json::Value) -> (r: Result<String, serde_json::Error>)
    requires
        is_flat_object(json_model(*v)),
    ensures
        r is Ok,
        r matches Ok(text) ==> json_parse(text@) == Some(json_model(*v)),
{
    serde_json::to_string(v)
}

/// `Value::get` with a string index: the value under `key` where `v` is an
/// object that has the key, `None` otherwise.
#[verifier::external_body]
pub(crate) fn field<'a>(v: &'a serde_json::Value, key: &str) -> (r: Option<&'a serde_json::Value>)
    ensures
        match r {
            Some(x) => member(json_model(*v), key@) == Some(json_model(*x)),
            None => member(json_model(*v), key@) is None,
        },
{
    v.get(key)
}

/// `Value::as_str`: the text where `v` is a string, `None` otherwise.
#[verifier::external_body]
pub(crate) fn as_text<'a>(v: &'a serde_json::Value) -> (r: Option<&'a str>)
    ensures
        match r {
            Some(s) => json_model(*v) == JsonModel::Text(s@),
            None => !(json_model(*v) is Text),
        },
{
    v.as_str()
}

/// `Value::as_array`: the items where `v` is an array, `None` otherwise.
#[verifier::external_body]
pub(crate) fn as_items<'a>(v: &'a serde_json::Value) -> (r: Option<&'a Vec<serde_json::Value>>)
    ensures
        match r {
            Some(items) => json_model(*v) == JsonModel::Array(models_of(items@)),
            None => !(json_model(*v) is Array),
        },
{
    v.as_array()
}

/// `Value::as_i64`: the number where `v` is an integer that fits an `i64`,
/// `None` otherwise.
#[verifier::external_body]
pub(crate) fn as_integer(v: &serde_json::Value) -> (r: Option<i64>)
    ensures
        match r {
            Some(n) => json_model(*v) == JsonModel::Integer(n),
            None => !(json_model(*v) is Integer),
        },
{
    v.as_i64()
}

/// `Value::is_null`: whether `v` is the JSON `null`.
#[verifier::external_body]
pub(crate) fn is_null(v: &serde_json::Value) -> (b: bool)
    ensures
        b == (json_model(*v) is Null),
{
    v.is_null()
}

/// The variant `Value::Null`.
#[verifier::external_body]
pub(crate) fn null_value() -> (v: serde_json::Value)
    ensures
        json_model(v) == JsonModel::Null,
{
    serde_json::Value::Null
}

/// `Value::from` on a `String`: the JSON string with that text.
#[verifier::external_body]
pub(crate) fn text_value(text: String) -> (v: serde_json::Value)
    ensures
        json_model(v) == JsonModel::Text(text@),
{
    serde_json::Value::from(text)
}

/// `Value::from` on a `Vec<String>`: the array of those strings, in order.
#[verifier::external_body]
pub(crate) fn list_value(items: Vec<String>) -> (v: serde_json::Value)
    ensures
        json_model(v) == JsonModel::Array(text_models(items.deep_view())),
{
    serde_json::Value::from(items)
}

/// `FromIterator<(K, V)>` for `Value`, which collects key-value pairs into
/// the object that holds each pair. The keys are asked to differ: the map
/// behind the object keeps one value for a key, and what is documented of
/// it leaves open which.
#[verifier::external_body]
pub(crate) fn object_value(entries: Vec<(String, serde_json::Value)>) -> (v: serde_json::Value)
    requires
        distinct_keys(entries@),
    ensures
        json_model(v) == JsonModel::Object(fields_of(entries@)),
{
    entries.into_iter().collect::<serde_json::Value>()
}

} // verus!
