//! JSON values, built and written by `serde_json`. What is stated of them
//! here is taken from that crate on trust.

use vstd::prelude::*;

verus! {

/// What a JSON value holds.
pub enum Json {
    Null,
    Bool(bool),
    Text(Seq<char>),
    List(Seq<Json>),
    Object(Map<Seq<char>, Json>),
}

/// A JSON value of `serde_json`; what it holds is `json_of`.
#[verifier::external_type_specification]
#[verifier::external_body]
pub struct ExValue(serde_json::Value);

/// An error of `serde_json`.
#[verifier::external_type_specification]
#[verifier::external_body]
pub struct ExError(serde_json::Error);

/// What a value of `serde_json` holds. The functions below say what it is
/// for each value that they build.
pub uninterp spec fn json_of(v: serde_json::Value) -> Json;

/// The text that `serde_json` writes for a value, indented. It writes the
/// fields of an object in the order of their names (the crate is used
/// without its `preserve_order` feature), so that the text depends on what
/// the value holds alone.
pub uninterp spec fn pretty_text(v: Json) -> Seq<char>;

/// The object with the given fields: each name with its value.
pub open spec fn object_of(fields: Seq<(Seq<char>, Json)>) -> Map<Seq<char>, Json>
    decreases fields.len(),
{
    if fields.len() == 0 {
        Map::empty()
    } else {
        object_of(fields.drop_last()).insert(fields.last().0, fields.last().1)
    }
}

/// Whether no two of the fields have the same name.
pub open spec fn distinct_names(fields: Seq<(Seq<char>, Json)>) -> bool {
    forall|i: int, j: int| 0 <= i < j < fields.len() ==> fields[i].0 != fields[j].0
}

/// What a list of values of `serde_json` holds.
pub open spec fn items_of(items: Seq<serde_json::Value>) -> Seq<Json> {
    Seq::new(items.len(), |i: int| json_of(items[i]))
}

/// What a list of named values of `serde_json` holds.
pub open spec fn fields_of(fields: Seq<(String, serde_json::Value)>) -> Seq<(Seq<char>, Json)> {
    Seq::new(fields.len(), |i: int| (fields[i].0@, json_of(fields[i].1)))
}

/// `serde_json::Value::Null`: the value that holds nothing.
#[verifier::external_body]
pub(crate) fn json_null() -> (r: serde_json::Value)
    ensures
        json_of(r) == Json::Null,
{
    serde_json::Value::Null
}

/// `serde_json::Value::Bool`: the value that holds `b`.
#[verifier::external_body]
pub(crate) fn json_bool(b: bool) -> (r: serde_json::Value)
    ensures
        json_of(r) == Json::Bool(b),
{
    serde_json::Value::Bool(b)
}

/// `serde_json::Value::String`: the value that holds the text `s`.
#[verifier::external_body]
pub(crate) fn json_text(s: String) -> (r: serde_json::Value)
    ensures
        json_of(r) == Json::Text(s@),
{
    serde_json::Value::String(s)
}

/// `serde_json::Value::Array`: the value that holds the items, in order.
#[verifier::external_body]
pub(crate) fn json_list(items: Vec<serde_json::Value>) -> (r: serde_json::Value)
    ensures
        json_of(r) == Json::List(items_of(items@)),
{
    serde_json::Value::Array(items)
}

/// `serde_json::Map::from_iter` and `serde_json::Value::Object`: the value
/// that holds the fields, each name with its value. The names differ, so
/// that no field replaces another.
#[verifier::external_body]
pub(crate) fn json_object(fields: Vec<(String, serde_json::Value)>) -> (r: serde_json::Value)
    requires
        distinct_names(fields_of(fields@)),
    ensures
        json_of(r) == Json::Object(object_of(fields_of(fields@))),
{
    serde_json::Value::Object(serde_json::Map::from_iter(fields))
}

/// `serde_json::to_string_pretty`: where it succeeds, the text is the one
/// that `serde_json` writes for what the value holds.
#[verifier::external_body]
pub(crate) fn json_pretty(v: &serde_json::Value) -> (r: Result<String, serde_json::Error>)
    ensures
        r matches Ok(text) ==> text@ == pretty_text(json_of(*v)),
{
    serde_json::to_string_pretty(v)
}

/// `ToString::to_string` on an error of `serde_json`: its message.
#[verifier::external_body]
pub(crate) fn json_error_text(e: &serde_json::Error) -> (r: String)
{
    e.to_string()
}

} // verus!
