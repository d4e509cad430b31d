//! Trusted access to JSON documents through `serde_json`.
//!
//! A parsed document is carried as an opaque `serde_json::Value`; its
//! content is modelled by [`JsonModel`], and each accessor's contract
//! says what it returns over that model. All decoding decisions are made
//! by verified callers.

use vstd::prelude::*;

verus! {

use crate::strings::ascii_chars_of;
use crate::strings::dec_digits;

/// Declares `serde_json::Value`, an opaque parsed JSON document.
#[verifier::external_type_specification]
#[verifier::external_body]
pub struct ExValue(serde_json::Value);

/// The mathematical model of a JSON document. A number is carried as the
/// decimal text serde_json prints for it; an object as a map from field
/// name to field content.
pub enum JsonModel {
    Null,
    Bool(bool),
    NumText(Seq<char>),
    Str(Seq<char>),
    Arr(Seq<JsonModel>),
    Obj(Map<Seq<char>, JsonModel>),
}

/// The document a parsed value holds.
pub uninterp spec fn value_model(v: serde_json::Value) -> JsonModel;

/// What parsing a text yields: the parsed document's model, or nothing
/// when the text is rejected. A function of the text alone.
pub uninterp spec fn json_doc_of(s: Seq<char>) -> Option<JsonModel>;

/// The decimal text of an unsigned number.
pub open spec fn dec_chars(n: nat) -> Seq<char> {
    ascii_chars_of(dec_digits(n))
}

/// True when the document is an object that has the given field.
pub open spec fn obj_has(d: JsonModel, key: Seq<char>) -> bool {
    d matches JsonModel::Obj(m) && m.contains_key(key)
}

/// The named field of an object document.
pub open spec fn obj_get(d: JsonModel, key: Seq<char>) -> JsonModel
    recommends
        obj_has(d, key),
{
    match d {
        JsonModel::Obj(m) => m[key],
        _ => JsonModel::Null,
    }
}

/// The named field of a document, when the document is an object that
/// has it.
pub open spec fn obj_field(d: JsonModel, key: Seq<char>) -> Option<JsonModel> {
    if obj_has(d, key) {
        Some(obj_get(d, key))
    } else {
        None
    }
}

/// The models of the elements of a parsed array.
pub open spec fn arr_models(vs: Seq<serde_json::Value>) -> Seq<JsonModel> {
    vs.map_values(|v: serde_json::Value| value_model(v))
}

/// Relies on `serde_json::from_str::<Value>`: parses a JSON document,
/// failing when the text is not one it accepts; what it accepts, and the
/// document it yields, depend on the text alone.
#[verifier::external_body]
pub(crate) fn parse_json(s: &str) -> (r: Result<serde_json::Value, serde_json::Error>)
    ensures
        match r {
            Ok(v) => json_doc_of(s@) == Some(value_model(v)),
            Err(_) => json_doc_of(s@) is None,
        },
{
    serde_json::from_str(s)
}

/// Relies on `serde_json::Value::get` with a string index: the named
/// field, exactly when this is an object that has it.
#[verifier::external_body]
pub(crate) fn json_get<'a>(v: &'a serde_json::Value, key: &str) -> (r: Option<
    &'a serde_json::Value,
>)
    ensures
        r is Some <==> obj_has(value_model(*v), key@),
        r matches Some(x) ==> value_model(*x) == obj_get(value_model(*v), key@),
{
    v.get(key)
}

/// Relies on `serde_json::Value::as_str`: the content, exactly when this
/// is a JSON string.
#[verifier::external_body]
pub(crate) fn json_as_str(v: &serde_json::Value) -> (r: Option<String>)
    ensures
        r is Some <==> value_model(*v) is Str,
        r matches Some(s) ==> value_model(*v) == JsonModel::Str(s@),
{
    match v.as_str() {
        Some(s) => Some(s.to_string()),
        None => None,
    }
}

/// Relies on `serde_json::Value::as_u64`: the value, exactly when this is
/// a JSON number that serde_json holds as an unsigned integer. Such a
/// number prints as its plain decimal digits, and no other number does.
#[verifier::external_body]
pub(crate) fn json_as_u64(v: &serde_json::Value) -> (r: Option<u64>)
    ensures
        r matches Some(n) ==> value_model(*v) == JsonModel::NumText(dec_chars(n as nat)),
        forall|n: u64| value_model(*v) == JsonModel::NumText(dec_chars(n as nat)) ==> r == Some(n),
{
    v.as_u64()
}

/// Relies on `serde_json::Value::as_bool`: the value, exactly when this
/// is a JSON boolean.
#[verifier::external_body]
pub(crate) fn json_as_bool(v: &serde_json::Value) -> (r: Option<bool>)
    ensures
        r is Some <==> value_model(*v) is Bool,
        r matches Some(b) ==> value_model(*v) == JsonModel::Bool(b),
{
    v.as_bool()
}

/// Relies on `serde_json::Value::is_null`: whether this is JSON `null`.
#[verifier::external_body]
pub(crate) fn json_is_null(v: &serde_json::Value) -> (r: bool)
    ensures
        r == (value_model(*v) is Null),
{
    v.is_null()
}

/// Relies on `serde_json::Value::is_object`: whether this is a JSON
/// object.
#[verifier::external_body]
pub(crate) fn json_is_object(v: &serde_json::Value) -> (r: bool)
    ensures
        r == (value_model(*v) is Obj),
{
    v.is_object()
}

/// Relies on `serde_json::Value::as_array`: the elements, exactly when
/// this is a JSON array.
#[verifier::external_body]
pub(crate) fn json_as_array<'a>(v: &'a serde_json::Value) -> (r: Option<
    &'a Vec<serde_json::Value>,
>)
    ensures
        r is Some <==> value_model(*v) is Arr,
        r matches Some(a) ==> value_model(*v) == JsonModel::Arr(arr_models(a@)),
{
    v.as_array()
}

/// Relies on `serde_json::Value::as_number` and the `Display` of
/// `serde_json::Number`: the decimal text, exactly when this is a JSON
/// number; the text depends on the held number alone.
#[verifier::external_body]
pub(crate) fn json_number_text(v: &serde_json::Value) -> (r: Option<String>)
    ensures
        r is Some <==> value_model(*v) is NumText,
        r matches Some(t) ==> value_model(*v) == JsonModel::NumText(t@),
{
    match v.as_number() {
        Some(n) => Some(format!("{}", n)),
        None => None,
    }
}

/// Relies on `serde::de::Error::custom` for `serde_json::Error`: builds the
/// error value that decode failures are reported with.
#[verifier::external_body]
pub(crate) fn json_error(msg: &str) -> serde_json::Error {
    <serde_json::Error as serde::de::Error>::custom(msg)
}

} // verus!
