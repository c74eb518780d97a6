//! The boundary to `serde_json`.
//!
//! A response body is parsed by `serde_json` into a `serde_json::Value`,
//! which the verifier cannot look into. This module gives such a value a
//! mathematical model, [`shape`], and wraps the few methods of `Value` by
//! which the decoders of this crate take a value apart. Each wrapper's
//! contract says over the model what `serde_json` documents of the method
//! that it calls; none of these contracts is proved.

use vstd::prelude::*;
use serde_json::Value;

verus! {

/// `serde_json::Value`, a parsed JSON value, held without a look inside.
#[verifier::external_type_specification]
#[verifier::external_body]
pub struct ExValue(serde_json::Value);

/// `serde_json::Error`, which says why bytes are no JSON document.
#[verifier::external_type_specification]
#[verifier::external_body]
pub struct ExError(serde_json::Error);

/// What a JSON value holds, one level deep.
pub enum Shape {
    Null,
    Bool(bool),
    /// A number, with the integer that it is where it is one that fits in
    /// 64 bits, signed or unsigned; `None` for every other number.
    Number(Option<int>),
    Text(Seq<char>),
    Array(Seq<Value>),
    /// An object: the value under each of its keys, and its keys in the
    /// order in which the object is walked.
    Object { fields: Map<Seq<char>, Value>, order: Seq<Seq<char>> },
}

/// What the value `v` holds.
pub uninterp spec fn shape(v: Value) -> Shape;

/// The value that `serde_json::from_slice` parses `bytes` into, or `None`
/// where it rejects them.
pub uninterp spec fn document(bytes: Seq<u8>) -> Option<Value>;

/// The value under the key `name` of `v`, where `v` is an object that has
/// this key.
pub open spec fn field(v: Value, name: Seq<char>) -> Option<Value> {
    match shape(v) {
        Shape::Object { fields, order } => if fields.contains_key(name) {
            Some(fields[name])
        } else {
            None
        },
        _ => None,
    }
}

/// Whether `es` holds the entries of the object of `fields` and `order`:
/// each key in the order of the walk, with the value under it.
pub open spec fn walks(
    es: Seq<(&String, &Value)>,
    fields: Map<Seq<char>, Value>,
    order: Seq<Seq<char>>,
) -> bool {
    &&& es.len() == order.len()
    &&& forall|i: int|
        0 <= i < order.len() ==> {
            &&& (#[trigger] es[i]).0@ == order[i]
            &&& fields.contains_key(order[i])
            &&& *es[i].1 == fields[order[i]]
        }
}

/// Calls `serde_json::from_slice` for a `Value`. The result is a function
/// of the bytes alone, named [`document`]; it is an error exactly where
/// the bytes are not one JSON document.
#[verifier::external_body]
pub(crate) fn parse(bytes: &[u8]) -> (r: Result<Value, serde_json::Error>)
    ensures
        match r {
            Ok(v) => document(bytes@) == Some(v),
            Err(_) => document(bytes@) is None,
        },
{
    serde_json::from_slice(bytes)
}

/// Calls `Value::is_null`: true for the JSON `null` and nothing else.
#[verifier::external_body]
pub(crate) fn is_null(v: &Value) -> (r: bool)
    ensures
        r == (shape(*v) is Null),
{
    v.is_null()
}

/// Calls `Value::is_object`: true for every JSON object.
#[verifier::external_body]
pub(crate) fn is_object(v: &Value) -> (r: bool)
    ensures
        r == (shape(*v) is Object),
{
    v.is_object()
}

/// Calls `Value::is_number`: true for every JSON number.
#[verifier::external_body]
pub(crate) fn is_number(v: &Value) -> (r: bool)
    ensures
        r == (shape(*v) is Number),
{
    v.is_number()
}

/// Calls `Value::as_bool`: the boolean, where the value is one.
#[verifier::external_body]
pub(crate) fn as_bool(v: &Value) -> (r: Option<bool>)
    ensures
        r == match shape(*v) {
            Shape::Bool(b) => Some(b),
            _ => None,
        },
{
    v.as_bool()
}

/// Calls `Value::as_u64`: the number, where the value is an integer from
/// zero to `u64::MAX`.
#[verifier::external_body]
pub(crate) fn as_u64(v: &Value) -> (r: Option<u64>)
    ensures
        r == match shape(*v) {
            Shape::Number(Some(i)) if 0 <= i <= u64::MAX => Some(i as u64),
            _ => None,
        },
{
    v.as_u64()
}

/// Calls `Value::as_i64`: the number, where the value is an integer from
/// `i64::MIN` to `i64::MAX`.
#[verifier::external_body]
pub(crate) fn as_i64(v: &Value) -> (r: Option<i64>)
    ensures
        r == match shape(*v) {
            Shape::Number(Some(i)) if i64::MIN <= i <= i64::MAX => Some(i as i64),
            _ => None,
        },
{
    v.as_i64()
}

/// Calls `Value::as_str`: the text, where the value is a JSON string.
#[verifier::external_body]
pub(crate) fn as_str(v: &Value) -> (r: Option<&str>)
    ensures
        match shape(*v) {
            Shape::Text(s) => r matches Some(t) && t@ == s,
            _ => r is None,
        },
{
    v.as_str()
}

/// Calls `Value::as_array`: the elements, where the value is an array.
#[verifier::external_body]
pub(crate) fn as_array(v: &Value) -> (r: Option<&Vec<Value>>)
    ensures
        match shape(*v) {
            Shape::Array(items) => r matches Some(a) && a@ == items,
            _ => r is None,
        },
{
    v.as_array()
}

/// Calls `Value::get` with a string index: the value under the key
/// `name`, where the value is an object that has this key.
#[verifier::external_body]
pub(crate) fn get<'a>(v: &'a Value, name: &str) -> (r: Option<&'a Value>)
    ensures
        match r {
            Some(x) => field(*v, name@) == Some(*x),
            None => field(*v, name@) is None,
        },
{
    v.get(name)
}

/// Calls `Value::as_object` and walks the map with `Map::iter`: the
/// entries of an object, each key with its value, in the order of the
/// walk.
#[verifier::external_body]
pub(crate) fn entries(v: &Value) -> (r: Option<Vec<(&String, &Value)>>)
    ensures
        match shape(*v) {
            Shape::Object { fields, order } => r matches Some(es) && walks(es@, fields, order),
            _ => r is None,
        },
{
    match v.as_object() {
        Some(map) => Some(map.iter().collect()),
        None => None,
    }
}

} // verus!
