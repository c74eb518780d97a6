//! Readers of the parts that the service's records are made of: numbers,
//! texts, flags and times, each optional or required, and the two
//! collections in which records come, keyed by item and in a list.

use vstd::prelude::*;
use std::collections::HashMap;
use chrono::NaiveDateTime;
use serde_json::Value;
use crate::decimal::{parse_u32, text_u32};
use crate::json::{
    as_array, as_bool, as_i64, as_str, as_u64, entries, is_null, shape, walks, Shape,
};
use crate::time::{from_unix_seconds, time_at};

verus! {

/// Why a body does not decode.
#[derive(Debug, Clone, Copy, PartialEq, Eq, Structural)]
pub enum DecodeError {
    /// The body is not a JSON document.
    Syntax,
    /// The document is not of the shape that the operation expects.
    Shape,
}

/// The number that `v` holds, where it is an integer of 32 bits without a
/// sign.
pub open spec fn u32_of(v: Value) -> Option<u32> {
    match shape(v) {
        Shape::Number(Some(i)) if 0 <= i <= u32::MAX => Some(i as u32),
        _ => None,
    }
}

/// The text that `v` holds, where it is a string.
pub open spec fn text_of(v: Value) -> Option<Seq<char>> {
    match shape(v) {
        Shape::Text(s) => Some(s),
        _ => None,
    }
}

/// The flag that `v` holds, where it is a boolean.
pub open spec fn bool_of(v: Value) -> Option<bool> {
    match shape(v) {
        Shape::Bool(b) => Some(b),
        _ => None,
    }
}

/// The time that `v` holds, where it is a whole number of seconds since
/// the Unix epoch that `chrono` can hold.
pub open spec fn time_of(v: Value) -> Option<NaiveDateTime> {
    match shape(v) {
        Shape::Number(Some(i)) if i64::MIN <= i <= i64::MAX => time_at(i as i64),
        _ => None,
    }
}

/// The value that a borrowed field refers to.
pub open spec fn held(field: Option<&Value>) -> Option<Value> {
    match field {
        Some(v) => Some(*v),
        None => None,
    }
}

/// What a field is read as where it has to be there: nothing where it is
/// missing, else what `read` makes of its value.
pub open spec fn required<T>(field: Option<Value>, read: spec_fn(Value) -> Option<T>) -> Option<T> {
    match field {
        Some(v) => read(v),
        None => None,
    }
}

/// What a field is read as where it may be absent. A missing field and a
/// `null` are both read as absent, `Some(None)`. Any other value has to
/// be one that `read` accepts, or the field does not decode, `None`.
pub open spec fn optional<T>(field: Option<Value>, read: spec_fn(Value) -> Option<T>) -> Option<
    Option<T>,
> {
    match field {
        None => Some(None),
        Some(v) => if shape(v) is Null {
            Some(None)
        } else {
            match read(v) {
                Some(x) => Some(Some(x)),
                None => None,
            }
        },
    }
}

/// Reads a number of 32 bits without a sign.
pub fn read_u32(v: &Value) -> (r: Option<u32>)
    ensures
        r == u32_of(*v),
{
    match as_u64(v) {
        Some(n) => if n <= 0xffff_ffff {
            Some(n as u32)
        } else {
            None
        },
        None => None,
    }
}

/// Reads a string.
pub fn read_text(v: &Value) -> (r: Option<String>)
    ensures
        match text_of(*v) {
            Some(s) => r matches Some(t) && t@ == s,
            None => r is None,
        },
{
    match as_str(v) {
        Some(s) => Some(s.to_owned()),
        None => None,
    }
}

/// Reads a boolean.
pub fn read_bool(v: &Value) -> (r: Option<bool>)
    ensures
        r == bool_of(*v),
{
    as_bool(v)
}

/// Reads a time, given in whole seconds since the Unix epoch.
pub fn read_time(v: &Value) -> (r: Option<NaiveDateTime>)
    ensures
        r == time_of(*v),
{
    match as_i64(v) {
        Some(secs) => from_unix_seconds(secs),
        None => None,
    }
}

/// Reads a field that has to hold a number of 32 bits.
pub fn read_required_u32(field: Option<&Value>) -> (r: Option<u32>)
    ensures
        r == required(held(field), |v: Value| u32_of(v)),
{
    match field {
        Some(v) => read_u32(v),
        None => None,
    }
}

/// Reads a field that may hold a number of 32 bits.
pub fn read_optional_u32(field: Option<&Value>) -> (r: Option<Option<u32>>)
    ensures
        r == optional(held(field), |v: Value| u32_of(v)),
{
    match field {
        None => Some(None),
        Some(v) => if is_null(v) {
            Some(None)
        } else {
            match read_u32(v) {
                Some(n) => Some(Some(n)),
                None => None,
            }
        },
    }
}

/// Reads a field that may hold a time.
pub fn read_optional_time(field: Option<&Value>) -> (r: Option<Option<NaiveDateTime>>)
    ensures
        r == optional(held(field), |v: Value| time_of(v)),
{
    match field {
        None => Some(None),
        Some(v) => if is_null(v) {
            Some(None)
        } else {
            match read_time(v) {
                Some(t) => Some(Some(t)),
                None => None,
            }
        },
    }
}

/// A record of the service that is read from one JSON value.
pub trait Record: Sized {
    /// The record that `v` decodes to, where it has the record's shape.
    spec fn of(v: Value) -> Option<Self>;

    /// Reads `v` as a record.
    fn read(v: &Value) -> (r: Option<Self>)
        ensures
            r == Self::of(*v),
    ;
}

/// Whether the entry under `key` is one of a map keyed by item: the key
/// writes an item's number and the value is a record.
pub open spec fn entry_decodes<T: Record>(fields: Map<Seq<char>, Value>, key: Seq<char>) -> bool {
    text_u32(key) is Some && T::of(fields[key]) is Some
}

/// The map that the first `n` entries of an object give, each entry put
/// under the number that its key writes. Where two keys write the same
/// number, the entry that is walked later stays.
pub open spec fn keyed_upto<T: Record>(
    fields: Map<Seq<char>, Value>,
    order: Seq<Seq<char>>,
    n: nat,
) -> Map<u32, T>
    decreases n,
{
    if n == 0 {
        Map::empty()
    } else {
        let key = order[n - 1];
        keyed_upto::<T>(fields, order, (n - 1) as nat).insert(
            text_u32(key)->0,
            T::of(fields[key])->0,
        )
    }
}

/// The map from item numbers to records that `v` decodes to: `v` has to be
/// an object of which every entry decodes.
pub open spec fn keyed_of<T: Record>(v: Value) -> Option<Map<u32, T>> {
    match shape(v) {
        Shape::Object { fields, order } => if forall|i: int|
            0 <= i < order.len() ==> entry_decodes::<T>(fields, #[trigger] order[i]) {
            Some(keyed_upto::<T>(fields, order, order.len()))
        } else {
            None
        },
        _ => None,
    }
}

/// The list of records that `v` decodes to, in the order of `v`: `v` has
/// to be an array of which every element decodes.
pub open spec fn list_of<T: Record>(v: Value) -> Option<Seq<T>> {
    match shape(v) {
        Shape::Array(items) => if forall|i: int|
            0 <= i < items.len() ==> T::of(#[trigger] items[i]) is Some {
            Some(Seq::new(items.len(), |i: int| T::of(items[i])->0))
        } else {
            None
        },
        _ => None,
    }
}

/// What [`lemma_keyed_of`] says, of the first `n` entries.
proof fn lemma_keyed_upto<T: Record>(
    fields: Map<Seq<char>, Value>,
    order: Seq<Seq<char>>,
    n: nat,
    id: u32,
)
    requires
        n <= order.len(),
        forall|i: int| 0 <= i < n ==> entry_decodes::<T>(fields, #[trigger] order[i]),
    ensures
        keyed_upto::<T>(fields, order, n).contains_key(id) <==> exists|i: int|
            0 <= i < n && text_u32(#[trigger] order[i]) == Some(id),
        forall|i: int|
            0 <= i < n && text_u32(#[trigger] order[i]) == Some(id) && (forall|j: int|
                i < j < n ==> text_u32(#[trigger] order[j]) != Some(id)) ==> keyed_upto::<T>(
                fields,
                order,
                n,
            )[id] == T::of(fields[order[i]])->0,
    decreases n,
{
    if n > 0 {
        lemma_keyed_upto::<T>(fields, order, (n - 1) as nat, id);
        let last = order[n - 1];
        assert(entry_decodes::<T>(fields, last));
        if text_u32(last) == Some(id) {
        } else {
            assert forall|i: int|
                0 <= i < n && text_u32(#[trigger] order[i]) == Some(id) && (forall|j: int|
                    i < j < n ==> text_u32(#[trigger] order[j]) != Some(id)) implies keyed_upto::<
                T,
            >(fields, order, n)[id] == T::of(fields[order[i]])->0 by {
                assert(i < n - 1);
            }
        }
    }
}

/// A number is a key of the decoded map exactly where some key of the
/// object writes it, and it then has the record under the last such key
/// of the walk.
pub proof fn lemma_keyed_of<T: Record>(v: Value, id: u32)
    requires
        keyed_of::<T>(v) is Some,
    ensures
        keyed_of::<T>(v)->0.contains_key(id) <==> exists|i: int|
            0 <= i < shape(v)->order.len() && text_u32(#[trigger] shape(v)->order[i]) == Some(id),
        forall|i: int|
            0 <= i < shape(v)->order.len() && text_u32(#[trigger] shape(v)->order[i]) == Some(id)
                && (forall|j: int|
                i < j < shape(v)->order.len() ==> text_u32(#[trigger] shape(v)->order[j]) != Some(
                    id,
                )) ==> keyed_of::<T>(v)->0[id] == T::of(shape(v)->fields[shape(v)->order[i]])->0,
{
    lemma_keyed_upto::<T>(shape(v)->fields, shape(v)->order, shape(v)->order.len(), id);
}

/// Reads an object whose keys are item numbers into a map of records.
pub fn read_keyed<T: Record>(v: &Value) -> (r: Option<HashMap<u32, T>>)
    ensures
        match keyed_of::<T>(*v) {
            Some(m) => r matches Some(h) && h@ == m,
            None => r is None,
        },
{
    let es = match entries(v) {
        Some(es) => es,
        None => {
            return None;
        },
    };
    let ghost fields = shape(*v)->fields;
    let ghost order = shape(*v)->order;
    let mut map: HashMap<u32, T> = HashMap::new();
    let mut i: usize = 0;
    while i < es.len()
        invariant
            i <= es.len(),
            shape(*v) == (Shape::Object { fields, order }),
            walks(es@, fields, order),
            forall|j: int| 0 <= j < i ==> entry_decodes::<T>(fields, #[trigger] order[j]),
            map@ == keyed_upto::<T>(fields, order, i as nat),
        decreases es.len() - i,
    {
        let key = es[i].0;
        let value = es[i].1;
        assert(es@[i as int].0@ == order[i as int]);
        let id = match parse_u32(key.as_str()) {
            Some(id) => id,
            None => {
                assert(!entry_decodes::<T>(fields, order[i as int]));
                return None;
            },
        };
        let record = match T::read(value) {
            Some(record) => record,
            None => {
                assert(!entry_decodes::<T>(fields, order[i as int]));
                return None;
            },
        };
        map.insert(id, record);
        i = i + 1;
    }
    Some(map)
}

/// Reads an array into the list of its records.
pub fn read_list<T: Record>(v: &Value) -> (r: Option<Vec<T>>)
    ensures
        match list_of::<T>(*v) {
            Some(s) => r matches Some(l) && l@ == s,
            None => r is None,
        },
{
    let items = match as_array(v) {
        Some(items) => items,
        None => {
            return None;
        },
    };
    let mut list: Vec<T> = Vec::new();
    let mut i: usize = 0;
    while i < items.len()
        invariant
            i <= items.len(),
            shape(*v) == Shape::Array(items@),
            list@.len() == i,
            forall|j: int| 0 <= j < i ==> T::of(#[trigger] items@[j]) == Some(list@[j]),
        decreases items.len() - i,
    {
        match T::read(&items[i]) {
            Some(record) => {
                list.push(record);
            },
            None => {
                return None;
            },
        }
        i = i + 1;
    }
    assert(list@ =~= Seq::new(items@.len(), |j: int| T::of(items@[j])->0));
    Some(list)
}

} // verus!
