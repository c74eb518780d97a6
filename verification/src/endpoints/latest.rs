//! The latest prices: the most recent high and low trade of every item,
//! or of one item.

use vstd::prelude::*;
use std::collections::HashMap;
use chrono::NaiveDateTime;
use serde_json::Value;
use crate::decimal::{decimal, push_decimal};
use crate::decode::{
    DecodeError,
    held, keyed_of, optional, read_keyed, read_optional_time, read_optional_u32, time_of, u32_of,
    Record,
};
use crate::json::{document, field, get, is_object, parse, shape, Shape};
use crate::types::ItemId;

verus! {

/// The most recent trades of one item. A side on which the item was not
/// traded of late is absent.
#[derive(Debug, Clone)]
pub struct LatestItem {
    pub high: Option<u32>,
    pub low: Option<u32>,
    pub high_time: Option<NaiveDateTime>,
    pub low_time: Option<NaiveDateTime>,
}

/// The body of the latest prices: the items' trades under the field `data`,
/// keyed by item number.
#[derive(Debug, Clone)]
pub struct LatestResponse {
    pub data: HashMap<u32, LatestItem>,
}

/// Why the latest prices cannot be given.
#[derive(Debug, Clone, Copy, PartialEq, Eq, Structural)]
pub enum LatestError {
    /// The body does not decode.
    Decode(DecodeError),
}

/// Why the latest prices of one item cannot be given.
#[derive(Debug, Clone, Copy, PartialEq, Eq, Structural)]
pub enum LatestByIdError {
    /// The body does not decode.
    Decode(DecodeError),
    /// The body decodes and holds nothing of the item asked for.
    ItemNotFound,
}

impl Record for LatestItem {
    /// An object whose fields `high` and `low` are numbers of 32 bits and
    /// whose fields `highTime` and `lowTime` are times, each of the four
    /// absent or `null` at will.
    open spec fn of(v: Value) -> Option<Self> {
        match (
            optional(field(v, "high"@), |x: Value| u32_of(x)),
            optional(field(v, "low"@), |x: Value| u32_of(x)),
            optional(field(v, "highTime"@), |x: Value| time_of(x)),
            optional(field(v, "lowTime"@), |x: Value| time_of(x)),
        ) {
            (Some(high), Some(low), Some(high_time), Some(low_time)) if shape(v) is Object => Some(
                LatestItem { high, low, high_time, low_time },
            ),
            _ => None,
        }
    }

    fn read(v: &Value) -> (r: Option<Self>) {
        if !is_object(v) {
            return None;
        }
        let high = match read_optional_u32(get(v, "high")) {
            Some(x) => x,
            None => {
                return None;
            },
        };
        let low = match read_optional_u32(get(v, "low")) {
            Some(x) => x,
            None => {
                return None;
            },
        };
        let high_time = match read_optional_time(get(v, "highTime")) {
            Some(x) => x,
            None => {
                return None;
            },
        };
        let low_time = match read_optional_time(get(v, "lowTime")) {
            Some(x) => x,
            None => {
                return None;
            },
        };
        Some(LatestItem { high, low, high_time, low_time })
    }
}

impl LatestResponse {
    /// The map of trades that the document `v` decodes to: an object
    /// whose field `data` is a map of trades keyed by item number.
    pub open spec fn of(v: Value) -> Option<Map<u32, LatestItem>> {
        match field(v, "data"@) {
            Some(data) => keyed_of::<LatestItem>(data),
            None => None,
        }
    }

    /// Reads a parsed body.
    pub fn from_value(v: &Value) -> (r: Option<LatestResponse>)
        ensures
            match Self::of(*v) {
                Some(m) => r matches Some(response) && response.data@ == m,
                None => r is None,
            },
    {
        match get(v, "data") {
            Some(data) => match read_keyed::<LatestItem>(data) {
                Some(data) => Some(LatestResponse { data }),
                None => None,
            },
            None => None,
        }
    }
}

/// What [`latest`] makes of `body`.
pub open spec fn latest_of(body: Seq<u8>) -> Result<Map<u32, LatestItem>, LatestError> {
    match document(body) {
        None => Err(LatestError::Decode(DecodeError::Syntax)),
        Some(v) => match LatestResponse::of(v) {
            Some(m) => Ok(m),
            None => Err(LatestError::Decode(DecodeError::Shape)),
        },
    }
}

/// What [`latest_by_id`] makes of `body` for the item of number `id`:
/// that item's entry in what [`latest`] makes of the body.
pub open spec fn latest_by_id_of(body: Seq<u8>, id: u32) -> Result<LatestItem, LatestByIdError> {
    match latest_of(body) {
        Err(LatestError::Decode(e)) => Err(LatestByIdError::Decode(e)),
        Ok(m) => if m.contains_key(id) {
            Ok(m[id])
        } else {
            Err(LatestByIdError::ItemNotFound)
        },
    }
}

/// Asking for one item gives "not found" exactly where the map of all
/// items decodes and has no entry of the item, and gives a value exactly
/// where that map has one: the entry.
pub proof fn lemma_by_id_agrees_with_latest(body: Seq<u8>, id: ItemId)
    ensures
        latest_by_id_of(body, id.id()) == Err::<LatestItem, LatestByIdError>(
            LatestByIdError::ItemNotFound,
        ) <==> (latest_of(body) matches Ok(m) && !m.contains_key(id.id())),
        latest_by_id_of(body, id.id()) is Ok <==> (latest_of(body) matches Ok(m) && m.contains_key(
            id.id(),
        )),
        latest_by_id_of(body, id.id()) matches Ok(item) ==> latest_of(body) matches Ok(m) && m[id.id()]
            == item,
{
}

/// The URL of the latest prices of all items.
pub fn latest_url(base_url: &str) -> (r: String)
    ensures
        r@ == base_url@ + "/latest"@,
{
    let mut url = base_url.to_owned();
    url.append("/latest");
    url
}

/// The URL of the latest prices of the item `id`.
pub fn latest_by_id_url(base_url: &str, id: ItemId) -> (r: String)
    ensures
        r@ == base_url@ + "/latest?id="@ + decimal(id.id() as nat),
{
    let mut url = base_url.to_owned();
    url.append("/latest?id=");
    push_decimal(&mut url, id.id() as u64);
    url
}

/// Reads the body of the latest prices: every item's trades, keyed by
/// item number.
pub fn latest(body: &[u8]) -> (r: Result<HashMap<u32, LatestItem>, LatestError>)
    ensures
        match latest_of(body@) {
            Ok(m) => r matches Ok(h) && h@ == m,
            Err(e) => r == Err::<HashMap<u32, LatestItem>, LatestError>(e),
        },
{
    let v = match parse(body) {
        Ok(v) => v,
        Err(_) => {
            return Err(LatestError::Decode(DecodeError::Syntax));
        },
    };
    match LatestResponse::from_value(&v) {
        Some(response) => Ok(response.data),
        None => Err(LatestError::Decode(DecodeError::Shape)),
    }
}

/// Reads the body of the latest prices for the trades of the item `id`.
pub fn latest_by_id(body: &[u8], id: ItemId) -> (r: Result<LatestItem, LatestByIdError>)
    ensures
        r == latest_by_id_of(body@, id.id()),
{
    let mut data = match latest(body) {
        Ok(data) => data,
        Err(LatestError::Decode(e)) => {
            return Err(LatestByIdError::Decode(e));
        },
    };
    let key = id.id();
    match data.remove(&key) {
        Some(item) => Ok(item),
        None => Err(LatestByIdError::ItemNotFound),
    }
}

} // verus!
