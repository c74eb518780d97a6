//! The time series of one item: its aggregated prices over a run of spans
//! of one length.

use vstd::prelude::*;
use chrono::NaiveDateTime;
use serde_json::Value;
use crate::decimal::{decimal, push_decimal};
use crate::decode::{
    DecodeError,
    list_of, optional, read_list, read_optional_u32, read_required_u32, read_time, required,
    time_of, u32_of, Record,
};
use crate::json::{document, field, get, parse};
use crate::types::ItemId;

verus! {

/// The length of the spans of a time series.
#[derive(Debug, Clone, Copy)]
pub enum Timestep {
    FiveMinutes,
    OneHour,
    SixHours,
    OneDay,
}

/// The trades of one item over one span of a time series, and the time at
/// which the span begins.
#[derive(Debug, Clone)]
pub struct TimeseriesItem {
    pub avg_high_price: Option<u32>,
    pub avg_low_price: Option<u32>,
    pub high_price_volume: u32,
    pub low_price_volume: u32,
    pub timestamp: NaiveDateTime,
}

/// The body of a time series: the spans under the field `data`, in the
/// order in which the service gives them.
#[derive(Debug, Clone)]
pub struct TimeseriesResponse {
    pub data: Vec<TimeseriesItem>,
}

/// Why a time series cannot be given.
#[derive(Debug, Clone, Copy, PartialEq, Eq, Structural)]
pub enum TimeseriesError {
    /// The body does not decode.
    Decode(DecodeError),
}

impl Timestep {
    /// The word by which the service knows the length.
    pub open spec fn token(self) -> Seq<char> {
        match self {
            Timestep::FiveMinutes => "5m"@,
            Timestep::OneHour => "1h"@,
            Timestep::SixHours => "6h"@,
            Timestep::OneDay => "24h"@,
        }
    }

    pub fn as_ref(&self) -> (r: &'static str)
        ensures
            r@ == self.token(),
    {
        match self {
            Timestep::FiveMinutes => "5m",
            Timestep::OneHour => "1h",
            Timestep::SixHours => "6h",
            Timestep::OneDay => "24h",
        }
    }
}

impl Record for TimeseriesItem {
    /// An object whose fields `avgHighPrice` and `avgLowPrice` are numbers
    /// of 32 bits, absent or `null` at will, whose fields
    /// `highPriceVolume` and `lowPriceVolume` are numbers of 32 bits, and
    /// whose field `timestamp` is a time.
    open spec fn of(v: Value) -> Option<Self> {
        match (
            optional(field(v, "avgHighPrice"@), |x: Value| u32_of(x)),
            optional(field(v, "avgLowPrice"@), |x: Value| u32_of(x)),
            required(field(v, "highPriceVolume"@), |x: Value| u32_of(x)),
            required(field(v, "lowPriceVolume"@), |x: Value| u32_of(x)),
            required(field(v, "timestamp"@), |x: Value| time_of(x)),
        ) {
            (
                Some(avg_high_price),
                Some(avg_low_price),
                Some(high_price_volume),
                Some(low_price_volume),
                Some(timestamp),
            ) => Some(
                TimeseriesItem {
                    avg_high_price,
                    avg_low_price,
                    high_price_volume,
                    low_price_volume,
                    timestamp,
                },
            ),
            _ => None,
        }
    }

    fn read(v: &Value) -> (r: Option<Self>) {
        let avg_high_price = match read_optional_u32(get(v, "avgHighPrice")) {
            Some(x) => x,
            None => {
                return None;
            },
        };
        let avg_low_price = match read_optional_u32(get(v, "avgLowPrice")) {
            Some(x) => x,
            None => {
                return None;
            },
        };
        let high_price_volume = match read_required_u32(get(v, "highPriceVolume")) {
            Some(x) => x,
            None => {
                return None;
            },
        };
        let low_price_volume = match read_required_u32(get(v, "lowPriceVolume")) {
            Some(x) => x,
            None => {
                return None;
            },
        };
        let timestamp = match get(v, "timestamp") {
            Some(x) => match read_time(x) {
                Some(x) => x,
                None => {
                    return None;
                },
            },
            None => {
                return None;
            },
        };
        Some(
            TimeseriesItem {
                avg_high_price,
                avg_low_price,
                high_price_volume,
                low_price_volume,
                timestamp,
            },
        )
    }
}

impl TimeseriesResponse {
    /// The spans that the document `v` decodes to: an object whose field
    /// `data` is an array of spans.
    pub open spec fn of(v: Value) -> Option<Seq<TimeseriesItem>> {
        required(field(v, "data"@), |x: Value| list_of::<TimeseriesItem>(x))
    }

    /// Reads a parsed body.
    pub fn from_value(v: &Value) -> (r: Option<TimeseriesResponse>)
        ensures
            match Self::of(*v) {
                Some(s) => r matches Some(response) && response.data@ == s,
                None => r is None,
            },
    {
        match get(v, "data") {
            Some(data) => match read_list::<TimeseriesItem>(data) {
                Some(data) => Some(TimeseriesResponse { data }),
                None => None,
            },
            None => None,
        }
    }
}

/// What [`timeseries`] makes of `body`.
pub open spec fn timeseries_of(body: Seq<u8>) -> Result<Seq<TimeseriesItem>, TimeseriesError> {
    match document(body) {
        None => Err(TimeseriesError::Decode(DecodeError::Syntax)),
        Some(v) => match TimeseriesResponse::of(v) {
            Some(s) => Ok(s),
            None => Err(TimeseriesError::Decode(DecodeError::Shape)),
        },
    }
}

/// The URL of the time series of the item `id` in spans of the length
/// `timestep`.
pub fn timeseries_url(base_url: &str, id: ItemId, timestep: Timestep) -> (r: String)
    ensures
        r@ == base_url@ + "/timeseries?timestep="@ + timestep.token() + "&id="@ + decimal(
            id.id() as nat,
        ),
{
    let mut url = base_url.to_owned();
    url.append("/timeseries?timestep=");
    url.append(timestep.as_ref());
    url.append("&id=");
    push_decimal(&mut url, id.id() as u64);
    url
}

/// Reads the body of a time series: the spans, in the order of the body.
pub fn timeseries(body: &[u8]) -> (r: Result<Vec<TimeseriesItem>, TimeseriesError>)
    ensures
        match timeseries_of(body@) {
            Ok(s) => r matches Ok(list) && list@ == s,
            Err(e) => r is Err && r->Err_0 == e,
        },
{
    let v = match parse(body) {
        Ok(v) => v,
        Err(_) => {
            return Err(TimeseriesError::Decode(DecodeError::Syntax));
        },
    };
    match TimeseriesResponse::from_value(&v) {
        Some(response) => Ok(response.data),
        None => Err(TimeseriesError::Decode(DecodeError::Shape)),
    }
}

} // verus!
