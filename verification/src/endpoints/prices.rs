//! The aggregated prices: the average high and low price of every item
//! over one span of time, five minutes or an hour long. Both spans share
//! the shape of their body, which this module reads.

use vstd::prelude::*;
use std::collections::HashMap;
use chrono::NaiveDateTime;
use serde_json::Value;
use crate::decode::{
    DecodeError,
    keyed_of, optional, read_keyed, read_optional_u32, read_required_u32, read_text, read_time,
    required, text_of, time_of, u32_of, Record,
};
use crate::json::{document, field, get, is_object, parse, shape, Shape};

pub mod five_minutes;
pub mod one_hour;

verus! {

/// The trades of one item over one span: the average price on each side,
/// absent where nothing was traded on it, and the volume on each side.
#[derive(Debug, Clone)]
pub struct PriceItem {
    pub avg_high_price: Option<u32>,
    pub avg_low_price: Option<u32>,
    pub high_price_volume: u32,
    pub low_price_volume: u32,
}

/// The body that answers a request for aggregated prices with prices: the
/// items' trades, keyed by item number, and the time at which the span
/// begins.
#[derive(Debug, Clone)]
pub struct PricesResponseSuccess {
    pub data: HashMap<u32, PriceItem>,
    pub timestamp: NaiveDateTime,
}

/// The body that answers a request for aggregated prices with a refusal:
/// the service's message.
#[derive(Debug, Clone)]
pub struct PricesResponseError {
    pub error: String,
}

/// The body that answers a request for aggregated prices. Nothing in it
/// names the kind: the fields that are there tell.
#[derive(Debug, Clone)]
pub enum PricesResponse {
    Success(PricesResponseSuccess),
    Error(PricesResponseError),
}

/// What a [`PricesResponseSuccess`] holds.
pub struct PricesSuccessView {
    pub data: Map<u32, PriceItem>,
    pub timestamp: NaiveDateTime,
}

/// What a [`PricesResponse`] holds.
pub enum PricesResponseView {
    Success(PricesSuccessView),
    Error(Seq<char>),
}

/// How a request for aggregated prices fails: what the error types of the
/// two spans hold.
pub enum PricesErrorView {
    Decode(DecodeError),
    Error(Seq<char>),
}

impl View for PricesResponseSuccess {
    type V = PricesSuccessView;

    open spec fn view(&self) -> PricesSuccessView {
        PricesSuccessView { data: self.data@, timestamp: self.timestamp }
    }
}

impl View for PricesResponseError {
    type V = Seq<char>;

    open spec fn view(&self) -> Seq<char> {
        self.error@
    }
}

impl View for PricesResponse {
    type V = PricesResponseView;

    open spec fn view(&self) -> PricesResponseView {
        match self {
            PricesResponse::Success(success) => PricesResponseView::Success(success@),
            PricesResponse::Error(error) => PricesResponseView::Error(error@),
        }
    }
}

impl Record for PriceItem {
    /// An object whose fields `avgHighPrice` and `avgLowPrice` are numbers
    /// of 32 bits, absent or `null` at will, and whose fields
    /// `highPriceVolume` and `lowPriceVolume` are numbers of 32 bits.
    open spec fn of(v: Value) -> Option<Self> {
        match (
            optional(field(v, "avgHighPrice"@), |x: Value| u32_of(x)),
            optional(field(v, "avgLowPrice"@), |x: Value| u32_of(x)),
            required(field(v, "highPriceVolume"@), |x: Value| u32_of(x)),
            required(field(v, "lowPriceVolume"@), |x: Value| u32_of(x)),
        ) {
            (
                Some(avg_high_price),
                Some(avg_low_price),
                Some(high_price_volume),
                Some(low_price_volume),
            ) => Some(
                PriceItem { avg_high_price, avg_low_price, high_price_volume, low_price_volume },
            ),
            _ => None,
        }
    }

    fn read(v: &Value) -> (r: Option<Self>) {
        let avg_high_price = match read_optional_u32(get(v, "avgHighPrice")) {
            Some(x) => x,
            None => {
                return None;
            },
        };
        let avg_low_price = match read_optional_u32(get(v, "avgLowPrice")) {
            Some(x) => x,
            None => {
                return None;
            },
        };
        let high_price_volume = match read_required_u32(get(v, "highPriceVolume")) {
            Some(x) => x,
            None => {
                return None;
            },
        };
        let low_price_volume = match read_required_u32(get(v, "lowPriceVolume")) {
            Some(x) => x,
            None => {
                return None;
            },
        };
        Some(PriceItem { avg_high_price, avg_low_price, high_price_volume, low_price_volume })
    }
}

impl PricesResponseSuccess {
    /// What the document `v` holds where it has the shape of success: an
    /// object whose field `data` is a map of trades keyed by item number
    /// and whose field `timestamp` is a time.
    pub open spec fn of(v: Value) -> Option<PricesSuccessView> {
        match (
            required(field(v, "data"@), |x: Value| keyed_of::<PriceItem>(x)),
            required(field(v, "timestamp"@), |x: Value| time_of(x)),
        ) {
            (Some(data), Some(timestamp)) => Some(PricesSuccessView { data, timestamp }),
            _ => None,
        }
    }

    /// Reads a parsed body as one of success.
    pub fn from_value(v: &Value) -> (r: Option<PricesResponseSuccess>)
        ensures
            match Self::of(*v) {
                Some(success) => r matches Some(x) && x@ == success,
                None => r is None,
            },
    {
        let data = match get(v, "data") {
            Some(data) => match read_keyed::<PriceItem>(data) {
                Some(data) => data,
                None => {
                    return None;
                },
            },
            None => {
                return None;
            },
        };
        let timestamp = match get(v, "timestamp") {
            Some(timestamp) => match read_time(timestamp) {
                Some(timestamp) => timestamp,
                None => {
                    return None;
                },
            },
            None => {
                return None;
            },
        };
        Some(PricesResponseSuccess { data, timestamp })
    }
}

impl PricesResponseError {
    /// The message that the document `v` holds where it has the shape of a
    /// refusal: an object whose field `error` is a string.
    pub open spec fn of(v: Value) -> Option<Seq<char>> {
        required(field(v, "error"@), |x: Value| text_of(x))
    }

    /// Reads a parsed body as one of refusal.
    pub fn from_value(v: &Value) -> (r: Option<PricesResponseError>)
        ensures
            match Self::of(*v) {
                Some(message) => r matches Some(x) && x@ == message,
                None => r is None,
            },
    {
        match get(v, "error") {
            Some(error) => match read_text(error) {
                Some(error) => Some(PricesResponseError { error }),
                None => None,
            },
            None => None,
        }
    }
}

impl PricesResponse {
    /// What the document `v` holds: success where it has the shape of
    /// success; else a refusal where it has the shape of one; else
    /// nothing.
    pub open spec fn of(v: Value) -> Option<PricesResponseView> {
        match PricesResponseSuccess::of(v) {
            Some(success) => Some(PricesResponseView::Success(success)),
            None => match PricesResponseError::of(v) {
                Some(message) => Some(PricesResponseView::Error(message)),
                None => None,
            },
        }
    }

    /// Reads a parsed body.
    pub fn from_value(v: &Value) -> (r: Option<PricesResponse>)
        ensures
            match Self::of(*v) {
                Some(response) => r matches Some(x) && x@ == response,
                None => r is None,
            },
    {
        match PricesResponseSuccess::from_value(v) {
            Some(success) => Some(PricesResponse::Success(success)),
            None => match PricesResponseError::from_value(v) {
                Some(error) => Some(PricesResponse::Error(error)),
                None => None,
            },
        }
    }

    /// A body whose `data` is a map of trades and whose `timestamp` is a
    /// time is read as success, whatever else it holds. A body whose
    /// `error` is a string and which lacks one of those two fields is read
    /// as a refusal, with that string. Neither is taken for the other:
    /// what is read as success has the shape of success, and what is read
    /// as a refusal has not.
    pub proof fn lemma_tells_apart(v: Value)
        ensures
            (field(v, "data"@) is Some && keyed_of::<PriceItem>(field(v, "data"@)->0) is Some
                && field(v, "timestamp"@) is Some && time_of(field(v, "timestamp"@)->0) is Some)
                ==> Self::of(v) == Some(
                PricesResponseView::Success(
                    PricesSuccessView {
                        data: keyed_of::<PriceItem>(field(v, "data"@)->0)->0,
                        timestamp: time_of(field(v, "timestamp"@)->0)->0,
                    },
                ),
            ),
            (field(v, "error"@) is Some && text_of(field(v, "error"@)->0) is Some && (field(
                v,
                "data"@,
            ) is None || field(v, "timestamp"@) is None)) ==> Self::of(v) == Some(
                PricesResponseView::Error(text_of(field(v, "error"@)->0)->0),
            ),
            Self::of(v) matches Some(PricesResponseView::Success(success))
                ==> PricesResponseSuccess::of(v) == Some(success),
            Self::of(v) matches Some(PricesResponseView::Error(message)) ==> (
            PricesResponseSuccess::of(v) is None && PricesResponseError::of(v) == Some(message)),
            Self::of(v) is None <==> (PricesResponseSuccess::of(v) is None
                && PricesResponseError::of(v) is None),
    {
    }
}

/// What a request for aggregated prices comes to, given its body: the
/// prices, the service's refusal, or a failure to decode.
pub open spec fn prices_of(body: Seq<u8>) -> Result<PricesSuccessView, PricesErrorView> {
    match document(body) {
        None => Err(PricesErrorView::Decode(DecodeError::Syntax)),
        Some(v) => match PricesResponse::of(v) {
            None => Err(PricesErrorView::Decode(DecodeError::Shape)),
            Some(PricesResponseView::Success(success)) => Ok(success),
            Some(PricesResponseView::Error(message)) => Err(PricesErrorView::Error(message)),
        },
    }
}

/// Reads the body that answers a request for aggregated prices.
pub fn prices_response(body: &[u8]) -> (r: Result<PricesResponse, DecodeError>)
    ensures
        match document(body@) {
            None => r is Err && r->Err_0 == DecodeError::Syntax,
            Some(v) => match PricesResponse::of(v) {
                None => r is Err && r->Err_0 == DecodeError::Shape,
                Some(response) => r matches Ok(x) && x@ == response,
            },
        },
{
    let v = match parse(body) {
        Ok(v) => v,
        Err(_) => {
            return Err(DecodeError::Syntax);
        },
    };
    match PricesResponse::from_value(&v) {
        Some(response) => Ok(response),
        None => Err(DecodeError::Shape),
    }
}

} // verus!
