//! The prices aggregated over five minutes.

use vstd::prelude::*;
use chrono::NaiveDateTime;
use crate::decimal::{push_signed_decimal, signed_decimal};
use crate::decode::DecodeError;
use crate::endpoints::prices::{
    prices_of, prices_response, PricesErrorView, PricesResponse, PricesResponseSuccess,
};
use crate::time::{to_unix_seconds, unix_seconds};

verus! {

/// Why a request for the prices of five minutes gives no prices.
#[derive(Debug, Clone)]
pub enum PricesFiveMinutesError {
    /// The body does not decode.
    Decode(DecodeError),
    /// The service refused the request, with this message.
    Error(String),
}

impl View for PricesFiveMinutesError {
    type V = PricesErrorView;

    open spec fn view(&self) -> PricesErrorView {
        match self {
            PricesFiveMinutesError::Decode(e) => PricesErrorView::Decode(*e),
            PricesFiveMinutesError::Error(message) => PricesErrorView::Error(message@),
        }
    }
}

/// The URL of the prices of the latest five minutes.
pub fn prices_five_minutes_url(base_url: &str) -> (r: String)
    ensures
        r@ == base_url@ + "/5m"@,
{
    let mut url = base_url.to_owned();
    url.append("/5m");
    url
}

/// The URL of the prices of the five minutes that begin at `timestamp`,
/// which is written into the URL as it is given, in whole seconds since
/// the Unix epoch.
pub fn prices_five_minutes_with_timestamp_url(base_url: &str, timestamp: &NaiveDateTime) -> (r:
    String)
    ensures
        r@ == base_url@ + "/5m?timestamp="@ + signed_decimal(unix_seconds(*timestamp) as int),
{
    let mut url = base_url.to_owned();
    url.append("/5m?timestamp=");
    push_signed_decimal(&mut url, to_unix_seconds(timestamp));
    url
}

/// Reads the body that answers a request for the prices of five minutes,
/// be it for the latest span or for one given by its time.
pub fn prices_five_minutes(body: &[u8]) -> (r: Result<PricesResponseSuccess, PricesFiveMinutesError>)
    ensures
        match prices_of(body@) {
            Ok(success) => r matches Ok(x) && x@ == success,
            Err(e) => r matches Err(x) && x@ == e,
        },
{
    match prices_response(body) {
        Ok(PricesResponse::Success(success)) => Ok(success),
        Ok(PricesResponse::Error(error)) => Err(PricesFiveMinutesError::Error(error.error)),
        Err(e) => Err(PricesFiveMinutesError::Decode(e)),
    }
}

} // verus!
