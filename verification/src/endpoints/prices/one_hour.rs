//! The prices aggregated over one hour.

use vstd::prelude::*;
use chrono::NaiveDateTime;
use crate::decimal::{push_signed_decimal, signed_decimal};
use crate::decode::DecodeError;
use crate::endpoints::prices::{
    prices_of, prices_response, PricesErrorView, PricesResponse, PricesResponseSuccess,
};
use crate::time::{to_unix_seconds, unix_seconds};

verus! {

/// Why a request for the prices of one hour gives no prices.
#[derive(Debug, Clone)]
pub enum PricesOneHourError {
    /// The body does not decode.
    Decode(DecodeError),
    /// The service refused the request, with this message.
    Error(String),
}

impl View for PricesOneHourError {
    type V = PricesErrorView;

    open spec fn view(&self) -> PricesErrorView {
        match self {
            PricesOneHourError::Decode(e) => PricesErrorView::Decode(*e),
            PricesOneHourError::Error(message) => PricesErrorView::Error(message@),
        }
    }
}

/// The URL of the prices of the latest hour.
pub fn prices_one_hour_url(base_url: &str) -> (r: String)
    ensures
        r@ == base_url@ + "/1h"@,
{
    let mut url = base_url.to_owned();
    url.append("/1h");
    url
}

/// The URL of the prices of the hour that begins at `timestamp`,
/// which is written into the URL as it is given, in whole seconds since
/// the Unix epoch.
pub fn prices_one_hour_with_timestamp_url(base_url: &str, timestamp: &NaiveDateTime) -> (r:
    String)
    ensures
        r@ == base_url@ + "/1h?timestamp="@ + signed_decimal(unix_seconds(*timestamp) as int),
{
    let mut url = base_url.to_owned();
    url.append("/1h?timestamp=");
    push_signed_decimal(&mut url, to_unix_seconds(timestamp));
    url
}

/// Reads the body that answers a request for the prices of one hour,
/// be it for the latest span or for one given by its time.
pub fn prices_one_hour(body: &[u8]) -> (r: Result<PricesResponseSuccess, PricesOneHourError>)
    ensures
        match prices_of(body@) {
            Ok(success) => r matches Ok(x) && x@ == success,
            Err(e) => r matches Err(x) && x@ == e,
        },
{
    match prices_response(body) {
        Ok(PricesResponse::Success(success)) => Ok(success),
        Ok(PricesResponse::Error(error)) => Err(PricesOneHourError::Error(error.error)),
        Err(e) => Err(PricesOneHourError::Decode(e)),
    }
}

} // verus!
