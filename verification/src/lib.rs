//! Typed access to the Old School RuneScape wiki's real-time price service.
//!
//! The crate holds everything about the service that can be computed: the
//! request URLs of the five endpoints and the decoding of their JSON bodies
//! into typed values. Sending the request is left to the caller.

use vstd::prelude::*;
use vstd::string::*;

pub mod decimal;
pub mod decode;
pub mod endpoints;
pub mod json;
pub mod time;
pub mod types;

verus! {

/// The host and path under which the service answers.
pub const BASE_URL: &'static str = "prices.runescape.wiki/api/v1";

/// The game that prices are asked of.
#[derive(Debug, Clone, Copy, PartialEq, Eq, Structural)]
pub enum ApiEndpoint {
    OldSchoolRuneScape,
    DeadmanArmageddon,
}

impl ApiEndpoint {
    /// The part of the path that names the game.
    pub open spec fn segment(self) -> Seq<char> {
        match self {
            ApiEndpoint::OldSchoolRuneScape => "osrs"@,
            ApiEndpoint::DeadmanArmageddon => "dmm"@,
        }
    }

    /// The part of the path that names the game.
    pub fn as_str(&self) -> (r: &'static str)
        ensures
            r@ == self.segment(),
    {
        match self {
            ApiEndpoint::OldSchoolRuneScape => "osrs",
            ApiEndpoint::DeadmanArmageddon => "dmm",
        }
    }

    /// The game's name as it is displayed: the part of the path that
    /// names it.
    pub fn to_string(&self) -> (r: String)
        ensures
            r@ == self.segment(),
    {
        self.as_str().to_owned()
    }
}

/// The URL under which the operations of one game are found.
pub open spec fn base_url_of(api_endpoint: ApiEndpoint) -> Seq<char> {
    "https://"@ + BASE_URL@ + "/"@ + api_endpoint.segment()
}

/// The URL under which the operations of `api_endpoint` are found.
pub fn base_url(api_endpoint: ApiEndpoint) -> (r: String)
    ensures
        r@ == base_url_of(api_endpoint),
{
    let mut url = "https://".to_owned();
    url.append(BASE_URL);
    url.append("/");
    url.append(api_endpoint.as_str());
    url
}

} // verus!
