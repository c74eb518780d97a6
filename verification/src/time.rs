//! The boundary to `chrono`: points in time, given by the service as
//! whole seconds since the Unix epoch.
//!
//! A time is held as a `chrono::NaiveDateTime` that counts in UTC.

use vstd::prelude::*;
use chrono::{DateTime, NaiveDateTime};

verus! {

/// `chrono::NaiveDateTime`, a date and time of day, held without a look
/// inside.
#[verifier::external_type_specification]
#[verifier::external_body]
pub struct ExNaiveDateTime(chrono::NaiveDateTime);

/// The time that lies `secs` seconds after the Unix epoch, or `None`
/// where `chrono` cannot hold it.
pub uninterp spec fn time_at(secs: i64) -> Option<NaiveDateTime>;

/// The whole seconds from the Unix epoch to `t`.
pub uninterp spec fn unix_seconds(t: NaiveDateTime) -> i64;

/// `NaiveDateTime` is `Copy`, and its `clone`, which `derive` wrote, gives
/// the value itself.
pub assume_specification[ <NaiveDateTime as Clone>::clone ](t: &NaiveDateTime) -> (r:
    NaiveDateTime)
    ensures
        r == *t,
;

/// Calls `DateTime::from_timestamp` with no nanoseconds and takes the
/// result's `naive_utc`. The result is a function of `secs` alone, named
/// [`time_at`]; `chrono` documents that `timestamp` gives `secs` back.
#[verifier::external_body]
pub(crate) fn from_unix_seconds(secs: i64) -> (r: Option<NaiveDateTime>)
    ensures
        r == time_at(secs),
        r matches Some(t) ==> unix_seconds(t) == secs,
{
    match DateTime::from_timestamp(secs, 0) {
        Some(t) => Some(t.naive_utc()),
        None => None,
    }
}

/// Calls `DateTime::timestamp` on the time as one of UTC.
#[verifier::external_body]
pub(crate) fn to_unix_seconds(t: &NaiveDateTime) -> (r: i64)
    ensures
        r == unix_seconds(*t),
{
    t.and_utc().timestamp()
}

} // verus!
