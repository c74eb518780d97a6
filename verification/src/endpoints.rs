//! The operations of the service, one module each. An operation is a URL
//! to request and a reading of the body that comes back.

pub mod latest;
pub mod mapping;
pub mod prices;
pub mod timeseries;
