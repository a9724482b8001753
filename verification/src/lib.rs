//! Country-level IP geolocation with durable per-country request counters.
//!
//! [`locat::Locat`] owns a read-only country database and a file-backed
//! counter store. Each address it resolves to a country bumps that country's
//! request counter, and the full counter listing can be read back and
//! rendered as a plain-text report.

pub mod addr;
pub mod error;
pub mod geo;
pub mod locat;
pub mod report;
pub mod store;
