//! The live dashboard's text for optional readings.

use vstd::prelude::*;

use super::dump::{fmt_i16, fmt_u16, fmt_u32, shown};

verus! {

/// Arguments of the live dashboard.
pub struct DashArgs {
    /// VIN of the target bike.
    pub vin: String,
    /// Sold-on date (YYYYMMDD). Defaults to the epoch fallback.
    pub sold_on: String,
    /// Seconds to scan for the bike before giving up.
    pub scan_timeout: u64,
}

/// Show an optional `u16` reading: its value, or `-`.
pub fn fmt_opt_u16(v: Option<u16>) -> (s: String)
    ensures
        s@ == shown(match v { Some(n) => Some(n as int), None => None }),
{
    fmt_u16(v)
}

/// Show an optional `i16` reading: its value, or `-`.
pub fn fmt_opt_i16(v: Option<i16>) -> (s: String)
    ensures
        s@ == shown(match v { Some(n) => Some(n as int), None => None }),
{
    fmt_i16(v)
}

/// Show an optional `u32` reading: its value, or `-`.
pub fn fmt_opt_u32(v: Option<u32>) -> (s: String)
    ensures
        s@ == shown(match v { Some(n) => Some(n as int), None => None }),
{
    fmt_u32(v)
}

} // verus!
