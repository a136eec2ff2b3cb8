//! Arguments of the firmware tool.

use vstd::prelude::*;

verus! {

/// Arguments of the firmware tool.
pub struct FirmwareArgs {
    /// VIN of the target bike.
    pub vin: String,
    /// Sold-on date (YYYYMMDD). Defaults to the epoch fallback.
    pub sold_on: String,
    /// Seconds to scan for the bike before giving up.
    pub scan_timeout: u64,
    /// Stark account email (for checking available updates).
    pub email: Option<String>,
    /// Stark account password.
    pub password: Option<String>,
}

} // verus!
