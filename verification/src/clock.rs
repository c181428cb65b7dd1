//! The clock that stamps the files of a card session.

use embedded_sdmmc::Timestamp;
use vstd::prelude::*;

verus! {

/// `embedded_sdmmc::Timestamp`, a calendar date and a time of day, each part
/// in a field of its own.
#[verifier::external_type_specification]
pub struct ExTimestamp(embedded_sdmmc::Timestamp);

/// The first instant that a timestamp can hold: midnight before the first
/// day of the first month of 1970.
pub open spec fn epoch() -> Timestamp {
    Timestamp {
        year_since_1970: 0,
        zero_indexed_month: 0,
        zero_indexed_day: 0,
        hours: 0,
        minutes: 0,
        seconds: 0,
    }
}

/// A clock that stands still at the epoch. The engine asks it for the time
/// whenever it creates or changes a file.
pub struct SdMmcClock;

impl embedded_sdmmc::TimeSource for SdMmcClock {
    /// The epoch, at every call.
    fn get_timestamp(&self) -> (t: Timestamp)
        ensures
            t == epoch(),
    {
        Timestamp {
            year_since_1970: 0,
            zero_indexed_month: 0,
            zero_indexed_day: 0,
            hours: 0,
            minutes: 0,
            seconds: 0,
        }
    }
}

} // verus!
