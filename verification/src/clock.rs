//! Placeholder timestamping for the storage logger.
//!
//! The storage collaborator stamps every file operation with a time.  The
//! gateway has no real-time clock yet, so it hands out one fixed placeholder
//! timestamp.

use vstd::prelude::*;

verus! {

/// A calendar timestamp as the storage collaborator consumes it: a year
/// counted from 1970 and zero-indexed month and day, all plain bytes.
#[derive(Clone, Copy, Debug, PartialEq, Eq, Structural)]
pub struct Timestamp {
    pub year_since_1970: u8,
    pub zero_indexed_month: u8,
    pub zero_indexed_day: u8,
    pub hours: u8,
    pub minutes: u8,
    pub seconds: u8,
}

/// The gateway's time source.  Until a real clock exists it always reports
/// [`Clock::spec_timestamp`].
#[derive(Clone, Copy, Debug)]
pub struct Clock;

impl Clock {
    /// The one fixed placeholder timestamp the gateway stamps writes with.
    pub open spec fn spec_timestamp() -> Timestamp {
        Timestamp {
            year_since_1970: 53,
            zero_indexed_month: 11,
            zero_indexed_day: 148,
            hours: 0,
            minutes: 0,
            seconds: 0,
        }
    }

    /// Report the current time: always the fixed placeholder.
    pub fn get_timestamp(&self) -> (t: Timestamp)
        ensures
            t == Clock::spec_timestamp(),
    {
        Timestamp {
            year_since_1970: 53,
            zero_indexed_month: 11,
            zero_indexed_day: 148,
            hours: 0,
            minutes: 0,
            seconds: 0,
        }
    }
}

} // verus!
