//! Instants in UTC, as the service reads them from the clock.

use vstd::prelude::*;

verus! {

/// The largest Unix timestamp, in seconds, that a `chrono::DateTime<Utc>` can
/// hold (+262142-12-31T23:59:59).
pub const MAX_TIMESTAMP: i64 = 8_210_266_876_799;

/// A UTC instant: whole seconds since the Unix epoch and the nanoseconds
/// past that second.
#[derive(Clone, Copy, Debug, PartialEq, Eq, Structural)]
pub struct UtcTime {
    pub secs: i64,
    pub nanos: u32,
}

impl UtcTime {
    /// `self` comes strictly after `other`.
    pub open spec fn later_than(self, other: UtcTime) -> bool {
        ||| self.secs > other.secs
        ||| (self.secs == other.secs && self.nanos > other.nanos)
    }

    /// Whether `self` comes strictly after `other`.
    pub fn is_after(&self, other: &UtcTime) -> (res: bool)
        ensures
            res == self.later_than(*other),
    {
        self.secs > other.secs || (self.secs == other.secs && self.nanos > other.nanos)
    }

    /// The instant `secs` whole seconds after `self`.
    pub fn plus_secs(&self, secs: i64) -> (res: UtcTime)
        requires
            0 <= secs,
            self.secs + secs <= MAX_TIMESTAMP,
        ensures
            res == (UtcTime { secs: (self.secs + secs) as i64, nanos: self.nanos }),
    {
        UtcTime { secs: self.secs + secs, nanos: self.nanos }
    }
}

/// Reads the clock through `chrono::Utc::now`. That function takes the system
/// time since the Unix epoch (it panics before the epoch and beyond chrono's
/// range), so the seconds are at least 0 and at most `MAX_TIMESTAMP`, and the
/// nanoseconds are those of a `std::time::Duration`, below one second. Which
/// instant comes back is not stated.
#[verifier::external_body]
pub(crate) fn utc_now() -> (now: UtcTime)
    ensures
        0 <= now.secs <= MAX_TIMESTAMP,
        now.nanos < 1_000_000_000,
{
    let now = chrono::Utc::now();
    UtcTime { secs: now.timestamp(), nanos: now.timestamp_subsec_nanos() }
}

} // verus!
