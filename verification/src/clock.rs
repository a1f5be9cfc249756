//! Points in time, as the service reads and stores them.

use vstd::prelude::*;

verus! {

/// The largest number of whole seconds since the Unix epoch that the clock
/// can report: the last second of the year 262142.
pub const MAX_CLOCK_SECONDS: i64 = 8_210_266_876_799;

/// A point in time: whole seconds since the Unix epoch and the nanoseconds
/// into that second. Points are ordered by seconds first, then nanoseconds.
#[derive(Clone, Copy, Debug, PartialEq, Eq, Structural)]
pub struct Timestamp {
    pub secs: i64,
    pub nanos: u32,
}

impl Timestamp {
    /// `self` lies strictly after `other`.
    pub open spec fn is_after(self, other: Timestamp) -> bool {
        self.secs > other.secs || (self.secs == other.secs && self.nanos > other.nanos)
    }

    /// A time that the clock can show: at or after the Unix epoch, within
    /// the calendar, with the nanoseconds of a plain second.
    pub open spec fn is_clock_reading(self) -> bool {
        0 <= self.secs <= MAX_CLOCK_SECONDS && self.nanos < 1_000_000_000
    }

    /// The point `seconds` after `self`, where that is representable.
    pub open spec fn plus_seconds(self, seconds: i64) -> Timestamp
        recommends
            i64::MIN <= self.secs + seconds <= i64::MAX,
    {
        Timestamp { secs: (self.secs + seconds) as i64, nanos: self.nanos }
    }

    pub fn new(secs: i64, nanos: u32) -> (t: Timestamp)
        ensures
            t.secs == secs,
            t.nanos == nanos,
    {
        Timestamp { secs, nanos }
    }

    /// Decides whether `self` lies strictly after `other`.
    pub fn after(&self, other: &Timestamp) -> (r: bool)
        ensures
            r == self.is_after(*other),
    {
        self.secs > other.secs || (self.secs == other.secs && self.nanos > other.nanos)
    }

    /// Moves the point by `seconds`, keeping the nanoseconds.
    pub fn add_seconds(&self, seconds: i64) -> (t: Timestamp)
        requires
            i64::MIN <= self.secs + seconds <= i64::MAX,
        ensures
            t == self.plus_seconds(seconds),
    {
        Timestamp { secs: self.secs + seconds, nanos: self.nanos }
    }
}

/// Reads the system clock through `chrono::Utc::now`.
///
/// Trusted: `Utc::now` only ever returns a time at or after the Unix epoch
/// and within chrono's calendar, with the nanoseconds of a plain second. The
/// reading itself is whatever the machine says.
#[verifier::external_body]
pub(crate) fn now() -> (t: Timestamp)
    ensures
        t.is_clock_reading(),
{
    let reading = chrono::Utc::now();
    Timestamp { secs: reading.timestamp(), nanos: reading.timestamp_subsec_nanos() }
}

} // verus!
