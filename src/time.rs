//! Instants in UTC, as whole seconds since the Unix epoch and nanoseconds.
use vstd::prelude::*;

verus! {

/// An instant in UTC: `secs` whole seconds after 1970-01-01T00:00:00Z and
/// `nanos` nanoseconds into the next second (above 999,999,999 only inside a
/// leap second).
#[derive(Clone, Copy, Debug, PartialEq, Eq, Structural)]
pub struct Timestamp {
    pub secs: i64,
    pub nanos: u32,
}

/// Largest second count that the system clock hands out here: chrono's
/// dates end in the year 262142, which is below this bound.
pub const CLOCK_MAX_SECS: i64 = 10_000_000_000_000;

impl Timestamp {
    /// `self` is the same instant as `other` or a later one.
    pub open spec fn at_or_after(self, other: Timestamp) -> bool {
        self.secs > other.secs || (self.secs == other.secs && self.nanos >= other.nanos)
    }

    /// Compares two instants.
    pub fn is_at_or_after(&self, other: &Timestamp) -> (r: bool)
        ensures
            r == self.at_or_after(*other),
    {
        self.secs > other.secs || (self.secs == other.secs && self.nanos >= other.nanos)
    }

    /// The instant `seconds` whole seconds after `self`.
    pub open spec fn plus_secs(self, seconds: int) -> Timestamp {
        Timestamp { secs: (self.secs + seconds) as i64, nanos: self.nanos }
    }

    /// Moves an instant forward by a whole number of seconds.
    pub fn add_secs(&self, seconds: u32) -> (r: Timestamp)
        requires
            self.secs + seconds <= i64::MAX,
        ensures
            r == self.plus_secs(seconds as int),
    {
        Timestamp { secs: self.secs + seconds as i64, nanos: self.nanos }
    }

    /// The current instant, read from the system clock.
    pub fn now() -> (r: Timestamp)
        ensures
            0 <= r.secs <= CLOCK_MAX_SECS,
            r.nanos < 1_000_000_000,
    {
        utc_now()
    }
}

/// Relies on chrono::Utc::now, which reads the system clock, panics before
/// the Unix epoch, and builds the instant with DateTime::from_timestamp from
/// the whole seconds and the sub-second nanoseconds (below 10^9) that the
/// clock gives; that constructor only yields dates up to the year 262142.
#[verifier::external_body]
fn utc_now() -> (r: Timestamp)
    ensures
        0 <= r.secs <= CLOCK_MAX_SECS,
        r.nanos < 1_000_000_000,
{
    let t = chrono::Utc::now();
    Timestamp { secs: t.timestamp(), nanos: t.timestamp_subsec_nanos() }
}

} // verus!
