use vstd::prelude::*;

verus! {

/// Nanoseconds in one second.
pub const NANOS_PER_SEC: u32 = 1_000_000_000;

/// A UTC instant as chrono keeps it: whole seconds since the Unix epoch and the
/// nanoseconds past that second (a leap second carries one billion or more).
#[derive(Clone, Copy, Debug)]
pub struct Timestamp {
    pub secs: i64,
    pub nanos: u32,
}

impl Timestamp {
    /// chrono orders instants by second, then by the nanoseconds within it.
    pub open spec fn later_than(self, other: Timestamp) -> bool {
        self.secs > other.secs || (self.secs == other.secs && self.nanos > other.nanos)
    }

    /// The instant `delta` whole seconds after this one.
    pub open spec fn shifted(self, delta: int) -> Timestamp {
        Timestamp { secs: (self.secs + delta) as i64, nanos: self.nanos }
    }

    /// Whether this instant lies after `other`.
    pub fn is_after(&self, other: &Timestamp) -> (r: bool)
        ensures
            r == self.later_than(*other),
    {
        self.secs > other.secs || (self.secs == other.secs && self.nanos > other.nanos)
    }

    /// Adds whole seconds to an instant that is not a leap second.
    pub fn plus_seconds(&self, delta: i64) -> (r: Timestamp)
        requires
            self.nanos < NANOS_PER_SEC,
            i64::MIN <= self.secs + delta <= i64::MAX,
        ensures
            r == self.shifted(delta as int),
            r.nanos < NANOS_PER_SEC,
    {
        Timestamp { secs: self.secs + delta, nanos: self.nanos }
    }
}

/// An instant read from the system clock. Its field is private to this module, so
/// the only way to hold one elsewhere is to have [`current_time`] read it: a decision
/// stated over a reading is a decision over the clock, not over a chosen instant.
#[derive(Clone, Copy, Debug)]
pub struct ClockReading {
    instant: Timestamp,
}

impl ClockReading {
    /// The instant the clock reported.
    pub closed spec fn at(self) -> Timestamp {
        self.instant
    }

    /// The instant the clock reported.
    pub fn instant(&self) -> (t: Timestamp)
        ensures
            t == self.at(),
    {
        self.instant
    }
}

/// Reads the system clock through `chrono::Utc::now`. chrono builds that value
/// from the time elapsed since the Unix epoch (it panics when the clock stands
/// before 1970) and unwraps it into its range of dates, which ends in the year
/// 262142; so the seconds are not negative and stay below 8.3e12, and the
/// nanoseconds stay below one second. Which instant comes back is not stated.
#[verifier::external_body]
pub(crate) fn current_time() -> (r: ClockReading)
    ensures
        0 <= r.at().secs < 8_300_000_000_000,
        r.at().nanos < NANOS_PER_SEC,
{
    let now = chrono::Utc::now();
    ClockReading { instant: Timestamp { secs: now.timestamp(), nanos: now.timestamp_subsec_nanos() } }
}

} // verus!
