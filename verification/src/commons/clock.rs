use vstd::prelude::*;

verus! {

/// Calls `chrono::Utc::now` and returns its Unix timestamp in seconds and the
/// nanoseconds past that second. Claimed: the nanoseconds are below two
/// billion (chrono documents that they pass 999,999,999 only during a leap
/// second). The instant itself depends on the machine's clock.
#[verifier::external_body]
fn utc_now() -> (r: (i64, u32))
    ensures
        r.1 < 2_000_000_000,
{
    let now = chrono::Utc::now();
    (now.timestamp(), now.timestamp_subsec_nanos())
}

/// A point in time, in UTC: seconds since the Unix epoch and the nanoseconds
/// past that second.
#[derive(Debug, Clone, Copy, PartialEq, Eq, Structural)]
pub struct DateTime {
    pub secs: i64,
    pub nanos: u32,
}

impl DateTime {
    /// The current time.
    pub fn now() -> (t: DateTime)
        ensures
            t.nanos < 2_000_000_000,
    {
        let (secs, nanos) = utc_now();
        DateTime { secs, nanos }
    }

    /// The time with the given seconds and nanoseconds.
    pub fn from_timestamp(secs: i64, nanos: u32) -> (t: DateTime)
        ensures
            t.secs == secs,
            t.nanos == nanos,
    {
        DateTime { secs, nanos }
    }
}

/// A source of the current time.
pub trait Clock {
    fn now(&self) -> DateTime;
}

/// The clock that reads the machine's UTC time.
pub struct SystemClock;

impl Clock for SystemClock {
    fn now(&self) -> (t: DateTime)
        ensures
            t.nanos < 2_000_000_000,
    {
        DateTime::now()
    }
}

} // verus!
