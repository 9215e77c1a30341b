//! Points in time.

use vstd::prelude::*;

verus! {

/// A point in UTC time: whole seconds since the Unix epoch, and the nanoseconds past that second.
#[derive(Clone, Copy, Debug, PartialEq, Eq, Structural)]
pub struct Timestamp {
    pub secs: i64,
    pub nanos: u32,
}

impl Timestamp {
    /// Whether a system clock can show this time: it is not before the Unix epoch, and not after the
    /// last second that a `chrono::DateTime` can hold, which ends the year 262142.
    pub open spec fn on_clock(self) -> bool {
        &&& 0 <= self.secs <= 8_210_266_876_799
        &&& self.nanos < 1_000_000_000
    }
}

/// Calls `chrono::Utc::now`, whose result is whatever the system clock shows. That clock counts
/// from the Unix epoch, so the seconds are never negative and the nanoseconds stay below one
/// second; where it is set to before the epoch, or beyond what a `chrono::DateTime` can hold, the
/// call panics. Nothing ties one reading to the next: the clock may be set back.
#[verifier::external_body]
pub(crate) fn utc_now() -> (now: Timestamp)
    ensures
        now.on_clock(),
{
    let now = chrono::Utc::now();
    Timestamp { secs: now.timestamp(), nanos: now.timestamp_subsec_nanos() }
}

/// A clock shows no time before the Unix epoch, none after the year 262142, and no nanoseconds that
/// make up a second.
pub proof fn law_clock_shows_times_in_range(t: Timestamp)
    ensures
        t.on_clock() <==> 0 <= t.secs && t.secs <= 8_210_266_876_799 && t.nanos < 1_000_000_000,
{
}

} // verus!
