//! A span of time counted in timer ticks.
use vstd::prelude::*;

verus! {

/// Number of timer ticks in one second.
pub const TICK_HZ: u64 = 1_000_000;

/// Number of timer ticks in one millisecond.
pub const TICKS_PER_MILLI: u64 = 1_000;

/// Largest millisecond count that converts to ticks without overflow.
pub const MAX_MILLIS: u64 = 18_446_744_073_709_551;

/// Largest second count that converts to ticks without overflow.
pub const MAX_SECS: u64 = 18_446_744_073_709;

/// The tick count of the given number of milliseconds.
pub open spec fn millis_ticks(millis: u64) -> u64 {
    (millis * TICKS_PER_MILLI) as u64
}

/// Relies on `embassy_time::Duration::from_millis` and `as_ticks`: with the
/// timer at 1 MHz (this crate enables embassy-time's `tick-hz-1_000_000`)
/// a millisecond is one thousand ticks; the product must not overflow.
#[verifier::external_body]
fn ticks_from_millis(millis: u64) -> (r: u64)
    requires
        millis <= MAX_MILLIS,
    ensures
        r == millis * TICKS_PER_MILLI,
{
    embassy_time::Duration::from_millis(millis).as_ticks()
}

/// Relies on `embassy_time::Duration::from_secs` and `as_ticks`: with the
/// timer at 1 MHz a second is one million ticks; the product must not
/// overflow.
#[verifier::external_body]
fn ticks_from_secs(secs: u64) -> (r: u64)
    requires
        secs <= MAX_SECS,
    ensures
        r == secs * TICK_HZ,
{
    embassy_time::Duration::from_secs(secs).as_ticks()
}

/// A non-negative span of time, as a count of ticks of a 1 MHz timer.
#[derive(Clone, Copy, Debug, PartialEq, Eq, Structural)]
pub struct Duration {
    /// The number of timer ticks in this span.
    pub ticks: u64,
}

impl Duration {
    /// The span of the given number of ticks.
    pub fn from_ticks(ticks: u64) -> (r: Duration)
        ensures
            r.ticks == ticks,
    {
        Duration { ticks }
    }

    /// The number of ticks in this span.
    pub fn as_ticks(&self) -> (r: u64)
        ensures
            r == self.ticks,
    {
        self.ticks
    }

    /// The span of the given number of milliseconds.
    pub fn from_millis(millis: u64) -> (r: Duration)
        requires
            millis <= MAX_MILLIS,
        ensures
            r.ticks == millis * TICKS_PER_MILLI,
            r.ticks == millis_ticks(millis),
    {
        Duration { ticks: ticks_from_millis(millis) }
    }

    /// The span of the given number of seconds.
    pub fn from_secs(secs: u64) -> (r: Duration)
        requires
            secs <= MAX_SECS,
        ensures
            r.ticks == secs * TICK_HZ,
    {
        Duration { ticks: ticks_from_secs(secs) }
    }
}

} // verus!
