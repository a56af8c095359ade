//! Points and spans on the event loop's monotonic clock, in whole nanoseconds.

use vstd::prelude::*;

verus! {

/// Nanoseconds in one millisecond.
pub const NANOS_PER_MILLI: u64 = 1_000_000;

/// A span of time.
#[derive(Clone, Copy, Debug, PartialEq, Eq, PartialOrd, Ord, Hash, Structural)]
pub struct Duration {
    pub nanos: u64,
}

/// A point on the loop's monotonic clock, counted from the clock's origin.
#[derive(Clone, Copy, Debug, PartialEq, Eq, PartialOrd, Ord, Hash, Structural)]
pub struct Instant {
    pub nanos: u64,
}

/// The number of nanoseconds in `millis` milliseconds, capped at what a `u64` holds.
pub open spec fn millis_as_nanos(millis: u64) -> u64 {
    if millis * NANOS_PER_MILLI <= u64::MAX {
        (millis * NANOS_PER_MILLI) as u64
    } else {
        u64::MAX
    }
}

impl Duration {
    /// The empty span.
    pub fn zero() -> (d: Duration)
        ensures
            d.nanos == 0,
    {
        Duration { nanos: 0 }
    }

    pub fn from_nanos(nanos: u64) -> (d: Duration)
        ensures
            d.nanos == nanos,
    {
        Duration { nanos }
    }

    /// A span of `millis` milliseconds; spans too long for the clock saturate.
    pub fn from_millis(millis: u64) -> (d: Duration)
        ensures
            d.nanos == millis_as_nanos(millis),
    {
        match millis.checked_mul(NANOS_PER_MILLI) {
            Some(nanos) => Duration { nanos },
            None => Duration { nanos: u64::MAX },
        }
    }

    pub fn as_nanos(&self) -> (n: u64)
        ensures
            n == self.nanos,
    {
        self.nanos
    }
}

impl Instant {
    /// The origin of the clock.
    pub fn origin() -> (t: Instant)
        ensures
            t.nanos == 0,
    {
        Instant { nanos: 0 }
    }

    pub fn from_nanos(nanos: u64) -> (t: Instant)
        ensures
            t.nanos == nanos,
    {
        Instant { nanos }
    }

    /// The instant `millis` milliseconds after the origin, saturating at the end of the clock.
    pub fn from_millis(millis: u64) -> (t: Instant)
        ensures
            t.nanos == millis_as_nanos(millis),
    {
        Instant { nanos: Duration::from_millis(millis).nanos }
    }

    pub fn as_nanos(&self) -> (n: u64)
        ensures
            n == self.nanos,
    {
        self.nanos
    }

    /// The span from `earlier` to `self`, or the empty span when `earlier` is later.
    pub open spec fn spec_saturating_duration_since(self, earlier: Instant) -> Duration {
        if self.nanos >= earlier.nanos {
            Duration { nanos: (self.nanos - earlier.nanos) as u64 }
        } else {
            Duration { nanos: 0 }
        }
    }

    #[verifier::when_used_as_spec(spec_saturating_duration_since)]
    pub fn saturating_duration_since(self, earlier: Instant) -> (d: Duration)
        ensures
            d == self.spec_saturating_duration_since(earlier),
    {
        if self.nanos >= earlier.nanos {
            Duration { nanos: self.nanos - earlier.nanos }
        } else {
            Duration { nanos: 0 }
        }
    }

    /// `self` moved forward by `span`, or `None` past the end of the clock.
    pub fn checked_add(self, span: Duration) -> (t: Option<Instant>)
        ensures
            self.nanos + span.nanos <= u64::MAX ==> t == Some(
                Instant { nanos: (self.nanos + span.nanos) as u64 },
            ),
            self.nanos + span.nanos > u64::MAX ==> t is None,
    {
        match self.nanos.checked_add(span.nanos) {
            Some(nanos) => Some(Instant { nanos }),
            None => None,
        }
    }
}

} // verus!
