//! Plain calendar and clock values: a calendar day, a point in time
//! measured in seconds, and a signed duration in seconds.

use vstd::prelude::*;

verus! {

/// Largest magnitude, in seconds, that a `Timestamp` may hold.  This
/// covers every representable calendar date-time (hundreds of
/// thousands of years on either side of the epoch) while keeping the
/// difference of any two timestamps far away from `i64` overflow.
pub const TIMESTAMP_BOUND: i64 = 10_000_000_000_000;

/// A calendar day, the natural key of a worktime entry.  The store
/// compares days only for equality, so the fields carry no invariant.
#[derive(Clone, Copy, PartialEq, Eq, Structural, Debug)]
pub struct Day {
    pub year: i32,
    pub month: u8,
    pub day: u8,
}

/// A point in time: seconds relative to an epoch.  The magnitude is
/// bounded by `TIMESTAMP_BOUND`, so subtracting two timestamps never
/// overflows and sums of worked durations stay well inside `i64`.
#[derive(Clone, Copy, PartialEq, Eq, Structural, Debug)]
pub struct Timestamp {
    secs: i64,
}

impl Timestamp {
    /// Seconds relative to the epoch, as a mathematical integer.
    pub closed spec fn spec_secs(self) -> int {
        self.secs as int
    }

    /// Every timestamp keeps its magnitude within `TIMESTAMP_BOUND`.
    #[verifier::type_invariant]
    pub open spec fn bounded(self) -> bool {
        -TIMESTAMP_BOUND <= self.spec_secs() <= TIMESTAMP_BOUND
    }

    /// Builds a timestamp from a second count; rejects magnitudes
    /// beyond `TIMESTAMP_BOUND`.
    pub fn from_secs(secs: i64) -> (r: Option<Timestamp>)
        ensures
            -TIMESTAMP_BOUND <= secs <= TIMESTAMP_BOUND <==> r is Some,
            r is Some ==> r->0.spec_secs() == secs,
    {
        if -TIMESTAMP_BOUND <= secs && secs <= TIMESTAMP_BOUND {
            Some(Timestamp { secs })
        } else {
            None
        }
    }

    /// The second count this timestamp holds.
    pub fn secs(&self) -> (r: i64)
        ensures
            r == self.spec_secs(),
    {
        self.secs
    }

    /// Time elapsed from `earlier` to `self`; negative when `self`
    /// precedes `earlier`.
    pub fn since(&self, earlier: &Timestamp) -> (r: Duration)
        ensures
            r.secs == self.spec_secs() - earlier.spec_secs(),
    {
        proof {
            use_type_invariant(self);
            use_type_invariant(earlier);
        }
        Duration { secs: self.secs - earlier.secs }
    }
}

/// A signed span of time in seconds.  Overtime may be negative, so no
/// sign restriction applies.
#[derive(Clone, Copy, PartialEq, Eq, Structural, Debug)]
pub struct Duration {
    pub secs: i64,
}

} // verus!
