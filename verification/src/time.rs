//! Points and lengths of time, counted in whole nanoseconds.

use vstd::prelude::*;

verus! {

/// Nanoseconds in one second.
pub const NANOS_PER_SEC: u32 = 1_000_000_000;

/// A non-negative length of time: whole seconds, and the nanoseconds of the
/// second that has not yet completed.
///
/// Its view is the length in nanoseconds.
#[derive(Clone, Copy, Debug, PartialEq, Eq, Structural)]
pub struct TimeSpan {
    secs: u64,
    subsec_nanos: u32,
}

impl View for TimeSpan {
    type V = nat;

    closed spec fn view(&self) -> nat {
        self.secs as nat * NANOS_PER_SEC as nat + self.subsec_nanos as nat
    }
}

impl TimeSpan {
    #[verifier::type_invariant]
    spec fn subsec_below_one_second(self) -> bool {
        self.subsec_nanos < NANOS_PER_SEC
    }

    /// The span of `secs` seconds and `subsec_nanos` nanoseconds, or `None`
    /// where `subsec_nanos` is a whole second or more.
    pub fn new(secs: u64, subsec_nanos: u32) -> (span: Option<TimeSpan>)
        ensures
            span is Some <==> subsec_nanos < NANOS_PER_SEC,
            span matches Some(s) ==> s@ == secs as nat * NANOS_PER_SEC as nat + subsec_nanos as nat,
    {
        if subsec_nanos < NANOS_PER_SEC {
            Some(TimeSpan { secs, subsec_nanos })
        } else {
            None
        }
    }

    /// The span of `secs` whole seconds.
    pub fn from_secs(secs: u64) -> (span: TimeSpan)
        ensures
            span@ == secs as nat * NANOS_PER_SEC as nat,
    {
        TimeSpan { secs, subsec_nanos: 0 }
    }

    /// The whole seconds in this span, rounded down.
    pub fn as_secs(&self) -> (secs: u64)
        ensures
            secs as nat == self@ / (NANOS_PER_SEC as nat),
    {
        proof {
            use_type_invariant(self);
        }
        self.secs
    }

    /// What is left of this span beyond its whole seconds, in nanoseconds.
    pub fn subsec_nanos(&self) -> (nanos: u32)
        ensures
            nanos as nat == self@ % (NANOS_PER_SEC as nat),
    {
        proof {
            use_type_invariant(self);
        }
        self.subsec_nanos
    }
}

/// A point on a monotonic clock, held as the time that has passed since the
/// clock's origin.
///
/// Its view is that time in nanoseconds, so a later point has the greater view.
#[derive(Clone, Copy, Debug, PartialEq, Eq, Structural)]
pub struct Timestamp {
    since_origin: TimeSpan,
}

impl View for Timestamp {
    type V = nat;

    closed spec fn view(&self) -> nat {
        self.since_origin@
    }
}

impl Timestamp {
    /// The point that lies `elapsed` after the clock's origin.
    pub fn after_origin(elapsed: TimeSpan) -> (point: Timestamp)
        ensures
            point@ == elapsed@,
    {
        Timestamp { since_origin: elapsed }
    }

    /// The time from `earlier` to this point, and the empty span where
    /// `earlier` is in fact the later of the two.
    pub fn since(&self, earlier: &Timestamp) -> (span: TimeSpan)
        ensures
            self@ >= earlier@ ==> span@ == self@ - earlier@,
            self@ < earlier@ ==> span@ == 0,
    {
        let to = self.since_origin;
        let from = earlier.since_origin;
        proof {
            use_type_invariant(&to);
            use_type_invariant(&from);
        }
        if to.secs < from.secs || (to.secs == from.secs && to.subsec_nanos <= from.subsec_nanos) {
            TimeSpan { secs: 0, subsec_nanos: 0 }
        } else if to.subsec_nanos >= from.subsec_nanos {
            TimeSpan { secs: to.secs - from.secs, subsec_nanos: to.subsec_nanos - from.subsec_nanos }
        } else {
            TimeSpan {
                secs: to.secs - from.secs - 1,
                subsec_nanos: to.subsec_nanos + (NANOS_PER_SEC - from.subsec_nanos),
            }
        }
    }
}

} // verus!
