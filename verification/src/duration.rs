//! The length of a clip, kept to the nanosecond and written to the wire in whole milliseconds.

use vstd::prelude::*;

verus! {

/// Nanoseconds in a second.
pub const NANOS_PER_SEC: u32 = 1_000_000_000;

/// Nanoseconds in a millisecond.
pub const NANOS_PER_MILLI: u32 = 1_000_000;

/// Milliseconds in a second.
pub const MILLIS_PER_SEC: u64 = 1_000;

/// The whole milliseconds in a span of `nanos` nanoseconds.
pub open spec fn whole_millis(nanos: nat) -> nat {
    nanos / (NANOS_PER_MILLI as nat)
}

/// The nanoseconds in `millis` milliseconds.
pub open spec fn millis_in_nanos(millis: nat) -> nat {
    millis * (NANOS_PER_MILLI as nat)
}

/// A span of time: whole seconds and the nanoseconds beyond them, fewer than a second's worth.
///
/// Its view is the span in nanoseconds.
#[derive(Clone, Copy, Debug, PartialEq, Eq)]
pub struct ClipDuration {
    secs: u64,
    nanos: u32,
}

impl View for ClipDuration {
    type V = nat;

    closed spec fn view(&self) -> nat {
        (self.secs as nat) * (NANOS_PER_SEC as nat) + (self.nanos as nat)
    }
}

impl ClipDuration {
    #[verifier::type_invariant]
    spec fn nanos_below_a_second(self) -> bool {
        self.nanos < NANOS_PER_SEC
    }

    /// The span of `secs` seconds and `nanos` nanoseconds, or `None` where `nanos` is a second
    /// or more.
    pub fn new(secs: u64, nanos: u32) -> (r: Option<ClipDuration>)
        ensures
            nanos < NANOS_PER_SEC ==> r.is_some() && r.unwrap()@ == secs * NANOS_PER_SEC + nanos,
            nanos >= NANOS_PER_SEC ==> r.is_none(),
    {
        if nanos < NANOS_PER_SEC {
            Some(ClipDuration { secs, nanos })
        } else {
            None
        }
    }

    /// The span of `millis` milliseconds.
    pub fn from_millis(millis: u64) -> (r: ClipDuration)
        ensures
            r@ == millis_in_nanos(millis as nat),
    {
        let secs: u64 = millis / MILLIS_PER_SEC;
        let rest: u32 = (millis % MILLIS_PER_SEC) as u32;
        ClipDuration { secs, nanos: rest * NANOS_PER_MILLI }
    }

    /// The whole seconds of the span.
    pub fn as_secs(&self) -> (r: u64)
        ensures
            r == self@ / (NANOS_PER_SEC as nat),
    {
        proof {
            use_type_invariant(self);
        }
        self.secs
    }

    /// The nanoseconds of the span beyond its whole seconds.
    pub fn subsec_nanos(&self) -> (r: u32)
        ensures
            r == self@ % (NANOS_PER_SEC as nat),
    {
        proof {
            use_type_invariant(self);
        }
        self.nanos
    }

    /// The whole milliseconds of the span; what is left over is dropped.
    pub fn as_millis(&self) -> (r: u128)
        ensures
            r == whole_millis(self@),
    {
        proof {
            use_type_invariant(self);
        }
        let secs: u128 = self.secs as u128;
        let sub: u128 = (self.nanos / NANOS_PER_MILLI) as u128;
        secs * 1_000 + sub
    }
}

} // verus!
