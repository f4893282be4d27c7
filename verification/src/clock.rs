//! Points in time, and the deadline arithmetic of a run.

use vstd::prelude::*;

verus! {

/// Nanoseconds in one second.
pub const NANOS_PER_SECOND: u128 = 1_000_000_000;

/// The fixed polling interval in milliseconds: the longest wait of one timed
/// read, and the pause between two looks at a followed file.
pub const POLL_INTERVAL_MS: u64 = 250;

/// An absolute point in time, in nanoseconds since the Unix epoch.
#[derive(Clone, Copy, Debug, PartialEq, Eq, Structural)]
pub struct Timestamp {
    pub nanos: u128,
}

impl View for Timestamp {
    type V = nat;

    open spec fn view(&self) -> nat {
        self.nanos as nat
    }
}

impl Timestamp {
    /// The point `seconds` after `self`, held at the largest representable
    /// point where the exact sum lies beyond it.
    pub open spec fn spec_plus_seconds(self, seconds: u64) -> Timestamp {
        if self.nanos + seconds * NANOS_PER_SECOND <= u128::MAX {
            Timestamp { nanos: (self.nanos + seconds * NANOS_PER_SECOND) as u128 }
        } else {
            Timestamp { nanos: u128::MAX }
        }
    }

    /// The point `seconds` after `self`, saturating.
    pub fn plus_seconds(self, seconds: u64) -> (later: Timestamp)
        ensures
            later == self.spec_plus_seconds(seconds),
    {
        let span: u128 = (seconds as u128) * NANOS_PER_SECOND;
        Timestamp { nanos: self.nanos.saturating_add(span) }
    }

    /// Whether `self` lies strictly after `other`.
    pub fn is_after(self, other: Timestamp) -> (after: bool)
        ensures
            after == (self@ > other@),
    {
        self.nanos > other.nanos
    }
}

/// Saturation never changes the answer to "has the deadline passed": no
/// representable point lies after a deadline that had to be held back, just
/// as none lies after the exact sum.
pub proof fn lemma_saturated_deadline_is_exact(start: Timestamp, seconds: u64, now: Timestamp)
    ensures
        now@ > start.spec_plus_seconds(seconds)@ <==> now@ > start@ + seconds * NANOS_PER_SECOND,
{
}

} // verus!
