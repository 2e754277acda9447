//! Points in monotonic time and the deadlines of the worker.
use vstd::prelude::*;

verus! {

/// Nanoseconds in a millisecond.
pub const NANOS_PER_MILLI: u64 = 1_000_000;

/// A point in monotonic time, in nanoseconds since the host started its clock.
#[derive(Debug, Clone, Copy, PartialEq, Eq, Structural)]
pub struct Instant {
    pub nanos: u64,
}

impl Instant {
    /// The clock can still be moved forward by `millis` milliseconds.
    pub open spec fn admits(self, millis: int) -> bool {
        self.nanos + millis * NANOS_PER_MILLI <= u64::MAX
    }

    /// The point `millis` milliseconds later.
    pub open spec fn later(self, millis: int) -> Instant {
        Instant { nanos: (self.nanos + millis * NANOS_PER_MILLI) as u64 }
    }

    /// The point `millis` milliseconds later.
    pub fn after(self, millis: u64) -> (later: Instant)
        requires
            self.admits(millis as int),
        ensures
            later == self.later(millis as int),
            later.nanos == self.nanos + millis * NANOS_PER_MILLI,
    {
        Instant { nanos: self.nanos + millis * NANOS_PER_MILLI }
    }

    /// Nanoseconds from `now` to this point, none where it has passed.
    pub fn remaining(self, now: Instant) -> (nanos: u64)
        ensures
            nanos == if self.nanos > now.nanos {
                self.nanos - now.nanos
            } else {
                0
            },
    {
        if self.nanos > now.nanos {
            self.nanos - now.nanos
        } else {
            0
        }
    }
}

/// A deadline is set and has been reached at `now`.
pub open spec fn is_due(deadline: Option<Instant>, now: Instant) -> bool {
    deadline is Some && deadline->0.nanos <= now.nanos
}

/// Whether a deadline is set and has been reached at `now`.
pub fn due(deadline: Option<Instant>, now: Instant) -> (reached: bool)
    ensures
        reached == is_due(deadline, now),
{
    match deadline {
        Some(deadline) => deadline.nanos <= now.nanos,
        None => false,
    }
}

/// The earlier of two optional deadlines.
pub open spec fn nearest(left: Option<Instant>, right: Option<Instant>) -> Option<Instant> {
    if left is Some && (right is None || left->0.nanos <= right->0.nanos) {
        left
    } else {
        right
    }
}

/// The earlier of two optional deadlines: one of them, and neither lies before it.
pub fn nearest_deadline(left: Option<Instant>, right: Option<Instant>) -> (first: Option<Instant>)
    ensures
        first == nearest(left, right),
        first is None <==> left is None && right is None,
        first is Some ==> first == left || first == right,
        first is Some && left is Some ==> first->0.nanos <= left->0.nanos,
        first is Some && right is Some ==> first->0.nanos <= right->0.nanos,
{
    match (left, right) {
        (Some(a), Some(b)) => if a.nanos <= b.nanos {
            Some(a)
        } else {
            Some(b)
        },
        (Some(deadline), None) => Some(deadline),
        (None, Some(deadline)) => Some(deadline),
        (None, None) => None,
    }
}

} // verus!
