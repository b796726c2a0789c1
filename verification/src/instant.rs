//! A point on the timeline of one clock.

use vstd::prelude::*;
use crate::duration::Duration;
use crate::duration::MAX_NANOS;

verus! {

/// Whether `n` nanoseconds after a clock's origin is a point an [`Instant`]
/// can hold.
pub open spec fn is_instant(n: int) -> bool {
    0 <= n <= MAX_NANOS
}

/// A point in time, held as the nanoseconds that passed since the origin of
/// the clock it was read from.
///
/// Its view is that number, which is never negative and never beyond
/// [`MAX_NANOS`]: the span between any two instants is a [`Duration`].
/// Instants of different clocks do not compare.
#[derive(Clone, Copy, Debug, PartialEq, Eq, Structural, PartialOrd, Ord, Hash)]
pub struct Instant {
    nanos: i128,
}

impl View for Instant {
    type V = int;

    closed spec fn view(&self) -> int {
        self.nanos as int
    }
}

impl Instant {
    /// What holds of every instant: it lies between the clock's origin and
    /// the last point that can be held.
    #[verifier::type_invariant]
    pub open spec fn in_range(self) -> bool {
        is_instant(self@)
    }

    /// The instant at which the clock started.
    pub fn origin() -> (i: Instant)
        ensures
            i@ == 0,
    {
        Instant { nanos: 0 }
    }

    /// The instant `nanoseconds` after the clock's origin.
    pub fn from_nanos(nanoseconds: u64) -> (i: Instant)
        ensures
            i@ == nanoseconds,
    {
        Instant { nanos: nanoseconds as i128 }
    }

    /// The instant `nanoseconds` after the clock's origin, or `None` where
    /// that is before the origin or beyond what an instant can hold.
    pub fn checked_from_nanos(nanoseconds: i128) -> (r: Option<Instant>)
        ensures
            r is Some <==> is_instant(nanoseconds as int),
            r matches Some(i) ==> i@ == nanoseconds,
    {
        if 0 <= nanoseconds && nanoseconds <= MAX_NANOS {
            Some(Instant { nanos: nanoseconds })
        } else {
            None
        }
    }

    /// The instant `nanoseconds` after the clock's origin; the origin where
    /// that lies before it, and the last instant there is where it lies
    /// beyond that.
    pub fn saturating_from_nanos(nanoseconds: i128) -> (i: Instant)
        ensures
            i@ == if nanoseconds < 0 {
                0
            } else if nanoseconds > MAX_NANOS {
                MAX_NANOS as int
            } else {
                nanoseconds as int
            },
    {
        if nanoseconds < 0 {
            Instant { nanos: 0 }
        } else if nanoseconds > MAX_NANOS {
            Instant { nanos: MAX_NANOS }
        } else {
            Instant { nanos: nanoseconds }
        }
    }

    /// The nanoseconds between the clock's origin and this instant.
    pub fn nanos_since_origin(self) -> (n: i128)
        ensures
            n == self@,
            is_instant(n as int),
    {
        proof {
            use_type_invariant(&self);
        }
        self.nanos
    }

    /// The span from `earlier` to this instant; negative where `earlier` is
    /// in fact the later of the two.
    pub fn duration_since(self, earlier: Instant) -> (d: Duration)
        ensures
            d@ == self@ - earlier@,
    {
        proof {
            use_type_invariant(&self);
            use_type_invariant(&earlier);
        }
        Duration::nanoseconds_i128(self.nanos - earlier.nanos)
    }

    /// The instant `span` after this one, which must be one that an instant
    /// can hold.
    pub fn plus(self, span: Duration) -> (i: Instant)
        requires
            is_instant(self@ + span@),
        ensures
            i@ == self@ + span@,
    {
        proof {
            use_type_invariant(&self);
        }
        Instant { nanos: self.nanos + span.whole_nanoseconds() }
    }

    /// The instant `span` after this one, or `None` where that is before the
    /// clock's origin or beyond what an instant can hold.
    pub fn checked_add(self, span: Duration) -> (r: Option<Instant>)
        ensures
            r is Some <==> is_instant(self@ + span@),
            r matches Some(i) ==> i@ == self@ + span@,
    {
        proof {
            use_type_invariant(&self);
        }
        Instant::checked_from_nanos(self.nanos + span.whole_nanoseconds())
    }
}

} // verus!
