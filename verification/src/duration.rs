//! A signed span of time with nanosecond precision.

use vstd::prelude::*;

verus! {

/// Nanoseconds in one second.
pub const NANOS_PER_SECOND: i128 = 1_000_000_000;

/// The longest span a [`Duration`] can hold, in nanoseconds: `i64::MAX`
/// seconds and 999,999,999 nanoseconds.
pub const MAX_NANOS: i128 = 9_223_372_036_854_775_807_999_999_999;

/// The most negative span a [`Duration`] can hold, in nanoseconds: `i64::MIN`
/// seconds and -999,999,999 nanoseconds.
pub const MIN_NANOS: i128 = -9_223_372_036_854_775_808_999_999_999;

/// Whether `n` nanoseconds fit in a [`Duration`].
pub open spec fn is_span(n: int) -> bool {
    MIN_NANOS <= n <= MAX_NANOS
}

/// A signed span of time, held as a whole number of nanoseconds.
///
/// Its view is that number. Every `Duration` lies between [`MIN_NANOS`] and
/// [`MAX_NANOS`], the range of a span made of `i64` seconds and a
/// sub-second part of the same sign.
#[derive(Clone, Copy, Debug, PartialEq, Eq, Structural, PartialOrd, Ord, Hash)]
pub struct Duration {
    nanos: i128,
}

impl View for Duration {
    type V = int;

    closed spec fn view(&self) -> int {
        self.nanos as int
    }
}

impl Duration {
    /// What holds of every duration: a span of `i64` seconds and a
    /// sub-second part can hold it.
    #[verifier::type_invariant]
    pub open spec fn in_range(self) -> bool {
        is_span(self@)
    }

    /// The empty span.
    pub fn zero() -> (d: Duration)
        ensures
            d@ == 0,
    {
        Duration { nanos: 0 }
    }

    /// The span of `nanoseconds` nanoseconds.
    pub fn nanoseconds(nanoseconds: i64) -> (d: Duration)
        ensures
            d@ == nanoseconds,
    {
        Duration { nanos: nanoseconds as i128 }
    }

    /// The span of `microseconds` microseconds.
    pub fn microseconds(microseconds: i64) -> (d: Duration)
        ensures
            d@ == microseconds * 1_000,
    {
        Duration { nanos: microseconds as i128 * 1_000 }
    }

    /// The span of `milliseconds` milliseconds.
    pub fn milliseconds(milliseconds: i64) -> (d: Duration)
        ensures
            d@ == milliseconds * 1_000_000,
    {
        Duration { nanos: milliseconds as i128 * 1_000_000 }
    }

    /// The span of `seconds` seconds.
    pub fn seconds(seconds: i64) -> (d: Duration)
        ensures
            d@ == seconds * NANOS_PER_SECOND,
    {
        Duration { nanos: seconds as i128 * NANOS_PER_SECOND }
    }

    /// The span of `nanoseconds` nanoseconds, which a `Duration` must be able
    /// to hold.
    pub fn nanoseconds_i128(nanoseconds: i128) -> (d: Duration)
        requires
            is_span(nanoseconds as int),
        ensures
            d@ == nanoseconds,
    {
        Duration { nanos: nanoseconds }
    }

    /// The span of `nanoseconds` nanoseconds, or `None` where a `Duration`
    /// cannot hold it.
    pub fn checked_nanoseconds(nanoseconds: i128) -> (r: Option<Duration>)
        ensures
            r is Some <==> is_span(nanoseconds as int),
            r matches Some(d) ==> d@ == nanoseconds,
    {
        if MIN_NANOS <= nanoseconds && nanoseconds <= MAX_NANOS {
            Some(Duration { nanos: nanoseconds })
        } else {
            None
        }
    }

    /// The whole span in nanoseconds.
    pub fn whole_nanoseconds(self) -> (n: i128)
        ensures
            n == self@,
            is_span(n as int),
    {
        proof {
            use_type_invariant(&self);
        }
        self.nanos
    }

    /// Whether the span is longer than nothing.
    pub fn is_positive(self) -> (b: bool)
        ensures
            b == (self@ > 0),
    {
        self.nanos > 0
    }

    /// Whether the span runs backwards.
    pub fn is_negative(self) -> (b: bool)
        ensures
            b == (self@ < 0),
    {
        self.nanos < 0
    }

    /// Whether the span is empty.
    pub fn is_zero(self) -> (b: bool)
        ensures
            b == (self@ == 0),
    {
        self.nanos == 0
    }

    /// The span `count` times over, or `None` where a `Duration` cannot hold
    /// the product.
    pub fn checked_mul(self, count: u64) -> (r: Option<Duration>)
        ensures
            r is Some <==> is_span(self@ * count),
            r matches Some(d) ==> d@ == self@ * count,
    {
        proof {
            use_type_invariant(&self);
        }
        match self.nanos.checked_mul(count as i128) {
            Some(product) => Duration::checked_nanoseconds(product),
            None => None,
        }
    }
}

} // verus!
