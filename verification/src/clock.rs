//! The monotonic clock that instants are read from.

use vstd::prelude::*;
use crate::instant::Instant;

verus! {

/// The reading of a monotonic clock: `std::time::Instant`, carried as it
/// is.
#[verifier::external_type_specification]
#[verifier::external_body]
pub struct ExSystemInstant(std::time::Instant);

/// A monotonic clock whose instants count from the moment it was started.
///
/// A [`crate::Rate`] or a [`crate::Looper`] is to be shown instants of one
/// clock only, or of its copies.
#[derive(Clone, Copy, Debug)]
pub struct Clock {
    origin: std::time::Instant,
}

/// A reading of the system's monotonic clock, by `std::time::Instant::now`.
/// Nothing is claimed of the reading.
#[verifier::external_body]
fn read_monotonic() -> std::time::Instant {
    std::time::Instant::now()
}

/// The signed nanoseconds from `earlier` to `later`, by
/// `time::ext::InstantExt::signed_duration_since`, which saturates and does
/// not fail, and `time::Duration::whole_nanoseconds`. Nothing is claimed of
/// the number.
#[verifier::external_body]
fn nanos_between(later: &std::time::Instant, earlier: &std::time::Instant) -> i128 {
    time::ext::InstantExt::signed_duration_since(later, *earlier).whole_nanoseconds()
}

impl Clock {
    /// Starts a clock: its origin is now.
    pub fn new() -> Clock {
        Clock { origin: read_monotonic() }
    }

    /// The present instant.
    ///
    /// What comes back depends on the moment of the call; it is an instant of
    /// this clock, and that is all a caller may rely on.
    pub fn now(&self) -> Instant {
        let reading = read_monotonic();
        Instant::saturating_from_nanos(nanos_between(&reading, &self.origin))
    }
}

} // verus!
