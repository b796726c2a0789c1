//! Time management: tick rates for periodic loops, with statistics, and a
//! few tools for calendar and Unix time.
//!
//! A [`Rate`] decides when a tick of a loop is due, from the instants it is
//! shown, and carries the lag of late ticks forward so that the average
//! interval meets its target. [`RateStats`] keep the sum and the maximum of
//! the last 16, 128 and 1024 intervals. A [`Looper`] alternates between one
//! active period and one sleep, counts its wake-ups with a root rate, and
//! holds any number of named rates beside it.
//!
//! Time is held in plain numbers: a [`Duration`] is a signed count of
//! nanoseconds, an [`Instant`] the nanoseconds since the origin of a
//! [`Clock`]. Every function that needs an instant can be given one, so that
//! a loop can be run on simulated time; those that read the clock
//! themselves say so.
//!
//! The library never sleeps. [`Looper::sleep`] and [`Sleeper::sleep`] hand
//! back the wait that is due, and the caller performs it.

pub mod all;
pub mod calendar;
pub mod clock;
pub mod duration;
pub mod error;
pub mod fmt;
pub mod instant;
pub mod key;
pub mod looper;
pub mod rate;
pub mod sleeper;
pub mod stats;
pub mod table;
pub mod unix;

pub use calendar::Month;
pub use calendar::Weekday;
pub use clock::Clock;
pub use duration::Duration;
pub use error::EsperaError;
pub use error::EsperaResult;
pub use fmt::timecode_ns_u64;
pub use instant::Instant;
pub use looper::LoopStatus;
pub use looper::Looper;
pub use looper::TickOutcome;
pub use rate::Rate;
pub use sleeper::Sleeper;
pub use stats::RateStats;
pub use unix::UnixTime;
pub use unix::UnixTime32;
