//! All items, in one place.

pub use crate::calendar::is_leap_year;
pub use crate::calendar::Month;
pub use crate::calendar::Weekday;
pub use crate::clock::Clock;
pub use crate::duration::Duration;
pub use crate::error::EsperaError;
pub use crate::error::EsperaResult;
pub use crate::fmt::timecode_ns_u64;
pub use crate::instant::Instant;
pub use crate::key::rate_key;
pub use crate::looper::LoopStatus;
pub use crate::looper::Looper;
pub use crate::looper::TickOutcome;
pub use crate::rate::Rate;
pub use crate::sleeper::Sleeper;
pub use crate::stats::RateStats;
pub use crate::unix::UnixTime;
pub use crate::unix::UnixTime32;
