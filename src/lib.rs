//! A monotonic timestamp type for hosts whose clock reports fractional
//! milliseconds, with checked and unchecked duration arithmetic.

mod duration;
mod instant;
mod laws;

pub use instant::Instant;
pub use duration::{duration_nanos, max_nanos, MAX_NANOS, NANOS_PER_SEC};
pub use instant::{instant_at, lemma_instant_at, reading_nanos, NANOS_PER_MILLI};
pub use laws::{lemma_add_is_monotone, lemma_add_then_sub, lemma_later_reading_not_earlier};
