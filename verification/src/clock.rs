//! The monotonic clock of std, as far as the timer reads it.

use crate::span::TimeSpan;
use std::time::{Duration, Instant};
use vstd::prelude::*;

verus! {

/// std's `Instant`: a point on the monotonic clock, carried about unread.
#[verifier::external_type_specification]
#[verifier::external_body]
pub struct ExInstant(Instant);

/// `Instant::now` reads the clock. Nothing is claimed of the point that
/// comes back.
pub assume_specification[ Instant::now ]() -> (now: Instant);

/// `Instant::elapsed` reads the clock and gives the time gone by since
/// `origin`, or the empty duration where the clock stands before `origin`.
/// Nothing is claimed of the duration that comes back.
pub assume_specification[ Instant::elapsed ](origin: &Instant) -> (gone: Duration);

/// `Duration::as_secs` gives the whole seconds of a duration, any `u64`.
pub assume_specification[ Duration::as_secs ](duration: &Duration) -> (secs: u64);

/// `Duration::subsec_nanos` gives the part of a duration beyond its whole
/// seconds, in nanoseconds: always less than one billion.
pub assume_specification[ Duration::subsec_nanos ](duration: &Duration) -> (nanos: u32)
    ensures
        nanos < 1_000_000_000,
;

/// Reads the clock: the time gone by since `origin`.
pub(crate) fn elapsed_since(origin: &Instant) -> TimeSpan {
    let gone = origin.elapsed();
    TimeSpan::new(gone.as_secs(), gone.subsec_nanos())
}

} // verus!
