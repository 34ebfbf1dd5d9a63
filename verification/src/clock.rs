//! The clock, by which a synchronized update expires.

use vstd::prelude::*;

use std::time::{Duration, Instant};

verus! {

#[verifier::external_type_specification]
#[verifier::external_body]
pub struct ExInstant(Instant);

/// The point in time `millis` milliseconds after `start`, where it can be represented.
pub uninterp spec fn later(start: Instant, millis: u64) -> Option<Instant>;

/// `std::time::Instant::now` reads the clock; nothing is claimed of what it reads.
pub assume_specification[ Instant::now ]() -> (now: Instant)
;

/// `std::time::Instant::checked_add`: the point in time `millis` milliseconds after `start`,
/// or `None` where it cannot be represented.
#[verifier::external_body]
fn checked_later(start: Instant, millis: u64) -> (end: Option<Instant>)
    ensures
        end == later(start, millis),
{
    start.checked_add(Duration::from_millis(millis))
}

/// The end of a time of `millis` milliseconds that begins at `start`. A time whose end cannot
/// be represented is over at once.
pub open spec fn deadline(start: Instant, millis: u64) -> Instant {
    match later(start, millis) {
        Some(end) => end,
        None => start,
    }
}

/// The end of a time of `millis` milliseconds that begins at `start`.
pub fn deadline_after(start: Instant, millis: u64) -> (end: Instant)
    ensures
        end == deadline(start, millis),
{
    match checked_later(start, millis) {
        Some(end) => end,
        None => start,
    }
}

} // verus!
