//! The monotonic clock that the widgets throttle themselves by.

use std::time::Instant;
use vstd::prelude::*;

verus! {

/// A moment of the monotonic clock of std. Nothing is known of a moment but
/// that it can be kept and asked for its age.
#[verifier::external_type_specification]
#[verifier::external_body]
pub struct ExInstant(std::time::Instant);

/// Calls `std::time::Instant::now`. The moment depends on when it is called,
/// so nothing is claimed of it.
#[verifier::external_body]
pub(crate) fn now() -> Instant {
    Instant::now()
}

/// Calls `std::time::Instant::elapsed` and gives the age of `since` in whole
/// milliseconds. The age depends on when it is asked for, so nothing is
/// claimed of it.
#[verifier::external_body]
pub(crate) fn elapsed_millis(since: &Instant) -> u128 {
    since.elapsed().as_millis()
}

} // verus!
