//! The monotonic clock of the machine.

use std::time::Duration;
use std::time::Instant;
use vstd::prelude::*;

verus! {

/// A moment of the monotonic clock. Nothing of it is visible to the proofs.
#[verifier::external_type_specification]
#[verifier::external_body]
pub struct ExInstant(Instant);

/// `Instant::now` of std. Trusted: nothing is claimed of the moment that it returns.
#[verifier::external_body]
pub(crate) fn now() -> Instant {
    Instant::now()
}

/// `Instant::elapsed` of std. Trusted: nothing is claimed of the time that it returns.
#[verifier::external_body]
pub(crate) fn elapsed(start: &Instant) -> Duration {
    start.elapsed()
}

/// `Duration::as_nanos` of std. Trusted: nothing is claimed of the number that it returns.
#[verifier::external_body]
pub(crate) fn as_nanos(duration: &Duration) -> u128 {
    duration.as_nanos()
}

} // verus!
