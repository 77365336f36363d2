//! The monotonic clock of the standard library, as far as the timer uses it.
//!
//! These declarations are taken on trust: the verifier sees no body behind
//! them. None of them claims anything of what the clock returns, so the
//! proofs hold whatever it reads.

use vstd::prelude::*;
use std::time::{Duration, Instant};

verus! {

/// `std::time::Instant`, a reading of the system's monotonic clock. The
/// library only carries such a value around; nothing is said of what it holds.
#[verifier::external_type_specification]
#[verifier::external_body]
pub struct ExInstant(Instant);

/// `Instant::now` takes a reading of the clock. Nothing is claimed of it.
pub assume_specification[ Instant::now ]() -> Instant;

/// `Instant::elapsed` gives the time from the instant to now. Nothing is
/// claimed of the span returned: as far as the proofs go, two calls may
/// answer in any order.
pub assume_specification[ Instant::elapsed ](instant: &Instant) -> Duration;

/// `Duration::as_nanos` gives a span as a number of nanoseconds. Nothing is
/// claimed of the number.
pub assume_specification[ Duration::as_nanos ](span: &Duration) -> u128;

} // verus!
