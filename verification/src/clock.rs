//! The wall clock, as far as a search reads it.

use std::time::{Duration, Instant};
use vstd::prelude::*;

verus! {

/// `std::time::Instant`: a moment on the clock. It is kept to measure
/// from; nothing here looks inside.
#[verifier::external_type_specification]
#[verifier::external_body]
pub struct ExInstant(Instant);

/// `Instant::now` reads the clock. Nothing is claimed of the moment it gives.
pub assume_specification[ Instant::now ]() -> (now: Instant);

/// `Instant::elapsed` gives the time gone by since the instant was taken.
/// It depends on the clock, so nothing is claimed of it.
pub assume_specification[ Instant::elapsed ](start: &Instant) -> (span: Duration);

/// `Duration::as_secs` gives the whole seconds in a span. A span is opaque
/// here, so nothing is claimed of the number.
pub assume_specification[ Duration::as_secs ](span: &Duration) -> (seconds: u64);

} // verus!
