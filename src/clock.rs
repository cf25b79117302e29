use vstd::prelude::*;

use std::time::Instant;

verus! {

#[verifier::external_type_specification]
#[verifier::external_body]
pub struct ExInstant(std::time::Instant);

/// Relies on `std::time::Instant::now`: a reading of the monotonic clock.
#[verifier::external_body]
pub(crate) fn monotonic_now() -> Instant {
    Instant::now()
}

/// Relies on `std::time::Instant::elapsed`: the whole milliseconds that the
/// monotonic clock has advanced since `origin`.
#[verifier::external_body]
pub(crate) fn millis_since(origin: &Instant) -> u64 {
    origin.elapsed().as_millis() as u64
}

/// Relies on `std::time::SystemTime::now`: the wall clock, in milliseconds
/// since the Unix epoch (0 for a clock set before it).
#[verifier::external_body]
pub(crate) fn unix_millis() -> u64 {
    match std::time::SystemTime::now().duration_since(std::time::UNIX_EPOCH) {
        Ok(d) => d.as_millis() as u64,
        Err(_) => 0,
    }
}

} // verus!
