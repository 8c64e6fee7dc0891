//! The wall clock, read as whole seconds since the Unix epoch.
use vstd::prelude::*;

verus! {

/// Reads `std::time::SystemTime::now()` and converts it to whole seconds since
/// the Unix epoch, or 0 when the clock reads before the epoch. Nothing is
/// promised of the value: it is the time.
#[verifier::external_body]
pub(crate) fn unix_now_seconds() -> u64 {
    match std::time::SystemTime::now().duration_since(std::time::UNIX_EPOCH) {
        Ok(elapsed) => elapsed.as_secs(),
        Err(_) => 0,
    }
}

} // verus!
