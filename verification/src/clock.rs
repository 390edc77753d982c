//! Reading the wall clock.
//!
//! The current time is an outside effect: nothing can be promised about
//! what a reading returns, so every decision that depends on time takes
//! the reading as an argument and is verified for all of its values.

use vstd::prelude::*;

verus! {

/// Relies on std::time::SystemTime::now for the seconds since the Unix
/// epoch; a clock before the epoch reads as zero.
#[verifier::external_body]
fn system_unix_secs() -> u64 {
    match std::time::SystemTime::now().duration_since(std::time::UNIX_EPOCH) {
        Ok(d) => d.as_secs(),
        Err(_) => 0,
    }
}

/// The current Unix time as a non-negative signed count of seconds.
/// A reading beyond the signed range (far beyond any plausible clock)
/// saturates.
pub fn unix_now_secs() -> (t: i64)
    ensures
        t >= 0,
{
    let raw = system_unix_secs();
    if raw > i64::MAX as u64 {
        i64::MAX
    } else {
        raw as i64
    }
}

} // verus!
