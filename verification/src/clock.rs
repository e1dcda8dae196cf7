//! The capture clock.

use vstd::prelude::*;

verus! {

/// Relies on `std::time::SystemTime::now` and
/// `SystemTime::duration_since(UNIX_EPOCH)`: the current time in whole
/// seconds since the Unix epoch, or `None` when the clock stands before
/// the epoch. The clock is outside anyone's control, so nothing is
/// promised of the value.
#[verifier::external_body]
fn unix_seconds() -> Option<u64> {
    match std::time::SystemTime::now().duration_since(std::time::UNIX_EPOCH) {
        Ok(d) => Some(d.as_secs()),
        Err(_) => None,
    }
}

/// The current time in whole seconds since the Unix epoch, as stamped into
/// every record's `fetched_at`. A clock standing before the epoch reads as
/// zero rather than failing a fetch.
pub fn now_sec() -> u64 {
    match unix_seconds() {
        Some(s) => s,
        None => 0,
    }
}

} // verus!
