//! The wall-clock collaborator: the one place the library reads time.

use vstd::prelude::*;

verus! {

/// Relies on `std::time::SystemTime::now` and `SystemTime::duration_since`:
/// the current wall-clock time, as whole milliseconds since the Unix epoch,
/// or `None` when the clock reads before the Unix epoch. Nothing is promised
/// of the value itself: the clock may move at any rate and may go backwards
/// between two calls.
#[verifier::external_body]
pub(crate) fn now_millis() -> Option<u64> {
    match std::time::SystemTime::now().duration_since(std::time::UNIX_EPOCH) {
        Ok(d) => Some(d.as_millis() as u64),
        Err(_) => None,
    }
}

} // verus!
