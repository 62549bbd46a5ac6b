//! The wall-clock time source.

use vstd::prelude::*;

verus! {

/// Relies on `std::time::SystemTime::now` and `SystemTime::duration_since`:
/// the wall clock read as whole milliseconds since the UNIX epoch. Nothing
/// is promised of the value — the wall clock may report any time, ahead of
/// or behind earlier readings — so every caller's contract holds whatever
/// comes back. If the system clock reads before the epoch the process
/// aborts: a fabricated reading would silently break the clock's
/// monotonicity for good.
#[verifier::external_body]
pub fn current_millis() -> u64 {
    std::time::SystemTime::now()
        .duration_since(std::time::UNIX_EPOCH)
        .expect("Time went backwards")
        .as_millis() as u64
}

} // verus!
