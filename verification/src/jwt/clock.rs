//! The system clock, read by `chrono`.
use vstd::prelude::*;

verus! {

/// Calls `chrono::Utc::now` and takes the whole seconds since the Unix
/// epoch. Nothing is promised of the result. `chrono` stops the program
/// where the system clock stands before the epoch.
#[verifier::external_body]
pub(crate) fn unix_now() -> i64 {
    chrono::Utc::now().timestamp()
}

} // verus!
