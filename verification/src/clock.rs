//! The wall clock. Nothing is promised of what it reads: callers are
//! verified for every value.

use vstd::prelude::*;

verus! {

/// Nanoseconds since the Unix epoch, truncated to 64 bits (0 if the clock
/// is before the epoch). Calls `SystemTime::now`; nothing is promised of
/// the value.
#[verifier::external_body]
pub(crate) fn epoch_nanos() -> (r: u64) {
    std::time::SystemTime::now().duration_since(std::time::UNIX_EPOCH).unwrap_or_default().as_nanos()
        as u64
}

/// Whole seconds since the Unix epoch (0 if the clock is before the epoch).
/// Calls `SystemTime::now`; nothing is promised of the value.
#[verifier::external_body]
pub(crate) fn epoch_secs() -> (r: u64) {
    std::time::SystemTime::now().duration_since(std::time::UNIX_EPOCH).unwrap_or_default().as_secs()
}

} // verus!
