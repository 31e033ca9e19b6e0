//! Access to the wall clock.  Reading the time is inherently
//! nondeterministic, so the result carries no contract: callers state what
//! holds of every reading.

use vstd::prelude::*;

verus! {

/// Relies on std's `SystemTime::now`: the current wall-clock time,
/// reported as whole seconds since the Unix epoch.  The call is total: a
/// clock set before the epoch comes back as a negative sentinel, one
/// beyond `i64`'s reach is clamped to `i64::MAX`, and nothing more can be
/// promised of the value read.
#[verifier::external_body]
pub(crate) fn now_seconds() -> i64 {
    match std::time::SystemTime::now().duration_since(std::time::UNIX_EPOCH) {
        Ok(elapsed) => i64::try_from(elapsed.as_secs()).unwrap_or(i64::MAX),
        Err(_) => -1,
    }
}

} // verus!
