//! The one place where the library reads the wall clock.

use vstd::prelude::*;

verus! {

/// Relies on std's `SystemTime::now` and `duration_since`: the current
/// time as whole seconds since the UNIX epoch. A clock before the epoch
/// or out of range is reported as its nearest representable value, so the
/// result is never negative.
#[verifier::external_body]
pub fn unix_time_now() -> (r: i64)
    ensures
        r >= 0,
{
    let secs = std::time::SystemTime::now()
        .duration_since(std::time::UNIX_EPOCH)
        .map(|d| d.as_secs())
        .unwrap_or(0);
    i64::try_from(secs).unwrap_or(i64::MAX)
}

} // verus!
