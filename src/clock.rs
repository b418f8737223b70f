//! The wall clock.
use vstd::prelude::*;

verus! {

/// Relies on chrono's `Utc::now` and `DateTime::timestamp_millis`: the current
/// UTC time as milliseconds since the Unix epoch. `Utc::now` panics on a
/// clock set before the epoch, so a returned value is never negative; beyond
/// that nothing is promised, and callers hand the value on to functions that
/// are verified for every value.
#[verifier::external_body]
pub fn now_millis() -> (r: i64)
    ensures
        r >= 0,
{
    chrono::Utc::now().timestamp_millis()
}

} // verus!
