//! The server clock, behind the one outside call the store's logic needs.

use vstd::prelude::*;

verus! {

/// Relies on chrono's `Utc::now` and `DateTime::timestamp`: the current
/// time, as whole seconds since the Unix epoch. The value comes from the
/// system clock, so nothing relates two calls; chrono builds it from the
/// span since the epoch, so every outcome is nonnegative.
#[verifier::external_body]
pub(crate) fn now_unix() -> (t: i64)
    ensures
        0 <= t,
{
    chrono::Utc::now().timestamp()
}

} // verus!
