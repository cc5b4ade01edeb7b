//! Durations, as `std::time::Duration` holds them.
use vstd::prelude::*;

verus! {

/// The duration of `secs` whole seconds that `Duration::from_secs` makes.
pub uninterp spec fn duration_of_secs(secs: u64) -> std::time::Duration;

/// `std::time::Duration::from_secs`: the duration of `secs` whole seconds.
/// Claimed: the result depends on `secs` alone.
#[verifier::external_body]
pub(crate) fn duration_from_secs(secs: u64) -> (r: std::time::Duration)
    ensures
        r == duration_of_secs(secs),
{
    std::time::Duration::from_secs(secs)
}

} // verus!
