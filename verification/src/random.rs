//! Trusted wrappers around the `rand` crate.
//!
//! Every random choice the library makes goes through one of the two
//! functions here; everything that consumes a sampled value is verified for
//! every value the contracts admit.

use vstd::prelude::*;

verus! {

/// Relies on `rand::Rng::gen_range` over a half-open integer range, through
/// `rand::thread_rng`: the result is uniformly distributed in `[lo, hi)`, and
/// the call panics only on an empty range, which the precondition rules out.
#[verifier::external_body]
pub(crate) fn sample_range_u64(lo: u64, hi: u64) -> (r: u64)
    requires
        lo < hi,
    ensures
        lo <= r < hi,
{
    rand::Rng::gen_range(&mut rand::thread_rng(), lo..hi)
}

/// Relies on `rand::random` with the `Standard` distribution on `bool`:
/// a fair coin flip. Nothing can be promised of the outcome.
#[verifier::external_body]
pub(crate) fn sample_bool() -> bool {
    rand::random::<bool>()
}

} // verus!
