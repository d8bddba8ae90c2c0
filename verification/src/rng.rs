//! Trusted wrappers around the process random-number generator.

use rand::Rng;
use vstd::prelude::*;

verus! {

/// Relies on `rand::random`: a fresh random `u32`.  The value depends on the
/// generator's state, so nothing is promised of it.
#[verifier::external_body]
pub(crate) fn random_u32() -> u32 {
    rand::random()
}

/// Relies on `rand::Rng::gen_range` on the thread-local generator: the result
/// is sampled from `lo..hi`, and the call panics only on an empty range,
/// which the precondition excludes.
#[verifier::external_body]
pub(crate) fn random_in_range(lo: u64, hi: u64) -> (r: u64)
    requires
        lo < hi,
    ensures
        lo <= r < hi,
{
    rand::thread_rng().gen_range(lo..hi)
}

} // verus!
