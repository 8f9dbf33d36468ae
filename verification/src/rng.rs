use vstd::prelude::*;
use rand::Rng;

verus! {

/// Relies on `rand::Rng::gen_range` on `rand::thread_rng()`: returns a value
/// drawn uniformly from the half-open range `[lo, hi)`; it panics only on an
/// empty range, which the precondition rules out. Nothing more than the range
/// bound is promised of a random draw.
#[verifier::external_body]
pub(crate) fn random_in_range(lo: u64, hi: u64) -> (r: u64)
    requires
        lo < hi,
    ensures
        lo <= r < hi,
{
    rand::thread_rng().gen_range(lo..hi)
}

} // verus!
