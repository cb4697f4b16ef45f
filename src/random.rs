//! Uniform random integers drawn from the thread-local generator.
use vstd::prelude::*;
use rand::Rng;

verus! {

/// Relies on rand's `thread_rng().gen_range(lo..hi)`: a value in the half-open range
/// `[lo, hi)`, which must not be empty (the call panics on an empty range).
#[verifier::external_body]
pub(crate) fn random_in(lo: i64, hi: i64) -> (r: i64)
    requires
        lo < hi,
    ensures
        lo <= r < hi,
{
    rand::thread_rng().gen_range(lo..hi)
}

} // verus!
