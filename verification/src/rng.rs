use vstd::prelude::*;

verus! {

/// Relies on rand's `Rng::gen_range` on `0..bound`: a uniformly distributed
/// integer below `bound`; it panics only on an empty range, which the
/// precondition rules out.
#[verifier::external_body]
pub(crate) fn random_below_u64(bound: u64) -> (r: u64)
    requires
        bound >= 1,
    ensures
        r < bound,
{
    rand::Rng::gen_range(&mut rand::thread_rng(), 0..bound)
}

/// Relies on rand's `Rng::gen_range` on `0..bound`: a uniformly distributed
/// integer below `bound`; it panics only on an empty range, which the
/// precondition rules out.
#[verifier::external_body]
pub(crate) fn random_below_u128(bound: u128) -> (r: u128)
    requires
        bound >= 1,
    ensures
        r < bound,
{
    rand::Rng::gen_range(&mut rand::thread_rng(), 0..bound)
}

/// Relies on rand's `Rng::gen_range` on `0..bound`: a uniformly distributed
/// index below `bound`; it panics only on an empty range, which the
/// precondition rules out.
#[verifier::external_body]
pub(crate) fn random_index(bound: usize) -> (r: usize)
    requires
        bound >= 1,
    ensures
        r < bound,
{
    rand::Rng::gen_range(&mut rand::thread_rng(), 0..bound)
}

} // verus!
