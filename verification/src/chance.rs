//! The random choices of the simulation.
use rand::Rng;
use vstd::prelude::*;

verus! {

/// A uniformly drawn number in `0..bound`, from `rand::thread_rng().gen_range`.
///
/// Trusted: the contract claims only that the number lies below `bound`, which is
/// what `gen_range` on an exclusive range returns; which number comes out is left
/// unsaid, since it rests on chance. `gen_range` panics on an empty range, so
/// `bound` must be positive.
#[verifier::external_body]
pub(crate) fn random_below(bound: u32) -> (r: u32)
    requires
        bound > 0,
    ensures
        r < bound,
{
    rand::thread_rng().gen_range(0..bound)
}

} // verus!
