//! The random source. Draws come from a seedable generator of the `rand`
//! crate that the caller hands in, so a fixed seed replays a run.

use rand::rngs::StdRng;
use rand::Rng;
use vstd::prelude::*;

verus! {

#[verifier::external_type_specification]
#[verifier::external_body]
pub struct ExStdRng(rand::rngs::StdRng);

/// Draws a number below `bound` with `Rng::gen_range` of the `rand` crate.
/// Assumed of it: the result lies in the half-open range it was given. It
/// panics on an empty range, which `bound > 0` leaves out.
#[verifier::external_body]
pub(crate) fn random_below(rng: &mut StdRng, bound: u64) -> (r: u64)
    requires
        bound > 0,
    ensures
        r < bound,
{
    rng.gen_range(0..bound)
}

} // verus!
