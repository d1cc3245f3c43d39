//! The crate's one window onto the random number generator.
//!
//! Every simulated attempt consumes one uniform fixed-point draw. Nothing is
//! assumed about which value comes back beyond its range, so everything proved
//! about the engine holds for every possible random stream.

use crate::meter::PROB_ONE;
use vstd::prelude::*;

verus! {

#[verifier::external_type_specification]
#[verifier::external_body]
pub struct ExRng(fastrand::Rng);

/// Relies on `fastrand::Rng::u64`: a draw from the given range, here
/// `[0, PROB_ONE)`, so the result is always below `PROB_ONE`.
#[verifier::external_body]
pub(crate) fn draw_prob(rng: &mut fastrand::Rng) -> (r: u64)
    ensures
        r < PROB_ONE,
{
    rng.u64(0..PROB_ONE)
}

} // verus!
