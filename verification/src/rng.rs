use vstd::prelude::*;
use bevy_turborand::DelegatedRng;

verus! {

#[verifier::external_type_specification]
#[verifier::external_body]
pub struct ExGlobalRng(bevy_turborand::GlobalRng);

/// Relies on bevy_turborand::DelegatedRng::i32, which delegates to
/// turborand's bounded sampler: a draw from `lo..=hi` lands within those
/// bounds. The sampler panics on an empty range, which the precondition
/// rules out.
#[verifier::external_body]
pub(crate) fn rng_i32_inclusive(rng: &mut bevy_turborand::GlobalRng, lo: i32, hi: i32) -> (r: i32)
    requires
        lo <= hi,
    ensures
        lo <= r <= hi,
{
    rng.i32(lo..=hi)
}

} // verus!
