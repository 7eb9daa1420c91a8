use rand::rngs::SmallRng;
use rand::Rng;
use vstd::prelude::*;

verus! {

/// The random number generator the game draws from.
#[verifier::external_type_specification]
#[verifier::external_body]
pub struct ExSmallRng(SmallRng);

/// `rand::Rng::random_range` on the half-open range `low..high` of bytes.
/// rand documents the result as a value drawn from `[low, high)`, and panics
/// on an empty range; which value comes out is chance, so nothing more is said.
#[verifier::external_body]
pub(crate) fn random_range_u8(rng: &mut SmallRng, low: u8, high: u8) -> (r: u8)
    requires
        low < high,
    ensures
        low <= r < high,
{
    rng.random_range(low..high)
}

/// `rand::Rng::random::<u8>()`: a byte drawn at random. Any byte may come out,
/// so the contract says nothing of it.
#[verifier::external_body]
pub(crate) fn random_u8(rng: &mut SmallRng) -> u8 {
    rng.random()
}

} // verus!
