use vstd::prelude::*;
use rand::Rng;
use rand::distributions::Distribution;

verus! {

/// Declares the ChaCha8 random source so that verified code can pass it around.
/// The library never seeds or copies it; callers own it.
#[verifier::external_type_specification]
#[verifier::external_body]
pub struct ExChaCha8Rng(rand_chacha::ChaCha8Rng);

/// Relies on rand's Rng::gen::<u32>: one raw draw from the source; nothing is
/// promised of the value.
#[verifier::external_body]
pub(crate) fn gen_u32(rng: &mut rand_chacha::ChaCha8Rng) -> (r: u32) {
    rng.gen::<u32>()
}

/// Relies on rand's Bernoulli::from_ratio and its sampling: the draw is true
/// with probability num-in-den, so a zero numerator never yields true and a
/// full numerator always does.
#[verifier::external_body]
pub(crate) fn coin(rng: &mut rand_chacha::ChaCha8Rng, num: u32, den: u32) -> (r: bool)
    requires
        0 < den,
        num <= den,
    ensures
        num == 0 ==> r == false,
        num == den ==> r == true,
{
    match rand::distributions::Bernoulli::from_ratio(num, den) {
        Ok(b) => b.sample(rng),
        Err(_) => false,
    }
}

/// Relies on rand's Rng::gen_range on an integer range: a uniform index below
/// the bound.
#[verifier::external_body]
pub(crate) fn gen_index(rng: &mut rand_chacha::ChaCha8Rng, n: usize) -> (r: usize)
    requires
        0 < n,
    ensures
        r < n,
{
    rng.gen_range(0..n)
}

} // verus!
