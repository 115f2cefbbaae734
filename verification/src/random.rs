use rand::Rng;
use vstd::prelude::*;

verus! {

/// The thread-local generator of `rand`, carried through as an opaque value.
#[verifier::external_type_specification]
#[verifier::external_body]
pub struct ExThreadRng(rand::rngs::ThreadRng);

/// Draws through `rand::Rng::random_range` on the thread-local generator,
/// over the inclusive range `lo..=hi` of `usize`.
///
/// rand asserts that the range is not empty (so `lo <= hi` is required) and
/// returns a value of the range; which value comes out is chance, so the
/// contract states only that it lies in the range.
#[verifier::external_body]
pub(crate) fn random_in(rng: &mut rand::rngs::ThreadRng, lo: usize, hi: usize) -> (r: usize)
    requires
        lo <= hi,
    ensures
        lo <= r <= hi,
{
    rng.random_range(lo..=hi)
}

} // verus!
