//! The machine's one source of chance.

use rand::distributions::Uniform;
use rand::Rng;
use vstd::prelude::*;

verus! {

/// Draws a byte with `rand::Rng::sample` from the generator that
/// `rand::thread_rng()` hands out, over the distribution
/// `rand::distributions::Uniform::from(0..=limit)`. The sampler for an
/// inclusive integer range returns `low` plus an offset below
/// `high - low + 1`, so what is claimed is that the byte is at most `limit`,
/// and no more: which byte comes is chance, and two calls may differ. The
/// generator is seeded by the system on its first use in a thread.
#[verifier::external_body]
pub(crate) fn random_up_to(limit: u8) -> (r: u8)
    ensures
        r <= limit,
{
    rand::thread_rng().sample(Uniform::from(0..=limit))
}

} // verus!
