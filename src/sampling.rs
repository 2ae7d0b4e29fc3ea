//! How many sites a run draws.
use vstd::prelude::*;
use rand::rngs::ThreadRng;
use rand::Rng;

verus! {

/// rand's per-thread generator, carried through as an opaque value.
#[verifier::external_type_specification]
#[verifier::external_body]
pub struct ExThreadRng(ThreadRng);

/// Fewest sites a run draws.
pub const MIN_SITES: usize = 10;

/// One more than the most sites a run draws.
pub const SITES_BOUND: usize = 100;

/// Relies on rand's `Rng::gen_range` for `usize`: a value in `[low, high)`;
/// it panics unless `low < high`.
#[verifier::external_body]
fn gen_range_usize(rng: &mut ThreadRng, low: usize, high: usize) -> (r: usize)
    requires
        low < high,
    ensures
        low <= r < high,
{
    rng.gen_range(low, high)
}

/// Draws the number of sites of a run, uniformly from `[MIN_SITES, SITES_BOUND)`.
pub fn sample_site_count(rng: &mut ThreadRng) -> (r: usize)
    ensures
        MIN_SITES <= r < SITES_BOUND,
{
    gen_range_usize(rng, MIN_SITES, SITES_BOUND)
}

} // verus!
