//! Uniform-with-replacement sampling of pool entries.
//!
//! Each worker owns a `Sampler`: a private pseudo-random generator seeded
//! from a high-entropy source, so that parallel trials draw from independent
//! streams. A shock value is carried as the 64-bit pattern of the pool entry,
//! so the verified code can guarantee that every drawn shock is a member of
//! the pool, while the numeric interpretation of the pattern is left to the
//! caller.

use vstd::prelude::*;
use rand::Rng;
use rand::SeedableRng;

verus! {

/// A pool of a single entry makes sampling deterministic: every shock drawn
/// from it is that entry, so every trial follows the same path whatever the
/// random stream does.
pub proof fn lemma_singleton_pool_pins_samples(pool: Seq<u64>, shocks: Seq<u64>)
    requires
        pool.len() == 1,
        forall|k: int| 0 <= k < shocks.len() ==> pool.contains(#[trigger] shocks[k]),
    ensures
        forall|k: int| 0 <= k < shocks.len() ==> shocks[k] == pool[0],
{
    assert forall|k: int| 0 <= k < shocks.len() implies shocks[k] == pool[0] by {
        assert(pool.contains(shocks[k]));
        let i = choose|i: int| 0 <= i < pool.len() && pool[i] == shocks[k];
        assert(i == 0);
    }
}

#[verifier::external_type_specification]
#[verifier::external_body]
pub struct ExXoshiro256PlusPlus(rand_xoshiro::Xoshiro256PlusPlus);

/// A worker-private source of uniformly random pool indices.
pub struct Sampler {
    rng: rand_xoshiro::Xoshiro256PlusPlus,
}

impl Sampler {
    /// Relies on `rand_core::SeedableRng::from_entropy` for
    /// `rand_xoshiro::Xoshiro256PlusPlus`: a freshly seeded generator from a
    /// high-entropy, non-reproducible source. Nothing can be promised of the
    /// seed, so nothing is stated.
    #[verifier::external_body]
    fn fresh_generator() -> rand_xoshiro::Xoshiro256PlusPlus {
        rand_xoshiro::Xoshiro256PlusPlus::from_entropy()
    }

    /// A sampler with its own independently seeded random stream.
    pub fn new() -> Sampler {
        Sampler { rng: Self::fresh_generator() }
    }

    /// Relies on `rand::Rng::gen_range` over the range `0..bound`: a value
    /// drawn uniformly from that range, which is non-empty since `bound` is
    /// positive, so the result is strictly below `bound`.
    #[verifier::external_body]
    fn draw_index(&mut self, bound: usize) -> (idx: usize)
        requires
            bound > 0,
        ensures
            idx < bound,
    {
        self.rng.gen_range(0..bound)
    }

    /// Draws `horizon` indices into a pool of `pool_len` entries, one per
    /// simulated step; every drawn index is in range.
    pub fn sample_path_indices(&mut self, pool_len: usize, horizon: usize) -> (idxs: Vec<usize>)
        requires
            pool_len > 0,
        ensures
            idxs@.len() == horizon,
            forall|k: int| 0 <= k < horizon ==> #[trigger] idxs@[k] < pool_len,
    {
        let mut idxs: Vec<usize> = Vec::new();
        let mut i: usize = 0;
        while i < horizon
            invariant
                pool_len > 0,
                i <= horizon,
                idxs@.len() == i,
                forall|k: int| 0 <= k < i ==> #[trigger] idxs@[k] < pool_len,
            decreases horizon - i,
        {
            let idx = self.draw_index(pool_len);
            idxs.push(idx);
            i = i + 1;
        }
        idxs
    }

    /// Draws `horizon` shocks from `pool`, uniformly with replacement, one
    /// per simulated step; every drawn shock is a member of the pool.
    pub fn sample_shocks(&mut self, pool: &Vec<u64>, horizon: usize) -> (shocks: Vec<u64>)
        requires
            pool.len() > 0,
        ensures
            shocks@.len() == horizon,
            forall|k: int| 0 <= k < horizon ==> pool@.contains(#[trigger] shocks@[k]),
    {
        let mut shocks: Vec<u64> = Vec::new();
        let mut i: usize = 0;
        while i < horizon
            invariant
                pool.len() > 0,
                i <= horizon,
                shocks@.len() == i,
                forall|k: int| 0 <= k < i ==> pool@.contains(#[trigger] shocks@[k]),
            decreases horizon - i,
        {
            let idx = self.draw_index(pool.len());
            let shock = pool[idx];
            proof {
                assert(pool@.contains(shock)) by {
                    assert(pool@[idx as int] == shock);
                }
            }
            shocks.push(shock);
            i = i + 1;
        }
        shocks
    }
}

} // verus!
