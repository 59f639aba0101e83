//! The random source that every stochastic algorithm of this crate draws
//! from. See [`RandomSource`] and [`StdRandom`].

use vstd::prelude::*;

verus! {

/// A uniform source of randomness, supplied by the caller and owned
/// exclusively by each solver instance.
///
/// A key drawn by [`RandomSource::next_key`] stands for the real number
/// `key / 2^64`, a random key in `[0, 1)`.
pub trait RandomSource: Sized {
    /// The next random key; any `u64` value may come back.
    fn next_key(&mut self) -> u64;

    /// A random index below `bound`.
    fn below(&mut self, bound: usize) -> (r: usize)
        requires
            bound > 0,
        ensures
            r < bound,
    ;
}

/// Declares `rand::rngs::StdRng` to the verifier as an opaque generator
/// type.
#[verifier::external_type_specification]
#[verifier::external_body]
pub struct ExStdRng(rand::rngs::StdRng);

/// A [`RandomSource`] backed by `rand`'s standard seedable generator:
/// identical seeds give identical sequences, which makes runs reproducible.
pub struct StdRandom {
    rng: rand::rngs::StdRng,
}

impl StdRandom {
    /// Relies on `rand::SeedableRng::seed_from_u64`: a generator whose
    /// sequence depends on `seed` alone.
    #[verifier::external_body]
    pub fn from_seed(seed: u64) -> Self {
        Self { rng: <rand::rngs::StdRng as rand::SeedableRng>::seed_from_u64(seed) }
    }

    /// Relies on `rand::Rng::gen`: a `u64` drawn uniformly; nothing can be
    /// promised of its value.
    #[verifier::external_body]
    fn gen_u64(&mut self) -> u64 {
        rand::Rng::gen(&mut self.rng)
    }

    /// Relies on `rand::Rng::gen_range`: a value drawn uniformly from
    /// `0..bound`, which is non-empty since `bound > 0`.
    #[verifier::external_body]
    fn gen_below(&mut self, bound: usize) -> (r: usize)
        requires
            bound > 0,
        ensures
            r < bound,
    {
        rand::Rng::gen_range(&mut self.rng, 0..bound)
    }
}

impl RandomSource for StdRandom {
    fn next_key(&mut self) -> u64 {
        self.gen_u64()
    }

    fn below(&mut self, bound: usize) -> usize {
        self.gen_below(bound)
    }
}

} // verus!
