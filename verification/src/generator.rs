//! A noise generator: one variant, fixed at construction, and the two
//! periods used when sampling is tiled.

use vstd::prelude::*;
use crate::params::{NoiseParams, BITS_ONE};
use crate::variant::NoiseType;

verus! {

/// A noise generator. Both periods are binary64 bit patterns.
#[derive(Clone, Copy, Debug, PartialEq, Eq, Structural)]
pub struct NoiseGenerator {
    pub period_x: u64,
    pub period_y: u64,
    pub noise_type: NoiseType,
}

impl NoiseGenerator {
    /// The generator that construction with `selector` yields: both periods
    /// 1.0 and the fresh variant that the selector names.
    pub open spec fn initial(selector: u8) -> NoiseGenerator
        recommends
            NoiseType::valid_selector(selector),
    {
        NoiseGenerator {
            period_x: BITS_ONE,
            period_y: BITS_ONE,
            noise_type: NoiseType::initial(selector),
        }
    }

    /// The parameters of the generator's variant.
    pub open spec fn params(self) -> NoiseParams {
        self.noise_type.params()
    }

    /// This generator with the parameters of its variant replaced by `p`.
    /// The composition and both periods stay as they are.
    pub open spec fn with_params(self, p: NoiseParams) -> NoiseGenerator {
        NoiseGenerator { noise_type: self.noise_type.with_params(p), ..self }
    }

    /// Replacing the parameters of the variant installs exactly the given
    /// parameters and keeps the composition and both periods: which of the
    /// two compositions a generator uses never changes after construction.
    pub proof fn lemma_with_params_keeps_composition(self, p: NoiseParams)
        ensures
            self.with_params(p).params() == p,
            self.with_params(p).noise_type.is_ridged() == self.noise_type.is_ridged(),
            self.with_params(p).period_x == self.period_x,
            self.with_params(p).period_y == self.period_y,
    {
    }

    /// Builds a generator with periods 1.0 and the fresh variant that
    /// `noise_type` names.
    pub fn new(noise_type: u8) -> (g: NoiseGenerator)
        requires
            NoiseType::valid_selector(noise_type),
        ensures
            g == Self::initial(noise_type),
    {
        NoiseGenerator {
            period_x: BITS_ONE,
            period_y: BITS_ONE,
            noise_type: NoiseType::new(noise_type),
        }
    }

    /// Replaces the frequency and nothing else.
    pub fn set_frequency(&mut self, frequency: u64)
        ensures
            *final(self) == old(self).with_params(old(self).params().with_frequency(frequency)),
    {
        match self.noise_type {
            NoiseType::Fbm(fbm) => {
                let repl = NoiseParams { frequency, ..fbm };
                self.noise_type = NoiseType::Fbm(repl);
            },
            NoiseType::Ridged(ridged) => {
                let repl = NoiseParams { frequency, ..ridged };
                self.noise_type = NoiseType::Ridged(repl);
            },
        }
    }

    /// Replaces the lacunarity and nothing else.
    pub fn set_lacunarity(&mut self, lacunarity: u64)
        ensures
            *final(self) == old(self).with_params(old(self).params().with_lacunarity(lacunarity)),
    {
        match self.noise_type {
            NoiseType::Fbm(fbm) => {
                let repl = NoiseParams { lacunarity, ..fbm };
                self.noise_type = NoiseType::Fbm(repl);
            },
            NoiseType::Ridged(ridged) => {
                let repl = NoiseParams { lacunarity, ..ridged };
                self.noise_type = NoiseType::Ridged(repl);
            },
        }
    }

    /// Replaces the persistence and nothing else.
    pub fn set_persistence(&mut self, persistence: u64)
        ensures
            *final(self) == old(self).with_params(
                old(self).params().with_persistence(persistence),
            ),
    {
        match self.noise_type {
            NoiseType::Fbm(fbm) => {
                let repl = NoiseParams { persistence, ..fbm };
                self.noise_type = NoiseType::Fbm(repl);
            },
            NoiseType::Ridged(ridged) => {
                let repl = NoiseParams { persistence, ..ridged };
                self.noise_type = NoiseType::Ridged(repl);
            },
        }
    }

    /// Replaces the octave count and nothing else. Zero is stored like any
    /// other count.
    pub fn set_octaves(&mut self, octaves: usize)
        ensures
            *final(self) == old(self).with_params(old(self).params().with_octaves(octaves)),
    {
        match self.noise_type {
            NoiseType::Fbm(fbm) => {
                let repl = NoiseParams { octaves, ..fbm };
                self.noise_type = NoiseType::Fbm(repl);
            },
            NoiseType::Ridged(ridged) => {
                let repl = NoiseParams { octaves, ..ridged };
                self.noise_type = NoiseType::Ridged(repl);
            },
        }
    }

    /// Replaces the seed and nothing else.
    pub fn set_seed(&mut self, seed: u32)
        ensures
            *final(self) == old(self).with_params(old(self).params().with_seed(seed)),
    {
        match self.noise_type {
            NoiseType::Fbm(fbm) => {
                let repl = NoiseParams { seed, ..fbm };
                self.noise_type = NoiseType::Fbm(repl);
            },
            NoiseType::Ridged(ridged) => {
                let repl = NoiseParams { seed, ..ridged };
                self.noise_type = NoiseType::Ridged(repl);
            },
        }
    }

    /// Replaces the period along x and nothing else.
    pub fn set_period_x(&mut self, period_x: u64)
        ensures
            *final(self) == (NoiseGenerator { period_x, ..*old(self) }),
    {
        self.period_x = period_x;
    }

    /// Replaces the period along y and nothing else.
    pub fn set_period_y(&mut self, period_y: u64)
        ensures
            *final(self) == (NoiseGenerator { period_y, ..*old(self) }),
    {
        self.period_y = period_y;
    }
}

} // verus!
