//! The five fractal parameters shared by both noise variants.

use vstd::prelude::*;

verus! {

/// Bit pattern of the real number 1.0.
pub const BITS_ONE: u64 = 0x3FF0_0000_0000_0000;

/// Bit pattern of the real number 0.5.
pub const BITS_HALF: u64 = 0x3FE0_0000_0000_0000;

/// Bit pattern of `PI * 2.0 / 3.0` as binary64 arithmetic gives it (about
/// 2.0944), the lacunarity both variants start with.
pub const BITS_TWO_THIRDS_PI: u64 = 0x4000_C152_382D_7365;

/// Parameters of a fractal noise variant. The three real-valued parameters
/// are held as binary64 bit patterns. No combination of values is rejected.
#[derive(Clone, Copy, Debug, PartialEq, Eq, Structural)]
pub struct NoiseParams {
    pub seed: u32,
    pub octaves: usize,
    pub frequency: u64,
    pub lacunarity: u64,
    pub persistence: u64,
}

impl NoiseParams {
    /// These parameters with the seed replaced.
    pub open spec fn with_seed(self, seed: u32) -> NoiseParams {
        NoiseParams { seed, ..self }
    }

    /// These parameters with the octave count replaced.
    pub open spec fn with_octaves(self, octaves: usize) -> NoiseParams {
        NoiseParams { octaves, ..self }
    }

    /// These parameters with the frequency replaced.
    pub open spec fn with_frequency(self, frequency: u64) -> NoiseParams {
        NoiseParams { frequency, ..self }
    }

    /// These parameters with the lacunarity replaced.
    pub open spec fn with_lacunarity(self, lacunarity: u64) -> NoiseParams {
        NoiseParams { lacunarity, ..self }
    }

    /// These parameters with the persistence replaced.
    pub open spec fn with_persistence(self, persistence: u64) -> NoiseParams {
        NoiseParams { persistence, ..self }
    }
}

/// Each parameter is replaced on its own: after a replacement the replaced
/// parameter reads as the new value and the other four read as before.
pub proof fn lemma_replacement_is_isolated(
    p: NoiseParams,
    seed: u32,
    octaves: usize,
    frequency: u64,
    lacunarity: u64,
    persistence: u64,
)
    ensures
        p.with_seed(seed) == (NoiseParams {
            seed,
            octaves: p.octaves,
            frequency: p.frequency,
            lacunarity: p.lacunarity,
            persistence: p.persistence,
        }),
        p.with_octaves(octaves) == (NoiseParams {
            seed: p.seed,
            octaves,
            frequency: p.frequency,
            lacunarity: p.lacunarity,
            persistence: p.persistence,
        }),
        p.with_frequency(frequency) == (NoiseParams {
            seed: p.seed,
            octaves: p.octaves,
            frequency,
            lacunarity: p.lacunarity,
            persistence: p.persistence,
        }),
        p.with_lacunarity(lacunarity) == (NoiseParams {
            seed: p.seed,
            octaves: p.octaves,
            frequency: p.frequency,
            lacunarity,
            persistence: p.persistence,
        }),
        p.with_persistence(persistence) == (NoiseParams {
            seed: p.seed,
            octaves: p.octaves,
            frequency: p.frequency,
            lacunarity: p.lacunarity,
            persistence,
        }),
{
}

/// Replacements of two different parameters can be made in either order:
/// the outcome is the same.
pub proof fn lemma_replacements_commute(
    p: NoiseParams,
    seed: u32,
    octaves: usize,
    frequency: u64,
    lacunarity: u64,
    persistence: u64,
)
    ensures
        p.with_seed(seed).with_octaves(octaves) == p.with_octaves(octaves).with_seed(seed),
        p.with_seed(seed).with_frequency(frequency) == p.with_frequency(frequency).with_seed(seed),
        p.with_seed(seed).with_lacunarity(lacunarity) == p.with_lacunarity(lacunarity).with_seed(
            seed,
        ),
        p.with_seed(seed).with_persistence(persistence) == p.with_persistence(
            persistence,
        ).with_seed(seed),
        p.with_octaves(octaves).with_frequency(frequency) == p.with_frequency(
            frequency,
        ).with_octaves(octaves),
        p.with_octaves(octaves).with_lacunarity(lacunarity) == p.with_lacunarity(
            lacunarity,
        ).with_octaves(octaves),
        p.with_octaves(octaves).with_persistence(persistence) == p.with_persistence(
            persistence,
        ).with_octaves(octaves),
        p.with_frequency(frequency).with_lacunarity(lacunarity) == p.with_lacunarity(
            lacunarity,
        ).with_frequency(frequency),
        p.with_frequency(frequency).with_persistence(persistence) == p.with_persistence(
            persistence,
        ).with_frequency(frequency),
        p.with_lacunarity(lacunarity).with_persistence(persistence) == p.with_persistence(
            persistence,
        ).with_lacunarity(lacunarity),
{
}

/// The parameters a fresh fractal-Brownian-motion variant starts with.
pub open spec fn fbm_initial() -> NoiseParams {
    NoiseParams {
        seed: 0,
        octaves: 6,
        frequency: BITS_ONE,
        lacunarity: BITS_TWO_THIRDS_PI,
        persistence: BITS_HALF,
    }
}

/// The parameters a fresh ridged-multifractal variant starts with.
pub open spec fn ridged_initial() -> NoiseParams {
    NoiseParams {
        seed: 0,
        octaves: 6,
        frequency: BITS_ONE,
        lacunarity: BITS_TWO_THIRDS_PI,
        persistence: BITS_ONE,
    }
}

/// Trusted: reads the parameters of `noise::Fbm::new()`. The contract claims
/// that a fresh `Fbm` has seed 0, six octaves, frequency 1.0, lacunarity
/// 2*pi/3 and persistence 0.5, as the `DEFAULT_*` constants of that type say.
#[verifier::external_body]
pub(crate) fn fbm_defaults() -> (p: NoiseParams)
    ensures
        p == fbm_initial(),
{
    let f = noise::Fbm::new();
    NoiseParams {
        seed: noise::Seedable::seed(&f),
        octaves: f.octaves,
        frequency: f.frequency.to_bits(),
        lacunarity: f.lacunarity.to_bits(),
        persistence: f.persistence.to_bits(),
    }
}

/// Trusted: reads the parameters of `noise::RidgedMulti::new()`. The contract
/// claims that a fresh `RidgedMulti` has seed 0, six octaves, frequency 1.0,
/// lacunarity 2*pi/3 and persistence 1.0, as the `DEFAULT_*` constants of that
/// type say.
#[verifier::external_body]
pub(crate) fn ridged_defaults() -> (p: NoiseParams)
    ensures
        p == ridged_initial(),
{
    let r = noise::RidgedMulti::new();
    NoiseParams {
        seed: noise::Seedable::seed(&r),
        octaves: r.octaves,
        frequency: r.frequency.to_bits(),
        lacunarity: r.lacunarity.to_bits(),
        persistence: r.persistence.to_bits(),
    }
}

} // verus!
