//! Configuration and ownership core of a coherent-noise generator.
//!
//! Real-valued quantities are carried as IEEE-754 binary64 bit patterns in
//! `u64`, so that every rule about which parameter changes when, and which
//! handle owns which generator, can be stated and proved over plain integers.

pub mod generator;
pub mod params;
pub mod registry;
pub mod variant;

pub use generator::NoiseGenerator;
pub use params::NoiseParams;
pub use registry::{
    generator_dispose, generator_new, generator_set_frequency, generator_set_lacunarity,
    generator_set_octaves, generator_set_period_x, generator_set_period_y,
    generator_set_persistence, generator_set_seed, Registry,
};
pub use variant::NoiseType;
