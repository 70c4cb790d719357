//! The two fractal compositions a generator can be built with.

use vstd::prelude::*;
use crate::params::{fbm_defaults, fbm_initial, ridged_defaults, ridged_initial, NoiseParams};

verus! {

/// A noise variant: which fractal composition is used, and its parameters.
#[derive(Clone, Copy, Debug, PartialEq, Eq, Structural)]
pub enum NoiseType {
    /// Fractal Brownian motion.
    Fbm(NoiseParams),
    /// Ridged multifractal.
    Ridged(NoiseParams),
}

impl NoiseType {
    /// The parameters of the variant, whichever composition it is.
    pub open spec fn params(self) -> NoiseParams {
        match self {
            NoiseType::Fbm(p) => p,
            NoiseType::Ridged(p) => p,
        }
    }

    /// Whether the variant is the ridged multifractal.
    pub open spec fn is_ridged(self) -> bool {
        self is Ridged
    }

    /// The same composition with its parameters replaced by `p`.
    pub open spec fn with_params(self, p: NoiseParams) -> NoiseType {
        match self {
            NoiseType::Fbm(_) => NoiseType::Fbm(p),
            NoiseType::Ridged(_) => NoiseType::Ridged(p),
        }
    }

    /// Whether `selector` names a variant.
    pub open spec fn valid_selector(selector: u8) -> bool {
        selector == 0 || selector == 1
    }

    /// The fresh variant that `selector` names: 0 is fractal Brownian motion,
    /// 1 is the ridged multifractal.
    pub open spec fn initial(selector: u8) -> NoiseType
        recommends
            Self::valid_selector(selector),
    {
        if selector == 0 {
            NoiseType::Fbm(fbm_initial())
        } else {
            NoiseType::Ridged(ridged_initial())
        }
    }

    /// Builds the fresh variant that `noise_type` names. Returns `None`
    /// exactly when `noise_type` names no variant.
    pub fn try_new(noise_type: u8) -> (r: Option<NoiseType>)
        ensures
            r == if Self::valid_selector(noise_type) {
                Some(Self::initial(noise_type))
            } else {
                None
            },
    {
        match noise_type {
            0 => {
                let fbm = fbm_defaults();
                Some(NoiseType::Fbm(fbm))
            },
            1 => {
                let ridged = ridged_defaults();
                Some(NoiseType::Ridged(ridged))
            },
            _ => None,
        }
    }

    /// Builds the fresh variant that `noise_type` names.
    pub fn new(noise_type: u8) -> (r: NoiseType)
        requires
            Self::valid_selector(noise_type),
        ensures
            r == Self::initial(noise_type),
    {
        match noise_type {
            0 => {
                let fbm = fbm_defaults();
                NoiseType::Fbm(fbm)
            },
            _ => {
                let ridged = ridged_defaults();
                NoiseType::Ridged(ridged)
            },
        }
    }
}

} // verus!
