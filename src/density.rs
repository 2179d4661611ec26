//! Composition classes and their bulk densities, plus the fixed policy and
//! calibration constants of the impact model.

use vstd::prelude::*;

verus! {

/// Coarse composition class of an asteroid.
#[derive(Clone, Copy, Debug, PartialEq, Eq, Structural)]
pub enum AsteroidDensity {
    /// Carbonaceous.
    CType,
    /// Silicaceous.
    SType,
    /// Metallic.
    MType,
}

/// Bulk density of a composition class, in kg/m³.
pub open spec fn density_kg_per_m3(d: AsteroidDensity) -> int {
    match d {
        AsteroidDensity::CType => 1300,
        AsteroidDensity::SType => 2700,
        AsteroidDensity::MType => 5300,
    }
}

/// Composition assumed for every request: a fixed policy, never inferred
/// from the input record.
pub const DEFAULT_COMPOSITION: AsteroidDensity = AsteroidDensity::SType;

/// Meters in a kilometer.
pub const METERS_PER_KM: u32 = 1000;

/// TNT equivalence: joules released by one megaton.
pub const JOULES_PER_MEGATON: u64 = 4_184_000_000_000_000;

/// Order of magnitude (log10 of joules) at which the risk score saturates.
pub const RISK_SATURATION_LOG10: u32 = 20;

/// Upper end of the risk scale; the lower end is zero.
pub const RISK_SCORE_MAX: u32 = 100;

impl AsteroidDensity {
    /// Bulk density of this class, in kg/m³.
    pub fn as_value(&self) -> (r: u32)
        ensures
            r as int == density_kg_per_m3(*self),
    {
        match self {
            AsteroidDensity::CType => 1300,
            AsteroidDensity::SType => 2700,
            AsteroidDensity::MType => 5300,
        }
    }
}

} // verus!
