//! The output record: a validated asteroid together with the quantities
//! derived from it.

use vstd::prelude::*;
use crate::asteroid::{validation_outcome, Asteroid, AsteroidDto};
use crate::number::Binary64;

verus! {

/// The assessment of one asteroid.
#[derive(Clone, Debug, PartialEq)]
pub struct RiskResult {
    pub id: String,
    pub name: String,
    pub energy_joules: Binary64,
    pub energy_megatons: Binary64,
    /// On the scale from 0 to 100.
    pub risk_score: Binary64,
    pub hazardous: bool,
    pub distance_km: Binary64,
    pub velocity_kps: Binary64,
    pub diameter_km: Binary64,
}

/// The record that combines `a` with its derived quantities.
pub open spec fn assembled(
    a: Asteroid,
    energy_joules: Binary64,
    energy_megatons: Binary64,
    risk_score: Binary64,
) -> RiskResult {
    RiskResult {
        id: a.id,
        name: a.name,
        energy_joules,
        energy_megatons,
        risk_score,
        hazardous: a.hazardous,
        distance_km: a.distance_km,
        velocity_kps: a.velocity_kps,
        diameter_km: a.diameter_km,
    }
}

impl RiskResult {
    /// Combines a validated asteroid with the energy, its megaton equivalent
    /// and the risk score computed from it. Copies only; cannot fail.
    pub fn assemble(
        asteroid: &Asteroid,
        energy_joules: Binary64,
        energy_megatons: Binary64,
        risk_score: Binary64,
    ) -> (r: RiskResult)
        ensures
            r == assembled(*asteroid, energy_joules, energy_megatons, risk_score),
    {
        RiskResult {
            id: asteroid.id.clone(),
            name: asteroid.name.clone(),
            energy_joules,
            energy_megatons,
            risk_score,
            hazardous: asteroid.hazardous,
            distance_km: asteroid.distance_km,
            velocity_kps: asteroid.velocity_kps,
            diameter_km: asteroid.diameter_km,
        }
    }
}

/// Equal raw records validate to the same outcome, and when that outcome is
/// an asteroid, equal derived quantities assemble to the same result: the
/// assessment depends on its inputs alone.
pub proof fn assessment_is_deterministic(
    first: AsteroidDto,
    second: AsteroidDto,
    energy_joules: Binary64,
    energy_megatons: Binary64,
    risk_score: Binary64,
)
    requires
        first == second,
    ensures
        validation_outcome(first) == validation_outcome(second),
        validation_outcome(first) matches Ok(a) ==> (validation_outcome(second) matches Ok(b)
            && assembled(a, energy_joules, energy_megatons, risk_score) == assembled(
            b,
            energy_joules,
            energy_megatons,
            risk_score,
        )),
{
}

} // verus!
