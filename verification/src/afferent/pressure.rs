//! Stagnation and static pressure monitoring.
use vstd::prelude::*;

use super::{fits_i64, SensorSample};

verus! {

/// Pressure reading types.
#[derive(Clone, Copy, PartialEq, Eq, Debug, Structural)]
pub enum PressureType {
    Stagnation,
    StaticUpper,
    StaticLower,
    PitotPort,
    EngineChamber,
}

/// Pressure limit: 1.2 MPa, about 12 atm at Mach 32 (micro-pascal).
pub const PRESSURE_MAX: i64 = 1_200_000_000_000;
/// Combustion chamber limit: 25 MPa, about 250 atm (micro-pascal).
pub const ENGINE_CHAMBER_MAX: i64 = 25_000_000_000_000;

/// Dynamic pressure `q`: the stagnation reading minus the static reading.
pub fn dynamic_pressure(stagnation: &SensorSample, static_p: &SensorSample) -> (q: i64)
    requires
        fits_i64(stagnation.value - static_p.value),
    ensures
        q == stagnation.value - static_p.value,
{
    stagnation.value - static_p.value
}

} // verus!
