//! Structural strain gauge monitoring.
use vstd::prelude::*;

use super::{div_toward_zero, SensorSample};

verus! {

/// Strain gauge locations along the airframe.
#[derive(Clone, Copy, PartialEq, Eq, Debug, Structural)]
pub enum StrainLocation {
    ForwardBulkhead,
    WingSparPort,
    WingSparStarboard,
    EngineMountForward,
    EngineMountAft,
    TailBoom,
    FuselageMidSection,
}

/// Yield strain of the titanium alloy: 8,000 microstrain (fixed point).
pub const YIELD_STRAIN: i64 = 8_000_000_000;
/// Strain of catastrophic failure: 14,000 microstrain (fixed point).
pub const ULTIMATE_STRAIN: i64 = 14_000_000_000;

/// G-load from strain: 9 g at the yield strain, proportional below and
/// above, in fixed point (micro-g) rounded toward zero.
pub fn g_load_from_strain(sample: &SensorSample) -> (g: i64)
    ensures
        g == div_toward_zero(sample.value * 9, 8000),
{
    let v: i128 = sample.value as i128 * 9;
    let g: i128 = if v >= 0 {
        v / 8000
    } else {
        -((-v) / 8000)
    };
    g as i64
}

/// Structural yield is imminent: the strain has reached 85% of the yield
/// strain.
pub fn is_yield_imminent(sample: &SensorSample) -> (imminent: bool)
    ensures
        imminent == (sample.value * 100 >= YIELD_STRAIN * 85),
{
    sample.value >= 6_800_000_000
}

/// Catastrophic failure is imminent: the strain has reached 90% of the
/// ultimate strain.
pub fn is_failure_imminent(sample: &SensorSample) -> (imminent: bool)
    ensures
        imminent == (sample.value * 100 >= ULTIMATE_STRAIN * 90),
{
    sample.value >= 12_600_000_000
}

} // verus!
