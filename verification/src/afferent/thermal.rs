//! Skin temperature monitoring.
use vstd::prelude::*;

use super::{div_toward_zero, SensorSample};

verus! {

/// Thermal zones of the vehicle skin.
#[derive(Clone, Copy, PartialEq, Eq, Debug, Structural)]
pub enum ThermalZone {
    NoseCone,
    ForebodyUpper,
    ForebodyLower,
    WingRootPort,
    WingRootStarboard,
    EngineNacelle,
    AftBody,
}

/// Thermal limit of a zone, in micro-kelvin: the nose cone takes the brunt.
pub open spec fn spec_thermal_limit(zone: ThermalZone) -> i64 {
    match zone {
        ThermalZone::NoseCone => 11_000_000_000,
        ThermalZone::ForebodyUpper => 8_500_000_000,
        ThermalZone::ForebodyLower => 8_500_000_000,
        ThermalZone::WingRootPort => 7_200_000_000,
        ThermalZone::WingRootStarboard => 7_200_000_000,
        ThermalZone::EngineNacelle => 9_800_000_000,
        ThermalZone::AftBody => 6_000_000_000,
    }
}

/// Thermal limit of a zone, in micro-kelvin.
pub fn thermal_limit(zone: ThermalZone) -> (limit: i64)
    ensures
        limit == spec_thermal_limit(zone),
{
    match zone {
        ThermalZone::NoseCone => 11_000_000_000,
        ThermalZone::ForebodyUpper => 8_500_000_000,
        ThermalZone::ForebodyLower => 8_500_000_000,
        ThermalZone::WingRootPort => 7_200_000_000,
        ThermalZone::WingRootStarboard => 7_200_000_000,
        ThermalZone::EngineNacelle => 9_800_000_000,
        ThermalZone::AftBody => 6_000_000_000,
    }
}

/// The zone's temperature has reached its limit.
pub fn is_exceeded(sample: &SensorSample, zone: ThermalZone) -> (exceeded: bool)
    ensures
        exceeded == (sample.value >= spec_thermal_limit(zone)),
{
    sample.value >= thermal_limit(zone)
}

/// The time difference `a.timestamp - b.timestamp`.
pub open spec fn time_difference(a: SensorSample, b: SensorSample) -> int {
    a.timestamp - b.timestamp
}

/// The gradient from `b` to `a`: the change of value per cycle, rounded
/// toward zero; 0 when the samples were taken at the same time.
pub open spec fn gradient(a: SensorSample, b: SensorSample) -> int {
    let dt = time_difference(a, b);
    if dt == 0 {
        0
    } else {
        div_toward_zero(a.value - b.value, if dt >= 0 { dt } else { -dt })
    }
}

/// Thermal gradient between two samples: the change of value per cycle,
/// rounded toward zero; 0 when the samples were taken at the same time. A
/// rapid change indicates boundary layer collapse.
pub fn thermal_gradient(a: &SensorSample, b: &SensorSample) -> (g: i128)
    ensures
        g == gradient(*a, *b),
{
    let dt: u64 = if a.timestamp >= b.timestamp {
        a.timestamp - b.timestamp
    } else {
        b.timestamp - a.timestamp
    };
    if dt == 0 {
        return 0;
    }
    let d: i128 = a.value as i128 - b.value as i128;
    proof {
        lemma_quotient_bounded(d as int, dt as int);
    }
    if d >= 0 {
        d / (dt as i128)
    } else {
        -((-d) / (dt as i128))
    }
}

/// The gradient is antisymmetric: swapping the samples flips its sign; it
/// is 0 between samples taken at the same time.
pub proof fn lemma_gradient_antisymmetric(a: SensorSample, b: SensorSample)
    ensures
        gradient(a, b) == -gradient(b, a),
        a.timestamp == b.timestamp ==> gradient(a, b) == 0,
{
}

/// The gradient is the value change divided by the whole time gap, rounded
/// toward zero: with `d = a.value - b.value` and a gap `t > 0` cycles, the
/// gradient `g` satisfies `g * t <= d < (g + 1) * t` for a rise and
/// `(g - 1) * t < d <= g * t` for a fall; so `|g * t - d| < t`.
pub proof fn lemma_gradient_divides_whole_gap(a: SensorSample, b: SensorSample)
    requires
        a.timestamp != b.timestamp,
    ensures
        ({
            let d = a.value - b.value;
            let t: int = if a.timestamp >= b.timestamp {
                a.timestamp - b.timestamp
            } else {
                b.timestamp - a.timestamp
            };
            let g = gradient(a, b);
            &&& t > 0
            &&& d >= 0 ==> g * t <= d < (g + 1) * t
            &&& d < 0 ==> (g - 1) * t < d <= g * t
            &&& -t < g * t - d < t
        }),
{
    let d = a.value - b.value;
    let t: int = if a.timestamp >= b.timestamp {
        a.timestamp - b.timestamp
    } else {
        b.timestamp - a.timestamp
    };
    let g = gradient(a, b);
    if d >= 0 {
        assert(g == d / t);
        assert(g * t <= d < (g + 1) * t) by (nonlinear_arith)
            requires
                g == d / t,
                t > 0,
                d >= 0,
        ;
        assert((g + 1) * t == g * t + t) by (nonlinear_arith);
    } else {
        let q = (-d) / t;
        assert(g == -q);
        assert(q * t <= -d < (q + 1) * t) by (nonlinear_arith)
            requires
                q == (-d) / t,
                t > 0,
                d < 0,
        ;
        assert((g - 1) * t < d <= g * t) by (nonlinear_arith)
            requires
                g == -q,
                q * t <= -d < (q + 1) * t,
        ;
        assert((g - 1) * t == g * t - t) by (nonlinear_arith);
    }
}

proof fn lemma_quotient_bounded(d: int, t: int)
    requires
        t >= 1,
    ensures
        0 <= d ==> 0 <= d / t <= d,
        d < 0 ==> 0 <= (-d) / t <= -d,
{
    if d >= 0 {
        assert(d / t <= d) by (nonlinear_arith)
            requires
                t >= 1,
                d >= 0,
        ;
    } else {
        assert((-d) / t <= -d) by (nonlinear_arith)
            requires
                t >= 1,
                d < 0,
        ;
    }
}

} // verus!
