//! Propulsion control: throttle and fuel mixture against the thermal margin.
use vstd::prelude::*;

use crate::afferent::div_toward_zero;

verus! {

/// Material limit of the C/C composite: 12,000 K (micro-kelvin).
pub const MATERIAL_LIMIT: i64 = 12_000_000_000;

/// Fuel mixture used for cooling when the margin is low: 2.80 (millionths).
pub const COOLING_MIXTURE: i64 = 2_800_000;

/// The hotter of two temperatures.
pub open spec fn hotter(a: int, b: int) -> int {
    if a >= b {
        a
    } else {
        b
    }
}

/// Thermal margin `1 - max(skin, engine) / MATERIAL_LIMIT`, in millionths,
/// the quotient rounded toward zero: how close the engine is to melting.
pub fn thermal_margin(skin_temp: i64, engine_temp: i64) -> (margin: i64)
    ensures
        margin == 1_000_000 - div_toward_zero(hotter(skin_temp as int, engine_temp as int), 12_000),
{
    let hot: i64 = if skin_temp >= engine_temp {
        skin_temp
    } else {
        engine_temp
    };
    let q: i64 = if hot >= 0 {
        hot / 12_000
    } else {
        -((-(hot as i128)) / 12_000) as i64
    };
    1_000_000 - q
}

/// The thermal margin with the engine at 90% of the skin temperature is
/// below 0.15, read exactly over the reals: `max(skin, 0.9 skin) > 0.85 *
/// MATERIAL_LIMIT`.
pub open spec fn margin_low(skin_temp_max: int) -> bool {
    hotter(10 * skin_temp_max, 9 * skin_temp_max) * 100 > 85 * 10 * MATERIAL_LIMIT
}

/// The margin is low exactly when the skin is hotter than 85% of the
/// material limit (10,200 K): no upper bound, so the low-margin response
/// only grows more certain as the skin heats up. A skin at or below
/// 10,200 K, including any negative reading, leaves the margin sufficient.
pub proof fn lemma_margin_low_above_10200_kelvin(skin_temp_max: int, hotter_skin: int)
    ensures
        margin_low(skin_temp_max) <==> skin_temp_max > 10_200_000_000,
        margin_low(skin_temp_max) && skin_temp_max <= hotter_skin ==> margin_low(hotter_skin),
{
}

/// Thrust profile for the current flight conditions. When the thermal
/// margin (engine at 90% of the skin temperature) is below 0.15, the
/// throttle is cut to 70% (rounded toward zero) and the mixture enriched to
/// 2.80 for cooling; otherwise nothing changes. The thrust vector is left
/// as it is (active shock stand-off control is not implemented).
pub fn compute_thrust_profile(
    mach: i64,
    dynamic_pressure: i64,
    skin_temp_max: i64,
    freestream_temp: i64,
    thrust_vector: &mut [i64; 3],
    throttle: &mut i64,
    fuel_mixture: &mut i64,
)
    ensures
        final(thrust_vector)@ == old(thrust_vector)@,
        margin_low(skin_temp_max as int) ==> *final(throttle) == div_toward_zero(*old(throttle) * 7, 10)
            && *final(fuel_mixture) == COOLING_MIXTURE,
        !margin_low(skin_temp_max as int) ==> *final(throttle) == *old(throttle)
            && *final(fuel_mixture) == *old(fuel_mixture),
{
    let s = skin_temp_max as i128;
    let hot10: i128 = if s * 10 >= s * 9 {
        s * 10
    } else {
        s * 9
    };
    assert(-100_000_000_000_000_000_000 <= hot10 <= 100_000_000_000_000_000_000);
    if hot10 * 100 > 85 * 10 * (MATERIAL_LIMIT as i128) {
        let t = *throttle as i128 * 7;
        let cut: i128 = if t >= 0 {
            t / 10
        } else {
            -((-t) / 10)
        };
        *throttle = cut as i64;
        *fuel_mixture = COOLING_MIXTURE;
    }
}

} // verus!
