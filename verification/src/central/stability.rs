//! Stability control: attitude and angular rate.
use vstd::prelude::*;

verus! {

/// PID gains for attitude control, in fixed point (millionths). Placeholder
/// values: real gain scheduling across Mach regimes needs wind tunnel or
/// CFD data.
#[derive(Clone, Copy, PartialEq, Eq, Debug, Structural)]
pub struct PidGains {
    pub kp: i64,
    pub ki: i64,
    pub kd: i64,
}

/// The attitude gains: kp 12.0, ki 0.8, kd 4.5.
pub fn attitude_gains() -> (gains: PidGains)
    ensures
        gains == (PidGains { kp: 12_000_000, ki: 800_000, kd: 4_500_000 }),
{
    PidGains { kp: 12_000_000, ki: 800_000, kd: 4_500_000 }
}

/// Attitude correction from the attitude quaternion and angular rate, as
/// six control surface deflections (elevon port/starboard, rudder, canard
/// port/starboard, speed brake). The integral term is zeroed each cycle for
/// determinism; the attitude error terms are not computed yet, so every
/// deflection is neutral.
pub fn compute_attitude_correction(
    attitude: &[i64; 4],
    angular_rate: &[i64; 3],
    deflections: &mut [i64; 6],
)
    ensures
        final(deflections)@ == seq![0i64, 0, 0, 0, 0, 0],
{
    let mut i: usize = 0;
    while i < 6
        invariant
            i <= 6,
            deflections@.len() == 6,
            forall|k: int| 0 <= k < i ==> deflections@[k] == 0,
        decreases 6 - i,
    {
        deflections[i] = 0;
        i = i + 1;
    }
    assert(deflections@ =~= seq![0i64, 0, 0, 0, 0, 0]);
}

} // verus!
