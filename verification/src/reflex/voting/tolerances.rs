//! Agreement tolerance for each parameter, in fixed point (millionths of
//! the parameter's unit). Based on sensor specifications, noise floor and
//! thermal gradients.
use vstd::prelude::*;

verus! {

/// Thermal sensor tolerance: 50 K (noise 20 K, thermal gradient 30 K).
pub const THERMAL: i64 = 50_000_000;

/// Strain sensor tolerance: 500 Pa (load cell resolution 200 Pa, vibration 300 Pa).
pub const STRAIN: i64 = 500_000_000;

/// Pressure sensor tolerance: 100 kPa (transducer 50 kPa, line noise 50 kPa).
pub const PRESSURE: i64 = 100_000_000_000;

/// Gyro sensor tolerance: 0.5 rad/s (IMU noise 0.3 rad/s, drift 0.2 rad/s).
pub const GYRO: i64 = 500_000;

} // verus!
