//! Hardware interrupt sources and the reflex time budget.
use vstd::prelude::*;

verus! {

/// Thermal critical interrupt source.
pub const IRQ_THERMAL_CRITICAL: u16 = 0x10;
/// Strain critical interrupt source.
pub const IRQ_STRAIN_CRITICAL: u16 = 0x11;
/// Pressure critical interrupt source.
pub const IRQ_PRESSURE_CRITICAL: u16 = 0x12;
/// Gyro saturation interrupt source.
pub const IRQ_GYRO_SATURATION: u16 = 0x13;
/// Watchdog interrupt source.
pub const IRQ_WATCHDOG: u16 = 0x1F;

/// Reflex response time budget, in nanoseconds.
pub const REFLEX_DEADLINE_NS: u64 = 500;

} // verus!
