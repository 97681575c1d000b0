//! Liquid rocket actuators: main engine valves, turbopump throttle, gimbal.
use vstd::prelude::*;

use super::{command, enqueued, EfferentBus};
use crate::units::SCALE;

verus! {

/// Main engine valve register.
pub const MAIN_ENGINE_VALVE: u16 = 0x0010;
/// Turbopump throttle register.
pub const TURBOPUMP_THROTTLE: u16 = 0x0011;
/// Gimbal pitch register.
pub const GIMBAL_PITCH: u16 = 0x0020;
/// Gimbal yaw register.
pub const GIMBAL_YAW: u16 = 0x0021;
/// Fuel injector register.
pub const FUEL_INJECTOR: u16 = 0x0030;
/// Oxidizer valve register.
pub const OXIDIZER_VALVE: u16 = 0x0031;

/// Gimbal travel limit: 0.15 rad either way (micro-radian).
pub const GIMBAL_LIMIT: i64 = 150_000;
/// Throttle above which the main engine valve is open: 0.01 (millionths).
pub const VALVE_OPEN_THROTTLE: i64 = 10_000;

/// `x` restricted to `[lo, hi]`.
pub open spec fn clamp(x: i64, lo: i64, hi: i64) -> i64 {
    if x < lo {
        lo
    } else if x > hi {
        hi
    } else {
        x
    }
}

/// Clamping keeps a command within its limits: a command within them is
/// unchanged, one above the range goes to the upper limit and one below it
/// to the lower limit, however far out it is.
pub proof fn lemma_clamp_within_limits(x: i64, lo: i64, hi: i64)
    requires
        lo <= hi,
    ensures
        lo <= clamp(x, lo, hi) <= hi,
        lo <= x <= hi ==> clamp(x, lo, hi) == x,
        x > hi ==> clamp(x, lo, hi) == hi,
        x < lo ==> clamp(x, lo, hi) == lo,
{
}

/// `x` restricted to `[-limit, limit]`.
pub open spec fn clamp_symmetric(x: i64, limit: i64) -> i64 {
    clamp(x, (-limit) as i64, limit)
}

/// `x` restricted to `[lo, hi]` (`lo <= hi`).
pub fn clamp_to(x: i64, lo: i64, hi: i64) -> (r: i64)
    requires
        lo <= hi,
    ensures
        r == clamp(x, lo, hi),
        lo <= r <= hi,
{
    if x < lo {
        lo
    } else if x > hi {
        hi
    } else {
        x
    }
}

/// Set the throttle position (fixed point, 0 to 1.0): the turbopump gets
/// the throttle clamped to `[0, 1]`, and the main engine valve opens (1.0)
/// when the throttle is above 0.01, else closes (0).
pub fn set_throttle(bus: &mut EfferentBus, throttle: i64, deadline_ns: u64)
    ensures
        final(bus)@ == enqueued(
            enqueued(old(bus)@, command(TURBOPUMP_THROTTLE, clamp(throttle, 0, SCALE), deadline_ns)),
            command(MAIN_ENGINE_VALVE, if throttle > VALVE_OPEN_THROTTLE { SCALE } else { 0 }, deadline_ns),
        ),
{
    bus.enqueue(TURBOPUMP_THROTTLE, clamp_to(throttle, 0, SCALE), deadline_ns);
    bus.enqueue(
        MAIN_ENGINE_VALVE,
        if throttle > VALVE_OPEN_THROTTLE {
            SCALE
        } else {
            0
        },
        deadline_ns,
    );
}

/// Set the gimbal angles for thrust vectoring, each clamped to 0.15 rad
/// either way.
pub fn set_gimbal(bus: &mut EfferentBus, pitch: i64, yaw: i64, deadline_ns: u64)
    ensures
        final(bus)@ == enqueued(
            enqueued(old(bus)@, command(GIMBAL_PITCH, clamp_symmetric(pitch, GIMBAL_LIMIT), deadline_ns)),
            command(GIMBAL_YAW, clamp_symmetric(yaw, GIMBAL_LIMIT), deadline_ns),
        ),
{
    bus.enqueue(GIMBAL_PITCH, clamp_to(pitch, -GIMBAL_LIMIT, GIMBAL_LIMIT), deadline_ns);
    bus.enqueue(GIMBAL_YAW, clamp_to(yaw, -GIMBAL_LIMIT, GIMBAL_LIMIT), deadline_ns);
}

/// Emergency shutdown: close the main engine valve, fuel injector,
/// oxidizer valve and turbopump throttle, in that order.
pub fn emergency_shutdown(bus: &mut EfferentBus, deadline_ns: u64)
    ensures
        final(bus)@ == enqueued(
            enqueued(
                enqueued(enqueued(old(bus)@, command(MAIN_ENGINE_VALVE, 0, deadline_ns)), command(FUEL_INJECTOR, 0, deadline_ns)),
                command(OXIDIZER_VALVE, 0, deadline_ns),
            ),
            command(TURBOPUMP_THROTTLE, 0, deadline_ns),
        ),
{
    bus.enqueue(MAIN_ENGINE_VALVE, 0, deadline_ns);
    bus.enqueue(FUEL_INJECTOR, 0, deadline_ns);
    bus.enqueue(OXIDIZER_VALVE, 0, deadline_ns);
    bus.enqueue(TURBOPUMP_THROTTLE, 0, deadline_ns);
}

} // verus!
