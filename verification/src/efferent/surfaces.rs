//! Control surfaces: elevons, rudder, canards and speed brake.
use vstd::prelude::*;

use super::actuators::{clamp, clamp_symmetric, clamp_to};
use super::{command, enqueued, EfferentBus};

verus! {

/// Port elevon register.
pub const ELEVON_PORT: u16 = 0x0040;
/// Starboard elevon register.
pub const ELEVON_STARBOARD: u16 = 0x0041;
/// Rudder register.
pub const RUDDER: u16 = 0x0042;
/// Port canard register.
pub const CANARD_PORT: u16 = 0x0043;
/// Starboard canard register.
pub const CANARD_STARBOARD: u16 = 0x0044;
/// Speed brake register.
pub const SPEED_BRAKE: u16 = 0x0045;

/// Maximum deflection: 0.2618 rad, about 15 degrees (micro-radian).
pub const MAX_DEFLECTION: i64 = 261_800;

/// Set all control surface deflections at once: each surface is clamped to
/// the maximum deflection either way, the speed brake to `[0, max]`; the
/// commands are queued in the order elevons, rudder, canards, speed brake.
pub fn set_deflections(
    bus: &mut EfferentBus,
    elevon_p: i64,
    elevon_s: i64,
    rudder: i64,
    canard_p: i64,
    canard_s: i64,
    speed_brake: i64,
    deadline_ns: u64,
)
    ensures
        final(bus)@ == enqueued(
            enqueued(
                enqueued(
                    enqueued(
                        enqueued(
                            enqueued(old(bus)@, command(ELEVON_PORT, clamp_symmetric(elevon_p, MAX_DEFLECTION), deadline_ns)),
                            command(ELEVON_STARBOARD, clamp_symmetric(elevon_s, MAX_DEFLECTION), deadline_ns),
                        ),
                        command(RUDDER, clamp_symmetric(rudder, MAX_DEFLECTION), deadline_ns),
                    ),
                    command(CANARD_PORT, clamp_symmetric(canard_p, MAX_DEFLECTION), deadline_ns),
                ),
                command(CANARD_STARBOARD, clamp_symmetric(canard_s, MAX_DEFLECTION), deadline_ns),
            ),
            command(SPEED_BRAKE, clamp(speed_brake, 0, MAX_DEFLECTION), deadline_ns),
        ),
{
    bus.enqueue(ELEVON_PORT, clamp_to(elevon_p, -MAX_DEFLECTION, MAX_DEFLECTION), deadline_ns);
    bus.enqueue(ELEVON_STARBOARD, clamp_to(elevon_s, -MAX_DEFLECTION, MAX_DEFLECTION), deadline_ns);
    bus.enqueue(RUDDER, clamp_to(rudder, -MAX_DEFLECTION, MAX_DEFLECTION), deadline_ns);
    bus.enqueue(CANARD_PORT, clamp_to(canard_p, -MAX_DEFLECTION, MAX_DEFLECTION), deadline_ns);
    bus.enqueue(CANARD_STARBOARD, clamp_to(canard_s, -MAX_DEFLECTION, MAX_DEFLECTION), deadline_ns);
    bus.enqueue(SPEED_BRAKE, clamp_to(speed_brake, 0, MAX_DEFLECTION), deadline_ns);
}

} // verus!
