//! Central processing: the brain.
//!
//! One bounded control cycle turns the vehicle state into control output:
//! attitude correction for the control surfaces, then the thrust profile.
pub mod propulsion;
pub mod stability;

use vstd::prelude::*;

use crate::afferent::div_toward_zero;

verus! {

/// Target control cycle time, in nanoseconds.
pub const CONTROL_CYCLE_NS: u64 = 100;

/// Vehicle state vector, in fixed point (millionths of each unit).
#[derive(Clone, Copy, PartialEq, Eq, Debug)]
pub struct VehicleState {
    /// Position in the ECI frame (micro-metre).
    pub position: [i64; 3],
    /// Velocity (micro-metre per second).
    pub velocity: [i64; 3],
    /// Attitude quaternion (millionths).
    pub attitude: [i64; 4],
    /// Angular rate (micro-radian per second).
    pub angular_rate: [i64; 3],
    /// Mass (micro-kilogram); changes as fuel burns.
    pub mass: i64,
    /// Mach number (millionths).
    pub mach: i64,
    /// Dynamic pressure (micro-pascal).
    pub dynamic_pressure: i64,
    /// Maximum skin temperature (micro-kelvin).
    pub skin_temp_max: i64,
    /// Elapsed time, in nanoseconds.
    pub elapsed_ns: u64,
}

/// Control output: what the brain decided, in fixed point.
#[derive(Clone, Copy, PartialEq, Eq, Debug)]
pub struct ControlOutput {
    /// Desired thrust direction, a unit vector (millionths).
    pub thrust_vector: [i64; 3],
    /// Throttle, 0 to 1.0 (millionths).
    pub throttle: i64,
    /// Oxidizer/fuel ratio (millionths).
    pub fuel_mixture: i64,
    /// Control surface angles (micro-radian).
    pub surface_deflections: [i64; 6],
    /// How long the computation took, in nanoseconds.
    pub cycle_time_ns: u64,
}

/// The vehicle state that a new processor starts from: at rest, identity
/// attitude, everything else zero.
pub open spec fn initial_state() -> VehicleState {
    VehicleState {
        position: [0, 0, 0],
        velocity: [0, 0, 0],
        attitude: [1_000_000, 0, 0, 0],
        angular_rate: [0, 0, 0],
        mass: 0,
        mach: 0,
        dynamic_pressure: 0,
        skin_temp_max: 0,
        elapsed_ns: 0,
    }
}

/// The output that a new processor starts from: thrust along +z, throttle
/// closed, stoichiometric LOX/LH2 mixture (2.56), surfaces neutral.
pub open spec fn initial_output() -> ControlOutput {
    ControlOutput {
        thrust_vector: [0, 0, 1_000_000],
        throttle: 0,
        fuel_mixture: 2_560_000,
        surface_deflections: [0, 0, 0, 0, 0, 0],
        cycle_time_ns: 0,
    }
}

/// The brain: turns sensor input into control output in bounded time.
pub struct CentralProcessor {
    state: VehicleState,
    output: ControlOutput,
}

impl CentralProcessor {
    /// The last vehicle state processed.
    pub closed spec fn state(&self) -> VehicleState {
        self.state
    }

    /// The current control output.
    pub closed spec fn output(&self) -> ControlOutput {
        self.output
    }

    /// Create a processor in the initial state with the initial output.
    pub fn new() -> (processor: Self)
        ensures
            processor.state() == initial_state(),
            processor.output() == initial_output(),
    {
        CentralProcessor {
            state: VehicleState {
                position: [0, 0, 0],
                velocity: [0, 0, 0],
                attitude: [1_000_000, 0, 0, 0],
                angular_rate: [0, 0, 0],
                mass: 0,
                mach: 0,
                dynamic_pressure: 0,
                skin_temp_max: 0,
                elapsed_ns: 0,
            },
            output: ControlOutput {
                thrust_vector: [0, 0, 1_000_000],
                throttle: 0,
                fuel_mixture: 2_560_000,
                surface_deflections: [0, 0, 0, 0, 0, 0],
                cycle_time_ns: 0,
            },
        }
    }

    /// Process one control cycle: the state is recorded, the attitude
    /// correction sets the surface deflections, and the thrust profile
    /// adjusts throttle and mixture. Returns the new control output.
    pub fn process(&mut self, state: VehicleState) -> (output: &ControlOutput)
        ensures
            final(self).state() == state,
            *output == final(self).output(),
            final(self).output() == processed_output(old(self).output(), state),
    {
        self.state = state;
        stability::compute_attitude_correction(
            &self.state.attitude,
            &self.state.angular_rate,
            &mut self.output.surface_deflections,
        );
        // The state vector carries no freestream temperature; the profile
        // does not use it yet.
        propulsion::compute_thrust_profile(
            self.state.mach,
            self.state.dynamic_pressure,
            self.state.skin_temp_max,
            0,
            &mut self.output.thrust_vector,
            &mut self.output.throttle,
            &mut self.output.fuel_mixture,
        );
        proof {
            broadcast use vstd::array::group_array_axioms;

            assert(self.output.surface_deflections =~= [0i64, 0, 0, 0, 0, 0]);
            assert(self.output.thrust_vector =~= old(self).output.thrust_vector);
            assert(self.output == processed_output(old(self).output, state));
        }
        &self.output
    }
}

/// The output after one control cycle on `state`: surfaces neutral; when
/// the thermal margin is low the throttle is cut to 70% and the mixture set
/// to the cooling mixture; everything else unchanged.
pub open spec fn processed_output(before: ControlOutput, state: VehicleState) -> ControlOutput {
    ControlOutput {
        surface_deflections: [0, 0, 0, 0, 0, 0],
        throttle: if propulsion::margin_low(state.skin_temp_max as int) {
            div_toward_zero(before.throttle * 7, 10) as i64
        } else {
            before.throttle
        },
        fuel_mixture: if propulsion::margin_low(state.skin_temp_max as int) {
            propulsion::COOLING_MIXTURE
        } else {
            before.fuel_mixture
        },
        ..before
    }
}

/// A control cycle never opens the throttle further: the new throttle lies
/// between 0 and the old one.
pub proof fn lemma_cycle_never_opens_throttle(before: ControlOutput, state: VehicleState)
    ensures
        0 <= before.throttle ==> 0 <= processed_output(before, state).throttle <= before.throttle,
        before.throttle <= 0 ==> before.throttle <= processed_output(before, state).throttle <= 0,
{
}

} // verus!
