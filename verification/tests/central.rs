use neural_space::central::propulsion::{compute_thrust_profile, thermal_margin, COOLING_MIXTURE};
use neural_space::central::stability::{attitude_gains, compute_attitude_correction, PidGains};
use neural_space::central::{CentralProcessor, ControlOutput, VehicleState};

fn state(skin_temp_max: i64) -> VehicleState {
    VehicleState {
        position: [1, 2, 3],
        velocity: [4, 5, 6],
        attitude: [1_000_000, 0, 0, 0],
        angular_rate: [7, 8, 9],
        mass: 10,
        mach: 25_000_000,
        dynamic_pressure: 11,
        skin_temp_max,
        elapsed_ns: 12,
    }
}

#[test]
fn gains() {
    assert_eq!(attitude_gains(), PidGains { kp: 12_000_000, ki: 800_000, kd: 4_500_000 });
}

#[test]
fn attitude_correction_is_neutral() {
    let mut d = [5i64; 6];
    compute_attitude_correction(&[1, 2, 3, 4], &[5, 6, 7], &mut d);
    assert_eq!(d, [0; 6]);
}

#[test]
fn thermal_margin_values() {
    // 6,000 K of 12,000 K: margin 0.5
    assert_eq!(thermal_margin(6_000_000_000, 1_000_000_000), 500_000);
    assert_eq!(thermal_margin(0, 12_000_000_000), 0);
    assert_eq!(thermal_margin(0, 0), 1_000_000);
}

#[test]
fn thrust_profile_cuts_throttle_when_hot() {
    let mut tv = [0, 0, 1_000_000];
    let mut throttle = 1_000_000;
    let mut mixture = 2_560_000;
    // 10,200 K: margin exactly 0.15, not below
    compute_thrust_profile(0, 0, 10_200_000_000, 0, &mut tv, &mut throttle, &mut mixture);
    assert_eq!((throttle, mixture), (1_000_000, 2_560_000));
    compute_thrust_profile(0, 0, 10_200_000_001, 0, &mut tv, &mut throttle, &mut mixture);
    assert_eq!((throttle, mixture), (700_000, COOLING_MIXTURE));
    assert_eq!(tv, [0, 0, 1_000_000]);
}

#[test]
fn processor_cycle() {
    let mut cpu = CentralProcessor::new();
    let out: ControlOutput = *cpu.process(state(5_000_000_000));
    assert_eq!(out.throttle, 0);
    assert_eq!(out.fuel_mixture, 2_560_000);
    assert_eq!(out.thrust_vector, [0, 0, 1_000_000]);
    assert_eq!(out.surface_deflections, [0; 6]);
    let out: ControlOutput = *cpu.process(state(11_000_000_000));
    assert_eq!(out.fuel_mixture, COOLING_MIXTURE);
}
