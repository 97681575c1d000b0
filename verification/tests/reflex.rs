use neural_space::efferent::actuators::{
    FUEL_INJECTOR, MAIN_ENGINE_VALVE, OXIDIZER_VALVE, TURBOPUMP_THROTTLE,
};
use neural_space::efferent::{EfferentBus, EfferentCommand};
use neural_space::reflex::interrupt::REFLEX_DEADLINE_NS;
use neural_space::reflex::{
    actuate_response, check_reflexes, EjectionState, default_thresholds, execute_response, map_severity, FaultLog, FaultParam,
    Reading, ReflexAction, ReflexPriority, ReflexSensors, ReflexThresholds, SensorTriplet,
    Severity, VoteResult, CRITICAL_PRESSURE, CRITICAL_STRAIN, CRITICAL_THERMAL,
};

fn r(x: f64) -> Reading {
    if x.is_finite() {
        Reading::Finite((x * 1e6).round() as i64)
    } else {
        Reading::NonFinite
    }
}

fn fx(x: f64) -> i64 {
    (x * 1e6).round() as i64
}

fn triplet(a: f64, b: f64, c: f64) -> SensorTriplet<Reading> {
    SensorTriplet::new(r(a), r(b), r(c))
}

fn nominal() -> ReflexSensors {
    ReflexSensors {
        thermal: triplet(5000.0, 5020.0, 5010.0),
        strain: triplet(5_000_000.0, 5_001_000.0, 5_000_500.0),
        pressure: triplet(10_000_000.0, 10_005_000.0, 10_002_000.0),
        gyro: triplet(10.0, 10.1, 10.05),
    }
}

#[test]
fn test_severity_below_threshold() {
    let result = map_severity(fx(9000.0), fx(11000.0), &VoteResult::Consensus(fx(9000.0)));
    assert_eq!(result, Severity::Minor);
}

#[test]
fn test_severity_minor_exceed() {
    let result = map_severity(fx(11500.0), fx(11000.0), &VoteResult::Consensus(fx(11500.0)));
    assert_eq!(result, Severity::Minor);
}

#[test]
fn test_severity_major_exceed() {
    let result = map_severity(fx(13000.0), fx(11000.0), &VoteResult::Consensus(fx(13000.0)));
    assert_eq!(result, Severity::Major);
}

#[test]
fn test_severity_critical_exceed() {
    let result = map_severity(fx(18000.0), fx(11000.0), &VoteResult::Consensus(fx(18000.0)));
    assert_eq!(result, Severity::Critical);
}

#[test]
fn test_severity_escalate() {
    let result = map_severity(fx(9000.0), fx(11000.0), &VoteResult::Escalate);
    assert_eq!(result, Severity::Critical);
}

#[test]
fn test_reflex_all_nominal() {
    let sensors = nominal();
    let thresholds = default_thresholds();
    let mut log = FaultLog::new();

    let result = check_reflexes(&sensors, &thresholds, &mut log, &mut EfferentBus::new());

    assert!(result.is_none());
    assert_eq!(log.entry_count(), 0);
}

#[test]
fn major_thermal_throttles_on_the_bus() {
    let sensors = ReflexSensors { thermal: triplet(12_500.0, 12_510.0, 12_505.0), ..nominal() };
    let mut log = FaultLog::new();
    let mut bus = EfferentBus::new();
    check_reflexes(&sensors, &default_thresholds(), &mut log, &mut bus).unwrap();
    assert_eq!(
        bus.dispatch(),
        vec![
            cmd(TURBOPUMP_THROTTLE, 500_000, REFLEX_DEADLINE_NS),
            cmd(MAIN_ENGINE_VALVE, 1_000_000, REFLEX_DEADLINE_NS)
        ]
    );
    let mut bus = EfferentBus::new();
    assert!(check_reflexes(&nominal(), &default_thresholds(), &mut log, &mut bus).is_none());
    assert!(bus.dispatch().is_empty());
}

#[test]
fn test_reflex_major_thermal() {
    let sensors = ReflexSensors { thermal: triplet(12_500.0, 12_510.0, 12_505.0), ..nominal() };
    let thresholds = default_thresholds();
    let mut log = FaultLog::new();

    let result = check_reflexes(&sensors, &thresholds, &mut log, &mut EfferentBus::new());

    assert!(result.is_some());
    let trigger = result.unwrap();
    assert_eq!(trigger.param, FaultParam::Thermal);
    assert_eq!(trigger.action, ReflexAction::ThrottleEmergency);
    assert_eq!(log.entry_count(), 1);
}

#[test]
fn test_reflex_escalate_no_majority() {
    let sensors = ReflexSensors { thermal: triplet(10_000.0, 15_000.0, 20_000.0), ..nominal() };
    let thresholds = default_thresholds();
    let mut log = FaultLog::new();

    let result = check_reflexes(&sensors, &thresholds, &mut log, &mut EfferentBus::new());

    assert!(result.is_some());
    let trigger = result.unwrap();
    assert_eq!(trigger.param, FaultParam::Thermal);
    assert_eq!(trigger.action, ReflexAction::Eject);
}

#[test]
fn test_reflex_critical_absolute() {
    let sensors = ReflexSensors { thermal: triplet(15_000.0, 15_010.0, 15_005.0), ..nominal() };
    let thresholds = default_thresholds();
    let mut log = FaultLog::new();

    let result = check_reflexes(&sensors, &thresholds, &mut log, &mut EfferentBus::new());

    assert!(result.is_some());
    let trigger = result.unwrap();
    assert_eq!(trigger.action, ReflexAction::Eject);
    assert_eq!(trigger.threshold, CRITICAL_THERMAL);
}

#[test]
fn default_thresholds_values() {
    let t = default_thresholds();
    assert_eq!(t.thermal_max, fx(11_000.0));
    assert_eq!(t.strain_max, fx(13_000_000.0));
    assert_eq!(t.pressure_max, fx(25_000_000.0));
    assert_eq!(t.gyro_rate_max, fx(45.0));
}

#[test]
fn severity_boundaries_are_exclusive() {
    let v = VoteResult::Consensus(0);
    // exactly 150% is major, just above is critical
    assert_eq!(map_severity(fx(16_500.0), fx(11_000.0), &v), Severity::Major);
    assert_eq!(map_severity(fx(16_500.0) + 1, fx(11_000.0), &v), Severity::Critical);
    // exactly 110% is minor, just above is major
    assert_eq!(map_severity(fx(12_100.0), fx(11_000.0), &v), Severity::Minor);
    assert_eq!(map_severity(fx(12_100.0) + 1, fx(11_000.0), &v), Severity::Major);
}

#[test]
fn severity_zero_and_negative_thresholds() {
    let v = VoteResult::Consensus(0);
    assert_eq!(map_severity(1, 0, &v), Severity::Critical);
    assert_eq!(map_severity(0, 0, &v), Severity::Minor);
    assert_eq!(map_severity(-1, 0, &v), Severity::Minor);
    // value / threshold = 2.0 with a negative threshold
    assert_eq!(map_severity(-20, -10, &v), Severity::Critical);
    // value / threshold = 0.5
    assert_eq!(map_severity(-5, -10, &v), Severity::Minor);
}

#[test]
fn execute_response_logs_and_maps_actions() {
    let mut log = FaultLog::new();
    let mut bus = EfferentBus::new();
    let a = execute_response(Severity::Minor, FaultParam::Gyro, 3, 4, &mut log, &mut bus);
    assert_eq!(a, (ReflexAction::NoAction, None));
    assert!(bus.dispatch().is_empty());
    let b = execute_response(Severity::Major, FaultParam::Strain, 5, 6, &mut log, &mut bus);
    assert_eq!(b, (ReflexAction::ThrottleEmergency, None));
    assert_eq!(
        bus.dispatch(),
        vec![
            cmd(TURBOPUMP_THROTTLE, 500_000, REFLEX_DEADLINE_NS),
            cmd(MAIN_ENGINE_VALVE, 1_000_000, REFLEX_DEADLINE_NS)
        ]
    );
    let c = execute_response(Severity::Critical, FaultParam::Pressure, 7, 8, &mut log, &mut bus);
    assert_eq!(c, (ReflexAction::Eject, Some(EjectionState::Complete)));
    assert_eq!(bus.dispatch(), shutdown(REFLEX_DEADLINE_NS));
    assert_eq!(log.entry_count(), 3);
    let e = log.read_all()[1];
    assert_eq!(e.param, FaultParam::Strain);
    assert_eq!(e.severity, Severity::Major);
    assert_eq!(e.action, ReflexAction::ThrottleEmergency);
    assert_eq!(e.timestamp, 0);
    assert_eq!(e.value, 5);
    assert_eq!(e.threshold, 6);
}

#[test]
fn escalations_by_parameter() {
    let th = default_thresholds();
    let mut log = FaultLog::new();
    let s = ReflexSensors { strain: triplet(1.0, 1e6, 2e6), ..nominal() };
    let t = check_reflexes(&s, &th, &mut log, &mut EfferentBus::new()).unwrap();
    assert_eq!(t.priority, ReflexPriority::StructuralFailure);
    assert_eq!(t.action, ReflexAction::Eject);
    assert_eq!(t.value, r(1.0));
    assert_eq!(t.threshold, th.strain_max);

    let s = ReflexSensors { pressure: triplet(f64::NAN, 1.0, 1.0), ..nominal() };
    let t = check_reflexes(&s, &th, &mut log, &mut EfferentBus::new()).unwrap();
    assert_eq!(t.priority, ReflexPriority::HardStart);
    assert_eq!(t.action, ReflexAction::Eject);
    assert_eq!(t.value, Reading::NonFinite);
    assert_eq!(t.threshold, th.pressure_max);

    let s = ReflexSensors { gyro: triplet(1.0, 3.0, 5.0), ..nominal() };
    let t = check_reflexes(&s, &th, &mut log, &mut EfferentBus::new()).unwrap();
    assert_eq!(t.priority, ReflexPriority::GyroSaturation);
    assert_eq!(t.action, ReflexAction::Eject);
    assert_eq!(t.param, FaultParam::Gyro);
    assert_eq!(t.value, r(1.0));
    assert_eq!(t.threshold, th.gyro_rate_max);
    // escalations are not logged
    assert_eq!(log.entry_count(), 0);
}

#[test]
fn critical_absolute_limits() {
    let th = default_thresholds();
    let mut log = FaultLog::new();
    let s = ReflexSensors { strain: triplet(20_000_000.0, 20_000_000.0, 0.0), ..nominal() };
    let t = check_reflexes(&s, &th, &mut log, &mut EfferentBus::new()).unwrap();
    assert_eq!(t.action, ReflexAction::Eject);
    assert_eq!(t.threshold, CRITICAL_STRAIN);
    assert_eq!(t.value, r(20_000_000.0));

    let s = ReflexSensors { pressure: triplet(36_000_000.0, 36_000_000.0, 0.0), ..nominal() };
    let t = check_reflexes(&s, &th, &mut log, &mut EfferentBus::new()).unwrap();
    assert_eq!(t.action, ReflexAction::Eject);
    assert_eq!(t.priority, ReflexPriority::HardStart);
    assert_eq!(t.threshold, CRITICAL_PRESSURE);
    assert_eq!(t.value, r(36_000_000.0));
    assert_eq!(log.entry_count(), 0);
}

#[test]
fn worst_severity_ties_go_to_the_later_parameter() {
    let th = default_thresholds();
    let mut log = FaultLog::new();
    // thermal at ~114% (major) and gyro at ~120% (major): gyro wins the tie
    let s = ReflexSensors {
        thermal: triplet(12_500.0, 12_510.0, 12_505.0),
        gyro: triplet(54.0, 54.0, 54.0),
        ..nominal()
    };
    let t = check_reflexes(&s, &th, &mut log, &mut EfferentBus::new()).unwrap();
    assert_eq!(t.param, FaultParam::Gyro);
    assert_eq!(t.priority, ReflexPriority::GyroSaturation);
    assert_eq!(t.action, ReflexAction::ThrottleEmergency);
    assert_eq!(log.read_all()[0].param, FaultParam::Gyro);
}

#[test]
fn critical_severity_ejects_and_logs() {
    let th = ReflexThresholds { thermal_max: fx(5000.0), ..default_thresholds() };
    let mut log = FaultLog::new();
    let s = ReflexSensors { thermal: triplet(9000.0, 9000.0, 9000.0), ..nominal() };
    let t = check_reflexes(&s, &th, &mut log, &mut EfferentBus::new()).unwrap();
    assert_eq!(t.action, ReflexAction::Eject);
    assert_eq!(t.priority, ReflexPriority::ThermalBreach);
    assert_eq!(t.value, r(9000.0));
    assert_eq!(t.threshold, fx(5000.0));
    assert_eq!(log.entry_count(), 1);
    assert_eq!(log.read_all()[0].severity, Severity::Critical);
    assert_eq!(log.read_all()[0].action, ReflexAction::Eject);
}

#[test]
fn critical_severity_cuts_fuel_on_the_bus() {
    let th = ReflexThresholds { thermal_max: fx(5000.0), ..default_thresholds() };
    let mut log = FaultLog::new();
    let mut bus = EfferentBus::new();
    let s = ReflexSensors { thermal: triplet(9000.0, 9000.0, 9000.0), ..nominal() };
    check_reflexes(&s, &th, &mut log, &mut bus).unwrap();
    assert_eq!(bus.dispatch(), shutdown(REFLEX_DEADLINE_NS));
}

fn cmd(target: u16, value: i64, deadline_ns: u64) -> EfferentCommand {
    EfferentCommand { target, value, deadline_ns }
}

fn shutdown(deadline_ns: u64) -> Vec<EfferentCommand> {
    vec![
        cmd(MAIN_ENGINE_VALVE, 0, deadline_ns),
        cmd(FUEL_INJECTOR, 0, deadline_ns),
        cmd(OXIDIZER_VALVE, 0, deadline_ns),
        cmd(TURBOPUMP_THROTTLE, 0, deadline_ns),
    ]
}

#[test]
fn actuate_no_action_queues_nothing() {
    let mut bus = EfferentBus::new();
    assert_eq!(actuate_response(ReflexAction::NoAction, &mut bus, 3), None);
    assert!(bus.dispatch().is_empty());
}

#[test]
fn actuate_throttle_emergency_halves_throttle() {
    let mut bus = EfferentBus::new();
    assert_eq!(actuate_response(ReflexAction::ThrottleEmergency, &mut bus, 3), None);
    assert_eq!(
        bus.dispatch(),
        vec![cmd(TURBOPUMP_THROTTLE, 500_000, 3), cmd(MAIN_ENGINE_VALVE, 1_000_000, 3)]
    );
}

#[test]
fn actuate_engine_shutdown_cuts_fuel() {
    let mut bus = EfferentBus::new();
    assert_eq!(actuate_response(ReflexAction::EngineShutdown, &mut bus, 4), None);
    assert_eq!(bus.dispatch(), shutdown(4));
}

#[test]
fn actuate_eject_cuts_fuel_and_fires() {
    let mut bus = EfferentBus::new();
    assert_eq!(
        actuate_response(ReflexAction::Eject, &mut bus, 5),
        Some(EjectionState::Complete)
    );
    assert_eq!(bus.dispatch(), shutdown(5));
}

#[test]
fn escalated_pressure_vote_ejects_and_cuts_fuel() {
    let th = default_thresholds();
    let mut log = FaultLog::new();
    let mut bus = EfferentBus::new();
    let s = ReflexSensors { pressure: triplet(1.0, 3e6, 9e6), ..nominal() };
    let t = check_reflexes(&s, &th, &mut log, &mut bus).unwrap();
    assert_eq!(t.action, ReflexAction::Eject);
    // an escalation is reported, not executed: the caller carries it out
    assert!(bus.dispatch().is_empty());
    assert_eq!(actuate_response(t.action, &mut bus, 6), Some(EjectionState::Complete));
    assert_eq!(bus.dispatch(), shutdown(6));
}
