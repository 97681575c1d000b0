//! Spinal reflex loop: the "oh no" protocol.
//!
//! When structural failure is imminent or the turbopump hard-starts, this
//! loop bypasses the brain: vote, check thresholds, map severity, respond,
//! log. It cuts the fuel and triggers the ejection sequence.
pub mod ejection;
pub mod interrupt;
pub mod log;
pub mod voting;

pub use ejection::{arm_ejection, fire_ejection, EjectionState};
pub use log::{read_cycle_counter, FaultEntry, FaultLog};
pub use voting::{tolerances, vote_triplet, Reading, SensorTriplet, VoteResult};

use vstd::prelude::*;

use crate::efferent::actuators::{
    emergency_shutdown, set_throttle, FUEL_INJECTOR, MAIN_ENGINE_VALVE, OXIDIZER_VALVE,
    TURBOPUMP_THROTTLE,
};
use crate::efferent::{command, enqueued, EfferentBus, EfferentCommand};
use crate::units::SCALE;
use interrupt::REFLEX_DEADLINE_NS;
use log::FaultLogState;
use voting::vote;

verus! {

/// Reflex priority: the earlier variant, the higher the priority.
#[derive(Clone, Copy, PartialEq, Eq, PartialOrd, Ord, Debug, Structural)]
pub enum ReflexPriority {
    /// Immediate ejection.
    StructuralFailure,
    /// Engine destruction imminent.
    HardStart,
    /// Skin temperature exceeding material limits.
    ThermalBreach,
    /// Loss of attitude reference.
    GyroSaturation,
    /// Control authority degrading.
    HydraulicLoss,
}

/// Which sensor triggered a fault.
#[derive(Clone, Copy, PartialEq, Eq, Debug, Structural)]
pub enum FaultParam {
    Thermal,
    Strain,
    Pressure,
    Gyro,
    /// Several parameters at once.
    All,
}

/// Severity tier of a reflex response, from least to most severe.
#[derive(Clone, Copy, PartialEq, Eq, PartialOrd, Ord, Debug, Structural)]
pub enum Severity {
    /// Log only, continue operation.
    Minor,
    /// Throttle emergency.
    Major,
    /// Eject (irreversible).
    Critical,
}

/// Autonomic response.
#[derive(Clone, Copy, PartialEq, Eq, Debug, Structural)]
pub enum ReflexAction {
    /// Continue (log only).
    NoAction,
    /// Reduce throttle to 50%.
    ThrottleEmergency,
    /// Cut the engine immediately.
    EngineShutdown,
    /// Fire the ejection sequence.
    Eject,
}

/// What fired the reflex.
#[derive(Clone, Copy, PartialEq, Eq, Debug, Structural)]
pub struct ReflexTrigger {
    pub priority: ReflexPriority,
    pub action: ReflexAction,
    pub param: FaultParam,
    /// The reading that fired the reflex.
    pub value: Reading,
    /// The limit that it was held against (fixed point).
    pub threshold: i64,
}

/// Upper limits, one per critical parameter, in fixed point.
#[derive(Clone, Copy, Debug)]
pub struct ReflexThresholds {
    /// Skin temperature limit (micro-kelvin).
    pub thermal_max: i64,
    /// Structural strain limit (micro-pascal).
    pub strain_max: i64,
    /// Chamber pressure limit (micro-pascal).
    pub pressure_max: i64,
    /// Attitude rate limit (micro-radian per second).
    pub gyro_rate_max: i64,
}

/// Default thresholds for the Mach 15+ cruise regime: 11,000 K, 13 MPa,
/// 25 MPa and 45 rad/s.
pub open spec fn spec_default_thresholds() -> ReflexThresholds {
    ReflexThresholds {
        thermal_max: 11_000_000_000,
        strain_max: 13_000_000_000_000,
        pressure_max: 25_000_000_000_000,
        gyro_rate_max: 45_000_000,
    }
}

/// Default thresholds for the Mach 15+ cruise regime: 11,000 K, 13 MPa,
/// 25 MPa and 45 rad/s.
pub fn default_thresholds() -> (thresholds: ReflexThresholds)
    ensures
        thresholds == spec_default_thresholds(),
{
    ReflexThresholds {
        thermal_max: 11_000_000_000,
        strain_max: 13_000_000_000_000,
        pressure_max: 25_000_000_000_000,
        gyro_rate_max: 45_000_000,
    }
}

/// Absolute skin temperature at or above which the vehicle ejects: 14,000 K.
pub const CRITICAL_THERMAL: i64 = 14_000_000_000;
/// Absolute strain at or above which the vehicle ejects: 20 MPa.
pub const CRITICAL_STRAIN: i64 = 20_000_000_000_000;
/// Absolute chamber pressure at or above which the vehicle ejects (hard
/// start imminent): 35 MPa.
pub const CRITICAL_PRESSURE: i64 = 35_000_000_000_000;

/// All critical sensor inputs, three sensors per parameter.
#[derive(Clone, Copy, Debug)]
pub struct ReflexSensors {
    /// Skin temperature.
    pub thermal: SensorTriplet<Reading>,
    /// Structural strain.
    pub strain: SensorTriplet<Reading>,
    /// Chamber pressure.
    pub pressure: SensorTriplet<Reading>,
    /// Angular rate.
    pub gyro: SensorTriplet<Reading>,
}

/// Rank of a severity: 0 for `Minor`, 1 for `Major`, 2 for `Critical`.
pub open spec fn severity_rank(severity: Severity) -> nat {
    match severity {
        Severity::Minor => 0,
        Severity::Major => 1,
        Severity::Critical => 2,
    }
}

/// `value / threshold > num / den` over the reals (`den > 0`); a zero
/// threshold makes the ratio +inf for a positive value, -inf for a negative
/// one and NaN (never greater) for zero.
pub open spec fn ratio_exceeds(value: int, threshold: int, num: int, den: int) -> bool {
    if threshold > 0 {
        value * den > num * threshold
    } else if threshold < 0 {
        value * den < num * threshold
    } else {
        value > 0
    }
}

/// Severity tier of a reading against its threshold: escalated votes are
/// critical; otherwise above 150% of the threshold is critical, above 110%
/// major, anything else minor.
pub open spec fn severity_of(value: i64, threshold: i64, escalated: bool) -> Severity {
    if escalated {
        Severity::Critical
    } else if ratio_exceeds(value as int, threshold as int, 3, 2) {
        Severity::Critical
    } else if ratio_exceeds(value as int, threshold as int, 11, 10) {
        Severity::Major
    } else {
        Severity::Minor
    }
}

/// The action that answers a severity tier.
pub open spec fn action_for(severity: Severity) -> ReflexAction {
    match severity {
        Severity::Minor => ReflexAction::NoAction,
        Severity::Major => ReflexAction::ThrottleEmergency,
        Severity::Critical => ReflexAction::Eject,
    }
}

/// The priority of a fault on a parameter.
pub open spec fn priority_for(param: FaultParam) -> ReflexPriority {
    match param {
        FaultParam::Thermal => ReflexPriority::ThermalBreach,
        FaultParam::Strain => ReflexPriority::StructuralFailure,
        FaultParam::Pressure => ReflexPriority::HardStart,
        FaultParam::Gyro => ReflexPriority::GyroSaturation,
        FaultParam::All => ReflexPriority::HydraulicLoss,
    }
}

/// The entry that a response logs (the cycle counter reads 0).
pub open spec fn fault_entry(severity: Severity, param: FaultParam, value: i64, threshold: i64) -> FaultEntry {
    FaultEntry { param, severity, action: action_for(severity), timestamp: 0, value, threshold }
}

/// Map a reading's exceedance to a severity tier.
///
/// An `Escalate` vote is always critical; otherwise the ratio
/// `value / threshold` decides: above 1.5 critical, above 1.1 major,
/// otherwise minor.
pub fn map_severity(value: i64, threshold: i64, vote_result: &VoteResult<i64>) -> (severity: Severity)
    ensures
        severity == severity_of(value, threshold, vote_result is Escalate),
{
    if let VoteResult::Escalate = vote_result {
        return Severity::Critical;
    }
    let v = value as i128;
    let t = threshold as i128;
    let critical = if t > 0 {
        v * 2 > t * 3
    } else if t < 0 {
        v * 2 < t * 3
    } else {
        v > 0
    };
    let major = if t > 0 {
        v * 10 > t * 11
    } else if t < 0 {
        v * 10 < t * 11
    } else {
        v > 0
    };
    if critical {
        Severity::Critical
    } else if major {
        Severity::Major
    } else {
        Severity::Minor
    }
}

/// Throttle commanded in an emergency: 50% (millionths).
pub const EMERGENCY_THROTTLE: i64 = 500_000;

/// The pending commands after an emergency throttle: the turbopump to 50%,
/// the main engine valve kept open.
pub open spec fn throttle_commands(pending: Seq<EfferentCommand>, deadline_ns: u64) -> Seq<EfferentCommand> {
    enqueued(
        enqueued(pending, command(TURBOPUMP_THROTTLE, EMERGENCY_THROTTLE, deadline_ns)),
        command(MAIN_ENGINE_VALVE, SCALE, deadline_ns),
    )
}

/// The pending commands after the fuel is cut: main engine valve, fuel
/// injector, oxidizer valve and turbopump throttle closed, in that order.
pub open spec fn shutdown_commands(pending: Seq<EfferentCommand>, deadline_ns: u64) -> Seq<EfferentCommand> {
    enqueued(
        enqueued(
            enqueued(
                enqueued(pending, command(MAIN_ENGINE_VALVE, 0, deadline_ns)),
                command(FUEL_INJECTOR, 0, deadline_ns),
            ),
            command(OXIDIZER_VALVE, 0, deadline_ns),
        ),
        command(TURBOPUMP_THROTTLE, 0, deadline_ns),
    )
}

/// The pending commands after `action` is carried out on a bus holding
/// `pending`: nothing for `NoAction`, the emergency throttle for
/// `ThrottleEmergency`, the fuel cut for `EngineShutdown` and `Eject`.
pub open spec fn actuation(action: ReflexAction, pending: Seq<EfferentCommand>, deadline_ns: u64) -> Seq<
    EfferentCommand,
> {
    match action {
        ReflexAction::NoAction => pending,
        ReflexAction::ThrottleEmergency => throttle_commands(pending, deadline_ns),
        ReflexAction::EngineShutdown => shutdown_commands(pending, deadline_ns),
        ReflexAction::Eject => shutdown_commands(pending, deadline_ns),
    }
}

/// The ejection state that carrying out `action` ends in: the final state
/// `Complete` for `Eject`, none for the other actions.
pub open spec fn ejection_for(action: ReflexAction) -> Option<EjectionState> {
    if action == ReflexAction::Eject {
        Some(EjectionState::Complete)
    } else {
        None
    }
}

/// Carry out a reflex action on the actuators:
/// - `NoAction` queues nothing;
/// - `ThrottleEmergency` throttles to 50% (the main engine valve stays open);
/// - `EngineShutdown` cuts the fuel (all valves and the throttle closed);
/// - `Eject` cuts the fuel and fires the ejection sequence, returning its
///   final state.
/// Commands that do not fit on a full bus are dropped, as by `enqueue`.
pub fn actuate_response(action: ReflexAction, bus: &mut EfferentBus, deadline_ns: u64) -> (ejection:
    Option<EjectionState>)
    ensures
        final(bus)@ == actuation(action, old(bus)@, deadline_ns),
        ejection == ejection_for(action),
{
    match action {
        ReflexAction::NoAction => None,
        ReflexAction::ThrottleEmergency => {
            set_throttle(bus, EMERGENCY_THROTTLE, deadline_ns);
            None
        },
        ReflexAction::EngineShutdown => {
            emergency_shutdown(bus, deadline_ns);
            None
        },
        ReflexAction::Eject => {
            emergency_shutdown(bus, deadline_ns);
            Some(fire_ejection())
        },
    }
}

/// Execute the reflex response for a severity tier, within the reflex
/// deadline: the fault is logged, then minor changes no actuator, major
/// throttles to 50% and critical cuts the fuel and fires the ejection
/// sequence (irreversible). Returns the action taken and the ejection state
/// it ended in, if any.
pub fn execute_response(
    severity: Severity,
    param: FaultParam,
    value: i64,
    threshold: i64,
    log: &mut FaultLog,
    bus: &mut EfferentBus,
) -> (response: (ReflexAction, Option<EjectionState>))
    ensures
        response.0 == action_for(severity),
        response.1 == ejection_for(action_for(severity)),
        final(log)@ == old(log)@.logged(fault_entry(severity, param, value, threshold)),
        final(bus)@ == actuation(action_for(severity), old(bus)@, REFLEX_DEADLINE_NS),
{
    let action = match severity {
        Severity::Minor => ReflexAction::NoAction,
        Severity::Major => ReflexAction::ThrottleEmergency,
        Severity::Critical => ReflexAction::Eject,
    };
    log.log(
        FaultEntry {
            param,
            severity,
            action,
            timestamp: read_cycle_counter(),
            value,
            threshold,
        },
    );
    let ejection = actuate_response(action, bus, REFLEX_DEADLINE_NS);
    (action, ejection)
}

/// A candidate for the worst fault: severity, parameter, value, threshold.
pub type Candidate = (Severity, FaultParam, i64, i64);

/// The worst of four candidates: the last one, in order, of highest severity.
pub open spec fn worst_of(c0: Candidate, c1: Candidate, c2: Candidate, c3: Candidate) -> Candidate {
    let r0 = severity_rank(c0.0);
    let r1 = severity_rank(c1.0);
    let r2 = severity_rank(c2.0);
    let r3 = severity_rank(c3.0);
    let m01 = if r0 >= r1 { r0 } else { r1 };
    let m012 = if m01 >= r2 { m01 } else { r2 };
    let m = if m012 >= r3 { m012 } else { r3 };
    if r3 == m {
        c3
    } else if r2 == m {
        c2
    } else if r1 == m {
        c1
    } else {
        c0
    }
}

/// The four votes of a set of sensors all reached a consensus.
pub open spec fn all_consensus(s: ReflexSensors) -> bool {
    &&& vote(s.thermal, tolerances::THERMAL) is Consensus
    &&& vote(s.strain, tolerances::STRAIN) is Consensus
    &&& vote(s.pressure, tolerances::PRESSURE) is Consensus
    &&& vote(s.gyro, tolerances::GYRO) is Consensus
}

/// The consensus of the thermal, strain, pressure and gyro votes.
pub open spec fn consensus_values(s: ReflexSensors) -> (i64, i64, i64, i64) {
    (
        vote(s.thermal, tolerances::THERMAL)->Consensus_0,
        vote(s.strain, tolerances::STRAIN)->Consensus_0,
        vote(s.pressure, tolerances::PRESSURE)->Consensus_0,
        vote(s.gyro, tolerances::GYRO)->Consensus_0,
    )
}

/// Every vote agreed and no consensus reached its absolute critical limit:
/// the severity tiers decide.
pub open spec fn severity_decides(s: ReflexSensors) -> bool {
    let (t, st, p, g) = consensus_values(s);
    &&& all_consensus(s)
    &&& t < CRITICAL_THERMAL
    &&& st < CRITICAL_STRAIN
    &&& p < CRITICAL_PRESSURE
}

/// The worst of the four consensus values against their thresholds.
pub open spec fn worst_fault(s: ReflexSensors, th: ReflexThresholds) -> Candidate {
    let (t, st, p, g) = consensus_values(s);
    worst_of(
        (severity_of(t, th.thermal_max, false), FaultParam::Thermal, t, th.thermal_max),
        (severity_of(st, th.strain_max, false), FaultParam::Strain, st, th.strain_max),
        (severity_of(p, th.pressure_max, false), FaultParam::Pressure, p, th.pressure_max),
        (severity_of(g, th.gyro_rate_max, false), FaultParam::Gyro, g, th.gyro_rate_max),
    )
}

/// The reflex that a set of sensors fires, if any:
/// 1. a vote without majority escalates to critical and ejects at once,
///    carrying the primary reading and the configured threshold;
/// 2. a consensus at or above its absolute critical limit ejects at once,
///    against that limit, regardless of the severity tiers;
/// 3. otherwise the worst severity fires when it is above minor.
pub open spec fn reflex_outcome(s: ReflexSensors, th: ReflexThresholds) -> Option<ReflexTrigger> {
    let (t, st, p, g) = consensus_values(s);
    if vote(s.thermal, tolerances::THERMAL) is Escalate {
        Some(ReflexTrigger {
            priority: ReflexPriority::ThermalBreach,
            action: ReflexAction::Eject,
            param: FaultParam::Thermal,
            value: s.thermal.a,
            threshold: th.thermal_max,
        })
    } else if vote(s.strain, tolerances::STRAIN) is Escalate {
        Some(ReflexTrigger {
            priority: ReflexPriority::StructuralFailure,
            action: ReflexAction::Eject,
            param: FaultParam::Strain,
            value: s.strain.a,
            threshold: th.strain_max,
        })
    } else if vote(s.pressure, tolerances::PRESSURE) is Escalate {
        Some(ReflexTrigger {
            priority: ReflexPriority::HardStart,
            action: ReflexAction::Eject,
            param: FaultParam::Pressure,
            value: s.pressure.a,
            threshold: th.pressure_max,
        })
    } else if vote(s.gyro, tolerances::GYRO) is Escalate {
        Some(ReflexTrigger {
            priority: ReflexPriority::GyroSaturation,
            action: ReflexAction::Eject,
            param: FaultParam::Gyro,
            value: s.gyro.a,
            threshold: th.gyro_rate_max,
        })
    } else if t >= CRITICAL_THERMAL {
        Some(ReflexTrigger {
            priority: ReflexPriority::ThermalBreach,
            action: ReflexAction::Eject,
            param: FaultParam::Thermal,
            value: Reading::Finite(t),
            threshold: CRITICAL_THERMAL,
        })
    } else if st >= CRITICAL_STRAIN {
        Some(ReflexTrigger {
            priority: ReflexPriority::StructuralFailure,
            action: ReflexAction::Eject,
            param: FaultParam::Strain,
            value: Reading::Finite(st),
            threshold: CRITICAL_STRAIN,
        })
    } else if p >= CRITICAL_PRESSURE {
        Some(ReflexTrigger {
            priority: ReflexPriority::HardStart,
            action: ReflexAction::Eject,
            param: FaultParam::Pressure,
            value: Reading::Finite(p),
            threshold: CRITICAL_PRESSURE,
        })
    } else {
        let w = worst_fault(s, th);
        if w.0 != Severity::Minor {
            Some(ReflexTrigger {
                priority: priority_for(w.1),
                action: action_for(w.0),
                param: w.1,
                value: Reading::Finite(w.2),
                threshold: w.3,
            })
        } else {
            None
        }
    }
}

/// The entry that a reflex check logs, if any: only a reflex fired by the
/// severity tiers is logged.
pub open spec fn reflex_log_entry(s: ReflexSensors, th: ReflexThresholds) -> Option<FaultEntry> {
    let w = worst_fault(s, th);
    if severity_decides(s) && w.0 != Severity::Minor {
        Some(fault_entry(w.0, w.1, w.2, w.3))
    } else {
        None
    }
}

fn rank(severity: Severity) -> (r: u8)
    ensures
        r == severity_rank(severity),
{
    match severity {
        Severity::Minor => 0,
        Severity::Major => 1,
        Severity::Critical => 2,
    }
}

fn priority_of(param: FaultParam) -> (p: ReflexPriority)
    ensures
        p == priority_for(param),
{
    match param {
        FaultParam::Thermal => ReflexPriority::ThermalBreach,
        FaultParam::Strain => ReflexPriority::StructuralFailure,
        FaultParam::Pressure => ReflexPriority::HardStart,
        FaultParam::Gyro => ReflexPriority::GyroSaturation,
        FaultParam::All => ReflexPriority::HydraulicLoss,
    }
}

/// Main reflex check: vote, check absolute limits, map severities, respond
/// and log.
///
/// Returns the reflex that fired (`reflex_outcome`), or `None` when all
/// systems are nominal. Only a reflex fired by the severity tiers is
/// executed (`execute_response`: logged as one entry and carried out on the
/// actuator bus, a critical tier ejecting); otherwise the log and the bus
/// are unchanged.
pub fn check_reflexes(
    sensors: &ReflexSensors,
    thresholds: &ReflexThresholds,
    log: &mut FaultLog,
    bus: &mut EfferentBus,
) -> (trigger: Option<ReflexTrigger>)
    ensures
        trigger == reflex_outcome(*sensors, *thresholds),
        final(log)@ == match reflex_log_entry(*sensors, *thresholds) {
            Some(entry) => old(log)@.logged(entry),
            None => old(log)@,
        },
        final(bus)@ == match reflex_log_entry(*sensors, *thresholds) {
            Some(entry) => actuation(entry.action, old(bus)@, REFLEX_DEADLINE_NS),
            None => old(bus)@,
        },
{
    let thermal_vote = vote_triplet(&sensors.thermal, tolerances::THERMAL);
    let strain_vote = vote_triplet(&sensors.strain, tolerances::STRAIN);
    let pressure_vote = vote_triplet(&sensors.pressure, tolerances::PRESSURE);
    let gyro_vote = vote_triplet(&sensors.gyro, tolerances::GYRO);

    let thermal = match thermal_vote {
        VoteResult::Consensus(v) => v,
        VoteResult::Escalate => {
            return Some(
                ReflexTrigger {
                    priority: ReflexPriority::ThermalBreach,
                    action: ReflexAction::Eject,
                    param: FaultParam::Thermal,
                    value: sensors.thermal.a,
                    threshold: thresholds.thermal_max,
                },
            );
        },
    };
    let strain = match strain_vote {
        VoteResult::Consensus(v) => v,
        VoteResult::Escalate => {
            return Some(
                ReflexTrigger {
                    priority: ReflexPriority::StructuralFailure,
                    action: ReflexAction::Eject,
                    param: FaultParam::Strain,
                    value: sensors.strain.a,
                    threshold: thresholds.strain_max,
                },
            );
        },
    };
    let pressure = match pressure_vote {
        VoteResult::Consensus(v) => v,
        VoteResult::Escalate => {
            return Some(
                ReflexTrigger {
                    priority: ReflexPriority::HardStart,
                    action: ReflexAction::Eject,
                    param: FaultParam::Pressure,
                    value: sensors.pressure.a,
                    threshold: thresholds.pressure_max,
                },
            );
        },
    };
    let gyro = match gyro_vote {
        VoteResult::Consensus(v) => v,
        VoteResult::Escalate => {
            return Some(
                ReflexTrigger {
                    priority: ReflexPriority::GyroSaturation,
                    action: ReflexAction::Eject,
                    param: FaultParam::Gyro,
                    value: sensors.gyro.a,
                    threshold: thresholds.gyro_rate_max,
                },
            );
        },
    };

    let thermal_sev = map_severity(thermal, thresholds.thermal_max, &thermal_vote);
    let strain_sev = map_severity(strain, thresholds.strain_max, &strain_vote);
    let pressure_sev = map_severity(pressure, thresholds.pressure_max, &pressure_vote);
    let gyro_sev = map_severity(gyro, thresholds.gyro_rate_max, &gyro_vote);

    if thermal >= CRITICAL_THERMAL {
        return Some(
            ReflexTrigger {
                priority: ReflexPriority::ThermalBreach,
                action: ReflexAction::Eject,
                param: FaultParam::Thermal,
                value: Reading::Finite(thermal),
                threshold: CRITICAL_THERMAL,
            },
        );
    }
    if strain >= CRITICAL_STRAIN {
        return Some(
            ReflexTrigger {
                priority: ReflexPriority::StructuralFailure,
                action: ReflexAction::Eject,
                param: FaultParam::Strain,
                value: Reading::Finite(strain),
                threshold: CRITICAL_STRAIN,
            },
        );
    }
    if pressure >= CRITICAL_PRESSURE {
        return Some(
            ReflexTrigger {
                priority: ReflexPriority::HardStart,
                action: ReflexAction::Eject,
                param: FaultParam::Pressure,
                value: Reading::Finite(pressure),
                threshold: CRITICAL_PRESSURE,
            },
        );
    }

    // The worst severity: the last of the highest tier, in the order
    // thermal, strain, pressure, gyro.
    let mut worst: Candidate = (thermal_sev, FaultParam::Thermal, thermal, thresholds.thermal_max);
    if rank(strain_sev) >= rank(worst.0) {
        worst = (strain_sev, FaultParam::Strain, strain, thresholds.strain_max);
    }
    if rank(pressure_sev) >= rank(worst.0) {
        worst = (pressure_sev, FaultParam::Pressure, pressure, thresholds.pressure_max);
    }
    if rank(gyro_sev) >= rank(worst.0) {
        worst = (gyro_sev, FaultParam::Gyro, gyro, thresholds.gyro_rate_max);
    }
    assert(worst == worst_fault(*sensors, *thresholds));

    if rank(worst.0) > 0 {
        let (action, _ejection) = execute_response(worst.0, worst.1, worst.2, worst.3, log, bus);
        return Some(
            ReflexTrigger {
                priority: priority_of(worst.1),
                action,
                param: worst.1,
                value: Reading::Finite(worst.2),
                threshold: worst.3,
            },
        );
    }
    None
}

/// Severity is monotone in the reading: against a positive threshold, a
/// higher reading never maps to a lower tier.
pub proof fn lemma_severity_monotone(low: i64, high: i64, threshold: i64)
    requires
        threshold > 0,
        low <= high,
    ensures
        severity_rank(severity_of(low, threshold, false)) <= severity_rank(
            severity_of(high, threshold, false),
        ),
{
}

/// A vote without majority escalates to critical: it always ejects, on the
/// first parameter (thermal, strain, pressure, gyro) whose vote has no
/// majority, and is never logged.
pub proof fn lemma_no_majority_fires(s: ReflexSensors, th: ReflexThresholds)
    requires
        !all_consensus(s),
    ensures
        reflex_outcome(s, th) is Some,
        reflex_outcome(s, th)->Some_0.action == ReflexAction::Eject,
        reflex_log_entry(s, th) is None,
        vote(s.thermal, tolerances::THERMAL) is Escalate ==> reflex_outcome(s, th)->Some_0.param
            == FaultParam::Thermal,
{
}

/// The absolute limits eject regardless of the severity tiers: when every
/// vote agrees and some consensus reaches its absolute limit, the reflex
/// ejects against that limit, and nothing is logged.
pub proof fn lemma_absolute_limit_ejects(s: ReflexSensors, th: ReflexThresholds)
    requires
        all_consensus(s),
        !severity_decides(s),
    ensures
        reflex_outcome(s, th) is Some,
        reflex_outcome(s, th)->Some_0.action == ReflexAction::Eject,
        reflex_outcome(s, th)->Some_0.threshold == CRITICAL_THERMAL || reflex_outcome(
            s,
            th,
        )->Some_0.threshold == CRITICAL_STRAIN || reflex_outcome(s, th)->Some_0.threshold
            == CRITICAL_PRESSURE,
        reflex_log_entry(s, th) is None,
{
}

/// The absolute thermal limit overrides the severity tiers: when every vote
/// agrees and the thermal consensus is at or above `CRITICAL_THERMAL`, the
/// reflex ejects against that limit, whatever the configured thresholds, and
/// nothing is logged.
pub proof fn lemma_critical_thermal_overrides(s: ReflexSensors, th: ReflexThresholds)
    requires
        all_consensus(s),
        vote(s.thermal, tolerances::THERMAL)->Consensus_0 >= CRITICAL_THERMAL,
    ensures
        reflex_outcome(s, th) == Some(
            ReflexTrigger {
                priority: ReflexPriority::ThermalBreach,
                action: ReflexAction::Eject,
                param: FaultParam::Thermal,
                value: Reading::Finite(vote(s.thermal, tolerances::THERMAL)->Consensus_0),
                threshold: CRITICAL_THERMAL,
            },
        ),
        reflex_log_entry(s, th) is None,
{
}

/// Nominal means silent: no reflex fires exactly when every vote agrees, no
/// consensus reaches its absolute limit and every parameter is at most
/// minor; then nothing is logged. A logged entry always describes the
/// reflex that fired: same parameter, action, value and threshold, and a
/// critical one ejects.
pub proof fn lemma_log_matches_trigger(s: ReflexSensors, th: ReflexThresholds)
    ensures
        reflex_outcome(s, th) is None <==> (severity_decides(s) && worst_fault(s, th).0
            == Severity::Minor),
        reflex_outcome(s, th) is None ==> reflex_log_entry(s, th) is None,
        reflex_log_entry(s, th) matches Some(e) ==> reflex_outcome(s, th) matches Some(t) && t.param
            == e.param && t.action == e.action && t.value == Reading::Finite(e.value) && t.threshold
            == e.threshold && t.priority == priority_for(e.param) && (e.severity
            == Severity::Critical <==> t.action == ReflexAction::Eject),
{
}

/// The worst of four candidates has the highest severity of them and is
/// one of them.
pub proof fn lemma_worst_is_maximal(c0: Candidate, c1: Candidate, c2: Candidate, c3: Candidate)
    ensures
        severity_rank(c0.0) <= severity_rank(worst_of(c0, c1, c2, c3).0),
        severity_rank(c1.0) <= severity_rank(worst_of(c0, c1, c2, c3).0),
        severity_rank(c2.0) <= severity_rank(worst_of(c0, c1, c2, c3).0),
        severity_rank(c3.0) <= severity_rank(worst_of(c0, c1, c2, c3).0),
        worst_of(c0, c1, c2, c3) == c0 || worst_of(c0, c1, c2, c3) == c1 || worst_of(c0, c1, c2, c3)
            == c2 || worst_of(c0, c1, c2, c3) == c3,
{
}

/// When the severity tiers decide, each parameter is graded against its own
/// limit and the worst tier fires: the logged entry has a severity at least
/// that of every parameter (graded as `severity_of(consensus, own limit)`),
/// and it is one of the parameters with its own consensus, limit and tier.
/// A reflex fires exactly when some parameter is above minor, and a
/// critical parameter always ejects.
pub proof fn lemma_worst_tier_fires(s: ReflexSensors, th: ReflexThresholds)
    requires
        severity_decides(s),
    ensures
        ({
            let (t, st, p, g) = consensus_values(s);
            let st_t = severity_of(t, th.thermal_max, false);
            let st_s = severity_of(st, th.strain_max, false);
            let st_p = severity_of(p, th.pressure_max, false);
            let st_g = severity_of(g, th.gyro_rate_max, false);
            &&& (reflex_log_entry(s, th) is Some) <==> (st_t != Severity::Minor || st_s
                != Severity::Minor || st_p != Severity::Minor || st_g != Severity::Minor)
            &&& reflex_log_entry(s, th) matches Some(e) ==> {
                &&& severity_rank(st_t) <= severity_rank(e.severity)
                &&& severity_rank(st_s) <= severity_rank(e.severity)
                &&& severity_rank(st_p) <= severity_rank(e.severity)
                &&& severity_rank(st_g) <= severity_rank(e.severity)
                &&& e.param == FaultParam::Thermal ==> e.value == t && e.threshold == th.thermal_max
                    && e.severity == st_t
                &&& e.param == FaultParam::Strain ==> e.value == st && e.threshold == th.strain_max
                    && e.severity == st_s
                &&& e.param == FaultParam::Pressure ==> e.value == p && e.threshold
                    == th.pressure_max && e.severity == st_p
                &&& e.param == FaultParam::Gyro ==> e.value == g && e.threshold == th.gyro_rate_max
                    && e.severity == st_g
                &&& e.param != FaultParam::All
            }
            &&& (st_t == Severity::Critical || st_s == Severity::Critical || st_p
                == Severity::Critical || st_g == Severity::Critical) ==> reflex_outcome(
                s,
                th,
            ) is Some && reflex_outcome(s, th)->Some_0.action == ReflexAction::Eject
        }),
{
    let (t, st, p, g) = consensus_values(s);
    lemma_worst_is_maximal(
        (severity_of(t, th.thermal_max, false), FaultParam::Thermal, t, th.thermal_max),
        (severity_of(st, th.strain_max, false), FaultParam::Strain, st, th.strain_max),
        (severity_of(p, th.pressure_max, false), FaultParam::Pressure, p, th.pressure_max),
        (severity_of(g, th.gyro_rate_max, false), FaultParam::Gyro, g, th.gyro_rate_max),
    );
}

} // verus!
