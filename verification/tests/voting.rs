use neural_space::reflex::voting::{tolerances, vote_triplet, Reading, SensorTriplet, VoteResult};

/// A reading in the library's fixed point (millionths of the unit).
fn r(x: f64) -> Reading {
    if x.is_finite() {
        Reading::Finite((x * 1e6).round() as i64)
    } else {
        Reading::NonFinite
    }
}

fn fx(x: f64) -> i64 {
    (x * 1e6).round() as i64
}

#[test]
fn test_vote_all_agree() {
    let triplet = SensorTriplet::new(r(1000.0), r(1005.0), r(1002.0));
    let result = vote_triplet(&triplet, fx(50.0));
    assert!(matches!(result, VoteResult::Consensus(v) if (v - fx(1002.5)).abs() < fx(1.0)));
}

#[test]
fn test_vote_ab_agree() {
    let triplet = SensorTriplet::new(r(1000.0), r(1010.0), r(2000.0));
    let result = vote_triplet(&triplet, fx(50.0));
    assert!(matches!(result, VoteResult::Consensus(v) if (v - fx(1005.0)).abs() < fx(1.0)));
}

#[test]
fn test_vote_bc_agree() {
    let triplet = SensorTriplet::new(r(2000.0), r(1000.0), r(1010.0));
    let result = vote_triplet(&triplet, fx(50.0));
    assert!(matches!(result, VoteResult::Consensus(v) if (v - fx(1005.0)).abs() < fx(1.0)));
}

#[test]
fn test_vote_ac_agree() {
    let triplet = SensorTriplet::new(r(1000.0), r(2000.0), r(1010.0));
    let result = vote_triplet(&triplet, fx(50.0));
    assert!(matches!(result, VoteResult::Consensus(v) if (v - fx(1005.0)).abs() < fx(1.0)));
}

#[test]
fn test_vote_no_majority() {
    let triplet = SensorTriplet::new(r(1000.0), r(2000.0), r(3000.0));
    let result = vote_triplet(&triplet, fx(100.0));
    assert!(matches!(result, VoteResult::Escalate));
}

#[test]
fn test_vote_nan_input() {
    let triplet = SensorTriplet::new(r(f64::NAN), r(1000.0), r(1005.0));
    let result = vote_triplet(&triplet, fx(50.0));
    assert!(matches!(result, VoteResult::Escalate));
}

#[test]
fn test_vote_infinite_input() {
    let triplet = SensorTriplet::new(r(f64::INFINITY), r(1000.0), r(1005.0));
    let result = vote_triplet(&triplet, fx(50.0));
    assert!(matches!(result, VoteResult::Escalate));
}

#[test]
fn vote_average_is_exact_and_rounds_toward_zero() {
    let t = SensorTriplet::new(Reading::Finite(1), Reading::Finite(2), Reading::Finite(100));
    assert!(matches!(vote_triplet(&t, 1), VoteResult::Consensus(1)));
    let t = SensorTriplet::new(Reading::Finite(-1), Reading::Finite(-2), Reading::Finite(100));
    assert!(matches!(vote_triplet(&t, 1), VoteResult::Consensus(-1)));
    let t = SensorTriplet::new(Reading::Finite(i64::MAX), Reading::Finite(i64::MAX), Reading::Finite(0));
    assert!(matches!(vote_triplet(&t, 0), VoteResult::Consensus(i64::MAX)));
}

#[test]
fn vote_tolerance_is_inclusive() {
    let t = SensorTriplet::new(r(1000.0), r(1050.0), r(5000.0));
    assert!(matches!(vote_triplet(&t, tolerances::THERMAL), VoteResult::Consensus(v) if v == fx(1025.0)));
    let t = SensorTriplet::new(r(1000.0), r(1050.000001), r(5000.0));
    assert!(matches!(vote_triplet(&t, tolerances::THERMAL), VoteResult::Escalate));
}

#[test]
fn vote_negative_tolerance_never_agrees() {
    let t = SensorTriplet::new(r(1.0), r(1.0), r(1.0));
    assert!(matches!(vote_triplet(&t, -1), VoteResult::Escalate));
}

#[test]
fn vote_non_finite_redundant_sensor_escalates() {
    let t = SensorTriplet::new(r(1000.0), r(1000.0), r(f64::NEG_INFINITY));
    assert!(matches!(vote_triplet(&t, fx(50.0)), VoteResult::Escalate));
}
