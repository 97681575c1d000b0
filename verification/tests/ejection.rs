use neural_space::reflex::ejection::{arm_ejection, fire_ejection, EjectionState};

#[test]
fn test_arm_ejection() {
    let state = arm_ejection();
    assert_eq!(state, EjectionState::Armed);
}

#[test]
fn test_fire_ejection() {
    let state = fire_ejection();
    assert_eq!(state, EjectionState::Complete);
}

#[test]
fn test_state_ord() {
    assert!(EjectionState::Armed < EjectionState::SeparationInitiated);
    assert!(EjectionState::SeparationInitiated < EjectionState::PayloadReleased);
    assert!(EjectionState::PayloadReleased < EjectionState::BreakupConfirmed);
    assert!(EjectionState::BreakupConfirmed < EjectionState::RecoveryActive);
    assert!(EjectionState::RecoveryActive < EjectionState::Complete);
}

#[test]
fn fired_state_is_last_armed_state_is_first() {
    let first = arm_ejection();
    let last = fire_ejection();
    for s in [
        EjectionState::Armed,
        EjectionState::SeparationInitiated,
        EjectionState::PayloadReleased,
        EjectionState::BreakupConfirmed,
        EjectionState::RecoveryActive,
        EjectionState::Complete,
    ] {
        assert!(first <= s);
        assert!(s <= last);
    }
}
