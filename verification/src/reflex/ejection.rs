//! Ejection sequence: the final, irreversible autonomic response.
use vstd::prelude::*;

verus! {

/// Ejection sequence states, in the order in which the sequence runs.
#[derive(Clone, Copy, PartialEq, Eq, PartialOrd, Ord, Debug, Structural)]
pub enum EjectionState {
    Armed,
    SeparationInitiated,
    PayloadReleased,
    BreakupConfirmed,
    RecoveryActive,
    Complete,
}

/// Time allowed to initiate separation, in nanoseconds.
pub const SEPARATION_DELAY_NS: u64 = 50_000;
/// Time allowed to release the payload, in nanoseconds.
pub const PAYLOAD_RELEASE_NS: u64 = 200_000;
/// Time allowed to deploy the recovery system, in nanoseconds.
pub const RECOVERY_DEPLOY_NS: u64 = 500_000;

impl EjectionState {
    /// Position of the state in the sequence (0 for `Armed`, 5 for `Complete`).
    pub open spec fn stage(self) -> nat {
        match self {
            EjectionState::Armed => 0,
            EjectionState::SeparationInitiated => 1,
            EjectionState::PayloadReleased => 2,
            EjectionState::BreakupConfirmed => 3,
            EjectionState::RecoveryActive => 4,
            EjectionState::Complete => 5,
        }
    }
}

/// Fire the ejection sequence. It is irreversible: the sequence ends in
/// `Complete`, the last stage.
pub fn fire_ejection() -> (state: EjectionState)
    ensures
        state == EjectionState::Complete,
        forall|s: EjectionState| s.stage() <= state.stage(),
{
    EjectionState::Complete
}

/// Arm the ejection system; the sequence starts in `Armed`, the first stage.
pub fn arm_ejection() -> (state: EjectionState)
    ensures
        state == EjectionState::Armed,
        forall|s: EjectionState| state.stage() <= s.stage(),
{
    EjectionState::Armed
}

} // verus!
