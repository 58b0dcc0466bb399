//! State of the vampire-attack detector as read by the bootstrap logic.
use vstd::prelude::*;

verus! {

/// What the vampire-attack detector records: when an attack was seen, when
/// withdrawals may resume, whether protection is on, and how many attacks
/// were stopped.
#[derive(Clone, Copy, Debug)]
pub struct VampireAttackDetector {
    pub attack_detected_slot: Option<u64>,
    pub recovery_allowed_slot: Option<u64>,
    pub protection_active: bool,
    pub total_attacks_prevented: u32,
}

impl VampireAttackDetector {
    /// A detector that has seen no attack, with protection on.
    pub fn new() -> (r: Self)
        ensures
            r.attack_detected_slot is None,
            r.recovery_allowed_slot is None,
            r.protection_active,
            r.total_attacks_prevented == 0,
    {
        VampireAttackDetector {
            attack_detected_slot: None,
            recovery_allowed_slot: None,
            protection_active: true,
            total_attacks_prevented: 0,
        }
    }
}

} // verus!
