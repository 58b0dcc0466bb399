use betting_platform::error::BettingPlatformError;
use betting_platform::immutability_verifier::{
    AuthorityBurnProof, AuthorityStatus, EmergencyAction, ImmutabilityVerifier, UpgradeGuard,
    ADMIN_TRANSFER_DELAY_SLOTS, AUTHORITY_BURN_DELAY_SLOTS, MAX_ADMIN_ACTIONS,
};

fn fresh_verifier() -> ImmutabilityVerifier {
    let mut v = ImmutabilityVerifier {
        program_id: [0u8; 32],
        current_admin: [0u8; 32],
        pending_admin: None,
        admin_transfer_slot: None,
        upgrade_authority: None,
        authority_status: AuthorityStatus::Burned,
        burn_scheduled_slot: None,
        admin_actions_remaining: 0,
        critical_functions_locked: true,
        emergency_contacts: vec![],
        last_verification_slot: 0,
    };
    v.initialize(&[1u8; 32], &[2u8; 32], Some([3u8; 32]), 10).unwrap();
    v
}

#[test]
fn immutability_burn_after_delay() {
    let mut v = fresh_verifier();
    assert_eq!(v.admin_actions_remaining, MAX_ADMIN_ACTIONS);
    assert_eq!(v.burn_authority(0), Err(BettingPlatformError::BurnNotScheduled));
    v.schedule_authority_burn(100).unwrap();
    assert_eq!(v.authority_status, AuthorityStatus::PendingBurn);
    assert_eq!(v.schedule_authority_burn(101), Err(BettingPlatformError::AuthorityAlreadyBurned));
    assert_eq!(v.verify_immutability(100).days_until_burn, Some(2));
    assert_eq!(v.burn_authority(100 + AUTHORITY_BURN_DELAY_SLOTS - 1), Err(BettingPlatformError::BurnDelayNotMet));
    v.burn_authority(100 + AUTHORITY_BURN_DELAY_SLOTS).unwrap();
    let st = v.verify_immutability(100 + AUTHORITY_BURN_DELAY_SLOTS);
    assert!(st.is_immutable && st.upgrade_authority_burned && st.admin_actions_exhausted && st.critical_functions_locked);
    assert_eq!(st.days_until_burn, Some(0));
    assert_eq!(v.initiate_admin_transfer(&[9u8; 32], 0), Err(BettingPlatformError::CriticalFunctionsLocked));
}

#[test]
fn immutability_admin_transfer_with_delay() {
    let mut v = fresh_verifier();
    assert_eq!(v.complete_admin_transfer(0), Err(BettingPlatformError::NoTransferPending));
    v.initiate_admin_transfer(&[9u8; 32], 50).unwrap();
    assert_eq!(v.complete_admin_transfer(50 + ADMIN_TRANSFER_DELAY_SLOTS - 1), Err(BettingPlatformError::TransferDelayNotMet));
    v.complete_admin_transfer(50 + ADMIN_TRANSFER_DELAY_SLOTS).unwrap();
    assert_eq!(v.current_admin, [9u8; 32]);
    assert_eq!(v.admin_actions_remaining, MAX_ADMIN_ACTIONS - 1);
    assert!(v.pending_admin.is_none());
    assert_eq!(v.authorize_admin(&[9u8; 32], true), Ok(()));
    assert_eq!(v.authorize_admin(&[2u8; 32], true), Err(BettingPlatformError::UnauthorizedAdmin));
    assert_eq!(v.authorize_admin(&[9u8; 32], false), Err(BettingPlatformError::MissingRequiredSignature));
}

#[test]
fn immutability_emergency_contacts_and_override() {
    let mut v = fresh_verifier();
    v.add_emergency_contact(&[5u8; 32]).unwrap();
    v.add_emergency_contact(&[5u8; 32]).unwrap();
    assert_eq!(v.emergency_contacts.len(), 1);
    v.add_emergency_contact(&[6u8; 32]).unwrap();
    v.add_emergency_contact(&[7u8; 32]).unwrap();
    assert_eq!(v.add_emergency_contact(&[8u8; 32]), Err(BettingPlatformError::TooManyEmergencyContacts));
    assert_eq!(
        v.emergency_override(&[[5u8; 32], [9u8; 32]], EmergencyAction::PauseProtocol),
        Err(BettingPlatformError::InsufficientEmergencySigners)
    );
    v.schedule_authority_burn(0).unwrap();
    v.emergency_override(&[[5u8; 32], [6u8; 32]], EmergencyAction::ExtendBurnDelay).unwrap();
    assert_eq!(v.burn_scheduled_slot, Some(2 * AUTHORITY_BURN_DELAY_SLOTS));
    v.emergency_override(&[[6u8; 32], [7u8; 32]], EmergencyAction::PauseProtocol).unwrap();
    assert_eq!(v.authority_status, AuthorityStatus::Emergency);
}

#[test]
fn upgrade_guard_and_burn_proof() {
    let mut g = UpgradeGuard { upgrades_allowed: true, last_upgrade_slot: None, upgrade_count: 0, max_upgrades: 2 };
    assert!(g.can_upgrade());
    g.record_upgrade(5).unwrap();
    assert!(g.upgrades_allowed);
    g.record_upgrade(6).unwrap();
    assert!(!g.upgrades_allowed);
    assert_eq!(g.last_upgrade_slot, Some(6));
    assert_eq!(g.record_upgrade(7), Err(BettingPlatformError::UpgradesExhausted));
    let mut proof = AuthorityBurnProof::generate(&[1u8; 32], 9, vec![[2u8; 32], [3u8; 32]], 77);
    assert!(!proof.verify(&[1u8; 32]));
    proof.burn_transaction_signature[0] = 1;
    assert!(proof.verify(&[1u8; 32]));
    assert!(!proof.verify(&[2u8; 32]));
}
