//! Immutability: the upgrade authority is burned after a scheduled delay,
//! admin transfers are delayed and limited, and emergency contacts can
//! pause the protocol or postpone the burn together.
use vstd::prelude::*;
use crate::bytes::bytes_eq;
use crate::error::BettingPlatformError;

verus! {

/// Delay between scheduling and burning the authority (~48 hours).
pub const AUTHORITY_BURN_DELAY_SLOTS: u64 = 432_000;
/// Delay of an admin transfer (~24 hours).
pub const ADMIN_TRANSFER_DELAY_SLOTS: u64 = 216_000;
/// Admin actions available before the burn.
pub const MAX_ADMIN_ACTIONS: u32 = 10;
/// Emergency contacts a verifier can hold.
pub const MAX_EMERGENCY_CONTACTS: usize = 3;
/// Slots in a day.
pub const SLOTS_PER_DAY: u64 = 216_000;

/// Authority status.
#[derive(Clone, Copy, Debug, PartialEq, Eq, Structural)]
pub enum AuthorityStatus {
    Active,
    PendingBurn,
    Burned,
    /// Paused by the emergency contacts, for critical fixes only.
    Emergency,
}

/// Emergency actions.
#[derive(Clone, Copy, Debug, PartialEq, Eq, Structural)]
pub enum EmergencyAction {
    PauseProtocol,
    ExtendBurnDelay,
}

/// Immutability verifier state.
#[derive(Clone, Debug)]
pub struct ImmutabilityVerifier {
    pub program_id: [u8; 32],
    pub current_admin: [u8; 32],
    pub pending_admin: Option<[u8; 32]>,
    pub admin_transfer_slot: Option<u64>,
    pub upgrade_authority: Option<[u8; 32]>,
    pub authority_status: AuthorityStatus,
    pub burn_scheduled_slot: Option<u64>,
    pub admin_actions_remaining: u32,
    pub critical_functions_locked: bool,
    pub emergency_contacts: Vec<[u8; 32]>,
    pub last_verification_slot: u64,
}

/// Immutability status report.
#[derive(Clone, Copy, Debug)]
pub struct ImmutabilityStatus {
    pub is_immutable: bool,
    pub upgrade_authority_burned: bool,
    pub admin_actions_exhausted: bool,
    pub critical_functions_locked: bool,
    pub days_until_burn: Option<u64>,
}

/// Whether `k` is among the keys.
pub open spec fn spec_key_in(keys: Seq<[u8; 32]>, k: [u8; 32]) -> bool {
    exists|i: int| 0 <= i < keys.len() && keys[i]@ == k@
}

/// Signers that are emergency contacts, counted with repetition.
pub open spec fn spec_valid_signers(signers: Seq<[u8; 32]>, contacts: Seq<[u8; 32]>) -> nat {
    signers.filter(|s: [u8; 32]| spec_key_in(contacts, s)).len()
}

fn key_in(keys: &Vec<[u8; 32]>, k: &[u8; 32]) -> (r: bool)
    ensures
        r == spec_key_in(keys@, *k),
{
    let mut i: usize = 0;
    while i < keys.len()
        invariant
            i <= keys@.len(),
            forall|j: int| 0 <= j < i ==> keys@[j]@ != k@,
        decreases keys@.len() - i,
    {
        if bytes_eq(&keys[i], k) {
            return true;
        }
        i = i + 1;
    }
    false
}

/// State and answer of starting an admin transfer.
pub open spec fn spec_initiate_transfer(v: ImmutabilityVerifier, new_admin: [u8; 32], slot: u64) -> (ImmutabilityVerifier, Result<(), BettingPlatformError>) {
    if v.critical_functions_locked {
        (v, Err(BettingPlatformError::CriticalFunctionsLocked))
    } else if v.admin_actions_remaining == 0 {
        (v, Err(BettingPlatformError::NoAdminActionsRemaining))
    } else {
        (ImmutabilityVerifier {
            pending_admin: Some(new_admin),
            admin_transfer_slot: Some((slot + ADMIN_TRANSFER_DELAY_SLOTS) as u64),
            ..v
        }, Ok(()))
    }
}

/// State and answer of completing an admin transfer.
pub open spec fn spec_complete_transfer(v: ImmutabilityVerifier, slot: u64) -> (ImmutabilityVerifier, Result<(), BettingPlatformError>) {
    match (v.pending_admin, v.admin_transfer_slot) {
        (Some(p), Some(t)) => if slot < t {
            (v, Err(BettingPlatformError::TransferDelayNotMet))
        } else {
            (ImmutabilityVerifier {
                current_admin: p,
                pending_admin: None,
                admin_transfer_slot: None,
                admin_actions_remaining: if v.admin_actions_remaining > 0 { (v.admin_actions_remaining - 1) as u32 } else { 0 },
                ..v
            }, Ok(()))
        },
        _ => (v, Err(BettingPlatformError::NoTransferPending)),
    }
}

/// State and answer of an emergency override.
pub open spec fn spec_emergency_override(v: ImmutabilityVerifier, signers: Seq<[u8; 32]>, action: EmergencyAction) -> (ImmutabilityVerifier, Result<(), BettingPlatformError>) {
    if spec_valid_signers(signers, v.emergency_contacts@) < 2 {
        (v, Err(BettingPlatformError::InsufficientEmergencySigners))
    } else {
        (match action {
            EmergencyAction::PauseProtocol => ImmutabilityVerifier { authority_status: AuthorityStatus::Emergency, ..v },
            EmergencyAction::ExtendBurnDelay => match v.burn_scheduled_slot {
                Some(b) => ImmutabilityVerifier { burn_scheduled_slot: Some((b + AUTHORITY_BURN_DELAY_SLOTS) as u64), ..v },
                None => v,
            },
        }, Ok(()))
    }
}

impl ImmutabilityVerifier {
    pub const SIZE: usize = 32 + 32 + 33 + 9 + 33 + 1 + 9 + 4 + 1 + 4 + 96 + 8;

    /// Starts with `admin` and an active authority, all admin actions
    /// available and no contacts.
    pub fn initialize(
        &mut self,
        program_id: &[u8; 32],
        admin: &[u8; 32],
        upgrade_authority: Option<[u8; 32]>,
        current_slot: u64,
    ) -> (r: Result<(), BettingPlatformError>)
        ensures
            r is Ok,
            final(self).program_id == *program_id,
            final(self).current_admin == *admin,
            final(self).pending_admin is None,
            final(self).admin_transfer_slot is None,
            final(self).upgrade_authority == upgrade_authority,
            final(self).authority_status == AuthorityStatus::Active,
            final(self).burn_scheduled_slot is None,
            final(self).admin_actions_remaining == MAX_ADMIN_ACTIONS,
            !final(self).critical_functions_locked,
            final(self).emergency_contacts@.len() == 0,
            final(self).last_verification_slot == current_slot,
    {
        self.program_id = *program_id;
        self.current_admin = *admin;
        self.pending_admin = None;
        self.admin_transfer_slot = None;
        self.upgrade_authority = upgrade_authority;
        self.authority_status = AuthorityStatus::Active;
        self.burn_scheduled_slot = None;
        self.admin_actions_remaining = MAX_ADMIN_ACTIONS;
        self.critical_functions_locked = false;
        self.emergency_contacts = Vec::new();
        self.last_verification_slot = current_slot;
        Ok(())
    }

    /// A signed request from the current admin passes.
    pub fn authorize_admin(&self, caller: &[u8; 32], caller_signed: bool) -> (r: Result<(), BettingPlatformError>)
        ensures
            !caller_signed ==> r == Err::<(), BettingPlatformError>(BettingPlatformError::MissingRequiredSignature),
            caller_signed && caller@ != self.current_admin@ ==> r == Err::<(), BettingPlatformError>(BettingPlatformError::UnauthorizedAdmin),
            caller_signed && caller@ == self.current_admin@ ==> r is Ok,
    {
        if !caller_signed {
            return Err(BettingPlatformError::MissingRequiredSignature);
        }
        if !bytes_eq(caller, &self.current_admin) {
            return Err(BettingPlatformError::UnauthorizedAdmin);
        }
        Ok(())
    }

    /// Schedules the burn `AUTHORITY_BURN_DELAY_SLOTS` after `current_slot`;
    /// only an active authority can be scheduled.
    pub fn schedule_authority_burn(&mut self, current_slot: u64) -> (r: Result<(), BettingPlatformError>)
        requires
            current_slot + AUTHORITY_BURN_DELAY_SLOTS <= u64::MAX,
        ensures
            old(self).authority_status != AuthorityStatus::Active ==> r == Err::<(), BettingPlatformError>(
                BettingPlatformError::AuthorityAlreadyBurned) && *final(self) == *old(self),
            old(self).authority_status == AuthorityStatus::Active ==> r is Ok && *final(self) == (ImmutabilityVerifier {
                burn_scheduled_slot: Some((current_slot + AUTHORITY_BURN_DELAY_SLOTS) as u64),
                authority_status: AuthorityStatus::PendingBurn,
                ..*old(self)
            }),
    {
        if self.authority_status != AuthorityStatus::Active {
            return Err(BettingPlatformError::AuthorityAlreadyBurned);
        }
        self.burn_scheduled_slot = Some(current_slot + AUTHORITY_BURN_DELAY_SLOTS);
        self.authority_status = AuthorityStatus::PendingBurn;
        Ok(())
    }

    /// Burns the upgrade authority once the scheduled slot is reached:
    /// critical functions lock and no admin action remains.
    pub fn burn_authority(&mut self, current_slot: u64) -> (r: Result<(), BettingPlatformError>)
        ensures
            old(self).authority_status != AuthorityStatus::PendingBurn ==> r == Err::<(), BettingPlatformError>(
                BettingPlatformError::BurnNotScheduled) && *final(self) == *old(self),
            old(self).authority_status == AuthorityStatus::PendingBurn && (old(self).burn_scheduled_slot matches Some(b)
                && current_slot < b) ==> r == Err::<(), BettingPlatformError>(BettingPlatformError::BurnDelayNotMet)
                && *final(self) == *old(self),
            old(self).authority_status == AuthorityStatus::PendingBurn && !(old(self).burn_scheduled_slot matches Some(b)
                && current_slot < b) ==> r is Ok && *final(self) == (ImmutabilityVerifier {
                upgrade_authority: None,
                authority_status: AuthorityStatus::Burned,
                critical_functions_locked: true,
                admin_actions_remaining: 0,
                ..*old(self)
            }),
    {
        if self.authority_status != AuthorityStatus::PendingBurn {
            return Err(BettingPlatformError::BurnNotScheduled);
        }
        if let Some(burn_slot) = self.burn_scheduled_slot {
            if current_slot < burn_slot {
                return Err(BettingPlatformError::BurnDelayNotMet);
            }
        }
        self.upgrade_authority = None;
        self.authority_status = AuthorityStatus::Burned;
        self.critical_functions_locked = true;
        self.admin_actions_remaining = 0;
        Ok(())
    }

    /// Starts moving the admin role to `new_admin`, effective
    /// `ADMIN_TRANSFER_DELAY_SLOTS` after `current_slot`; refused once the
    /// critical functions are locked or no admin action remains.
    pub fn initiate_admin_transfer(&mut self, new_admin: &[u8; 32], current_slot: u64) -> (r: Result<(), BettingPlatformError>)
        requires
            current_slot + ADMIN_TRANSFER_DELAY_SLOTS <= u64::MAX,
        ensures
            (*final(self), r) == spec_initiate_transfer(*old(self), *new_admin, current_slot),
    {
        if self.critical_functions_locked {
            return Err(BettingPlatformError::CriticalFunctionsLocked);
        }
        if self.admin_actions_remaining == 0 {
            return Err(BettingPlatformError::NoAdminActionsRemaining);
        }
        self.pending_admin = Some(*new_admin);
        self.admin_transfer_slot = Some(current_slot + ADMIN_TRANSFER_DELAY_SLOTS);
        Ok(())
    }

    /// Completes a pending transfer once its slot is reached, using up one
    /// admin action.
    pub fn complete_admin_transfer(&mut self, current_slot: u64) -> (r: Result<(), BettingPlatformError>)
        ensures
            (*final(self), r) == spec_complete_transfer(*old(self), current_slot),
    {
        match (self.pending_admin, self.admin_transfer_slot) {
            (Some(pending), Some(transfer_slot)) => {
                if current_slot < transfer_slot {
                    return Err(BettingPlatformError::TransferDelayNotMet);
                }
                self.current_admin = pending;
                self.pending_admin = None;
                self.admin_transfer_slot = None;
                self.admin_actions_remaining = if self.admin_actions_remaining > 0 { self.admin_actions_remaining - 1 } else { 0 };
                Ok(())
            },
            _ => Err(BettingPlatformError::NoTransferPending),
        }
    }

    /// Adds an emergency contact (a known one is not added twice); refused
    /// once three are listed.
    pub fn add_emergency_contact(&mut self, contact: &[u8; 32]) -> (r: Result<(), BettingPlatformError>)
        ensures
            old(self).emergency_contacts@.len() >= MAX_EMERGENCY_CONTACTS ==> r == Err::<(), BettingPlatformError>(
                BettingPlatformError::TooManyEmergencyContacts) && *final(self) == *old(self),
            old(self).emergency_contacts@.len() < MAX_EMERGENCY_CONTACTS ==> r is Ok && *final(self) == (ImmutabilityVerifier {
                emergency_contacts: final(self).emergency_contacts,
                ..*old(self)
            }) && final(self).emergency_contacts@ == (if spec_key_in(old(self).emergency_contacts@, *contact) {
                old(self).emergency_contacts@
            } else {
                old(self).emergency_contacts@.push(*contact)
            }),
    {
        if self.emergency_contacts.len() >= MAX_EMERGENCY_CONTACTS {
            return Err(BettingPlatformError::TooManyEmergencyContacts);
        }
        if !key_in(&self.emergency_contacts, contact) {
            self.emergency_contacts.push(*contact);
        }
        Ok(())
    }

    /// Report at `current_slot`: immutable once burned, and whole days left
    /// until a scheduled burn.
    pub fn verify_immutability(&self, current_slot: u64) -> (r: ImmutabilityStatus)
        ensures
            r.is_immutable == (self.authority_status == AuthorityStatus::Burned),
            r.upgrade_authority_burned == (self.upgrade_authority is None),
            r.admin_actions_exhausted == (self.admin_actions_remaining == 0),
            r.critical_functions_locked == self.critical_functions_locked,
            r.days_until_burn == match self.burn_scheduled_slot {
                Some(b) => Some(if b > current_slot { ((b - current_slot) / (SLOTS_PER_DAY as int)) as u64 } else { 0 }),
                None => None::<u64>,
            },
    {
        ImmutabilityStatus {
            is_immutable: self.authority_status == AuthorityStatus::Burned,
            upgrade_authority_burned: self.upgrade_authority.is_none(),
            admin_actions_exhausted: self.admin_actions_remaining == 0,
            critical_functions_locked: self.critical_functions_locked,
            days_until_burn: match self.burn_scheduled_slot {
                Some(burn_slot) => Some(if burn_slot > current_slot { (burn_slot - current_slot) / SLOTS_PER_DAY } else { 0 }),
                None => None,
            },
        }
    }

    fn count_valid_signers(&self, signers: &[[u8; 32]]) -> (r: usize)
        ensures
            r == spec_valid_signers(signers@, self.emergency_contacts@),
    {
        let ghost pred = |s: [u8; 32]| spec_key_in(self.emergency_contacts@, s);
        let mut count: usize = 0;
        let mut i: usize = 0;
        while i < signers.len()
            invariant
                i <= signers@.len(),
                pred == (|s: [u8; 32]| spec_key_in(self.emergency_contacts@, s)),
                count == signers@.subrange(0, i as int).filter(pred).len(),
                count <= i,
            decreases signers@.len() - i,
        {
            proof {
                reveal_with_fuel(Seq::filter, 1);
                assert(signers@.subrange(0, i + 1).drop_last() =~= signers@.subrange(0, i as int));
            }
            if key_in(&self.emergency_contacts, &signers[i]) {
                count = count + 1;
            }
            i = i + 1;
        }
        assert(signers@.subrange(0, i as int) =~= signers@);
        count
    }

    /// With at least two emergency-contact signatures: pauses the protocol,
    /// or postpones a scheduled burn by another delay.
    pub fn emergency_override(&mut self, signers: &[[u8; 32]], action: EmergencyAction) -> (r: Result<(), BettingPlatformError>)
        requires
            action == EmergencyAction::ExtendBurnDelay ==> (old(self).burn_scheduled_slot matches Some(b) ==> b
                + AUTHORITY_BURN_DELAY_SLOTS <= u64::MAX),
        ensures
            (*final(self), r) == spec_emergency_override(*old(self), signers@, action),
    {
        if self.count_valid_signers(signers) < 2 {
            return Err(BettingPlatformError::InsufficientEmergencySigners);
        }
        match action {
            EmergencyAction::PauseProtocol => {
                self.authority_status = AuthorityStatus::Emergency;
            },
            EmergencyAction::ExtendBurnDelay => {
                if let Some(burn_slot) = self.burn_scheduled_slot {
                    self.burn_scheduled_slot = Some(burn_slot + AUTHORITY_BURN_DELAY_SLOTS);
                }
            },
        }
        Ok(())
    }
}

/// Program upgrade guard.
#[derive(Clone, Copy, Debug)]
pub struct UpgradeGuard {
    pub upgrades_allowed: bool,
    pub last_upgrade_slot: Option<u64>,
    pub upgrade_count: u32,
    pub max_upgrades: u32,
}

impl UpgradeGuard {
    /// Upgrades are allowed and the maximum is not reached.
    pub fn can_upgrade(&self) -> (r: bool)
        ensures
            r == (self.upgrades_allowed && self.upgrade_count < self.max_upgrades),
    {
        self.upgrades_allowed && self.upgrade_count < self.max_upgrades
    }

    /// Records an upgrade at `current_slot`; the last allowed one closes
    /// upgrades for good.
    pub fn record_upgrade(&mut self, current_slot: u64) -> (r: Result<(), BettingPlatformError>)
        ensures
            !(old(self).upgrades_allowed && old(self).upgrade_count < old(self).max_upgrades) ==> r == Err::<(), BettingPlatformError>(
                BettingPlatformError::UpgradesExhausted) && *final(self) == *old(self),
            old(self).upgrades_allowed && old(self).upgrade_count < old(self).max_upgrades ==> r is Ok && *final(self) == (UpgradeGuard {
                upgrade_count: (old(self).upgrade_count + 1) as u32,
                last_upgrade_slot: Some(current_slot),
                upgrades_allowed: old(self).upgrade_count + 1 < old(self).max_upgrades,
                ..*old(self)
            }),
    {
        if !self.can_upgrade() {
            return Err(BettingPlatformError::UpgradesExhausted);
        }
        self.upgrade_count = self.upgrade_count + 1;
        self.last_upgrade_slot = Some(current_slot);
        if self.upgrade_count >= self.max_upgrades {
            self.upgrades_allowed = false;
        }
        Ok(())
    }
}

/// Authority burn proof.
#[derive(Clone, Debug)]
pub struct AuthorityBurnProof {
    pub program_id: [u8; 32],
    pub burn_slot: u64,
    pub burn_transaction_signature: [u8; 64],
    pub witnesses: Vec<[u8; 32]>,
    pub timestamp: i64,
}

impl AuthorityBurnProof {
    /// A proof of the burn at `burn_slot`, made at `timestamp`, with the
    /// signature still blank.
    pub fn generate(program_id: &[u8; 32], burn_slot: u64, witnesses: Vec<[u8; 32]>, timestamp: i64) -> (r: Self)
        ensures
            r.program_id == *program_id,
            r.burn_slot == burn_slot,
            r.burn_transaction_signature@ == Seq::new(64, |i: int| 0u8),
            r.witnesses@ == witnesses@,
            r.timestamp == timestamp,
    {
        let r = AuthorityBurnProof {
            program_id: *program_id,
            burn_slot,
            burn_transaction_signature: [0u8; 64],
            witnesses,
            timestamp,
        };
        assert(r.burn_transaction_signature@ =~= Seq::new(64, |i: int| 0u8));
        r
    }

    /// A proof holds for the expected program, with two witnesses or more
    /// and a signature that is not blank.
    pub fn verify(&self, expected_program: &[u8; 32]) -> (r: bool)
        ensures
            r == (self.program_id@ == expected_program@ && self.witnesses@.len() >= 2
                && self.burn_transaction_signature@ != Seq::new(64, |i: int| 0u8)),
    {
        let blank = [0u8; 64];
        assert(blank@ =~= Seq::new(64, |i: int| 0u8));
        bytes_eq(&self.program_id, expected_program) && self.witnesses.len() >= 2 && !bytes_eq(
            &self.burn_transaction_signature,
            &blank,
        )
    }
}

/// Once critical functions are locked (as the burn leaves them), an admin
/// transfer is refused, completing a transfer cannot unlock them, and an
/// emergency override leaves the lock and the upgrade authority as they are.
pub proof fn lemma_lock_is_permanent(v: ImmutabilityVerifier, new_admin: [u8; 32], slot: u64, signers: Seq<[u8; 32]>, action: EmergencyAction)
    requires
        v.critical_functions_locked,
    ensures
        spec_initiate_transfer(v, new_admin, slot).1 == Err::<(), BettingPlatformError>(BettingPlatformError::CriticalFunctionsLocked),
        spec_initiate_transfer(v, new_admin, slot).0 == v,
        spec_complete_transfer(v, slot).0.critical_functions_locked,
        spec_emergency_override(v, signers, action).0.critical_functions_locked,
        spec_emergency_override(v, signers, action).0.upgrade_authority == v.upgrade_authority,
{
}

} // verus!
