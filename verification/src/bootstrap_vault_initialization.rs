//! The bootstrap vault: starts at $0, counts deposits toward the $10k
//! target and halts deposits when coverage falls under 0.5.
use vstd::prelude::*;
use crate::bootstrap_coordinator::BootstrapCoordinator;
use crate::constants::BOOTSTRAP_TARGET_VAULT;
use crate::error::BettingPlatformError;
use crate::crypto::{find_program_address, spec_find_program_address};
use crate::bytes::bytes_eq;

verus! {

/// Bootstrap vault state.
#[derive(Clone, Copy, Debug)]
pub struct BootstrapVaultState {
    pub total_deposits: u64,
    pub total_borrowed: u64,
    pub depositor_count: u32,
    pub last_update: i64,
    pub is_bootstrap_phase: bool,
    pub bootstrap_start_slot: u64,
    pub bootstrap_coordinator: [u8; 32],
    pub minimum_viable_size: u64,
    /// Basis points (10000 = 1.0).
    pub coverage_ratio: u64,
    pub is_accepting_deposits: bool,
    pub bootstrap_complete: bool,
    pub total_mmt_distributed: u64,
}

impl Default for BootstrapVaultState {
    fn default() -> (r: Self)
        ensures
            r.total_deposits == 0,
            r.total_borrowed == 0,
            r.depositor_count == 0,
            r.last_update == 0,
            !r.is_bootstrap_phase,
            r.bootstrap_start_slot == 0,
            r.bootstrap_coordinator@ == Seq::new(32, |i: int| 0u8),
            r.minimum_viable_size == 0,
            r.coverage_ratio == 0,
            !r.is_accepting_deposits,
            !r.bootstrap_complete,
            r.total_mmt_distributed == 0,
    {
        let zero = [0u8; 32];
        assert(zero@ =~= Seq::new(32, |i: int| 0u8));
        BootstrapVaultState {
            total_deposits: 0,
            total_borrowed: 0,
            depositor_count: 0,
            last_update: 0,
            is_bootstrap_phase: false,
            bootstrap_start_slot: 0,
            bootstrap_coordinator: zero,
            minimum_viable_size: 0,
            coverage_ratio: 0,
            is_accepting_deposits: false,
            bootstrap_complete: false,
            total_mmt_distributed: 0,
        }
    }
}

impl BootstrapVaultState {
    pub const SIZE: usize = 8 + 8 + 4 + 8 + 1 + 8 + 32 + 8 + 8 + 1 + 1 + 8 + 64;
}

/// The state of a freshly initialized bootstrap vault: $0, accepting
/// deposits, aiming at the bootstrap target.
pub fn initial_bootstrap_vault_state(coordinator: [u8; 32], timestamp: i64, slot: u64) -> (r: BootstrapVaultState)
    ensures
        r == (BootstrapVaultState {
            total_deposits: 0,
            total_borrowed: 0,
            depositor_count: 0,
            last_update: timestamp,
            is_bootstrap_phase: true,
            bootstrap_start_slot: slot,
            bootstrap_coordinator: coordinator,
            minimum_viable_size: BOOTSTRAP_TARGET_VAULT,
            coverage_ratio: 0,
            is_accepting_deposits: true,
            bootstrap_complete: false,
            total_mmt_distributed: 0,
        }),
{
    BootstrapVaultState {
        total_deposits: 0,
        total_borrowed: 0,
        depositor_count: 0,
        last_update: timestamp,
        is_bootstrap_phase: true,
        bootstrap_start_slot: slot,
        bootstrap_coordinator: coordinator,
        minimum_viable_size: BOOTSTRAP_TARGET_VAULT,
        coverage_ratio: 0,
        is_accepting_deposits: true,
        bootstrap_complete: false,
        total_mmt_distributed: 0,
    }
}

/// The vault after a bootstrap deposit, when it is accepted.
pub open spec fn spec_after_deposit(
    v: BootstrapVaultState,
    deposit_amount: u64,
    mmt_distributed: u64,
    is_new_depositor: bool,
    timestamp: i64,
) -> BootstrapVaultState {
    let total = (v.total_deposits + deposit_amount) as u64;
    let coverage = (total * 10000 / (v.minimum_viable_size as int)) as u64;
    let complete = v.bootstrap_complete || total >= v.minimum_viable_size;
    let accepting = if coverage < 5000 && total > 0 { false } else if total >= v.minimum_viable_size { true } else { v.is_accepting_deposits };
    BootstrapVaultState {
        total_deposits: total,
        depositor_count: if is_new_depositor { (v.depositor_count + 1) as u32 } else { v.depositor_count },
        total_mmt_distributed: (v.total_mmt_distributed + mmt_distributed) as u64,
        coverage_ratio: coverage,
        bootstrap_complete: complete,
        is_accepting_deposits: accepting,
        last_update: timestamp,
        ..v
    }
}

/// Records a bootstrap deposit at `timestamp`: adds the deposit and the MMT
/// paid out, recomputes coverage against the minimum viable size, completes
/// the bootstrap at the target, and halts deposits under 0.5 coverage. The
/// vault is unchanged when the call fails.
pub fn update_bootstrap_vault_state(
    vault: &mut BootstrapVaultState,
    deposit_amount: u64,
    mmt_distributed: u64,
    is_new_depositor: bool,
    timestamp: i64,
) -> (r: Result<(), BettingPlatformError>)
    requires
        old(vault).minimum_viable_size > 0,
        old(vault).total_deposits + deposit_amount <= u64::MAX ==> (old(vault).total_deposits + deposit_amount) * 10000 <= u64::MAX,
        is_new_depositor ==> old(vault).depositor_count < u32::MAX,
    ensures
        !old(vault).is_bootstrap_phase ==> r == Err::<(), BettingPlatformError>(BettingPlatformError::BootstrapNotActive),
        old(vault).is_bootstrap_phase && old(vault).bootstrap_complete
            ==> r == Err::<(), BettingPlatformError>(BettingPlatformError::BootstrapAlreadyComplete),
        old(vault).is_bootstrap_phase && !old(vault).bootstrap_complete && (
            old(vault).total_deposits + deposit_amount > u64::MAX
            || old(vault).total_mmt_distributed + mmt_distributed > u64::MAX
        ) ==> r == Err::<(), BettingPlatformError>(BettingPlatformError::MathOverflow),
        r is Err ==> *final(vault) == *old(vault),
        r is Ok ==> *final(vault) == spec_after_deposit(*old(vault), deposit_amount, mmt_distributed, is_new_depositor, timestamp),
        r is Ok <==> (old(vault).is_bootstrap_phase && !old(vault).bootstrap_complete
            && old(vault).total_deposits + deposit_amount <= u64::MAX
            && old(vault).total_mmt_distributed + mmt_distributed <= u64::MAX),
{
    if !vault.is_bootstrap_phase {
        return Err(BettingPlatformError::BootstrapNotActive);
    }
    if vault.bootstrap_complete {
        return Err(BettingPlatformError::BootstrapAlreadyComplete);
    }
    let mut v = *vault;
    v.total_deposits = match v.total_deposits.checked_add(deposit_amount) {
        Some(t) => t,
        None => return Err(BettingPlatformError::MathOverflow),
    };
    if is_new_depositor {
        v.depositor_count = v.depositor_count + 1;
    }
    v.total_mmt_distributed = match v.total_mmt_distributed.checked_add(mmt_distributed) {
        Some(t) => t,
        None => return Err(BettingPlatformError::MathOverflow),
    };
    v.coverage_ratio = (v.total_deposits * 10000) / v.minimum_viable_size;
    if v.total_deposits >= v.minimum_viable_size {
        v.bootstrap_complete = true;
        v.is_accepting_deposits = true;
    }
    if v.coverage_ratio < 5000 && v.total_deposits > 0 {
        v.is_accepting_deposits = false;
    }
    v.last_update = timestamp;
    *vault = v;
    Ok(())
}

/// Leverage available for a vault balance: none below $1k, one x per full
/// $1k up to 10x.
pub open spec fn spec_available_leverage(vault_balance: u64) -> u8 {
    if vault_balance < 1_000_000_000 {
        0
    } else if vault_balance < 10_000_000_000 {
        (vault_balance / 1_000_000_000) as u8
    } else {
        10
    }
}

/// Leverage available for a vault balance: none below $1k, one x per full
/// $1k up to 10x.
pub fn calculate_available_leverage(vault_balance: u64) -> (r: u8)
    ensures
        r == spec_available_leverage(vault_balance),
        r <= 10,
{
    if vault_balance < 1_000_000_000 {
        0
    } else if vault_balance < 10_000_000_000 {
        let l = (vault_balance / 1_000_000_000) as u8;
        if l < 10 { l } else { 10 }
    } else {
        10
    }
}

/// Bootstrap vault status.
#[derive(Clone, Copy, Debug)]
pub struct VaultBootstrapStatus {
    pub is_active: bool,
    pub current_balance: u64,
    pub target_balance: u64,
    pub progress_percent: u64,
    pub coverage_ratio: u64,
    pub is_accepting_deposits: bool,
    pub depositors_count: u32,
    pub mmt_distributed: u64,
    pub can_enable_leverage: bool,
    pub max_leverage_available: u8,
}

/// Summarizes the vault for display.
pub fn check_vault_bootstrap_status(vault: &BootstrapVaultState) -> (r: Result<VaultBootstrapStatus, BettingPlatformError>)
    requires
        vault.minimum_viable_size > 0,
        vault.total_deposits * 100 <= u64::MAX,
    ensures
        r matches Ok(s) && s == (VaultBootstrapStatus {
            is_active: vault.is_bootstrap_phase && !vault.bootstrap_complete,
            current_balance: vault.total_deposits,
            target_balance: vault.minimum_viable_size,
            progress_percent: (vault.total_deposits * 100 / (vault.minimum_viable_size as int)) as u64,
            coverage_ratio: vault.coverage_ratio,
            is_accepting_deposits: vault.is_accepting_deposits,
            depositors_count: vault.depositor_count,
            mmt_distributed: vault.total_mmt_distributed,
            can_enable_leverage: vault.total_deposits >= 1_000_000_000,
            max_leverage_available: spec_available_leverage(vault.total_deposits),
        }),
{
    Ok(VaultBootstrapStatus {
        is_active: vault.is_bootstrap_phase && !vault.bootstrap_complete,
        current_balance: vault.total_deposits,
        target_balance: vault.minimum_viable_size,
        progress_percent: (vault.total_deposits * 100) / vault.minimum_viable_size,
        coverage_ratio: vault.coverage_ratio,
        is_accepting_deposits: vault.is_accepting_deposits,
        depositors_count: vault.depositor_count,
        mmt_distributed: vault.total_mmt_distributed,
        can_enable_leverage: vault.total_deposits >= 1_000_000_000,
        max_leverage_available: calculate_available_leverage(vault.total_deposits),
    })
}


/// Checks that the bootstrap vault may be created: the authority signed,
/// the vault account is the vault's program address and holds no data yet,
/// and the bootstrap is still running. The first failed check gives the
/// error.
pub fn check_vault_initialization(
    authority_is_signer: bool,
    vault_address_matches: bool,
    vault_data_len: usize,
    bootstrap: &BootstrapCoordinator,
) -> (r: Result<(), BettingPlatformError>)
    ensures
        !authority_is_signer ==> r == Err::<(), BettingPlatformError>(BettingPlatformError::MissingRequiredSignature),
        authority_is_signer && !vault_address_matches ==> r == Err::<(), BettingPlatformError>(
            BettingPlatformError::InvalidSeeds),
        authority_is_signer && vault_address_matches && vault_data_len > 0 ==> r == Err::<(), BettingPlatformError>(
            BettingPlatformError::AccountAlreadyInitialized),
        authority_is_signer && vault_address_matches && vault_data_len == 0 && bootstrap.bootstrap_complete
            ==> r == Err::<(), BettingPlatformError>(BettingPlatformError::BootstrapAlreadyComplete),
        r is Ok <==> (authority_is_signer && vault_address_matches && vault_data_len == 0
            && !bootstrap.bootstrap_complete),
{
    if !authority_is_signer {
        return Err(BettingPlatformError::MissingRequiredSignature);
    }
    if !vault_address_matches {
        return Err(BettingPlatformError::InvalidSeeds);
    }
    if vault_data_len > 0 {
        return Err(BettingPlatformError::AccountAlreadyInitialized);
    }
    if bootstrap.bootstrap_complete {
        return Err(BettingPlatformError::BootstrapAlreadyComplete);
    }
    Ok(())
}

/// Seed of the bootstrap (collateral) vault's program address
/// (`collateral_vault`).
pub const COLLATERAL_VAULT_SEED: [u8; 16] = [99, 111, 108, 108, 97, 116, 101, 114, 97, 108, 95, 118, 97, 117, 108, 116];

/// Checks that `vault_key` is the bootstrap vault's program address under
/// `program_id` and gives its bump seed; refused with `InvalidSeeds`
/// otherwise.
pub fn check_bootstrap_vault_address(program_id: &[u8; 32], vault_key: &[u8; 32]) -> (r: Result<u8, BettingPlatformError>)
    ensures
        forall|b: u8| (r == Ok::<u8, BettingPlatformError>(b)) <==> spec_find_program_address(
            seq![COLLATERAL_VAULT_SEED@], program_id@) == Some((vault_key@, b)),
        r is Err ==> r == Err::<u8, BettingPlatformError>(BettingPlatformError::InvalidSeeds),
{
    let mut seeds: Vec<Vec<u8>> = Vec::new();
    seeds.push(crate::bytes::slice_to_vec(COLLATERAL_VAULT_SEED.as_slice()));
    assert(seeds@.map_values(|s: Vec<u8>| s@) =~= seq![COLLATERAL_VAULT_SEED@]);
    match find_program_address(&seeds, program_id) {
        Some((key, bump)) => {
            if bytes_eq(&key, vault_key) {
                Ok(bump)
            } else {
                Err(BettingPlatformError::InvalidSeeds)
            }
        },
        None => Err(BettingPlatformError::InvalidSeeds),
    }
}

} // verus!
