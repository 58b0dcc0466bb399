//! Decisions of a liquidity provider's deposit during the bootstrap phase:
//! which deposits are accepted, the MMT reward they earn, and how the
//! coordinator and vault change.
use vstd::prelude::*;
use crate::bootstrap_coordinator::{
    spec_deposit_outcome, BootstrapCoordinator, BootstrapDepositResult, VAMPIRE_ATTACK_HALT_COVERAGE,
};
use crate::bootstrap_mmt_integration::{
    calculate_bootstrap_mmt_rewards, spec_bootstrap_mmt_reward, spec_reward_fits, verify_liquidity_provider_eligibility,
    MIN_DEPOSIT_AMOUNT,
};
use crate::bootstrap_vault_initialization::{
    spec_after_deposit, update_bootstrap_vault_state, BootstrapVaultState,
};
use crate::bytes::{bytes_eq, read_u64_le, spec_u64_from_le};
use crate::error::BettingPlatformError;
use crate::crypto::{find_program_address, spec_find_program_address};

verus! {

/// The USDC mint on mainnet (EPjFWdd5AufqSSqeM2qN1xzybapC8G4wEGGkZwyTDt1v).
pub const USDC_MINT: [u8; 32] = [
    198, 250, 122, 243, 190, 219, 173, 58, 61, 101, 243, 106, 171, 201, 116, 49, 177, 187, 228, 194, 210,
    246, 224, 228, 124, 166, 2, 3, 69, 47, 93, 97,
];

/// Whether the coordinator's rules let a bootstrap deposit through.
pub open spec fn spec_rewards_eligible(bootstrap: BootstrapCoordinator) -> bool {
    !bootstrap.bootstrap_complete && !(bootstrap.vault_balance > 0 && bootstrap.coverage_ratio
        < VAMPIRE_ATTACK_HALT_COVERAGE)
}

/// The MMT still available in the coordinator's incentive pool.
pub open spec fn spec_pool_remaining(bootstrap: BootstrapCoordinator) -> u64 {
    if bootstrap.incentive_pool > bootstrap.total_mmt_distributed {
        (bootstrap.incentive_pool - bootstrap.total_mmt_distributed) as u64
    } else {
        0
    }
}

/// Checks a bootstrap deposit before any funds move: refused under the
/// minimum deposit, for a mint other than USDC, or when the depositor is
/// not eligible; otherwise returns the MMT reward the deposit earns.
pub fn validate_bootstrap_deposit(
    depositor: &[u8; 32],
    amount: u64,
    usdc_mint: &[u8; 32],
    bootstrap: &BootstrapCoordinator,
    vault: &BootstrapVaultState,
) -> (r: Result<u64, BettingPlatformError>)
    requires
        amount >= MIN_DEPOSIT_AMOUNT && usdc_mint@ == USDC_MINT@ && spec_rewards_eligible(*bootstrap)
            ==> spec_reward_fits(amount, vault.depositor_count, bootstrap.current_milestone),
    ensures
        amount < MIN_DEPOSIT_AMOUNT ==> r == Err::<u64, BettingPlatformError>(
            BettingPlatformError::DepositTooSmall),
        amount >= MIN_DEPOSIT_AMOUNT && usdc_mint@ != USDC_MINT@ ==> r == Err::<u64, BettingPlatformError>(
            BettingPlatformError::InvalidMint),
        amount >= MIN_DEPOSIT_AMOUNT && usdc_mint@ == USDC_MINT@ && !spec_rewards_eligible(*bootstrap)
            ==> r == Err::<u64, BettingPlatformError>(BettingPlatformError::IneligibleForRewards),
        amount >= MIN_DEPOSIT_AMOUNT && usdc_mint@ == USDC_MINT@ && spec_rewards_eligible(*bootstrap)
            ==> r == Ok::<u64, BettingPlatformError>(
            spec_bootstrap_mmt_reward(amount, vault.depositor_count, bootstrap.current_milestone,
                spec_pool_remaining(*bootstrap)),
        ),
{
    if amount < MIN_DEPOSIT_AMOUNT {
        return Err(BettingPlatformError::DepositTooSmall);
    }
    if !bytes_eq(usdc_mint, &USDC_MINT) {
        return Err(BettingPlatformError::InvalidMint);
    }
    let eligible = match verify_liquidity_provider_eligibility(depositor, amount, bootstrap) {
        Ok(e) => e,
        Err(e) => return Err(e),
    };
    if !eligible {
        return Err(BettingPlatformError::IneligibleForRewards);
    }
    calculate_bootstrap_mmt_rewards(
        amount,
        vault.total_deposits,
        vault.depositor_count,
        bootstrap.current_milestone,
        bootstrap.incentive_pool.saturating_sub(bootstrap.total_mmt_distributed),
    )
}

/// Whether a depositor has deposited before. No registry of depositors is
/// kept, so every depositor counts as new.
pub fn has_previous_deposit(depositor: &[u8; 32], vault: &BootstrapVaultState) -> (r: Result<
    bool,
    BettingPlatformError,
>)
    ensures
        r == Ok::<bool, BettingPlatformError>(false),
{
    Ok(false)
}

/// Whether the coordinator accepts a deposit.
pub open spec fn spec_coordinator_accepts(c: BootstrapCoordinator, amount: u64, is_new: bool) -> bool {
    &&& !c.bootstrap_complete
    &&& amount >= MIN_DEPOSIT_AMOUNT
    &&& c.vault_balance + amount <= u64::MAX
    &&& c.total_deposits + amount <= u64::MAX
    &&& c.total_mmt_distributed + spec_deposit_outcome(c, amount, is_new).1.mmt_earned <= u64::MAX
}

/// The error with which the coordinator refuses a deposit.
pub open spec fn spec_coordinator_error(c: BootstrapCoordinator, amount: u64) -> BettingPlatformError {
    if c.bootstrap_complete {
        BettingPlatformError::BootstrapAlreadyComplete
    } else if amount < MIN_DEPOSIT_AMOUNT {
        BettingPlatformError::DepositTooSmall
    } else {
        BettingPlatformError::MathOverflow
    }
}

/// Whether the vault accepts a deposit.
pub open spec fn spec_vault_accepts(v: BootstrapVaultState, amount: u64, mmt: u64) -> bool {
    &&& v.is_bootstrap_phase
    &&& !v.bootstrap_complete
    &&& v.total_deposits + amount <= u64::MAX
    &&& v.total_mmt_distributed + mmt <= u64::MAX
}

/// The error with which the vault refuses a deposit.
pub open spec fn spec_vault_error(v: BootstrapVaultState) -> BettingPlatformError {
    if !v.is_bootstrap_phase {
        BettingPlatformError::BootstrapNotActive
    } else if v.bootstrap_complete {
        BettingPlatformError::BootstrapAlreadyComplete
    } else {
        BettingPlatformError::MathOverflow
    }
}

/// Records an accepted bootstrap deposit, after the funds moved, in the
/// coordinator and then in the vault at `timestamp`. Either both change or,
/// when either refuses, neither does and its error is returned.
pub fn apply_bootstrap_deposit(
    bootstrap: &mut BootstrapCoordinator,
    vault: &mut BootstrapVaultState,
    depositor: &[u8; 32],
    amount: u64,
    mmt_reward: u64,
    is_new_depositor: bool,
    timestamp: i64,
) -> (r: Result<BootstrapDepositResult, BettingPlatformError>)
    requires
        amount <= u64::MAX / 4,
        old(bootstrap).vault_balance + amount <= u64::MAX ==> (old(bootstrap).vault_balance + amount) * 10000
            <= u64::MAX,
        is_new_depositor ==> old(bootstrap).unique_depositors < u32::MAX,
        old(vault).minimum_viable_size > 0,
        old(vault).total_deposits + amount <= u64::MAX ==> (old(vault).total_deposits + amount) * 10000
            <= u64::MAX,
        is_new_depositor ==> old(vault).depositor_count < u32::MAX,
    ensures
        !spec_coordinator_accepts(*old(bootstrap), amount, is_new_depositor) ==> r == Err::<
            BootstrapDepositResult,
            BettingPlatformError,
        >(spec_coordinator_error(*old(bootstrap), amount)),
        spec_coordinator_accepts(*old(bootstrap), amount, is_new_depositor) && !spec_vault_accepts(
            *old(vault),
            amount,
            mmt_reward,
        ) ==> r == Err::<BootstrapDepositResult, BettingPlatformError>(spec_vault_error(*old(vault))),
        r is Ok <==> spec_coordinator_accepts(*old(bootstrap), amount, is_new_depositor) && spec_vault_accepts(
            *old(vault),
            amount,
            mmt_reward,
        ),
        r is Err ==> *final(bootstrap) == *old(bootstrap) && *final(vault) == *old(vault),
        r matches Ok(res) ==> {
            &&& (*final(bootstrap), res) == spec_deposit_outcome(*old(bootstrap), amount, is_new_depositor)
            &&& *final(vault) == spec_after_deposit(*old(vault), amount, mmt_reward, is_new_depositor, timestamp)
        },
{
    let mut c = *bootstrap;
    let result = match c.process_deposit(depositor, amount, is_new_depositor) {
        Ok(res) => res,
        Err(e) => return Err(e),
    };
    let mut v = *vault;
    match update_bootstrap_vault_state(&mut v, amount, mmt_reward, is_new_depositor, timestamp) {
        Ok(()) => {},
        Err(e) => return Err(e),
    }
    *bootstrap = c;
    *vault = v;
    Ok(result)
}

/// Reads a bootstrap deposit instruction: tag 0 followed by the amount as a
/// little-endian `u64`. Shorter data or another tag is refused.
pub fn parse_bootstrap_deposit_instruction(instruction_data: &[u8]) -> (r: Result<
    u64,
    BettingPlatformError,
>)
    ensures
        (instruction_data@.len() < 9 || instruction_data@[0] != 0) ==> r == Err::<u64, BettingPlatformError>(
            BettingPlatformError::InvalidInstructionData),
        (instruction_data@.len() >= 9 && instruction_data@[0] == 0) ==> (r matches Ok(amount) && amount as int
            == spec_u64_from_le(instruction_data@.subrange(1, 9))),
{
    if instruction_data.len() < 9 {
        return Err(BettingPlatformError::InvalidInstructionData);
    }
    let amount = read_u64_le(instruction_data, 1);
    if instruction_data[0] != 0 {
        return Err(BettingPlatformError::InvalidInstructionData);
    }
    Ok(amount)
}

/// The SPL token program (TokenkegQfeZyiNwAJbNbGKPFXCWuBvf9Ss623VQ5DA).
pub const TOKEN_PROGRAM_ID: [u8; 32] = [
    6, 221, 246, 225, 215, 101, 161, 147, 217, 203, 225, 70, 206, 235, 121, 172, 28, 180, 133, 237, 95, 91, 55,
    145, 58, 140, 245, 133, 126, 255, 0, 169,
];

/// The associated token account program
/// (ATokenGPvbdGVxr1b2hvZbsiqW5xWH25efTNsLJA8knL).
pub const ASSOCIATED_TOKEN_PROGRAM_ID: [u8; 32] = [
    140, 151, 37, 143, 78, 36, 137, 241, 187, 61, 16, 41, 20, 142, 13, 131, 11, 90, 19, 153, 218, 255, 16, 132, 4,
    142, 123, 216, 219, 233, 248, 89,
];

/// The associated token address of a wallet for a mint: the program address
/// of (wallet, token program, mint) under the associated token program.
pub open spec fn spec_associated_token_address(wallet: Seq<u8>, mint: Seq<u8>) -> Option<(Seq<u8>, u8)> {
    spec_find_program_address(seq![wallet, TOKEN_PROGRAM_ID@, mint], ASSOCIATED_TOKEN_PROGRAM_ID@)
}

/// Checks that `account` is the associated token account of `wallet` for
/// `mint`; refused with `InvalidAccountData` otherwise.
pub fn check_associated_token_account(wallet: &[u8; 32], mint: &[u8; 32], account: &[u8; 32]) -> (r: Result<
    (),
    BettingPlatformError,
>)
    ensures
        r is Ok <==> (spec_associated_token_address(wallet@, mint@) matches Some(found) && found.0 == account@),
        r is Err ==> r == Err::<(), BettingPlatformError>(BettingPlatformError::InvalidAccountData),
{
    let mut seeds: Vec<Vec<u8>> = Vec::new();
    seeds.push(crate::bytes::slice_to_vec(wallet.as_slice()));
    seeds.push(crate::bytes::slice_to_vec(TOKEN_PROGRAM_ID.as_slice()));
    seeds.push(crate::bytes::slice_to_vec(mint.as_slice()));
    assert(seeds@.map_values(|s: Vec<u8>| s@) =~= seq![wallet@, TOKEN_PROGRAM_ID@, mint@]);
    match find_program_address(&seeds, &ASSOCIATED_TOKEN_PROGRAM_ID) {
        Some((key, _bump)) => {
            if bytes_eq(&key, account) {
                Ok(())
            } else {
                Err(BettingPlatformError::InvalidAccountData)
            }
        },
        None => Err(BettingPlatformError::InvalidAccountData),
    }
}

} // verus!
