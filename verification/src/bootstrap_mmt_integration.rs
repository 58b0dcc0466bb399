//! MMT rewards for bootstrap liquidity providers.
use vstd::prelude::*;
use crate::bootstrap_coordinator::{BootstrapCoordinator, BOOTSTRAP_IMMEDIATE_REWARD_BPS, VAMPIRE_ATTACK_HALT_COVERAGE};
use crate::constants::BOOTSTRAP_TARGET_VAULT;
use crate::error::BettingPlatformError;
use crate::crypto::{find_program_address, spec_find_program_address};
use crate::bytes::bytes_eq;

verus! {

/// Smallest accepted deposit ($1).
pub const MIN_DEPOSIT_AMOUNT: u64 = 1_000_000;

/// Multiplier (percent) by depositor rank.
pub open spec fn spec_depositor_multiplier(unique_depositors: u32) -> u64 {
    if unique_depositors <= 10 { 150 } else if unique_depositors <= 50 { 130 } else if unique_depositors <= 100 { 115 } else { 100 }
}

/// Multiplier (percent) by milestone.
pub open spec fn spec_milestone_multiplier(current_milestone: u8) -> u64 {
    if current_milestone == 0 { 140 } else if current_milestone == 1 { 130 } else if current_milestone == 2 { 120 }
    else if current_milestone == 3 { 110 } else { 100 }
}

/// The MMT reward of a bootstrap deposit: two MMT per whole dollar, times
/// the depositor and milestone multipliers, capped by the remaining pool.
pub open spec fn spec_bootstrap_mmt_reward(deposit_amount: u64, unique_depositors: u32, current_milestone: u8, pool: u64) -> u64 {
    let base = (deposit_amount / 1_000_000) * 2 * 1_000_000;
    let enhanced = base * spec_depositor_multiplier(unique_depositors) * spec_milestone_multiplier(current_milestone) / 10000;
    if enhanced <= pool { enhanced as u64 } else { pool }
}

/// Whether the reward arithmetic of a deposit stays within `u64`: whole
/// dollars times two MMT, times the depositor and milestone multipliers.
pub open spec fn spec_reward_fits(deposit_amount: u64, unique_depositors: u32, current_milestone: u8) -> bool {
    (deposit_amount / 1_000_000) * 2 * 1_000_000 * spec_depositor_multiplier(unique_depositors)
        * spec_milestone_multiplier(current_milestone) <= u64::MAX
}

/// Whether the reward of a deposit can be computed (`spec_reward_fits`).
pub fn bootstrap_reward_fits(deposit_amount: u64, unique_depositors: u32, current_milestone: u8) -> (r: bool)
    ensures
        r == spec_reward_fits(deposit_amount, unique_depositors, current_milestone),
{
    let depositor_multiplier: u64 = if unique_depositors <= 10 { 150 } else if unique_depositors <= 50 { 130 }
        else if unique_depositors <= 100 { 115 } else { 100 };
    let milestone_multiplier: u64 = if current_milestone == 0 { 140 } else if current_milestone == 1 { 130 }
        else if current_milestone == 2 { 120 } else if current_milestone == 3 { 110 } else { 100 };
    let m = depositor_multiplier * milestone_multiplier;
    let dollars = deposit_amount / 1_000_000;
    assert(dollars * 2 * 1_000_000 * depositor_multiplier * milestone_multiplier == dollars * (2_000_000 * m))
        by (nonlinear_arith) requires m == depositor_multiplier * milestone_multiplier;
    match (2_000_000u64 * m).checked_mul(dollars) {
        Some(_) => {
            assert(dollars * (2_000_000 * m) == (2_000_000 * m) * dollars) by (nonlinear_arith);
            true
        },
        None => {
            assert(dollars * (2_000_000 * m) == (2_000_000 * m) * dollars) by (nonlinear_arith);
            false
        },
    }
}

/// MMT rewards for a deposit during the bootstrap phase.
pub fn calculate_bootstrap_mmt_rewards(
    deposit_amount: u64,
    vault_balance: u64,
    unique_depositors: u32,
    current_milestone: u8,
    incentive_pool_remaining: u64,
) -> (r: Result<u64, BettingPlatformError>)
    requires
        spec_reward_fits(deposit_amount, unique_depositors, current_milestone),
    ensures
        r == Ok::<u64, BettingPlatformError>(
            spec_bootstrap_mmt_reward(deposit_amount, unique_depositors, current_milestone, incentive_pool_remaining),
        ),
{
    let deposit_in_dollars = deposit_amount / 1_000_000;
    assert(deposit_in_dollars * 2 * 1_000_000 <= deposit_in_dollars * 2 * 1_000_000
        * spec_depositor_multiplier(unique_depositors) * spec_milestone_multiplier(current_milestone))
        by (nonlinear_arith) requires spec_depositor_multiplier(unique_depositors) >= 1,
            spec_milestone_multiplier(current_milestone) >= 1, deposit_in_dollars >= 0;
    let base_reward = deposit_in_dollars * 2 * 1_000_000;
    let depositor_multiplier: u64 = if unique_depositors <= 10 { 150 } else if unique_depositors <= 50 { 130 }
        else if unique_depositors <= 100 { 115 } else { 100 };
    let milestone_multiplier: u64 = if current_milestone == 0 { 140 } else if current_milestone == 1 { 130 }
        else if current_milestone == 2 { 120 } else if current_milestone == 3 { 110 } else { 100 };
    assert(base_reward * depositor_multiplier <= base_reward * depositor_multiplier * milestone_multiplier)
        by (nonlinear_arith) requires milestone_multiplier >= 1;
    let enhanced_reward = (base_reward * depositor_multiplier * milestone_multiplier) / 10000;
    let final_reward = if enhanced_reward <= incentive_pool_remaining { enhanced_reward } else { incentive_pool_remaining };
    Ok(final_reward)
}

/// Whether a depositor is eligible for rewards: the deposit is at least the
/// minimum, the bootstrap is running, and coverage is not under the halt
/// threshold while the vault holds funds.
pub fn verify_liquidity_provider_eligibility(
    depositor: &[u8; 32],
    deposit_amount: u64,
    bootstrap: &BootstrapCoordinator,
) -> (r: Result<bool, BettingPlatformError>)
    ensures
        r == Ok::<bool, BettingPlatformError>(
            deposit_amount >= MIN_DEPOSIT_AMOUNT
                && !bootstrap.bootstrap_complete
                && !(bootstrap.vault_balance > 0 && bootstrap.coverage_ratio < VAMPIRE_ATTACK_HALT_COVERAGE),
        ),
{
    if deposit_amount < MIN_DEPOSIT_AMOUNT {
        return Ok(false);
    }
    if bootstrap.bootstrap_complete {
        return Ok(false);
    }
    if bootstrap.vault_balance > 0 && bootstrap.coverage_ratio < VAMPIRE_ATTACK_HALT_COVERAGE {
        return Ok(false);
    }
    Ok(true)
}

/// Share of a reward paid immediately (basis points): all of it below $1k,
/// then falling linearly by up to half with the vault's progress.
pub open spec fn spec_immediate_bps(vault_balance: u64) -> u64 {
    if vault_balance < 1_000_000_000 {
        BOOTSTRAP_IMMEDIATE_REWARD_BPS as u64
    } else {
        let progress = vault_balance * 10000 / (BOOTSTRAP_TARGET_VAULT as int);
        let reduction = (progress * 5000 / 10000) as u16;
        if BOOTSTRAP_IMMEDIATE_REWARD_BPS >= reduction { (BOOTSTRAP_IMMEDIATE_REWARD_BPS - reduction) as u64 } else { 0 }
    }
}

/// Seed of the MMT treasury's program address (`mmt_treasury`).
pub const MMT_TREASURY_SEED: [u8; 12] = [109, 109, 116, 95, 116, 114, 101, 97, 115, 117, 114, 121];

/// Whether a reward can be paid in the season running at `slot`: the
/// bootstrap is still running, the slot lies in the season, and the season's
/// emitted total plus the reward stays within its allocation.
pub open spec fn spec_plan_accepts(
    bootstrap_complete: bool,
    slot: u64,
    season_start_slot: u64,
    season_end_slot: u64,
    season_emitted: u64,
    season_allocation: u64,
    mmt_reward_amount: u64,
) -> bool {
    &&& !bootstrap_complete
    &&& season_start_slot <= slot < season_end_slot
    &&& season_emitted + mmt_reward_amount <= season_allocation
}

/// Share of a reward paid immediately at the given vault balance
/// (`spec_immediate_bps`).
pub fn immediate_reward_bps(vault_balance: u64) -> (r: u64)
    requires
        vault_balance >= 1_000_000_000 ==> vault_balance * 10000 <= u64::MAX,
    ensures
        r == spec_immediate_bps(vault_balance),
        r <= 10000,
{
    if vault_balance < 1_000_000_000 {
        BOOTSTRAP_IMMEDIATE_REWARD_BPS as u64
    } else {
        let progress_bps = (vault_balance * 10000) / BOOTSTRAP_TARGET_VAULT;
        let reduction = ((progress_bps * 5000) / 10000) as u16;
        if BOOTSTRAP_IMMEDIATE_REWARD_BPS >= reduction { (BOOTSTRAP_IMMEDIATE_REWARD_BPS - reduction) as u64 } else { 0 }
    }
}

/// Decides how a bootstrap MMT reward is paid in the season running at
/// `slot`: refused when the bootstrap is complete, outside the season, when
/// the season's emitted total would overflow, or beyond the season's
/// allocation; otherwise `(immediate, vested, new_emitted)`, where the
/// immediate part follows the vault's progress and the rest vests.
pub fn plan_bootstrap_mmt_reward(
    bootstrap_complete: bool,
    vault_balance: u64,
    slot: u64,
    season_start_slot: u64,
    season_end_slot: u64,
    season_emitted: u64,
    season_allocation: u64,
    mmt_reward_amount: u64,
) -> (r: Result<(u64, u64, u64), BettingPlatformError>)
    requires
        spec_plan_accepts(bootstrap_complete, slot, season_start_slot, season_end_slot, season_emitted,
            season_allocation, mmt_reward_amount) ==> {
            &&& vault_balance >= 1_000_000_000 ==> vault_balance * 10000 <= u64::MAX
            &&& mmt_reward_amount * spec_immediate_bps(vault_balance) <= u64::MAX
        },
    ensures
        bootstrap_complete ==> r == Err::<(u64, u64, u64), BettingPlatformError>(
            BettingPlatformError::BootstrapAlreadyComplete),
        !bootstrap_complete && (slot < season_start_slot || slot >= season_end_slot)
            ==> r == Err::<(u64, u64, u64), BettingPlatformError>(BettingPlatformError::InvalidArgument),
        !bootstrap_complete && season_start_slot <= slot < season_end_slot
            && season_emitted + mmt_reward_amount > u64::MAX
            ==> r == Err::<(u64, u64, u64), BettingPlatformError>(BettingPlatformError::ArithmeticOverflow),
        !bootstrap_complete && season_start_slot <= slot < season_end_slot
            && season_emitted + mmt_reward_amount <= u64::MAX && season_emitted + mmt_reward_amount > season_allocation
            ==> r == Err::<(u64, u64, u64), BettingPlatformError>(BettingPlatformError::InsufficientFunds),
        spec_plan_accepts(bootstrap_complete, slot, season_start_slot, season_end_slot, season_emitted,
            season_allocation, mmt_reward_amount) ==> {
            let immediate = (mmt_reward_amount * spec_immediate_bps(vault_balance) / 10000) as u64;
            r == Ok::<(u64, u64, u64), BettingPlatformError>(
                (immediate, (mmt_reward_amount - immediate) as u64, (season_emitted + mmt_reward_amount) as u64),
            )
        },
{
    if bootstrap_complete {
        return Err(BettingPlatformError::BootstrapAlreadyComplete);
    }
    if slot < season_start_slot || slot >= season_end_slot {
        return Err(BettingPlatformError::InvalidArgument);
    }
    let new_emitted = match season_emitted.checked_add(mmt_reward_amount) {
        Some(e) => e,
        None => return Err(BettingPlatformError::ArithmeticOverflow),
    };
    if new_emitted > season_allocation {
        return Err(BettingPlatformError::InsufficientFunds);
    }
    let immediate_percentage = immediate_reward_bps(vault_balance);
    let immediate_reward = (mmt_reward_amount * immediate_percentage) / 10000;
    assert(immediate_reward <= mmt_reward_amount) by (nonlinear_arith)
        requires immediate_reward == (mmt_reward_amount * immediate_percentage) / 10000, immediate_percentage <= 10000;
    let vested_reward = mmt_reward_amount - immediate_reward;
    Ok((immediate_reward, vested_reward, new_emitted))
}

/// Checks that `treasury` is the MMT treasury's program address under
/// `program_id`, and gives its bump seed; refused with `InvalidSeeds`
/// otherwise.
pub fn check_treasury_address(program_id: &[u8; 32], treasury: &[u8; 32]) -> (r: Result<u8, BettingPlatformError>)
    ensures
        forall|b: u8| (r == Ok::<u8, BettingPlatformError>(b)) <==> spec_find_program_address(
            seq![MMT_TREASURY_SEED@], program_id@) == Some((treasury@, b)),
        r is Err ==> r == Err::<u8, BettingPlatformError>(BettingPlatformError::InvalidSeeds),
{
    let mut seeds: Vec<Vec<u8>> = Vec::new();
    seeds.push(crate::bytes::slice_to_vec(MMT_TREASURY_SEED.as_slice()));
    assert(seeds@.map_values(|s: Vec<u8>| s@) =~= seq![MMT_TREASURY_SEED@]);
    match find_program_address(&seeds, program_id) {
        Some((key, bump)) => {
            if bytes_eq(&key, treasury) {
                Ok(bump)
            } else {
                Err(BettingPlatformError::InvalidSeeds)
            }
        },
        None => Err(BettingPlatformError::InvalidSeeds),
    }
}

} // verus!
