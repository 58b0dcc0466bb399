//! Bootstrap coordination: deposits build the vault from $0 to the target,
//! earn MMT rewards, pass milestones and unlock leverage.
use vstd::prelude::*;
use crate::constants::{BOOTSTRAP_FEE_BPS, BOOTSTRAP_MMT_MULTIPLIER, BOOTSTRAP_TARGET_VAULT};
use crate::error::BettingPlatformError;

verus! {

/// Smallest accepted deposit ($1).
pub const MIN_DEPOSIT_AMOUNT: u64 = 1_000_000;
/// MMT emitted per season for bootstrap providers.
pub const BOOTSTRAP_MMT_EMISSION_RATE: u64 = 10_000_000_000_000;
/// Share of rewards paid immediately to first providers (100%).
pub const BOOTSTRAP_IMMEDIATE_REWARD_BPS: u16 = 10000;
/// Coverage under which operations halt (0.5).
pub const VAMPIRE_ATTACK_HALT_COVERAGE: u64 = 5000;

/// Vault balances at which the bootstrap milestones are reached.
pub open spec fn spec_milestone(i: int) -> u64 {
    if i == 0 { 1_000_000_000 } else if i == 1 { 2_500_000_000 } else if i == 2 { 5_000_000_000 }
    else if i == 3 { 7_500_000_000 } else { 10_000_000_000 }
}

/// Vault balance of milestone `i` (0..5).
pub fn bootstrap_milestone(i: u8) -> (r: u64)
    requires
        i < 5,
    ensures
        r == spec_milestone(i as int),
{
    if i == 0 { 1_000_000_000 } else if i == 1 { 2_500_000_000 } else if i == 2 { 5_000_000_000 }
    else if i == 3 { 7_500_000_000 } else { 10_000_000_000 }
}

/// Bootstrap coordinator state.
#[derive(Clone, Copy)]
pub struct BootstrapCoordinator {
    pub vault_balance: u64,
    pub total_deposits: u64,
    pub unique_depositors: u32,
    pub current_milestone: u8,
    pub bootstrap_start_slot: u64,
    pub bootstrap_complete: bool,
    pub coverage_ratio: u64,
    pub max_leverage_available: u64,
    pub total_mmt_distributed: u64,
    pub early_depositor_bonus_active: bool,
    pub incentive_pool: u64,
    pub halted: bool,
    pub total_incentive_pool: u64,
    pub is_active: bool,
    pub current_vault_balance: u64,
}

impl Default for BootstrapCoordinator {
    fn default() -> (r: Self)
        ensures
            r == Self::zeroed(),
    {
        BootstrapCoordinator {
            vault_balance: 0,
            total_deposits: 0,
            unique_depositors: 0,
            current_milestone: 0,
            bootstrap_start_slot: 0,
            bootstrap_complete: false,
            coverage_ratio: 0,
            max_leverage_available: 0,
            total_mmt_distributed: 0,
            early_depositor_bonus_active: false,
            incentive_pool: 0,
            halted: false,
            total_incentive_pool: 0,
            is_active: false,
            current_vault_balance: 0,
        }
    }
}

/// Result of a bootstrap deposit.
#[derive(Clone, Copy, Debug)]
pub struct BootstrapDepositResult {
    pub mmt_earned: u64,
    pub new_milestone_reached: bool,
    pub current_progress_percent: u64,
    pub leverage_now_available: bool,
}

/// Bootstrap progress information.
#[derive(Clone, Copy, Debug)]
pub struct BootstrapProgress {
    pub current_vault: u64,
    pub target_vault: u64,
    pub progress_percent: u64,
    pub current_milestone: u8,
    pub next_milestone: Option<u64>,
    pub depositors_count: u32,
    pub average_deposit: u64,
    pub mmt_remaining: u64,
    pub leverage_available: u64,
}

/// Bootstrap state.
#[derive(Clone, Copy, PartialEq, Eq, Structural)]
pub enum BootstrapState {
    NotStarted,
    Active,
    Completed,
    Failed,
}

/// Base MMT reward: two MMT per whole dollar deposited, capped by the
/// remaining pool.
pub open spec fn spec_base_reward(pool: u64, amount: u64) -> u64 {
    let base = (amount / 1_000_000) * BOOTSTRAP_MMT_MULTIPLIER * 1_000_000;
    if pool > 0 { if base <= pool { base as u64 } else { pool } } else { 0 }
}

/// Milestone multiplier (percent) applied to bonuses.
pub open spec fn spec_bonus_multiplier(milestone: u8) -> u64 {
    if milestone == 0 { 150 } else if milestone == 1 { 140 } else if milestone == 2 { 130 }
    else if milestone == 3 { 120 } else if milestone == 4 { 110 } else { 100 }
}

/// Bonus MMT: a hundredth per dollar for the first hundred depositors while
/// the early bonus is on, 1000 for a new depositor, scaled by the milestone
/// multiplier.
pub open spec fn spec_bonus(early: bool, unique_depositors: u32, milestone: u8, amount: u64, is_new: bool) -> u64 {
    let b: int = (if early && unique_depositors <= 100 { amount / 10_000_000 } else { 0 }) + (if is_new { 1000int } else { 0 });
    (b * spec_bonus_multiplier(milestone) / 100) as u64
}

/// The coordinator and deposit result after an accepted deposit.
pub open spec fn spec_deposit_outcome(c: BootstrapCoordinator, amount: u64, is_new: bool) -> (BootstrapCoordinator, BootstrapDepositResult) {
    let vault = (c.vault_balance + amount) as u64;
    let unique = if is_new { (c.unique_depositors + 1) as u32 } else { c.unique_depositors };
    let base = spec_base_reward(c.incentive_pool, amount);
    let bonus = spec_bonus(c.early_depositor_bonus_active, unique, c.current_milestone, amount, is_new);
    let total = (base + bonus) as u64;
    let reached = c.current_milestone < 5 && vault >= spec_milestone(c.current_milestone as int);
    let milestone = if reached { (c.current_milestone + 1) as u8 } else { c.current_milestone };
    let lev: int = if vault >= 1_000_000_000 { if vault / 1_000_000_000 < 10 { (vault / 1_000_000_000) as int } else { 10 } } else { c.max_leverage_available as int };
    let coverage = if vault >= 1_000_000_000 { (vault * 10000 / 1_000_000_000) as u64 } else { c.coverage_ratio };
    let complete = vault >= BOOTSTRAP_TARGET_VAULT;
    let next = BootstrapCoordinator {
        vault_balance: vault,
        total_deposits: (c.total_deposits + amount) as u64,
        unique_depositors: unique,
        total_mmt_distributed: (c.total_mmt_distributed + total) as u64,
        current_milestone: milestone,
        max_leverage_available: if complete { 10 } else { lev as u64 },
        coverage_ratio: coverage,
        bootstrap_complete: complete || c.bootstrap_complete,
        early_depositor_bonus_active: if complete { false } else { c.early_depositor_bonus_active },
        ..c
    };
    (next, BootstrapDepositResult {
        mmt_earned: total,
        new_milestone_reached: reached,
        current_progress_percent: (vault * 100 / (BOOTSTRAP_TARGET_VAULT as int)) as u64,
        leverage_now_available: next.max_leverage_available > 0,
    })
}

impl BootstrapCoordinator {
    pub const SIZE: usize = 8 + 8 + 4 + 1 + 8 + 1 + 8 + 8 + 8 + 1 + 8 + 1 + 8 + 1 + 8;

    /// All fields zero or false.
    pub open spec fn zeroed() -> Self {
        BootstrapCoordinator {
            vault_balance: 0,
            total_deposits: 0,
            unique_depositors: 0,
            current_milestone: 0,
            bootstrap_start_slot: 0,
            bootstrap_complete: false,
            coverage_ratio: 0,
            max_leverage_available: 0,
            total_mmt_distributed: 0,
            early_depositor_bonus_active: false,
            incentive_pool: 0,
            halted: false,
            total_incentive_pool: 0,
            is_active: false,
            current_vault_balance: 0,
        }
    }

    /// Starts the bootstrap at `current_slot` with an empty vault, the early
    /// depositor bonus on and a full season's MMT emission as the pool.
    pub fn initialize(&mut self, current_slot: u64) -> (r: Result<(), BettingPlatformError>)
        ensures
            r is Ok,
            *final(self) == (BootstrapCoordinator {
                vault_balance: 0,
                total_deposits: 0,
                unique_depositors: 0,
                current_milestone: 0,
                bootstrap_start_slot: current_slot,
                bootstrap_complete: false,
                coverage_ratio: 0,
                max_leverage_available: 0,
                total_mmt_distributed: 0,
                early_depositor_bonus_active: true,
                incentive_pool: BOOTSTRAP_MMT_EMISSION_RATE,
                halted: false,
                total_incentive_pool: BOOTSTRAP_MMT_EMISSION_RATE,
                is_active: true,
                current_vault_balance: 0,
            }),
    {
        self.vault_balance = 0;
        self.total_deposits = 0;
        self.unique_depositors = 0;
        self.current_milestone = 0;
        self.bootstrap_start_slot = current_slot;
        self.bootstrap_complete = false;
        self.coverage_ratio = 0;
        self.max_leverage_available = 0;
        self.total_mmt_distributed = 0;
        self.early_depositor_bonus_active = true;
        self.incentive_pool = BOOTSTRAP_MMT_EMISSION_RATE;
        self.halted = false;
        self.total_incentive_pool = BOOTSTRAP_MMT_EMISSION_RATE;
        self.is_active = true;
        self.current_vault_balance = 0;
        Ok(())
    }

    /// Processes a deposit of `amount` by `depositor`. Refused once the
    /// bootstrap is complete, under the minimum deposit, or on overflow;
    /// otherwise the vault grows, rewards are computed, the next milestone
    /// is checked, leverage and coverage follow the vault, and reaching the
    /// target completes the bootstrap. The state is unchanged on refusal.
    pub fn process_deposit(&mut self, depositor: &[u8; 32], amount: u64, is_new_depositor: bool) -> (r: Result<BootstrapDepositResult, BettingPlatformError>)
        requires
            amount <= u64::MAX / 4,
            old(self).vault_balance + amount <= u64::MAX ==> (old(self).vault_balance + amount) * 10000 <= u64::MAX,
            is_new_depositor ==> old(self).unique_depositors < u32::MAX,
        ensures
            old(self).bootstrap_complete ==> r == Err::<BootstrapDepositResult, BettingPlatformError>(BettingPlatformError::BootstrapAlreadyComplete),
            !old(self).bootstrap_complete && amount < MIN_DEPOSIT_AMOUNT
                ==> r == Err::<BootstrapDepositResult, BettingPlatformError>(BettingPlatformError::DepositTooSmall),
            !old(self).bootstrap_complete && amount >= MIN_DEPOSIT_AMOUNT && (
                old(self).vault_balance + amount > u64::MAX
                || old(self).total_deposits + amount > u64::MAX
                || old(self).total_mmt_distributed + spec_deposit_outcome(*old(self), amount, is_new_depositor).1.mmt_earned > u64::MAX
            ) ==> r == Err::<BootstrapDepositResult, BettingPlatformError>(BettingPlatformError::MathOverflow),
            r is Err ==> *final(self) == *old(self),
            r is Ok <==> (!old(self).bootstrap_complete && amount >= MIN_DEPOSIT_AMOUNT
                && old(self).vault_balance + amount <= u64::MAX
                && old(self).total_deposits + amount <= u64::MAX
                && old(self).total_mmt_distributed + spec_deposit_outcome(*old(self), amount, is_new_depositor).1.mmt_earned <= u64::MAX),
            r matches Ok(res) ==> (*final(self), res) == spec_deposit_outcome(*old(self), amount, is_new_depositor),
    {
        if self.bootstrap_complete {
            return Err(BettingPlatformError::BootstrapAlreadyComplete);
        }
        if amount < MIN_DEPOSIT_AMOUNT {
            return Err(BettingPlatformError::DepositTooSmall);
        }
        let mut c = *self;
        c.vault_balance = match c.vault_balance.checked_add(amount) {
            Some(v) => v,
            None => return Err(BettingPlatformError::MathOverflow),
        };
        c.total_deposits = match c.total_deposits.checked_add(amount) {
            Some(v) => v,
            None => return Err(BettingPlatformError::MathOverflow),
        };
        if is_new_depositor {
            c.unique_depositors = c.unique_depositors + 1;
        }
        let base_mmt = c.calculate_base_mmt_reward(amount);
        let bonus_mmt = c.calculate_bonus_mmt(amount, is_new_depositor);
        let total_mmt = base_mmt + bonus_mmt;
        c.total_mmt_distributed = match c.total_mmt_distributed.checked_add(total_mmt) {
            Some(v) => v,
            None => return Err(BettingPlatformError::MathOverflow),
        };
        let milestone_reached = c.check_milestone_progress();
        match c.update_coverage_and_leverage() {
            Ok(()) => {},
            Err(e) => return Err(e),
        }
        if c.vault_balance >= BOOTSTRAP_TARGET_VAULT {
            c.complete_bootstrap();
        }
        *self = c;
        Ok(BootstrapDepositResult {
            mmt_earned: total_mmt,
            new_milestone_reached: milestone_reached,
            current_progress_percent: (c.vault_balance * 100) / BOOTSTRAP_TARGET_VAULT,
            leverage_now_available: c.max_leverage_available > 0,
        })
    }

    /// Two MMT per whole dollar, capped by the remaining incentive pool.
    pub fn calculate_base_mmt_reward(&self, deposit_amount: u64) -> (r: u64)
        requires
            deposit_amount <= u64::MAX / 2,
        ensures
            r == spec_base_reward(self.incentive_pool, deposit_amount),
    {
        let deposit_in_dollars = deposit_amount / 1_000_000;
        let base_reward = deposit_in_dollars * BOOTSTRAP_MMT_MULTIPLIER * 1_000_000;
        if self.incentive_pool > 0 {
            if base_reward <= self.incentive_pool { base_reward } else { self.incentive_pool }
        } else {
            0
        }
    }

    /// Early-depositor and new-depositor bonus, scaled by the milestone
    /// multiplier.
    pub fn calculate_bonus_mmt(&self, deposit_amount: u64, is_new_depositor: bool) -> (r: u64)
        ensures
            r == spec_bonus(self.early_depositor_bonus_active, self.unique_depositors, self.current_milestone, deposit_amount, is_new_depositor),
    {
        let mut bonus: u64 = 0;
        if self.early_depositor_bonus_active && self.unique_depositors <= 100 {
            bonus = bonus + deposit_amount / 10_000_000;
        }
        if is_new_depositor {
            bonus = bonus + 1000;
        }
        let multiplier: u64 = if self.current_milestone == 0 { 150 } else if self.current_milestone == 1 { 140 }
            else if self.current_milestone == 2 { 130 } else if self.current_milestone == 3 { 120 }
            else if self.current_milestone == 4 { 110 } else { 100 };
        (bonus * multiplier) / 100
    }

    fn check_milestone_progress(&mut self) -> (r: bool)
        ensures
            r == (old(self).current_milestone < 5 && old(self).vault_balance >= spec_milestone(old(self).current_milestone as int)),
            *final(self) == (BootstrapCoordinator {
                current_milestone: if r { (old(self).current_milestone + 1) as u8 } else { old(self).current_milestone },
                ..*old(self)
            }),
    {
        if self.current_milestone < 5 {
            if self.vault_balance >= bootstrap_milestone(self.current_milestone) {
                self.current_milestone = self.current_milestone + 1;
                return true;
            }
        }
        false
    }

    fn update_coverage_and_leverage(&mut self) -> (r: Result<(), BettingPlatformError>)
        requires
            old(self).vault_balance * 10000 <= u64::MAX,
        ensures
            r is Ok,
            *final(self) == (if old(self).vault_balance >= 1_000_000_000 {
                BootstrapCoordinator {
                    max_leverage_available: if old(self).vault_balance / 1_000_000_000 < 10 { (old(self).vault_balance / 1_000_000_000) as u64 } else { 10 },
                    coverage_ratio: (old(self).vault_balance * 10000 / 1_000_000_000) as u64,
                    ..*old(self)
                }
            } else {
                *old(self)
            }),
    {
        if self.vault_balance >= 1_000_000_000 {
            let l = self.vault_balance / 1_000_000_000;
            self.max_leverage_available = if l < 10 { l } else { 10 };
            self.coverage_ratio = (self.vault_balance * 10000) / 1_000_000_000;
            if self.coverage_ratio < VAMPIRE_ATTACK_HALT_COVERAGE {
                return Err(BettingPlatformError::CoverageRatioBelowMinimum);
            }
        }
        Ok(())
    }

    fn complete_bootstrap(&mut self)
        ensures
            *final(self) == (BootstrapCoordinator {
                bootstrap_complete: true,
                early_depositor_bonus_active: false,
                max_leverage_available: 10,
                ..*old(self)
            }),
    {
        self.bootstrap_complete = true;
        self.early_depositor_bonus_active = false;
        self.max_leverage_available = 10;
    }

    /// Progress toward the bootstrap target.
    pub fn get_progress(&self) -> (r: BootstrapProgress)
        requires
            self.vault_balance * 100 <= u64::MAX,
        ensures
            r == (BootstrapProgress {
                current_vault: self.vault_balance,
                target_vault: BOOTSTRAP_TARGET_VAULT,
                progress_percent: (self.vault_balance * 100 / (BOOTSTRAP_TARGET_VAULT as int)) as u64,
                current_milestone: self.current_milestone,
                next_milestone: if self.current_milestone < 5 { Some(spec_milestone(self.current_milestone as int)) } else { None },
                depositors_count: self.unique_depositors,
                average_deposit: if self.unique_depositors > 0 { (self.total_deposits as int / (self.unique_depositors as int)) as u64 } else { 0 },
                mmt_remaining: if self.incentive_pool >= self.total_mmt_distributed { (self.incentive_pool - self.total_mmt_distributed) as u64 } else { 0 },
                leverage_available: self.max_leverage_available,
            }),
    {
        BootstrapProgress {
            current_vault: self.vault_balance,
            target_vault: BOOTSTRAP_TARGET_VAULT,
            progress_percent: (self.vault_balance * 100) / BOOTSTRAP_TARGET_VAULT,
            current_milestone: self.current_milestone,
            next_milestone: if self.current_milestone < 5 { Some(bootstrap_milestone(self.current_milestone)) } else { None },
            depositors_count: self.unique_depositors,
            average_deposit: if self.unique_depositors > 0 { self.total_deposits / self.unique_depositors as u64 } else { 0 },
            mmt_remaining: if self.incentive_pool >= self.total_mmt_distributed { self.incentive_pool - self.total_mmt_distributed } else { 0 },
            leverage_available: self.max_leverage_available,
        }
    }

    /// Trading fee in basis points: the bootstrap fee until completion, 30
    /// after.
    pub fn get_bootstrap_fee_discount(&self) -> (r: u16)
        ensures
            r == (if !self.bootstrap_complete { BOOTSTRAP_FEE_BPS } else { 30 }),
    {
        if !self.bootstrap_complete { BOOTSTRAP_FEE_BPS } else { 30 }
    }
}

/// Incentives recorded during the bootstrap phase.
#[derive(Clone, Debug)]
pub struct BootstrapIncentives {
    pub early_bird_rewards: Vec<EarlyBirdReward>,
    pub milestone_bonuses: Vec<MilestoneBonus>,
    pub referral_rewards: Vec<ReferralReward>,
}

/// Bonus of an early depositor, by deposit order.
#[derive(Clone, Copy, Debug)]
pub struct EarlyBirdReward {
    pub depositor: [u8; 32],
    pub deposit_order: u32,
    pub bonus_mmt: u64,
}

/// Bonus pool shared by the participants of a milestone.
#[derive(Clone, Debug)]
pub struct MilestoneBonus {
    pub milestone: u8,
    pub participants: Vec<[u8; 32]>,
    pub bonus_pool: u64,
}

/// Reward of a referrer for a referred depositor.
#[derive(Clone, Copy, Debug)]
pub struct ReferralReward {
    pub referrer: [u8; 32],
    pub referred: [u8; 32],
    pub reward_mmt: u64,
}

/// A participant of the bootstrap phase.
#[derive(Clone, Copy, Debug, Default)]
pub struct BootstrapParticipant {
    pub pubkey: [u8; 32],
    pub deposited_amount: u64,
    pub mmt_earned: u64,
    pub join_slot: u64,
    pub referrer: Option<[u8; 32]>,
    /// Bootstrap tier (1 to 5, by milestone).
    pub tier: u8,
    pub expected_mmt_rewards: u64,
    pub total_deposited: u64,
}

/// During the bootstrap a deposit earns two MMT (six decimals) for each
/// whole dollar (a million units) deposited, so long as the incentive pool
/// covers it; otherwise it takes what the pool holds, and an empty pool
/// gives nothing. The reward never exceeds the pool and never falls as the
/// deposit grows.
pub proof fn lemma_base_reward_two_mmt_per_dollar(pool: u64, amount: u64, larger: u64)
    requires
        amount <= larger,
    ensures
        (amount / 1_000_000) * 2_000_000 <= pool ==> spec_base_reward(pool, amount) == (amount / 1_000_000) * 2_000_000,
        (amount / 1_000_000) * 2_000_000 > pool ==> spec_base_reward(pool, amount) == pool,
        spec_base_reward(pool, amount) <= pool,
        spec_base_reward(pool, amount) <= spec_base_reward(pool, larger),
{
    assert(amount / 1_000_000 <= larger / 1_000_000) by (nonlinear_arith)
        requires amount <= larger;
}

} // verus!
