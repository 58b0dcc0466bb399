//! Partial liquidation: an unhealthy position loses half of its unhealthy
//! part per liquidation (90% in emergency mode), the keeper earns 5% of the
//! amount, and collateral shrinks in proportion. Candidates wait in a queue
//! ordered by how unhealthy they are.
//!
//! Whether a position is unhealthy is decided by the coverage-based
//! liquidation check of the trading module; the functions here take its
//! verdict as an argument. A position's coverage is a 64.64 fixed-point
//! number held by its raw bits.
use vstd::prelude::*;
use crate::constants::PARTIAL_LIQUIDATION_BPS;
use crate::error::BettingPlatformError;

verus! {

/// Health factor a liquidation aims for (1.1).
pub const MIN_HEALTH_AFTER_LIQUIDATION: u64 = 1100;
/// Keeper incentive (5%).
pub const LIQUIDATION_INCENTIVE_BPS: u16 = 500;
/// Largest share of a position one liquidation closes (90%).
pub const MAX_LIQUIDATION_CLOSE_FACTOR: u64 = 9000;
/// Smallest liquidation ($100).
pub const MIN_LIQUIDATION_AMOUNT: u64 = 100_000_000;
/// Safety buffer (2%).
pub const LIQUIDATION_BUFFER_BPS: u16 = 200;
/// Longest liquidation queue.
pub const MAX_QUEUE_LEN: usize = 100;

/// Liquidation engine state.
#[derive(Clone, Copy, Debug)]
pub struct PartialLiquidationEngine {
    pub total_liquidations_processed: u64,
    pub total_value_liquidated: u64,
    pub active_liquidations: u32,
    pub keeper_rewards_paid: u64,
    pub partial_liquidation_enabled: bool,
    pub emergency_liquidation_mode: bool,
    pub last_liquidation_slot: u64,
    pub liquidation_queue_size: u32,
}

/// A leveraged position.
#[derive(Clone, Copy, Debug)]
pub struct Position {
    pub user: [u8; 32],
    pub market: [u8; 32],
    pub size: u64,
    pub collateral: u64,
    /// In basis points, 10000 = $1.
    pub entry_price: u64,
    /// In basis points, 10000 = $1.
    pub mark_price: u64,
    /// In basis points, 10000 = 100%.
    pub maintenance_margin_ratio: u64,
    pub last_update_slot: u64,
    /// Coverage ratio of the vault: raw bits of a 64.64 fixed-point number.
    pub coverage: u128,
    /// Margin for the coverage-based check.
    pub margin: u64,
}

/// Outcome of a liquidation.
#[derive(Clone, Copy, Debug)]
pub struct LiquidationResult {
    pub liquidated_amount: u64,
    pub remaining_position: u64,
    pub keeper_reward: u64,
    /// In basis points, 10000 = 1.0.
    pub new_health_factor: u64,
    pub is_fully_liquidated: bool,
}

/// A position waiting for liquidation.
#[derive(Clone, Copy, Debug)]
pub struct LiquidationCandidate {
    pub position_pubkey: [u8; 32],
    pub user: [u8; 32],
    pub health_factor: u64,
    pub liquidatable_amount: u64,
    pub priority_score: u64,
}

/// Queue of positions to liquidate, most unhealthy first.
#[derive(Clone, Debug)]
pub struct LiquidationQueue {
    pub positions: Vec<LiquidationCandidate>,
    pub total_liquidatable_value: u64,
    pub last_scan_slot: u64,
    pub scan_in_progress: bool,
}

/// Keeper reward rules.
#[derive(Clone, Copy, Debug)]
pub struct KeeperIncentiveCalculator {
    pub base_reward_bps: u16,
    pub gas_compensation: u64,
    /// In basis points, 10000 = 1.0.
    pub priority_multiplier: u64,
}

/// Integer part of 1/coverage, with 100% where coverage is zero or its
/// inverse does not fit the fixed-point type.
pub open spec fn spec_coverage_threshold(coverage: u128) -> int {
    if coverage > 1 {
        0x1_0000_0000_0000_0000int / (coverage as int)
    } else {
        10000
    }
}

/// Value of a position at its mark price.
pub open spec fn spec_position_value(p: Position) -> int {
    p.size * p.mark_price / 10000
}

/// Health factor in basis points: very high for an empty position, 1.0 for
/// a healthy one, else the margin ratio over the coverage threshold.
pub open spec fn spec_health_factor(p: Position, unhealthy: bool) -> int {
    if p.size == 0 {
        1000000
    } else if !unhealthy {
        10000
    } else if spec_position_value(p) == 0 {
        0
    } else {
        let margin_ratio = p.margin * 10000 / spec_position_value(p);
        (margin_ratio * 10000 / spec_coverage_threshold(p.coverage)) as u64 as int
    }
}

/// The health factor can be computed (no division by a zero threshold).
pub open spec fn spec_health_defined(p: Position, unhealthy: bool) -> bool {
    (p.size > 0 && unhealthy && spec_position_value(p) > 0) ==> spec_coverage_threshold(p.coverage) > 0
}

/// The position value at which collateral meets the target health.
pub open spec fn spec_target_value(p: Position) -> int {
    p.collateral * 10000 / (1100 * p.maintenance_margin_ratio / 10000)
}

/// Amount of a position beyond what its collateral supports at the target
/// health; nothing for a healthy one.
pub open spec fn spec_unhealthy_amount(p: Position, unhealthy: bool) -> int {
    if spec_health_factor(p, unhealthy) >= 10000 {
        0
    } else if spec_position_value(p) > spec_target_value(p) {
        ((spec_position_value(p) - spec_target_value(p)) * 10000 / (p.mark_price as int)) as u64 as int
    } else {
        0
    }
}

/// The unhealthy amount can be computed.
pub open spec fn spec_unhealthy_defined(p: Position, unhealthy: bool) -> bool {
    &&& spec_health_defined(p, unhealthy)
    &&& spec_health_factor(p, unhealthy) < 10000 ==> 1100 * p.maintenance_margin_ratio / 10000 > 0
}

/// Amount one liquidation closes: the factor's share of the unhealthy
/// amount, no more than requested or held, and the whole of a small
/// remainder up to the minimum.
pub open spec fn spec_partial_amount(p: Position, requested: u64, factor: u64, unhealthy: bool) -> int {
    let partial = (spec_unhealthy_amount(p, unhealthy) * factor / 10000) as u64 as int;
    let m1 = if partial < requested { partial } else { requested as int };
    let amount = if m1 < p.size { m1 } else { p.size as int };
    if amount < MIN_LIQUIDATION_AMOUNT {
        if p.size < MIN_LIQUIDATION_AMOUNT { p.size as int } else { MIN_LIQUIDATION_AMOUNT as int }
    } else {
        amount
    }
}

/// Collateral left after closing `liquidated` of `original_size`.
pub open spec fn spec_remaining_collateral(collateral: u64, liquidated: u64, original_size: u64) -> int {
    if original_size == 0 {
        collateral as int
    } else {
        let reduction = ((collateral as int) * (liquidated as int) / (original_size as int)) as u64;
        if collateral >= reduction { collateral - reduction } else { 0 }
    }
}

/// Why a liquidation is refused, if it is.
pub open spec fn spec_liquidation_refusal(
    e: PartialLiquidationEngine,
    requested: u64,
    unhealthy: bool,
) -> Option<BettingPlatformError> {
    if !unhealthy {
        Some(BettingPlatformError::PositionHealthy)
    } else if requested < MIN_LIQUIDATION_AMOUNT {
        Some(BettingPlatformError::LiquidationTooSmall)
    } else if !e.partial_liquidation_enabled && !e.emergency_liquidation_mode {
        Some(BettingPlatformError::PartialLiquidationDisabled)
    } else {
        None
    }
}

/// Share closed per liquidation: 90% in emergency mode, else 50%.
pub open spec fn spec_liquidation_factor(e: PartialLiquidationEngine) -> u64 {
    if e.emergency_liquidation_mode { MAX_LIQUIDATION_CLOSE_FACTOR } else { PARTIAL_LIQUIDATION_BPS as u64 }
}

/// Keeper reward for a liquidated amount (5%).
pub open spec fn spec_keeper_reward(amount: int) -> int {
    amount * 500 / 10000
}

fn coverage_threshold(coverage: u128) -> (r: u128)
    ensures
        r == spec_coverage_threshold(coverage),
{
    if coverage > 1 {
        let q: u128 = 0xffff_ffff_ffff_ffff_ffff_ffff_ffff_ffffu128 / coverage;
        let rem: u128 = 0xffff_ffff_ffff_ffff_ffff_ffff_ffff_ffffu128 % coverage;
        // 2^128 / c, computed as (2^128 - 1) / c plus one where the remainder wraps
        assert(q <= 0x7fff_ffff_ffff_ffff_ffff_ffff_ffff_ffffu128) by (nonlinear_arith)
            requires
                coverage > 1,
                q == 0xffff_ffff_ffff_ffff_ffff_ffff_ffff_ffffu128 / coverage,
        ;
        let full: u128 = if rem + 1 == coverage { q + 1 } else { q };
        assert(full == 0x1_0000_0000_0000_0000_0000_0000_0000_0000int / (coverage as int)) by (nonlinear_arith)
            requires
                coverage > 1,
                q == 0xffff_ffff_ffff_ffff_ffff_ffff_ffff_ffffu128 / coverage,
                rem == 0xffff_ffff_ffff_ffff_ffff_ffff_ffff_ffffu128 % coverage,
                full == (if rem + 1 == coverage { q + 1 } else { q as int }),
        ;
        let r = full / 0x1_0000_0000_0000_0000u128;
        assert(r == 0x1_0000_0000_0000_0000int / (coverage as int)) by (nonlinear_arith)
            requires
                coverage > 1,
                full == 0x1_0000_0000_0000_0000_0000_0000_0000_0000int / (coverage as int),
                r == (full as int) / 0x1_0000_0000_0000_0000int,
        ;
        r
    } else {
        10000
    }
}

impl PartialLiquidationEngine {
    /// Serialized size.
    pub const SIZE: usize = 42;

    /// Resets the engine with partial liquidation on.
    pub fn initialize(&mut self) -> (r: Result<(), BettingPlatformError>)
        ensures
            r is Ok,
            final(self).total_liquidations_processed == 0,
            final(self).total_value_liquidated == 0,
            final(self).active_liquidations == 0,
            final(self).keeper_rewards_paid == 0,
            final(self).partial_liquidation_enabled,
            !final(self).emergency_liquidation_mode,
            final(self).last_liquidation_slot == 0,
            final(self).liquidation_queue_size == 0,
    {
        self.total_liquidations_processed = 0;
        self.total_value_liquidated = 0;
        self.active_liquidations = 0;
        self.keeper_rewards_paid = 0;
        self.partial_liquidation_enabled = true;
        self.emergency_liquidation_mode = false;
        self.last_liquidation_slot = 0;
        self.liquidation_queue_size = 0;
        Ok(())
    }

    /// Health factor of a position in basis points, given the verdict of
    /// the coverage-based check on it: margin ratio over the integer part
    /// of 1/coverage when unhealthy.
    pub fn calculate_health_factor(&self, position: &Position, unhealthy: bool) -> (r: u64)
        requires
            spec_health_defined(*position, unhealthy),
        ensures
            r == spec_health_factor(*position, unhealthy),
    {
        if position.size == 0 {
            return 1000000;
        }
        if !unhealthy {
            return 10000;
        }
        assert(position.size as u128 * position.mark_price as u128 <= 0xffff_ffff_ffff_ffff * 0xffff_ffff_ffff_ffff) by (
        nonlinear_arith);
        let position_value = (position.size as u128 * position.mark_price as u128) / 10000;
        if position_value == 0 {
            return 0;
        }
        assert(position.margin as u128 * 10000 <= 0xffff_ffff_ffff_ffff * 10000) by (nonlinear_arith);
        let margin_ratio = (position.margin as u128 * 10000) / position_value;
        assert(margin_ratio <= position.margin * 10000) by (nonlinear_arith)
            requires
                position_value >= 1,
                margin_ratio == ((position.margin as int) * 10000) / (position_value as int),
        ;
        assert(margin_ratio * 10000 <= 0xffff_ffff_ffff_ffff * 100_000_000) by (nonlinear_arith)
            requires
                margin_ratio <= position.margin * 10000,
        ;
        let threshold = coverage_threshold(position.coverage);
        let health_factor = (margin_ratio * 10000) / threshold;
        health_factor as u64
    }

    /// Amount of a position beyond what its collateral supports at health
    /// 1.1, given the verdict of the coverage-based check on it.
    pub fn calculate_unhealthy_amount(&self, position: &Position, unhealthy: bool) -> (r: u64)
        requires
            spec_unhealthy_defined(*position, unhealthy),
        ensures
            r == spec_unhealthy_amount(*position, unhealthy),
    {
        let health_factor = self.calculate_health_factor(position, unhealthy);
        if health_factor >= 10000 {
            return 0;
        }
        let target_health_ratio: u128 = (MIN_HEALTH_AFTER_LIQUIDATION as u128 * 10000) / 10000;
        let current_collateral = position.collateral as u128;
        assert(position.size as u128 * position.mark_price as u128 <= 0xffff_ffff_ffff_ffff * 0xffff_ffff_ffff_ffff) by (
        nonlinear_arith);
        let position_value = (position.size as u128 * position.mark_price as u128) / 10000;
        assert(target_health_ratio * position.maintenance_margin_ratio as u128 <= 1100 * 0xffff_ffff_ffff_ffff) by (
        nonlinear_arith)
            requires
                target_health_ratio == 1100,
        ;
        let divisor = target_health_ratio * position.maintenance_margin_ratio as u128 / 10000;
        let target_position_value = (current_collateral * 10000) / divisor;
        if position_value > target_position_value {
            let unhealthy_value = position_value - target_position_value;
            assert(position.mark_price > 0) by (nonlinear_arith)
                requires
                    position_value == (position.size as u128 * position.mark_price as u128) / 10000,
                    position_value > 0,
            ;
            assert(unhealthy_value * 10000 <= 0xffff_ffff_ffff_ffff * 0xffff_ffff_ffff_ffff) by (nonlinear_arith)
                requires
                    unhealthy_value <= position_value,
                    position_value == (position.size as u128 * position.mark_price as u128) / 10000,
            ;
            let unhealthy_amount = ((unhealthy_value * 10000) / position.mark_price as u128) as u64;
            unhealthy_amount
        } else {
            0
        }
    }

    /// Amount one liquidation closes, given the verdict of the
    /// coverage-based check on the position. The unhealthy amount is scaled
    /// by `liquidation_factor` basis points in 128 bits and cut to 64 bits.
    pub fn calculate_partial_amount(
        &self,
        position: &Position,
        requested_amount: u64,
        liquidation_factor: u64,
        unhealthy: bool,
    ) -> (r: u64)
        requires
            spec_unhealthy_defined(*position, unhealthy),
        ensures
            r == spec_partial_amount(*position, requested_amount, liquidation_factor, unhealthy),
            r <= position.size,
    {
        let unhealthy_amount = self.calculate_unhealthy_amount(position, unhealthy);
        assert(unhealthy_amount as u128 * liquidation_factor as u128 <= 0xffff_ffff_ffff_ffff * 0xffff_ffff_ffff_ffff)
            by (nonlinear_arith);
        let partial_amount = (unhealthy_amount as u128 * liquidation_factor as u128 / 10000) as u64;
        let m1 = if partial_amount < requested_amount { partial_amount } else { requested_amount };
        let liquidation_amount = if m1 < position.size { m1 } else { position.size };
        if liquidation_amount < MIN_LIQUIDATION_AMOUNT {
            return if position.size < MIN_LIQUIDATION_AMOUNT { position.size } else { MIN_LIQUIDATION_AMOUNT };
        }
        liquidation_amount
    }

    /// Collateral left after closing `liquidated_amount` of `original_size`:
    /// reduced in proportion.
    pub fn calculate_remaining_collateral(current_collateral: u64, liquidated_amount: u64, original_size: u64) -> (r: u64)
        ensures
            r == spec_remaining_collateral(current_collateral, liquidated_amount, original_size),
    {
        if original_size == 0 {
            return current_collateral;
        }
        assert(current_collateral as u128 * liquidated_amount as u128 <= 0xffff_ffff_ffff_ffff * 0xffff_ffff_ffff_ffff)
            by (nonlinear_arith);
        let collateral_reduction = (current_collateral as u128 * liquidated_amount as u128 / original_size as u128) as u64;
        current_collateral.saturating_sub(collateral_reduction)
    }

    /// A liquidation needs an unhealthy position, at least the minimum
    /// amount, and partial liquidation or emergency mode on.
    pub fn validate_liquidation(&self, requested_amount: u64, unhealthy: bool) -> (r: Result<(), BettingPlatformError>)
        ensures
            r == (match spec_liquidation_refusal(*self, requested_amount, unhealthy) {
                Some(e) => Err(e),
                None => Ok(()),
            }),
    {
        if !unhealthy {
            return Err(BettingPlatformError::PositionHealthy);
        }
        if requested_amount < MIN_LIQUIDATION_AMOUNT {
            return Err(BettingPlatformError::LiquidationTooSmall);
        }
        if !self.partial_liquidation_enabled && !self.emergency_liquidation_mode {
            return Err(BettingPlatformError::PartialLiquidationDisabled);
        }
        Ok(())
    }

    /// Liquidates part of a position. `unhealthy` is the coverage-based
    /// check's verdict on the position as it is, `unhealthy_after` on the
    /// position as the liquidation leaves it. The position shrinks by the
    /// partial amount and its collateral in proportion; the keeper earns 5%.
    pub fn process_liquidation(
        &mut self,
        position: &mut Position,
        liquidation_amount: u64,
        _keeper: &[u8; 32],
        unhealthy: bool,
        unhealthy_after: bool,
        current_slot: u64,
    ) -> (r: Result<LiquidationResult, BettingPlatformError>)
        requires
            spec_liquidation_refusal(*old(self), liquidation_amount, unhealthy) is None ==> {
                let amount = spec_partial_amount(*old(position), liquidation_amount, spec_liquidation_factor(*old(self)), unhealthy);
                let after = Position { size: (old(position).size - amount) as u64, ..*old(position) };
                &&& spec_unhealthy_defined(*old(position), unhealthy)
                &&& spec_health_defined(after, unhealthy_after)
                &&& old(self).total_liquidations_processed < u64::MAX
                &&& old(self).total_value_liquidated + amount <= u64::MAX
                &&& old(self).keeper_rewards_paid + spec_keeper_reward(amount) <= u64::MAX
            },
        ensures
            match spec_liquidation_refusal(*old(self), liquidation_amount, unhealthy) {
                Some(e) => r == Err::<LiquidationResult, BettingPlatformError>(e) && *final(self) == *old(self) && *final(position)
                    == *old(position),
                None => {
                    let amount = spec_partial_amount(*old(position), liquidation_amount, spec_liquidation_factor(*old(self)), unhealthy);
                    let reward = spec_keeper_reward(amount);
                    let new_size = old(position).size - amount;
                    &&& *final(position) == Position {
                        size: new_size as u64,
                        collateral: spec_remaining_collateral(old(position).collateral, amount as u64, old(position).size) as u64,
                        ..*old(position)
                    }
                    &&& *final(self) == PartialLiquidationEngine {
                        total_liquidations_processed: (old(self).total_liquidations_processed + 1) as u64,
                        total_value_liquidated: (old(self).total_value_liquidated + amount) as u64,
                        keeper_rewards_paid: (old(self).keeper_rewards_paid + reward) as u64,
                        last_liquidation_slot: current_slot,
                        ..*old(self)
                    }
                    &&& r == Ok::<LiquidationResult, BettingPlatformError>(
                        LiquidationResult {
                            liquidated_amount: amount as u64,
                            remaining_position: new_size as u64,
                            keeper_reward: reward as u64,
                            new_health_factor: spec_health_factor(*final(position), unhealthy_after) as u64,
                            is_fully_liquidated: new_size == 0,
                        },
                    )
                },
            },
    {
        match self.validate_liquidation(liquidation_amount, unhealthy) {
            Err(e) => return Err(e),
            Ok(()) => {},
        }
        let liquidation_factor = if self.emergency_liquidation_mode {
            MAX_LIQUIDATION_CLOSE_FACTOR
        } else {
            PARTIAL_LIQUIDATION_BPS as u64
        };
        let actual = self.calculate_partial_amount(position, liquidation_amount, liquidation_factor, unhealthy);
        assert(actual as u128 * 500 <= 0xffff_ffff_ffff_ffff * 500) by (nonlinear_arith);
        let keeper_reward = (actual as u128 * LIQUIDATION_INCENTIVE_BPS as u128 / 10000) as u64;
        let original_size = position.size;
        position.size = position.size.saturating_sub(actual);
        position.collateral = Self::calculate_remaining_collateral(position.collateral, actual, position.size + actual);
        self.total_liquidations_processed = self.total_liquidations_processed + 1;
        self.total_value_liquidated = self.total_value_liquidated + actual;
        self.keeper_rewards_paid = self.keeper_rewards_paid + keeper_reward;
        self.last_liquidation_slot = current_slot;
        let new_health_factor = self.calculate_health_factor(position, unhealthy_after);
        Ok(
            LiquidationResult {
                liquidated_amount: actual,
                remaining_position: position.size,
                keeper_reward,
                new_health_factor,
                is_fully_liquidated: position.size == 0,
            },
        )
    }
}

/// `x` inserted into a list ordered by decreasing priority, after every
/// entry with at least its priority.
pub open spec fn spec_insert_by_priority(s: Seq<LiquidationCandidate>, x: LiquidationCandidate) -> Seq<LiquidationCandidate>
    decreases s.len(),
{
    if s.len() == 0 {
        seq![x]
    } else if s[0].priority_score >= x.priority_score {
        seq![s[0]] + spec_insert_by_priority(s.drop_first(), x)
    } else {
        seq![x] + s
    }
}

/// Stable sort by decreasing priority: ties keep their order.
pub open spec fn spec_sort_by_priority(s: Seq<LiquidationCandidate>) -> Seq<LiquidationCandidate>
    decreases s.len(),
{
    if s.len() == 0 {
        s
    } else {
        spec_insert_by_priority(spec_sort_by_priority(s.drop_last()), s.last())
    }
}

/// Priority of a candidate: how far its health factor is below 1.0.
pub open spec fn spec_priority(health_factor: u64) -> u64 {
    if health_factor < 10000 { (10000 - health_factor) as u64 } else { 0 }
}

/// Summed liquidatable amount of a list of candidates.
pub open spec fn spec_liquidatable_sum(s: Seq<LiquidationCandidate>) -> int
    decreases s.len(),
{
    if s.len() == 0 {
        0
    } else {
        spec_liquidatable_sum(s.drop_last()) + s.last().liquidatable_amount
    }
}

proof fn lemma_insert_by_priority_at(s: Seq<LiquidationCandidate>, x: LiquidationCandidate, p: int)
    requires
        0 <= p <= s.len(),
        forall|i: int| 0 <= i < p ==> s[i].priority_score >= x.priority_score,
        p < s.len() ==> s[p].priority_score < x.priority_score,
    ensures
        spec_insert_by_priority(s, x) == s.insert(p, x),
    decreases s.len(),
{
    if s.len() == 0 {
        assert(s.insert(p, x) =~= seq![x]);
    } else if p == 0 {
        assert(s.insert(0, x) =~= seq![x] + s);
    } else {
        lemma_insert_by_priority_at(s.drop_first(), x, p - 1);
        assert(s.insert(p, x) =~= seq![s[0]] + s.drop_first().insert(p - 1, x));
    }
}

fn insert_by_priority(v: &mut Vec<LiquidationCandidate>, x: LiquidationCandidate)
    ensures
        final(v)@ == spec_insert_by_priority(old(v)@, x),
{
    let mut p: usize = 0;
    while p < v.len() && v[p].priority_score >= x.priority_score
        invariant
            p <= v@.len(),
            forall|i: int| 0 <= i < p ==> v@[i].priority_score >= x.priority_score,
        decreases v@.len() - p,
    {
        p = p + 1;
    }
    proof {
        lemma_insert_by_priority_at(v@, x, p as int);
    }
    v.insert(p, x);
}

proof fn lemma_liquidatable_sum_take(s: Seq<LiquidationCandidate>, j: int)
    requires
        0 <= j <= s.len(),
    ensures
        spec_liquidatable_sum(s.take(j)) <= spec_liquidatable_sum(s),
        j < s.len() ==> spec_liquidatable_sum(s.take(j + 1)) == spec_liquidatable_sum(s.take(j)) + s[j].liquidatable_amount,
    decreases s.len() - j,
{
    if j < s.len() {
        assert(s.take(j + 1).drop_last() =~= s.take(j));
        lemma_liquidatable_sum_take(s, j + 1);
    } else {
        assert(s.take(j) =~= s);
    }
}

/// Whether a list is ordered by decreasing priority.
pub open spec fn spec_by_priority(s: Seq<LiquidationCandidate>) -> bool {
    forall|i: int, j: int| 0 <= i < j < s.len() ==> s[i].priority_score >= s[j].priority_score
}

proof fn lemma_insert_by_priority_sorted(s: Seq<LiquidationCandidate>, x: LiquidationCandidate)
    requires
        spec_by_priority(s),
    ensures
        spec_by_priority(spec_insert_by_priority(s, x)),
        spec_insert_by_priority(s, x).len() == s.len() + 1,
        forall|i: int| 0 <= i < spec_insert_by_priority(s, x).len() ==> (spec_insert_by_priority(s, x)[i] == x || s.contains(
            #[trigger] spec_insert_by_priority(s, x)[i],
        )),
    decreases s.len(),
{
    if s.len() > 0 && s[0].priority_score >= x.priority_score {
        let t = s.drop_first();
        lemma_insert_by_priority_sorted(t, x);
        let r = spec_insert_by_priority(s, x);
        assert(r == seq![s[0]] + spec_insert_by_priority(t, x));
        assert forall|i: int| 0 <= i < r.len() implies (r[i] == x || s.contains(#[trigger] r[i])) by {
            if i > 0 {
                let e = spec_insert_by_priority(t, x)[i - 1];
                assert(r[i] == e);
                if e != x {
                    let k = choose|k: int| 0 <= k < t.len() && t[k] == e;
                    assert(s[k + 1] == e);
                }
            } else {
                assert(s[0] == r[0]);
            }
        }
        assert forall|i: int, j: int| 0 <= i < j < r.len() implies r[i].priority_score >= r[j].priority_score by {
            if i == 0 {
                let e = r[j];
                if e != x {
                    let k = choose|k: int| 0 <= k < s.len() && s[k] == e;
                    if k > 0 {
                        assert(s[0].priority_score >= s[k].priority_score);
                    }
                }
            }
        }
    } else if s.len() > 0 {
        let r = spec_insert_by_priority(s, x);
        assert(r == seq![x] + s);
        assert forall|i: int| 0 <= i < r.len() implies (r[i] == x || s.contains(#[trigger] r[i])) by {
            if i > 0 {
                assert(r[i] == s[i - 1]);
            }
        }
    }
}

proof fn lemma_sort_by_priority_sorted(s: Seq<LiquidationCandidate>)
    ensures
        spec_by_priority(spec_sort_by_priority(s)),
        spec_sort_by_priority(s).len() == s.len(),
    decreases s.len(),
{
    if s.len() > 0 {
        lemma_sort_by_priority_sorted(s.drop_last());
        lemma_insert_by_priority_sorted(spec_sort_by_priority(s.drop_last()), s.last());
    }
}

/// The liquidation queue stays ordered by decreasing priority and never
/// holds more than 100 candidates, whatever was queued before.
pub proof fn lemma_queue_ordered_and_bounded(queued: Seq<LiquidationCandidate>, c: LiquidationCandidate)
    ensures
        ({
            let sorted = spec_sort_by_priority(queued.push(c));
            let kept = if sorted.len() > MAX_QUEUE_LEN { sorted.take(MAX_QUEUE_LEN as int) } else { sorted };
            &&& spec_by_priority(kept)
            &&& kept.len() <= MAX_QUEUE_LEN
            &&& kept.len() == (if queued.len() + 1 > MAX_QUEUE_LEN { MAX_QUEUE_LEN as int } else { queued.len() + 1int })
        }),
{
    lemma_sort_by_priority_sorted(queued.push(c));
}

impl LiquidationQueue {
    /// Queues a position: its priority is how far its health factor is
    /// below 1.0; the queue is kept by decreasing priority (ties in arrival
    /// order) and cut to its first 100 entries.
    pub fn add_candidate(
        &mut self,
        position_pubkey: &[u8; 32],
        position: &Position,
        health_factor: u64,
        liquidatable_amount: u64,
    ) -> (r: Result<(), BettingPlatformError>)
        requires
            old(self).total_liquidatable_value + liquidatable_amount <= u64::MAX,
        ensures
            r is Ok,
            ({
                let c = LiquidationCandidate {
                    position_pubkey: *position_pubkey,
                    user: position.user,
                    health_factor,
                    liquidatable_amount,
                    priority_score: spec_priority(health_factor),
                };
                let sorted = spec_sort_by_priority(old(self).positions@.push(c));
                final(self).positions@ == (if sorted.len() > MAX_QUEUE_LEN { sorted.take(MAX_QUEUE_LEN as int) } else { sorted })
            }),
            final(self).total_liquidatable_value == old(self).total_liquidatable_value + liquidatable_amount,
            final(self).last_scan_slot == old(self).last_scan_slot,
            final(self).scan_in_progress == old(self).scan_in_progress,
    {
        let priority_score = if health_factor < 10000 { 10000 - health_factor } else { 0 };
        let candidate = LiquidationCandidate {
            position_pubkey: *position_pubkey,
            user: position.user,
            health_factor,
            liquidatable_amount,
            priority_score,
        };
        self.positions.push(candidate);
        self.total_liquidatable_value = self.total_liquidatable_value + liquidatable_amount;
        let ghost all = self.positions@;
        let mut sorted: Vec<LiquidationCandidate> = Vec::new();
        let mut i: usize = 0;
        while i < self.positions.len()
            invariant
                i <= all.len(),
                all == self.positions@,
                sorted@ == spec_sort_by_priority(all.take(i as int)),
            decreases all.len() - i,
        {
            proof {
                assert(all.take(i + 1).drop_last() =~= all.take(i as int));
            }
            insert_by_priority(&mut sorted, self.positions[i]);
            i = i + 1;
        }
        proof {
            assert(all.take(i as int) =~= all);
        }
        if sorted.len() > MAX_QUEUE_LEN {
            sorted.truncate(MAX_QUEUE_LEN);
        }
        self.positions = sorted;
        Ok(())
    }

    /// Takes up to `max_batch_size` candidates from the front; the total
    /// is recomputed over those left.
    pub fn get_next_batch(&mut self, max_batch_size: usize) -> (r: Vec<LiquidationCandidate>)
        requires
            spec_liquidatable_sum(old(self).positions@.skip(
                if max_batch_size < old(self).positions@.len() { max_batch_size as int } else { old(self).positions@.len() as int },
            )) <= u64::MAX,
        ensures
            ({
                let n = if max_batch_size < old(self).positions@.len() {
                    max_batch_size as int
                } else {
                    old(self).positions@.len() as int
                };
                &&& r@ == old(self).positions@.take(n)
                &&& final(self).positions@ == old(self).positions@.skip(n)
                &&& final(self).total_liquidatable_value == spec_liquidatable_sum(old(self).positions@.skip(n))
            }),
            final(self).last_scan_slot == old(self).last_scan_slot,
            final(self).scan_in_progress == old(self).scan_in_progress,
    {
        let batch_size = if max_batch_size < self.positions.len() { max_batch_size } else { self.positions.len() };
        let ghost all = self.positions@;
        let mut batch: Vec<LiquidationCandidate> = Vec::new();
        let mut rest: Vec<LiquidationCandidate> = Vec::new();
        let mut i: usize = 0;
        while i < self.positions.len()
            invariant
                i <= all.len(),
                batch_size <= all.len(),
                all == self.positions@,
                batch@ == all.take(if i < batch_size { i as int } else { batch_size as int }),
                rest@ == (if i <= batch_size { Seq::<LiquidationCandidate>::empty() } else { all.subrange(
                    batch_size as int,
                    i as int,
                ) }),
            decreases all.len() - i,
        {
            if i < batch_size {
                batch.push(self.positions[i]);
                assert(batch@ =~= all.take(i + 1));
            } else {
                rest.push(self.positions[i]);
                assert(rest@ =~= all.subrange(batch_size as int, i + 1));
            }
            i = i + 1;
        }
        proof {
            if i <= batch_size {
                assert(rest@ =~= all.skip(batch_size as int));
            } else {
                assert(rest@ =~= all.skip(batch_size as int));
            }
        }
        let ghost left = rest@;
        let mut total: u64 = 0;
        let mut k: usize = 0;
        while k < rest.len()
            invariant
                k <= left.len(),
                left == rest@,
                spec_liquidatable_sum(left) <= u64::MAX,
                total == spec_liquidatable_sum(left.take(k as int)),
            decreases left.len() - k,
        {
            proof {
                lemma_liquidatable_sum_take(left, k as int);
                lemma_liquidatable_sum_take(left, k + 1);
            }
            total = total + rest[k].liquidatable_amount;
            k = k + 1;
        }
        proof {
            assert(left.take(k as int) =~= left);
        }
        self.positions = rest;
        self.total_liquidatable_value = total;
        batch
    }
}

impl KeeperIncentiveCalculator {
    /// Keeper reward: the base share of the amount, a bonus on it by
    /// priority (priority in percent, scaled by the multiplier), and gas
    /// compensation up to its cap.
    pub fn calculate_reward(&self, liquidation_amount: u64, priority_score: u64, gas_estimate: u64) -> (r: u64)
        requires
            ({
                let base = (liquidation_amount * self.base_reward_bps / 10000) as u64;
                let bonus = (base * self.priority_multiplier * priority_score / 100 / 10000) as u64;
                let gas = if gas_estimate < self.gas_compensation { gas_estimate } else { self.gas_compensation };
                &&& base * self.priority_multiplier * priority_score <= u128::MAX
                &&& base + bonus + gas <= u64::MAX
            }),
        ensures
            ({
                let base = (liquidation_amount * self.base_reward_bps / 10000) as u64;
                let bonus = (base * self.priority_multiplier * priority_score / 100 / 10000) as u64;
                let gas = if gas_estimate < self.gas_compensation { gas_estimate } else { self.gas_compensation };
                r == base + bonus + gas
            }),
    {
        assert(liquidation_amount as u128 * self.base_reward_bps as u128 <= 0xffff_ffff_ffff_ffff * 0xffff) by (nonlinear_arith);
        let base_reward = (liquidation_amount as u128 * self.base_reward_bps as u128 / 10000) as u64;
        assert(base_reward as u128 * self.priority_multiplier as u128 <= 0xffff_ffff_ffff_ffff * 0xffff_ffff_ffff_ffff) by (
        nonlinear_arith);
        let priority_bonus = (base_reward as u128 * self.priority_multiplier as u128 * priority_score as u128 / 100 / 10000) as u64;
        let gas = if gas_estimate < self.gas_compensation { gas_estimate } else { self.gas_compensation };
        base_reward + priority_bonus + gas
    }
}

} // verus!
