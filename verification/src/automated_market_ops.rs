//! Automated market operations: market making for thin markets, exposure
//! rebalancing and hedging, with inventory, risk and performance helpers.
use vstd::prelude::*;
use crate::bytes::{read_u64_le, spec_u64_from_le};
use crate::error::BettingPlatformError;

verus! {

/// Imbalance (basis points) that triggers a rebalance.
pub const REBALANCE_THRESHOLD_BPS: u16 = 500;
/// Liquidity ratio under which a market gets market making (0.2).
pub const MIN_LIQUIDITY_RATIO: u64 = 2000;
/// Largest share of exposure one market may carry (10%).
pub const MAX_EXPOSURE_PER_MARKET: u64 = 1000;
/// Exposure share of the vault that triggers a hedge (80%).
pub const AUTO_HEDGE_THRESHOLD: u64 = 8000;
/// Market-making spread (0.3%).
pub const MARKET_MAKER_SPREAD_BPS: u16 = 30;
/// Target inventory ratio (50%).
pub const INVENTORY_TARGET_RATIO: u64 = 5000;
/// Smallest market-making size ($100).
pub const MIN_MM_SIZE: u64 = 100_000_000;

/// Automated market operations engine.
#[derive(Clone, Copy, Debug)]
pub struct AutomatedMarketOps {
    pub operations_enabled: bool,
    pub market_making_active: bool,
    pub auto_rebalance_active: bool,
    pub hedge_management_active: bool,
    pub total_markets_managed: u64,
    pub total_rebalances: u64,
    pub total_hedges_placed: u64,
    pub last_operation_slot: u64,
    pub operation_interval: u64,
}

/// Market information.
#[derive(Clone, Copy, Debug)]
pub struct MarketInfo {
    pub market_id: [u8; 32],
    /// In basis points where 10000 = $1.
    pub bid_price: u64,
    pub ask_price: u64,
    pub net_exposure: i64,
    pub liquidity_ratio: u64,
    pub volume_24h: u64,
    pub volatility_bps: u64,
}

/// Vault state.
#[derive(Clone, Copy, Debug)]
pub struct VaultState {
    pub total_value: u64,
    pub available_liquidity: u64,
    pub total_exposure: u64,
    pub risk_utilization: u64,
}

/// Market-making action type.
#[derive(Clone, Copy, Debug, PartialEq, Eq, Structural)]
pub enum MMActionType {
    ProvideLiquidity,
    AdjustSpread,
    CancelOrders,
}

/// Market-making action.
#[derive(Clone, Copy, Debug)]
pub struct MarketMakingAction {
    pub market_id: [u8; 32],
    pub bid_price: u64,
    pub ask_price: u64,
    pub size: u64,
    pub action_type: MMActionType,
}

/// Rebalance direction.
#[derive(Clone, Copy, Debug, PartialEq, Eq, Structural)]
pub enum RebalanceDirection {
    ReduceLong,
    ReduceShort,
    Neutral,
}

/// Rebalance action.
#[derive(Clone, Copy, Debug)]
pub struct RebalanceAction {
    pub market_id: [u8; 32],
    pub current_exposure: u64,
    pub target_exposure: u64,
    pub amount_to_rebalance: u64,
    pub direction: RebalanceDirection,
}

/// Hedge type.
#[derive(Clone, Copy, Debug, PartialEq, Eq, Structural)]
pub enum HedgeType {
    Long,
    Short,
    Spread,
}

/// Hedge action.
#[derive(Clone, Debug)]
pub struct HedgeAction {
    pub market_id: [u8; 32],
    pub exposure_to_hedge: i64,
    pub hedge_amount: u64,
    pub hedge_type: HedgeType,
    pub correlation_markets: Vec<[u8; 32]>,
}

/// Result of one round of operations.
#[derive(Clone, Debug)]
pub struct OperationResult {
    pub market_making_actions: Vec<MarketMakingAction>,
    pub rebalance_actions: Vec<RebalanceAction>,
    pub hedge_actions: Vec<HedgeAction>,
}

/// Absolute exposure.
pub open spec fn spec_abs(x: i64) -> int {
    if x >= 0 { x as int } else { -(x as int) }
}

/// Whether operations are due at `slot`.
pub open spec fn spec_due(o: AutomatedMarketOps, slot: u64) -> bool {
    slot >= o.last_operation_slot + o.operation_interval
}

/// Market-making size: the per-market cap scaled by volume (per $1, up to
/// 100) and calmness (100 less volatility), at least $100.
pub open spec fn spec_mm_size(m: MarketInfo, max_size: u64) -> int {
    let vf = if m.volume_24h / 1_000_000 < 100 { m.volume_24h / 1_000_000 } else { 100 };
    let volf = 100 - (if m.volatility_bps < 100 { m.volatility_bps as int } else { 100 });
    let size = max_size * vf * volf / 10_000;
    if size > MIN_MM_SIZE { size } else { MIN_MM_SIZE as int }
}

/// Market-making quote around the mid price, sized to the vault.
pub open spec fn spec_mm_action(m: MarketInfo, v: VaultState) -> MarketMakingAction {
    let mid = (m.bid_price + m.ask_price) / 2;
    MarketMakingAction {
        market_id: m.market_id,
        bid_price: (mid * 9985 / 10000) as u64,
        ask_price: (mid * 10015 / 10000) as u64,
        size: spec_mm_size(m, v.available_liquidity / 10) as u64,
        action_type: MMActionType::ProvideLiquidity,
    }
}

/// Sum of absolute exposures.
pub open spec fn spec_total_exposure(ms: Seq<MarketInfo>) -> int
    decreases ms.len(),
{
    if ms.len() == 0 { 0 } else { spec_total_exposure(ms.drop_last()) + spec_abs(ms.last().net_exposure) }
}

/// Whether a market carries more than its share of the exposure.
pub open spec fn spec_overexposed(m: MarketInfo, total: int) -> bool {
    (if total > 0 { spec_abs(m.net_exposure) * 10000 / total } else { 0 }) > MAX_EXPOSURE_PER_MARKET
}

/// Rebalance bringing a market down to 10% of the vault.
pub open spec fn spec_rebalance_action(m: MarketInfo, v: VaultState) -> RebalanceAction {
    let target = v.total_value * MAX_EXPOSURE_PER_MARKET / 10000;
    let current = spec_abs(m.net_exposure);
    RebalanceAction {
        market_id: m.market_id,
        current_exposure: current as u64,
        target_exposure: target as u64,
        amount_to_rebalance: (if current > target { current - target } else { 0 }) as u64,
        direction: if m.net_exposure > 0 { RebalanceDirection::ReduceLong } else { RebalanceDirection::ReduceShort },
    }
}

/// Whether a market's exposure exceeds 80% of the vault.
pub open spec fn spec_needs_hedge(m: MarketInfo, v: VaultState) -> bool {
    spec_abs(m.net_exposure) * 10000 / (v.total_value as int) > AUTO_HEDGE_THRESHOLD
}

/// Whether `h` hedges 80% of a market's exposure in the opposite direction.
pub open spec fn spec_hedge_of(h: HedgeAction, m: MarketInfo) -> bool {
    &&& h.market_id == m.market_id
    &&& h.exposure_to_hedge == m.net_exposure
    &&& h.hedge_amount == spec_abs(m.net_exposure) * 8 / 10
    &&& h.hedge_type == (if m.net_exposure > 0 { HedgeType::Short } else { HedgeType::Long })
    &&& h.correlation_markets@.len() == 0
}

/// Inputs on which a round computes without overflow or division by zero.
pub open spec fn spec_round_defined(o: AutomatedMarketOps, ms: Seq<MarketInfo>, v: VaultState) -> bool {
    &&& forall|i: int| 0 <= i < ms.len() ==> #[trigger] ms[i].net_exposure != i64::MIN
    &&& (o.market_making_active ==> forall|i: int| 0 <= i < ms.len() ==> {
        &&& #[trigger] ms[i].bid_price + ms[i].ask_price <= u64::MAX
        &&& (v.available_liquidity / 10) * 10000 <= u64::MAX
    })
    &&& (o.auto_rebalance_active ==> {
        &&& spec_total_exposure(ms) <= u64::MAX
        &&& forall|i: int| 0 <= i < ms.len() ==> spec_abs(#[trigger] ms[i].net_exposure) * 10000 <= u64::MAX
        &&& v.total_value * MAX_EXPOSURE_PER_MARKET <= u64::MAX
        &&& o.total_rebalances + ms.len() <= u64::MAX
    })
    &&& (o.hedge_management_active ==> {
        &&& (ms.len() > 0 ==> v.total_value > 0)
        &&& forall|i: int| 0 <= i < ms.len() ==> spec_abs(#[trigger] ms[i].net_exposure) * 10000 <= u64::MAX
        &&& o.total_hedges_placed + ms.len() <= u64::MAX
    })
}

fn abs_exposure(x: i64) -> (r: u64)
    requires
        x != i64::MIN,
    ensures
        r == spec_abs(x),
{
    if x >= 0 { x as u64 } else { (-x) as u64 }
}

impl AutomatedMarketOps {
    pub const SIZE: usize = 1 + 1 + 1 + 1 + 8 + 8 + 8 + 8 + 8;

    /// Turns every operation on, every 150 slots (about a minute).
    pub fn initialize(&mut self) -> (r: Result<(), BettingPlatformError>)
        ensures
            r is Ok,
            *final(self) == (AutomatedMarketOps {
                operations_enabled: true,
                market_making_active: true,
                auto_rebalance_active: true,
                hedge_management_active: true,
                total_markets_managed: 0,
                total_rebalances: 0,
                total_hedges_placed: 0,
                last_operation_slot: 0,
                operation_interval: 150,
            }),
    {
        self.operations_enabled = true;
        self.market_making_active = true;
        self.auto_rebalance_active = true;
        self.hedge_management_active = true;
        self.total_markets_managed = 0;
        self.total_rebalances = 0;
        self.total_hedges_placed = 0;
        self.last_operation_slot = 0;
        self.operation_interval = 150;
        Ok(())
    }

    /// Whether a round is due: the interval has passed since the last one.
    pub fn is_operation_due(&self, current_slot: u64) -> (r: bool)
        ensures
            r == spec_due(*self, current_slot),
    {
        current_slot >= self.last_operation_slot && current_slot - self.last_operation_slot >= self.operation_interval
    }

    fn calculate_optimal_mm_size(&self, market: &MarketInfo, max_size: u64) -> (r: u64)
        requires
            max_size * 10000 <= u64::MAX,
        ensures
            r == spec_mm_size(*market, max_size),
            r >= MIN_MM_SIZE,
    {
        let v = market.volume_24h / 1_000_000;
        let volume_factor = if v < 100 { v } else { 100 };
        let vol = if market.volatility_bps < 100 { market.volatility_bps } else { 100 };
        let volatility_factor = 100 - vol;
        assert(max_size * volume_factor <= max_size * 100) by (nonlinear_arith)
            requires volume_factor <= 100;
        assert(max_size * volume_factor * volatility_factor <= max_size * 10000) by (nonlinear_arith)
            requires volume_factor <= 100, volatility_factor <= 100;
        let optimal_size = (max_size * volume_factor * volatility_factor) / 10_000;
        if optimal_size > MIN_MM_SIZE { optimal_size } else { MIN_MM_SIZE }
    }

    fn calculate_mm_action(&self, market: &MarketInfo, vault_state: &VaultState) -> (r: MarketMakingAction)
        requires
            market.bid_price + market.ask_price <= u64::MAX,
            (vault_state.available_liquidity / 10) * 10000 <= u64::MAX,
        ensures
            r == spec_mm_action(*market, *vault_state),
            r.size >= MIN_MM_SIZE,
    {
        let mid_price = (market.bid_price + market.ask_price) / 2;
        let half_spread_bps = MARKET_MAKER_SPREAD_BPS / 2;
        assert(mid_price * 10015 <= u64::MAX * 10015) by (nonlinear_arith)
            requires mid_price <= u64::MAX;
        let bid_price = (mid_price as u128 * (10000 - half_spread_bps as u128) / 10000) as u64;
        let ask_price = (mid_price as u128 * (10000 + half_spread_bps as u128) / 10000) as u64;
        let max_size = vault_state.available_liquidity / 10;
        let optimal_size = self.calculate_optimal_mm_size(market, max_size);
        MarketMakingAction { market_id: market.market_id, bid_price, ask_price, size: optimal_size, action_type: MMActionType::ProvideLiquidity }
    }

    fn execute_market_making(&self, markets: &[MarketInfo], vault_state: &VaultState) -> (r: Vec<MarketMakingAction>)
        requires
            forall|i: int| 0 <= i < markets@.len() ==> {
                &&& #[trigger] markets@[i].bid_price + markets@[i].ask_price <= u64::MAX
                &&& (vault_state.available_liquidity / 10) * 10000 <= u64::MAX
            },
        ensures
            r@ == markets@.filter(|m: MarketInfo| m.liquidity_ratio < MIN_LIQUIDITY_RATIO).map_values(
                |m: MarketInfo| spec_mm_action(m, *vault_state),
            ),
    {
        let ghost pred = |m: MarketInfo| m.liquidity_ratio < MIN_LIQUIDITY_RATIO;
        let ghost conv = |m: MarketInfo| spec_mm_action(m, *vault_state);
        let mut actions: Vec<MarketMakingAction> = Vec::new();
        let mut i: usize = 0;
        while i < markets.len()
            invariant
                i <= markets@.len(),
                pred == (|m: MarketInfo| m.liquidity_ratio < MIN_LIQUIDITY_RATIO),
                conv == (|m: MarketInfo| spec_mm_action(m, *vault_state)),
                forall|k: int| 0 <= k < markets@.len() ==> {
                    &&& #[trigger] markets@[k].bid_price + markets@[k].ask_price <= u64::MAX
                    &&& (vault_state.available_liquidity / 10) * 10000 <= u64::MAX
                },
                actions@ == markets@.subrange(0, i as int).filter(pred).map_values(conv),
            decreases markets@.len() - i,
        {
            proof {
                reveal_with_fuel(Seq::filter, 1);
                assert(markets@.subrange(0, i + 1).drop_last() =~= markets@.subrange(0, i as int));
                assert(markets@[i as int].bid_price + markets@[i as int].ask_price <= u64::MAX);
            }
            let market = &markets[i];
            if market.liquidity_ratio < MIN_LIQUIDITY_RATIO {
                let action = self.calculate_mm_action(market, vault_state);
                if action.size > 0 {
                    actions.push(action);
                }
            }
            i = i + 1;
            assert(actions@ =~= markets@.subrange(0, i as int).filter(pred).map_values(conv));
        }
        assert(markets@.subrange(0, i as int) =~= markets@);
        actions
    }

    fn execute_rebalancing(&self, markets: &[MarketInfo], vault_state: &VaultState) -> (r: Vec<RebalanceAction>)
        requires
            forall|i: int| 0 <= i < markets@.len() ==> #[trigger] markets@[i].net_exposure != i64::MIN,
            spec_total_exposure(markets@) <= u64::MAX,
            forall|i: int| 0 <= i < markets@.len() ==> spec_abs(#[trigger] markets@[i].net_exposure) * 10000 <= u64::MAX,
            vault_state.total_value * MAX_EXPOSURE_PER_MARKET <= u64::MAX,
        ensures
            r@ == markets@.filter(|m: MarketInfo| spec_overexposed(m, spec_total_exposure(markets@))).map_values(
                |m: MarketInfo| spec_rebalance_action(m, *vault_state),
            ),
    {
        let mut total_exposure: u64 = 0;
        let mut i: usize = 0;
        while i < markets.len()
            invariant
                i <= markets@.len(),
                forall|k: int| 0 <= k < markets@.len() ==> #[trigger] markets@[k].net_exposure != i64::MIN,
                spec_total_exposure(markets@) <= u64::MAX,
                total_exposure == spec_total_exposure(markets@.subrange(0, i as int)),
            decreases markets@.len() - i,
        {
            proof {
                assert(markets@.subrange(0, i + 1).drop_last() =~= markets@.subrange(0, i as int));
                lemma_total_exposure_prefix(markets@, i + 1);
            }
            total_exposure = total_exposure + abs_exposure(markets[i].net_exposure);
            i = i + 1;
        }
        assert(markets@.subrange(0, i as int) =~= markets@);
        let ghost total = spec_total_exposure(markets@);
        let ghost pred = |m: MarketInfo| spec_overexposed(m, total);
        let ghost conv = |m: MarketInfo| spec_rebalance_action(m, *vault_state);
        let mut actions: Vec<RebalanceAction> = Vec::new();
        let mut j: usize = 0;
        while j < markets.len()
            invariant
                j <= markets@.len(),
                total == total_exposure,
                pred == (|m: MarketInfo| spec_overexposed(m, total)),
                conv == (|m: MarketInfo| spec_rebalance_action(m, *vault_state)),
                forall|k: int| 0 <= k < markets@.len() ==> #[trigger] markets@[k].net_exposure != i64::MIN,
                forall|k: int| 0 <= k < markets@.len() ==> spec_abs(#[trigger] markets@[k].net_exposure) * 10000 <= u64::MAX,
                vault_state.total_value * MAX_EXPOSURE_PER_MARKET <= u64::MAX,
                actions@ == markets@.subrange(0, j as int).filter(pred).map_values(conv),
            decreases markets@.len() - j,
        {
            proof {
                reveal_with_fuel(Seq::filter, 1);
                assert(markets@.subrange(0, j + 1).drop_last() =~= markets@.subrange(0, j as int));
                assert(spec_abs(markets@[j as int].net_exposure) * 10000 <= u64::MAX);
            }
            let market = &markets[j];
            let exposure = abs_exposure(market.net_exposure);
            let exposure_ratio = if total_exposure > 0 { (exposure * 10000) / total_exposure } else { 0 };
            if exposure_ratio > MAX_EXPOSURE_PER_MARKET {
                let target_exposure = (vault_state.total_value * MAX_EXPOSURE_PER_MARKET) / 10000;
                let reduction = if exposure > target_exposure { exposure - target_exposure } else { 0 };
                actions.push(RebalanceAction {
                    market_id: market.market_id,
                    current_exposure: exposure,
                    target_exposure,
                    amount_to_rebalance: reduction,
                    direction: if market.net_exposure > 0 { RebalanceDirection::ReduceLong } else { RebalanceDirection::ReduceShort },
                });
            }
            j = j + 1;
            assert(actions@ =~= markets@.subrange(0, j as int).filter(pred).map_values(conv));
        }
        assert(markets@.subrange(0, j as int) =~= markets@);
        actions
    }

    fn execute_hedging(&self, markets: &[MarketInfo], vault_state: &VaultState) -> (r: Vec<HedgeAction>)
        requires
            forall|i: int| 0 <= i < markets@.len() ==> #[trigger] markets@[i].net_exposure != i64::MIN,
            markets@.len() > 0 ==> vault_state.total_value > 0,
            forall|i: int| 0 <= i < markets@.len() ==> spec_abs(#[trigger] markets@[i].net_exposure) * 10000 <= u64::MAX,
        ensures
            r@.len() == markets@.filter(|m: MarketInfo| spec_needs_hedge(m, *vault_state)).len(),
            forall|k: int| 0 <= k < r@.len() ==> spec_hedge_of(#[trigger] r@[k], markets@.filter(
                |m: MarketInfo| spec_needs_hedge(m, *vault_state),
            )[k]),
    {
        let ghost pred = |m: MarketInfo| spec_needs_hedge(m, *vault_state);
        let mut actions: Vec<HedgeAction> = Vec::new();
        let mut i: usize = 0;
        while i < markets.len()
            invariant
                i <= markets@.len(),
                pred == (|m: MarketInfo| spec_needs_hedge(m, *vault_state)),
                forall|k: int| 0 <= k < markets@.len() ==> #[trigger] markets@[k].net_exposure != i64::MIN,
                markets@.len() > 0 ==> vault_state.total_value > 0,
                forall|k: int| 0 <= k < markets@.len() ==> spec_abs(#[trigger] markets@[k].net_exposure) * 10000 <= u64::MAX,
                actions@.len() == markets@.subrange(0, i as int).filter(pred).len(),
                forall|k: int| 0 <= k < actions@.len() ==> spec_hedge_of(#[trigger] actions@[k], markets@.subrange(0, i as int).filter(pred)[k]),
            decreases markets@.len() - i,
        {
            let ghost before = markets@.subrange(0, i as int).filter(pred);
            proof {
                reveal_with_fuel(Seq::filter, 1);
                assert(markets@.subrange(0, i + 1).drop_last() =~= markets@.subrange(0, i as int));
                assert(spec_abs(markets@[i as int].net_exposure) * 10000 <= u64::MAX);
            }
            let market = &markets[i];
            let exposure = abs_exposure(market.net_exposure);
            let exposure_percentage = (exposure * 10000) / vault_state.total_value;
            if exposure_percentage > AUTO_HEDGE_THRESHOLD {
                let hedge_amount = (exposure as u128 * 8 / 10) as u64;
                actions.push(HedgeAction {
                    market_id: market.market_id,
                    exposure_to_hedge: market.net_exposure,
                    hedge_amount,
                    hedge_type: if market.net_exposure > 0 { HedgeType::Short } else { HedgeType::Long },
                    correlation_markets: Vec::new(),
                });
                proof {
                    assert(markets@.subrange(0, i + 1).filter(pred) == before.push(markets@[i as int]));
                }
            } else {
                proof {
                    assert(markets@.subrange(0, i + 1).filter(pred) == before);
                }
            }
            i = i + 1;
        }
        assert(markets@.subrange(0, i as int) =~= markets@);
        actions
    }

    /// Runs a round at `current_slot` when enabled and due: market making
    /// for thin markets, rebalancing of over-exposed ones and hedges for
    /// those over 80% of the vault, each when active; the counters and the
    /// slot of the last round are updated.
    pub fn execute_operations(&mut self, markets: &[MarketInfo], vault_state: &VaultState, current_slot: u64) -> (r: Result<OperationResult, BettingPlatformError>)
        requires
            old(self).operations_enabled && spec_due(*old(self), current_slot) ==> spec_round_defined(*old(self), markets@, *vault_state),
        ensures
            r matches Ok(res) && ({
                let o = *old(self);
                let f = *final(self);
                if !o.operations_enabled || !spec_due(o, current_slot) {
                    &&& f == o
                    &&& res.market_making_actions@.len() == 0
                    &&& res.rebalance_actions@.len() == 0
                    &&& res.hedge_actions@.len() == 0
                } else {
                    let hedge_src = markets@.filter(|m: MarketInfo| spec_needs_hedge(m, *vault_state));
                    &&& res.market_making_actions@ == (if o.market_making_active {
                        markets@.filter(|m: MarketInfo| m.liquidity_ratio < MIN_LIQUIDITY_RATIO).map_values(
                            |m: MarketInfo| spec_mm_action(m, *vault_state))
                    } else { Seq::empty() })
                    &&& res.rebalance_actions@ == (if o.auto_rebalance_active {
                        markets@.filter(|m: MarketInfo| spec_overexposed(m, spec_total_exposure(markets@))).map_values(
                            |m: MarketInfo| spec_rebalance_action(m, *vault_state))
                    } else { Seq::empty() })
                    &&& res.hedge_actions@.len() == (if o.hedge_management_active { hedge_src.len() } else { 0 })
                    &&& forall|k: int| 0 <= k < res.hedge_actions@.len() ==> spec_hedge_of(#[trigger] res.hedge_actions@[k], hedge_src[k])
                    &&& f == (AutomatedMarketOps {
                        total_rebalances: (o.total_rebalances + res.rebalance_actions@.len()) as u64,
                        total_hedges_placed: (o.total_hedges_placed + res.hedge_actions@.len()) as u64,
                        last_operation_slot: current_slot,
                        ..o
                    })
                }
            }),
    {
        let mut result = OperationResult { market_making_actions: Vec::new(), rebalance_actions: Vec::new(), hedge_actions: Vec::new() };
        if !self.operations_enabled || !self.is_operation_due(current_slot) {
            return Ok(result);
        }
        if self.market_making_active {
            result.market_making_actions = self.execute_market_making(markets, vault_state);
        }
        if self.auto_rebalance_active {
            let rebalance_actions = self.execute_rebalancing(markets, vault_state);
            proof {
                lemma_filter_len_le(markets@, |m: MarketInfo| spec_overexposed(m, spec_total_exposure(markets@)));
            }
            self.total_rebalances = self.total_rebalances + rebalance_actions.len() as u64;
            result.rebalance_actions = rebalance_actions;
        }
        if self.hedge_management_active {
            let hedge_actions = self.execute_hedging(markets, vault_state);
            proof {
                lemma_filter_len_le(markets@, |m: MarketInfo| spec_needs_hedge(m, *vault_state));
            }
            self.total_hedges_placed = self.total_hedges_placed + hedge_actions.len() as u64;
            result.hedge_actions = hedge_actions;
        }
        self.last_operation_slot = current_slot;
        Ok(result)
    }

    /// Stops every automated operation.
    pub fn emergency_stop(&mut self)
        ensures
            *final(self) == (AutomatedMarketOps {
                operations_enabled: false,
                market_making_active: false,
                auto_rebalance_active: false,
                hedge_management_active: false,
                ..*old(self)
            }),
    {
        self.operations_enabled = false;
        self.market_making_active = false;
        self.auto_rebalance_active = false;
        self.hedge_management_active = false;
    }

    /// Applies a parameter update: byte 0 picks the parameter (0 the
    /// interval, from the next 8 bytes little-endian; 1 to 3 the market
    /// making, rebalancing and hedging switches, from byte 1).
    pub fn update_parameter(&mut self, data: &[u8]) -> (r: Result<(), BettingPlatformError>)
        requires
            data@.len() >= 1,
            data@[0] == 0 ==> data@.len() >= 9,
            1 <= data@[0] <= 3 ==> data@.len() >= 2,
        ensures
            data@[0] > 3 ==> r == Err::<(), BettingPlatformError>(BettingPlatformError::InvalidInstructionData) && *final(self) == *old(self),
            data@[0] == 0 ==> r is Ok && *final(self) == (AutomatedMarketOps {
                operation_interval: spec_u64_from_le(data@.subrange(1, 9)) as u64,
                ..*old(self)
            }),
            data@[0] == 1 ==> r is Ok && *final(self) == (AutomatedMarketOps { market_making_active: data@[1] != 0, ..*old(self) }),
            data@[0] == 2 ==> r is Ok && *final(self) == (AutomatedMarketOps { auto_rebalance_active: data@[1] != 0, ..*old(self) }),
            data@[0] == 3 ==> r is Ok && *final(self) == (AutomatedMarketOps { hedge_management_active: data@[1] != 0, ..*old(self) }),
    {
        let param_type = data[0];
        if param_type == 0 {
            self.operation_interval = read_u64_le(data, 1);
        } else if param_type == 1 {
            self.market_making_active = data[1] != 0;
        } else if param_type == 2 {
            self.auto_rebalance_active = data[1] != 0;
        } else if param_type == 3 {
            self.hedge_management_active = data[1] != 0;
        } else {
            return Err(BettingPlatformError::InvalidInstructionData);
        }
        Ok(())
    }
}

proof fn lemma_filter_len_le<A>(s: Seq<A>, p: spec_fn(A) -> bool)
    ensures
        s.filter(p).len() <= s.len(),
    decreases s.len(),
{
    reveal_with_fuel(Seq::filter, 1);
    if s.len() > 0 {
        lemma_filter_len_le(s.drop_last(), p);
    }
}

proof fn lemma_total_exposure_prefix(ms: Seq<MarketInfo>, j: int)
    requires
        0 <= j <= ms.len(),
    ensures
        spec_total_exposure(ms.subrange(0, j)) <= spec_total_exposure(ms),
    decreases ms.len() - j,
{
    if j < ms.len() {
        lemma_total_exposure_prefix(ms, j + 1);
        assert(ms.subrange(0, j + 1).drop_last() =~= ms.subrange(0, j));
    } else {
        assert(ms.subrange(0, j) =~= ms);
    }
}

/// An inventory position.
#[derive(Clone, Copy, Debug)]
pub struct InventoryPosition {
    pub market_id: [u8; 32],
    pub position_size: i64,
    /// In basis points where 10000 = $1.
    pub average_price: u64,
    pub current_value: u64,
    pub unrealized_pnl: i64,
}

/// Inventory manager for market making.
#[derive(Clone, Debug)]
pub struct InventoryManager {
    pub target_inventory_ratio: u64,
    pub max_inventory_value: u64,
    pub inventory_positions: Vec<InventoryPosition>,
    pub rebalance_threshold_bps: u16,
}

/// Target value of the inventory.
pub open spec fn spec_inventory_target(m: InventoryManager) -> int {
    m.max_inventory_value * m.target_inventory_ratio / 10000
}

impl InventoryManager {
    /// Whether a position's share of the maximum inventory strays from the
    /// target ratio by more than the threshold.
    pub fn needs_rebalancing(&self, position: &InventoryPosition) -> (r: bool)
        requires
            self.max_inventory_value > 0,
            position.current_value * 10000 <= u64::MAX,
        ensures
            r == ({
                let ratio = position.current_value * 10000 / (self.max_inventory_value as int);
                let dev = if ratio > self.target_inventory_ratio { ratio - self.target_inventory_ratio } else { self.target_inventory_ratio - ratio };
                dev > self.rebalance_threshold_bps
            }),
    {
        let position_ratio = (position.current_value * 10000) / self.max_inventory_value;
        let deviation = if position_ratio > self.target_inventory_ratio {
            position_ratio - self.target_inventory_ratio
        } else {
            self.target_inventory_ratio - position_ratio
        };
        deviation > self.rebalance_threshold_bps as u64
    }

    /// Change that brings a position to the target value: negative to
    /// reduce, positive to add.
    pub fn calculate_rebalance(&self, position: &InventoryPosition) -> (r: i64)
        requires
            self.max_inventory_value * self.target_inventory_ratio <= u64::MAX,
            -i64::MAX <= position.current_value - spec_inventory_target(*self) <= i64::MAX,
        ensures
            r == spec_inventory_target(*self) - position.current_value,
    {
        let target_value = (self.max_inventory_value * self.target_inventory_ratio) / 10000;
        let current_value = position.current_value;
        if current_value > target_value {
            -((current_value - target_value) as i64)
        } else {
            (target_value - current_value) as i64
        }
    }
}

/// Risk manager for automated operations.
#[derive(Clone, Copy, Debug)]
pub struct AutomatedRiskManager {
    pub max_daily_loss: u64,
    pub max_position_size: u64,
    pub max_market_exposure: u64,
    pub current_daily_pnl: i64,
    pub risk_limits_active: bool,
}

impl AutomatedRiskManager {
    /// Whether an action stays within the limits: the day's loss within
    /// the maximum, the action within the position limit, and the market's
    /// exposure with it within the exposure limit.
    pub fn check_risk_limits(&self, action_value: u64, market_exposure: u64) -> (r: bool)
        requires
            self.max_daily_loss <= i64::MAX,
            market_exposure + action_value <= u64::MAX,
        ensures
            r == (self.current_daily_pnl >= -(self.max_daily_loss as int) && action_value <= self.max_position_size
                && market_exposure + action_value <= self.max_market_exposure),
    {
        if self.current_daily_pnl < -(self.max_daily_loss as i64) {
            return false;
        }
        if action_value > self.max_position_size {
            return false;
        }
        if market_exposure + action_value > self.max_market_exposure {
            return false;
        }
        true
    }
}

/// Performance tracker for automated operations.
#[derive(Clone, Copy, Debug)]
pub struct PerformanceTracker {
    pub total_operations: u64,
    pub successful_operations: u64,
    pub total_pnl: i64,
    pub best_performing_market: Option<[u8; 32]>,
    pub worst_performing_market: Option<[u8; 32]>,
    pub average_spread_captured_bps: u16,
}

impl PerformanceTracker {
    /// Counts an operation and its profit or loss; per-market best and worst
    /// are not tracked.
    pub fn update_metrics(&mut self, operation_successful: bool, pnl: i64, market: &[u8; 32])
        requires
            old(self).total_operations < u64::MAX,
            old(self).successful_operations < u64::MAX,
            i64::MIN <= old(self).total_pnl + pnl <= i64::MAX,
        ensures
            *final(self) == (PerformanceTracker {
                total_operations: (old(self).total_operations + 1) as u64,
                successful_operations: (old(self).successful_operations + (if operation_successful { 1int } else { 0 })) as u64,
                total_pnl: (old(self).total_pnl + pnl) as i64,
                ..*old(self)
            }),
    {
        self.total_operations = self.total_operations + 1;
        if operation_successful {
            self.successful_operations = self.successful_operations + 1;
        }
        self.total_pnl = self.total_pnl + pnl;
    }

    /// Share of successful operations in basis points (0 before any).
    pub fn success_rate(&self) -> (r: u64)
        requires
            self.successful_operations * 10000 <= u64::MAX,
        ensures
            r == (if self.total_operations == 0 { 0 } else { self.successful_operations * 10000 / (self.total_operations as int) }),
    {
        if self.total_operations == 0 {
            return 0;
        }
        (self.successful_operations * 10000) / self.total_operations
    }
}

} // verus!
