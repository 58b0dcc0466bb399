//! Profit optimization: edge estimation, Kelly sizing and leverage for a
//! trading opportunity, strategy bookkeeping, recommendations, daily profit
//! tracking and auto-compounding.
use vstd::prelude::*;
use crate::error::BettingPlatformError;

verus! {

/// Smallest edge worth trading (0.5%).
pub const MIN_PROFIT_THRESHOLD_BPS: u16 = 50;
/// Base leverage (1.0x in basis points).
pub const OPTIMAL_LEVERAGE_RATIO: u64 = 10000;
/// Window for quick profits (15 minutes).
pub const QUICK_PROFIT_WINDOW: u64 = 900;
/// Slots between compounding (about 2 hours).
pub const COMPOUND_INTERVAL: u64 = 7200;
pub const MAX_CONCURRENT_POSITIONS: u32 = 20;
/// Share of profit taken (20%).
pub const PROFIT_TAKE_PERCENTAGE: u64 = 2000;
pub const CHAIN_BASE_LEVERAGE: u64 = 100;

/// Direction of a trade.
#[derive(Clone, Copy, Debug, PartialEq, Eq, Structural)]
pub enum TradeDirection {
    Yes,
    No,
}

/// Profit strategy types.
#[derive(Clone, Copy, Debug, PartialEq, Eq, Structural)]
pub enum ProfitStrategy {
    MomentumTrading,
    MeanReversion,
    ArbOpportunities,
    CompoundGrowth,
    YieldFarming,
}

/// Risk levels.
#[derive(Clone, Copy, Debug, PartialEq, Eq, Structural)]
pub enum RiskLevel {
    Low,
    Medium,
    High,
    Degen,
}

/// Market data for analysis.
#[derive(Clone, Copy, Debug)]
pub struct MarketData {
    pub market_id: [u8; 32],
    pub yes_price: u64,
    pub no_price: u64,
    pub volume_24h: u64,
    pub liquidity: u64,
    pub volatility_bps: u64,
    pub expiry_slot: u64,
    pub odds: u64,
}

/// A trading opportunity.
#[derive(Clone, Copy, Debug)]
pub struct ProfitOpportunity {
    pub should_trade: bool,
    pub market_id: [u8; 32],
    pub direction: TradeDirection,
    pub position_size: u64,
    pub leverage: u64,
    pub expected_profit: u64,
    pub confidence_score: u64,
    pub time_to_expiry: u64,
}

/// Outcome of an executed strategy.
#[derive(Clone, Copy, Debug)]
pub struct ExecutionResult {
    pub profit: u64,
    pub fees_saved: u64,
    pub execution_time: u64,
    pub slippage_bps: u16,
}

/// A user's trading statistics.
#[derive(Clone, Copy, Debug)]
pub struct UserStats {
    pub total_trades: u64,
    pub winning_trades: u64,
    pub total_profit: i64,
    /// Win rate in basis points.
    pub win_rate: u64,
    pub average_leverage: u64,
}

/// Risk-adjusted performance.
#[derive(Clone, Copy, Debug)]
pub struct PerformanceMetrics {
    pub total_return: i64,
    /// Sharpe ratio in basis points.
    pub sharpe_ratio: u64,
    pub max_drawdown: u64,
    pub profit_factor: u64,
    pub recovery_factor: u64,
}

impl PerformanceMetrics {
    pub const SIZE: usize = 40;
}

impl Default for PerformanceMetrics {
    fn default() -> (r: Self)
        ensures
            r == (PerformanceMetrics { total_return: 0, sharpe_ratio: 0, max_drawdown: 0, profit_factor: 0, recovery_factor: 0 }),
    {
        PerformanceMetrics { total_return: 0, sharpe_ratio: 0, max_drawdown: 0, profit_factor: 0, recovery_factor: 0 }
    }
}

/// Strategy bookkeeping of the optimizer.
#[derive(Clone, Debug)]
pub struct MoneyMakingOptimizer {
    pub total_profit_generated: u64,
    pub total_fees_saved: u64,
    pub winning_positions: u64,
    pub losing_positions: u64,
    pub current_streak: i32,
    pub best_streak: u32,
    pub average_profit_per_trade: u64,
    pub compound_earnings: u64,
    pub active_strategies: Vec<ProfitStrategy>,
    pub performance_metrics: PerformanceMetrics,
    pub last_update_slot: u64,
}

/// Recommendations for a user.
#[derive(Clone, Debug)]
pub struct ProfitRecommendations {
    pub strategies: Vec<ProfitStrategy>,
    pub risk_level: RiskLevel,
    pub suggested_leverage: u64,
    pub take_profit_levels: Vec<u64>,
    pub stop_loss_level: u64,
}

/// Market-implied probability of an outcome priced at `price` (basis points
/// squared over the price).
pub open spec fn spec_implied(price: u64) -> int {
    100_000_000int / (price as int)
}

/// Normalized market probability of YES.
pub open spec fn spec_market_prob_yes(m: MarketData) -> int {
    spec_implied(m.yes_price) * 10000 / (spec_implied(m.yes_price) + spec_implied(m.no_price))
}

/// Model probability: 50%, plus one point per $1k of daily volume (up to
/// 1000), minus half a point per $10k of liquidity (up to 500), kept within
/// 1% and 99%.
pub open spec fn spec_true_probability(m: MarketData) -> int {
    let vf = if m.volume_24h / 1_000_000_000 < 1000 { m.volume_24h / 1_000_000_000 } else { 1000 };
    let lf = if m.liquidity / 10_000_000_000 < 500 { m.liquidity / 10_000_000_000 } else { 500 };
    let adj = 5000 + vf - lf / 2;
    if adj < 100 { 100 } else if adj > 9900 { 9900 } else { adj }
}

/// Edge: model probability above the market's, or 0.
pub open spec fn spec_edge(m: MarketData) -> int {
    let t = spec_true_probability(m);
    let n = spec_market_prob_yes(m);
    if t > n { t - n } else { 0 }
}

/// A quarter of the Kelly fraction (basis points), capped at 25%.
pub open spec fn spec_kelly(edge: int, odds: u64) -> int {
    let p = 5000 + edge;
    let q = 10000 - p;
    let k = (p * odds - q * 10000) / (odds as int) / 4;
    if k < 2500 { k } else { 2500 }
}

/// Position size: Kelly share of the balance divided among the open
/// positions, kept between 1% and 25% of the balance.
pub open spec fn spec_position_size(balance: u64, kelly: int, positions: u32) -> int {
    let div: int = 10000int / (positions + 1);
    let base: int = balance * kelly / 10000;
    let adjusted: int = base * div / 10000;
    let lo: int = balance as int / 100;
    let hi: int = balance as int / 4;
    let a = if adjusted > lo { adjusted } else { lo };
    if a < hi { a } else { hi }
}

/// Leverage (basis points): lower with volatility, higher with edge, at most 10x.
pub open spec fn spec_optimal_leverage(volatility: u64, edge: int) -> int {
    let vol = if volatility < 10000 { 10000 - volatility } else { 0 };
    let lev = OPTIMAL_LEVERAGE_RATIO * vol * (10000 + edge * 2) / 100_000_000;
    if lev < 100000 { lev } else { 100000 }
}

/// Slots until expiry, or 0 once expired.
pub open spec fn spec_time_to_expiry(m: MarketData, slot: u64) -> int {
    if m.expiry_slot >= slot { m.expiry_slot - slot } else { 0 }
}

/// Confidence (basis points): 50%, plus twice the edge (up to 20%), 10% for
/// over $1M volume, 10% for over $10M liquidity, and up to 5% for time left;
/// at most 95%.
pub open spec fn spec_confidence(edge: int, m: MarketData, slot: u64) -> int {
    let e = if edge * 2 < 2000 { edge * 2 } else { 2000 };
    let v: int = if m.volume_24h > 1_000_000_000_000 { 1000 } else { 0 };
    let l: int = if m.liquidity > 10_000_000_000_000 { 1000 } else { 0 };
    let t = if spec_time_to_expiry(m, slot) / 1000 < 500 { spec_time_to_expiry(m, slot) / 1000 } else { 500 };
    let c = 5000 + e + v + l + t;
    if c < 9500 { c } else { 9500 }
}

/// Whether `o` is the empty opportunity: not worth trading, every field zero.
pub open spec fn spec_is_no_trade(o: ProfitOpportunity) -> bool {
    &&& !o.should_trade
    &&& o.market_id@ == Seq::new(32, |i: int| 0u8)
    &&& o.direction == TradeDirection::Yes
    &&& o.position_size == 0
    &&& o.leverage == 0
    &&& o.expected_profit == 0
    &&& o.confidence_score == 0
    &&& o.time_to_expiry == 0
}

/// The opportunity in a market whose edge is worth trading.
pub open spec fn spec_trade(m: MarketData, balance: u64, positions: u32, slot: u64) -> ProfitOpportunity {
    let edge = spec_edge(m);
    {
        let size = spec_position_size(balance, spec_kelly(edge, m.odds), positions);
        ProfitOpportunity {
            should_trade: true,
            market_id: m.market_id,
            direction: if m.yes_price < m.no_price { TradeDirection::Yes } else { TradeDirection::No },
            position_size: size as u64,
            leverage: spec_optimal_leverage(m.volatility_bps, edge) as u64,
            expected_profit: (size * edge / 10000) as u64,
            confidence_score: spec_confidence(edge, m, slot) as u64,
            time_to_expiry: spec_time_to_expiry(m, slot) as u64,
        }
    }
}

/// Inputs on which the analysis computes without division by zero or
/// overflow: both prices positive with some implied probability, and, for a
/// tradable edge, positive odds with a non-negative Kelly fraction and an
/// expected profit that fits.
pub open spec fn spec_analysis_defined(m: MarketData, balance: u64, positions: u32) -> bool {
    &&& m.yes_price > 0
    &&& m.no_price > 0
    &&& spec_implied(m.yes_price) + spec_implied(m.no_price) > 0
    &&& (positions < MAX_CONCURRENT_POSITIONS && spec_edge(m) >= MIN_PROFIT_THRESHOLD_BPS ==> {
        &&& spec_edge(m) <= 5000
        &&& m.odds > 0
        &&& (5000 + spec_edge(m)) * m.odds >= (5000 - spec_edge(m)) * 10000
        &&& spec_position_size(balance, spec_kelly(spec_edge(m), m.odds), positions) * spec_edge(m) <= u64::MAX
    })
}

impl MoneyMakingOptimizer {
    pub const SIZE: usize = 8 + 8 + 8 + 8 + 4 + 4 + 8 + 8 + 4 + 500 + 40 + 8;

    /// An optimizer with no history.
    pub fn new() -> (r: Self)
        ensures
            r.total_profit_generated == 0,
            r.total_fees_saved == 0,
            r.winning_positions == 0,
            r.losing_positions == 0,
            r.current_streak == 0,
            r.best_streak == 0,
            r.average_profit_per_trade == 0,
            r.compound_earnings == 0,
            r.active_strategies@.len() == 0,
            r.performance_metrics == (PerformanceMetrics { total_return: 0, sharpe_ratio: 0, max_drawdown: 0, profit_factor: 0, recovery_factor: 0 }),
            r.last_update_slot == 0,
    {
        MoneyMakingOptimizer {
            total_profit_generated: 0,
            total_fees_saved: 0,
            winning_positions: 0,
            losing_positions: 0,
            current_streak: 0,
            best_streak: 0,
            average_profit_per_trade: 0,
            compound_earnings: 0,
            active_strategies: Vec::new(),
            performance_metrics: PerformanceMetrics::default(),
            last_update_slot: 0,
        }
    }

    /// Clears the history; `current_slot` is the time of the reset.
    pub fn initialize(&mut self, current_slot: u64) -> (r: Result<(), BettingPlatformError>)
        ensures
            r is Ok,
            final(self).total_profit_generated == 0,
            final(self).total_fees_saved == 0,
            final(self).winning_positions == 0,
            final(self).losing_positions == 0,
            final(self).current_streak == 0,
            final(self).best_streak == 0,
            final(self).average_profit_per_trade == 0,
            final(self).compound_earnings == 0,
            final(self).active_strategies@.len() == 0,
            final(self).performance_metrics == (PerformanceMetrics { total_return: 0, sharpe_ratio: 0, max_drawdown: 0, profit_factor: 0, recovery_factor: 0 }),
            final(self).last_update_slot == current_slot,
    {
        self.total_profit_generated = 0;
        self.total_fees_saved = 0;
        self.winning_positions = 0;
        self.losing_positions = 0;
        self.current_streak = 0;
        self.best_streak = 0;
        self.average_profit_per_trade = 0;
        self.compound_earnings = 0;
        self.active_strategies = Vec::new();
        self.performance_metrics = PerformanceMetrics::default();
        self.last_update_slot = current_slot;
        Ok(())
    }

    fn calculate_true_probability(&self, market: &MarketData) -> (r: u64)
        ensures
            r == spec_true_probability(*market),
            100 <= r <= 9900,
    {
        let v = market.volume_24h / 1_000_000_000;
        let volume_factor: i64 = if v < 1000 { v as i64 } else { 1000 };
        let l = market.liquidity / 10_000_000_000;
        let liquidity_factor: i64 = if l < 500 { l as i64 } else { 500 };
        let adjusted: i64 = 5000 + volume_factor - liquidity_factor / 2;
        let clamped: i64 = if adjusted < 100 { 100 } else if adjusted > 9900 { 9900 } else { adjusted };
        clamped as u64
    }

    fn calculate_edge(&self, market: &MarketData) -> (r: u16)
        requires
            market.yes_price > 0,
            market.no_price > 0,
            spec_implied(market.yes_price) + spec_implied(market.no_price) > 0,
        ensures
            r == spec_edge(*market),
    {
        let implied_yes: u128 = 100_000_000u128 / market.yes_price as u128;
        let implied_no: u128 = 100_000_000u128 / market.no_price as u128;
        let total = implied_yes + implied_no;
        assert(implied_yes * 10000 / (total as int) <= 10000) by (nonlinear_arith)
            requires implied_yes <= total, total > 0;
        let norm_yes = (implied_yes * 10000 / total) as u64;
        let true_prob = self.calculate_true_probability(market);
        let edge = if true_prob > norm_yes { true_prob - norm_yes } else { 0 };
        edge as u16
    }

    fn calculate_kelly_criterion(&self, edge_bps: u16, odds: u64) -> (r: u64)
        requires
            edge_bps <= 5000,
            odds > 0,
            (5000 + edge_bps) * odds >= (5000 - edge_bps) * 10000,
        ensures
            r == spec_kelly(edge_bps as int, odds),
            r <= 2500,
    {
        let p: u128 = (5000 + edge_bps) as u128;
        let q: u128 = 10000 - p;
        let b: u128 = odds as u128;
        assert(p * b <= 10000 * u64::MAX) by (nonlinear_arith)
            requires p <= 10000, b <= u64::MAX;
        assert(q * 10000 <= 100_000_000) by (nonlinear_arith)
            requires q <= 5000;
        let kelly_bps = (p * b - q * 10000) / b;
        assert(kelly_bps <= p) by (nonlinear_arith)
            requires kelly_bps == (p * b - q * 10000) / (b as int), b > 0, p * b >= q * 10000, q >= 0;
        let safe_kelly = kelly_bps / 4;
        (if safe_kelly < 2500 { safe_kelly } else { 2500 }) as u64
    }

    fn calculate_position_size(&self, balance: u64, kelly_fraction: u64, current_positions: u32) -> (r: u64)
        requires
            kelly_fraction <= 2500,
            current_positions < MAX_CONCURRENT_POSITIONS,
        ensures
            r == spec_position_size(balance, kelly_fraction as int, current_positions),
            r <= balance / 4,
    {
        let diversification = 10000 / (current_positions + 1) as u64;
        assert(balance * kelly_fraction <= u64::MAX * 2500) by (nonlinear_arith)
            requires kelly_fraction <= 2500, balance <= u64::MAX;
        let base_wide: u128 = balance as u128 * kelly_fraction as u128 / 10000;
        assert(base_wide <= balance) by (nonlinear_arith)
            requires base_wide == balance * kelly_fraction / 10000, kelly_fraction <= 2500;
        let base = base_wide as u64;
        assert(base * diversification <= u64::MAX * 10000) by (nonlinear_arith)
            requires diversification <= 10000, base <= u64::MAX;
        let adj_wide: u128 = base as u128 * diversification as u128 / 10000;
        assert(adj_wide <= base) by (nonlinear_arith)
            requires adj_wide == base * diversification / 10000, diversification <= 10000;
        let adjusted = adj_wide as u64;
        let min_size = balance / 100;
        let max_size = balance / 4;
        let a = if adjusted > min_size { adjusted } else { min_size };
        if a < max_size { a } else { max_size }
    }

    fn calculate_optimal_leverage(&self, volatility_bps: u64, edge_bps: u16) -> (r: u64)
        ensures
            r == spec_optimal_leverage(volatility_bps, edge_bps as int),
            r <= 100000,
    {
        let vol_factor: u128 = if (volatility_bps as u128) < 10000 { 10000 - volatility_bps as u128 } else { 0 };
        let edge_factor: u128 = 10000 + (edge_bps as u128 * 2);
        assert(10000 * vol_factor * edge_factor <= 10000 * 10000 * 150000) by (nonlinear_arith)
            requires vol_factor <= 10000, edge_factor <= 150000;
        let leverage_bps = (OPTIMAL_LEVERAGE_RATIO as u128 * vol_factor * edge_factor) / (10000 * 10000);
        (if leverage_bps < 100000 { leverage_bps } else { 100000 }) as u64
    }

    fn calculate_confidence(&self, edge_bps: u16, market: &MarketData, current_slot: u64) -> (r: u64)
        ensures
            r == spec_confidence(edge_bps as int, *market, current_slot),
    {
        let mut confidence: u64 = 5000;
        let e = edge_bps as u64 * 2;
        confidence = confidence + if e < 2000 { e } else { 2000 };
        if market.volume_24h > 1_000_000_000_000 {
            confidence = confidence + 1000;
        }
        if market.liquidity > 10_000_000_000_000 {
            confidence = confidence + 1000;
        }
        let left = if market.expiry_slot >= current_slot { market.expiry_slot - current_slot } else { 0 };
        let t = left / 1000;
        confidence = confidence + if t < 500 { t } else { 500 };
        if confidence < 9500 { confidence } else { 9500 }
    }

    /// Analyzes a market for a user with `current_positions` open positions
    /// at `current_slot`: too many positions are refused; an edge under 0.5%
    /// is not worth trading; otherwise the opportunity carries a Kelly-sized
    /// position, leverage, expected profit and confidence.
    pub fn analyze_opportunity(
        &self,
        market: &MarketData,
        user_balance: u64,
        current_positions: u32,
        current_slot: u64,
    ) -> (r: Result<ProfitOpportunity, BettingPlatformError>)
        requires
            current_positions < MAX_CONCURRENT_POSITIONS ==> spec_analysis_defined(*market, user_balance, current_positions),
        ensures
            current_positions >= MAX_CONCURRENT_POSITIONS ==> r == Err::<ProfitOpportunity, BettingPlatformError>(
                BettingPlatformError::TooManyPositions),
            current_positions < MAX_CONCURRENT_POSITIONS && spec_edge(*market) < MIN_PROFIT_THRESHOLD_BPS ==> (r matches Ok(o)
                && spec_is_no_trade(o)),
            current_positions < MAX_CONCURRENT_POSITIONS && spec_edge(*market) >= MIN_PROFIT_THRESHOLD_BPS ==> r
                == Ok::<ProfitOpportunity, BettingPlatformError>(spec_trade(*market, user_balance, current_positions, current_slot)),
    {
        if current_positions >= MAX_CONCURRENT_POSITIONS {
            return Err(BettingPlatformError::TooManyPositions);
        }
        let edge = self.calculate_edge(market);
        if edge < MIN_PROFIT_THRESHOLD_BPS {
            let o = ProfitOpportunity {
                should_trade: false,
                market_id: [0u8; 32],
                direction: TradeDirection::Yes,
                position_size: 0,
                leverage: 0,
                expected_profit: 0,
                confidence_score: 0,
                time_to_expiry: 0,
            };
            assert(o.market_id@ =~= Seq::new(32, |i: int| 0u8));
            return Ok(o);
        }
        let kelly_fraction = self.calculate_kelly_criterion(edge, market.odds);
        let position_size = self.calculate_position_size(user_balance, kelly_fraction, current_positions);
        let optimal_leverage = self.calculate_optimal_leverage(market.volatility_bps, edge);
        let confidence = self.calculate_confidence(edge, market, current_slot);
        let time_to_expiry = if market.expiry_slot >= current_slot { market.expiry_slot - current_slot } else { 0 };
        Ok(ProfitOpportunity {
            should_trade: true,
            market_id: market.market_id,
            direction: if market.yes_price < market.no_price { TradeDirection::Yes } else { TradeDirection::No },
            position_size,
            leverage: optimal_leverage,
            expected_profit: (position_size * edge as u64) / 10000,
            confidence_score: confidence,
            time_to_expiry,
        })
    }
}

/// Profit tracker for display.
#[derive(Clone, Copy, Debug)]
pub struct ProfitTracker {
    pub daily_profit: i64,
    pub weekly_profit: i64,
    pub monthly_profit: i64,
    pub all_time_profit: i64,
    pub current_positions_pnl: i64,
    pub fees_saved_today: u64,
    pub best_trade_today: u64,
    pub worst_trade_today: i64,
}

/// Auto-compound engine.
#[derive(Clone, Copy, Debug)]
pub struct AutoCompoundEngine {
    pub enabled: bool,
    pub min_compound_amount: u64,
    /// Share of profit compounded, in basis points.
    pub compound_percentage: u64,
    pub last_compound_slot: u64,
    pub total_compounded: u64,
}

/// Model probability from the YES price, bumped 5% for volume over $1k and
/// 3% for liquidity over $500, taken modulo 100%.
pub open spec fn spec_true_probability_alt(m: MarketData) -> int {
    let v: int = if m.volume_24h > 1_000_000_000 { 500 } else { 0 };
    let l: int = if m.liquidity > 500_000_000 { 300 } else { 0 };
    (spec_implied(m.yes_price) + v + l) % 10000
}

impl MoneyMakingOptimizer {
    fn calculate_true_probability_alt(&self, market: &MarketData) -> (r: u64)
        requires
            market.yes_price > 0,
        ensures
            r == spec_true_probability_alt(*market),
    {
        let volume_signal: u128 = if market.volume_24h > 1_000_000_000 { 500 } else { 0 };
        let liquidity_signal: u128 = if market.liquidity > 500_000_000 { 300 } else { 0 };
        let base_prob: u128 = 100_000_000u128 / market.yes_price as u128;
        let adjusted = base_prob + volume_signal + liquidity_signal;
        (adjusted % 10000) as u64
    }

    /// Whether a profit is compounded at `current_slot`: more than
    /// `COMPOUND_INTERVAL` slots since the last update, and over $100.
    fn should_compound(&self, profit: u64, current_slot: u64) -> (r: bool)
        ensures
            r == ((if current_slot >= self.last_update_slot { current_slot - self.last_update_slot } else { 0 })
                > COMPOUND_INTERVAL && profit > 100_000_000),
    {
        let since = if current_slot >= self.last_update_slot { current_slot - self.last_update_slot } else { 0 };
        since > COMPOUND_INTERVAL && profit > 100_000_000
    }

    /// Records the outcome of a strategy executed at `current_slot`: wins
    /// extend the streak, losses end it; totals, the average profit per
    /// trade and compounded earnings are updated.
    pub fn execute_strategy(&mut self, opportunity: &ProfitOpportunity, execution_result: &ExecutionResult, current_slot: u64) -> (r: Result<(), BettingPlatformError>)
        requires
            old(self).winning_positions + old(self).losing_positions < u64::MAX,
            old(self).total_profit_generated + execution_result.profit <= u64::MAX,
            old(self).total_fees_saved + execution_result.fees_saved <= u64::MAX,
            old(self).compound_earnings + execution_result.profit <= u64::MAX,
        ensures
            r is Ok,
            ({
                let o = *old(self);
                let f = *final(self);
                let win = execution_result.profit > 0;
                let streak: int = if win { if o.current_streak < i32::MAX { o.current_streak + 1 } else { i32::MAX as int } } else { 0 };
                let since = if current_slot >= o.last_update_slot { current_slot - o.last_update_slot } else { 0 };
                let compound = since > COMPOUND_INTERVAL && execution_result.profit > 100_000_000;
                &&& f.winning_positions == o.winning_positions + (if win { 1int } else { 0 })
                &&& f.losing_positions == o.losing_positions + (if win { 0int } else { 1 })
                &&& f.current_streak == streak
                &&& f.best_streak == (if win && streak > (o.best_streak as i32) { streak as u32 } else { o.best_streak })
                &&& f.total_profit_generated == o.total_profit_generated + execution_result.profit
                &&& f.total_fees_saved == o.total_fees_saved + execution_result.fees_saved
                &&& f.average_profit_per_trade == (f.total_profit_generated as int) / ((f.winning_positions + f.losing_positions) as int)
                &&& f.compound_earnings == o.compound_earnings + (if compound { execution_result.profit as int } else { 0 })
                &&& f.last_update_slot == current_slot
                &&& f.active_strategies@ == o.active_strategies@
                &&& f.performance_metrics == o.performance_metrics
            }),
    {
        if execution_result.profit > 0 {
            self.winning_positions = self.winning_positions + 1;
            self.current_streak = if self.current_streak < i32::MAX { self.current_streak + 1 } else { i32::MAX };
            if self.current_streak > self.best_streak as i32 {
                self.best_streak = self.current_streak as u32;
            }
        } else {
            self.losing_positions = self.losing_positions + 1;
            self.current_streak = 0;
        }
        self.total_profit_generated = self.total_profit_generated + execution_result.profit;
        self.total_fees_saved = self.total_fees_saved + execution_result.fees_saved;
        let total_trades = self.winning_positions + self.losing_positions;
        if total_trades > 0 {
            self.average_profit_per_trade = self.total_profit_generated / total_trades;
        }
        if self.should_compound(execution_result.profit, current_slot) {
            self.compound_earnings = self.compound_earnings + execution_result.profit;
        }
        self.last_update_slot = current_slot;
        Ok(())
    }

    /// Recommendations for a user: more risk and 3x leverage above a 60%
    /// win rate, less risk and 0.5x below 40%; momentum and arbitrage always,
    /// compounding when the Sharpe ratio is above 1.5.
    pub fn get_recommendations(&self, user_stats: &UserStats) -> (r: ProfitRecommendations)
        ensures
            r.risk_level == (if user_stats.win_rate > 6000 { RiskLevel::High } else if user_stats.win_rate < 4000 {
                RiskLevel::Low
            } else {
                RiskLevel::Medium
            }),
            r.suggested_leverage == (if user_stats.win_rate > 6000 { 30000 } else if user_stats.win_rate < 4000 {
                5000
            } else {
                OPTIMAL_LEVERAGE_RATIO
            }),
            r.strategies@ == seq![ProfitStrategy::MomentumTrading, ProfitStrategy::ArbOpportunities] + (if self.performance_metrics.sharpe_ratio
                > 15000 { seq![ProfitStrategy::CompoundGrowth] } else { Seq::empty() }),
            r.take_profit_levels@ == seq![2000u64, 5000, 10000],
            r.stop_loss_level == 1000,
    {
        let mut recommendations = ProfitRecommendations {
            strategies: Vec::new(),
            risk_level: RiskLevel::Medium,
            suggested_leverage: OPTIMAL_LEVERAGE_RATIO,
            take_profit_levels: vec![2000, 5000, 10000],
            stop_loss_level: 1000,
        };
        if user_stats.win_rate > 6000 {
            recommendations.risk_level = RiskLevel::High;
            recommendations.suggested_leverage = 30000;
        } else if user_stats.win_rate < 4000 {
            recommendations.risk_level = RiskLevel::Low;
            recommendations.suggested_leverage = 5000;
        }
        recommendations.strategies.push(ProfitStrategy::MomentumTrading);
        recommendations.strategies.push(ProfitStrategy::ArbOpportunities);
        if self.performance_metrics.sharpe_ratio > 15000 {
            recommendations.strategies.push(ProfitStrategy::CompoundGrowth);
        }
        assert(recommendations.take_profit_levels@ =~= seq![2000u64, 5000, 10000]);
        assert(recommendations.strategies@ =~= seq![ProfitStrategy::MomentumTrading, ProfitStrategy::ArbOpportunities] + (if self.performance_metrics.sharpe_ratio
                > 15000 { seq![ProfitStrategy::CompoundGrowth] } else { Seq::empty() }));
        recommendations
    }

    /// Profit from trading `daily_volume` at an edge of `edge_percentage`
    /// basis points, kept to 64 bits.
    pub fn calculate_daily_volume_edge(&self, daily_volume: u64, edge_percentage: u16) -> (r: Result<u64, BettingPlatformError>)
        ensures
            r == Ok::<u64, BettingPlatformError>(((daily_volume * edge_percentage) / 10000) as u64),
    {
        assert(daily_volume * edge_percentage <= u64::MAX * 65535) by (nonlinear_arith)
            requires daily_volume <= u64::MAX, edge_percentage <= 65535;
        let edge_amount: u128 = (daily_volume as u128 * edge_percentage as u128) / 10000;
        Ok(edge_amount as u64)
    }
}

impl ProfitTracker {
    /// Adds a trade's profit and fees saved to today's figures, keeping the
    /// best and worst trade.
    pub fn update_daily(&mut self, profit: i64, fees_saved: u64)
        requires
            i64::MIN <= old(self).daily_profit + profit <= i64::MAX,
            old(self).fees_saved_today + fees_saved <= u64::MAX,
        ensures
            *final(self) == (ProfitTracker {
                daily_profit: (old(self).daily_profit + profit) as i64,
                fees_saved_today: (old(self).fees_saved_today + fees_saved) as u64,
                best_trade_today: if profit > 0 && profit > old(self).best_trade_today { profit as u64 } else { old(self).best_trade_today },
                worst_trade_today: if !(profit > 0 && profit > old(self).best_trade_today) && profit < old(self).worst_trade_today {
                    profit
                } else {
                    old(self).worst_trade_today
                },
                ..*old(self)
            }),
    {
        self.daily_profit = self.daily_profit + profit;
        self.fees_saved_today = self.fees_saved_today + fees_saved;
        if profit > 0 && profit as u64 > self.best_trade_today {
            self.best_trade_today = profit as u64;
        } else if profit < self.worst_trade_today {
            self.worst_trade_today = profit;
        }
    }

    /// Clears today's figures.
    pub fn reset_daily(&mut self)
        ensures
            *final(self) == (ProfitTracker {
                daily_profit: 0,
                fees_saved_today: 0,
                best_trade_today: 0,
                worst_trade_today: 0,
                ..*old(self)
            }),
    {
        self.daily_profit = 0;
        self.fees_saved_today = 0;
        self.best_trade_today = 0;
        self.worst_trade_today = 0;
    }
}

impl AutoCompoundEngine {
    /// Compounds a share of `profit` at `current_slot` when enabled and the
    /// profit reaches the minimum; returns the amount compounded.
    pub fn process_compound(&mut self, profit: u64, current_slot: u64) -> (r: Result<u64, BettingPlatformError>)
        requires
            old(self).enabled && profit >= old(self).min_compound_amount ==> old(self).total_compounded
                + ((profit * old(self).compound_percentage / 10000) as u64) <= u64::MAX,
        ensures
            !old(self).enabled || profit < old(self).min_compound_amount ==> r == Ok::<u64, BettingPlatformError>(0)
                && *final(self) == *old(self),
            old(self).enabled && profit >= old(self).min_compound_amount ==> ({
                let amount = ((profit * old(self).compound_percentage / 10000) as u64);
                &&& r == Ok::<u64, BettingPlatformError>(amount)
                &&& *final(self) == (AutoCompoundEngine {
                    total_compounded: (old(self).total_compounded + amount) as u64,
                    last_compound_slot: current_slot,
                    ..*old(self)
                })
            }),
    {
        if !self.enabled || profit < self.min_compound_amount {
            return Ok(0);
        }
        assert(profit * self.compound_percentage <= u64::MAX * u64::MAX) by (nonlinear_arith)
            requires profit <= u64::MAX, self.compound_percentage <= u64::MAX;
        let compound_amount = (profit as u128 * self.compound_percentage as u128 / 10000) as u64;
        self.total_compounded = self.total_compounded + compound_amount;
        self.last_compound_slot = current_slot;
        Ok(compound_amount)
    }
}

/// Scanner for quick profit opportunities.
#[derive(Clone, Debug)]
pub struct QuickProfitScanner {
    pub scan_interval: u64,
    pub min_profit_bps: u16,
    pub max_scan_markets: u32,
    pub priority_markets: Vec<[u8; 32]>,
}

/// Whether a market is a priority market.
pub open spec fn spec_is_priority(pri: Seq<[u8; 32]>, m: MarketData) -> bool {
    exists|x: int| 0 <= x < pri.len() && pri[x]@ == m.market_id@
}

/// Markets with the priority ones first, each group in its original order.
pub open spec fn spec_prioritized(ms: Seq<MarketData>, pri: Seq<[u8; 32]>) -> Seq<MarketData> {
    ms.filter(|m: MarketData| spec_is_priority(pri, m)) + ms.filter(|m: MarketData| !spec_is_priority(pri, m))
}

/// Whether a market yields a trade with a positive expected profit.
pub open spec fn spec_profitable(m: MarketData, balance: u64, slot: u64) -> bool {
    spec_edge(m) >= MIN_PROFIT_THRESHOLD_BPS && spec_trade(m, balance, 0, slot).expected_profit > 0
}

/// The trades found among `ms`, in market order.
pub open spec fn spec_found(ms: Seq<MarketData>, balance: u64, slot: u64) -> Seq<ProfitOpportunity> {
    ms.filter(|m: MarketData| spec_profitable(m, balance, slot)).map_values(|m: MarketData| spec_trade(m, balance, 0, slot))
}

/// `x` inserted into a list sorted by decreasing expected profit, after
/// every entry with at least its profit.
pub open spec fn spec_insert_desc(s: Seq<ProfitOpportunity>, x: ProfitOpportunity) -> Seq<ProfitOpportunity>
    decreases s.len(),
{
    if s.len() == 0 {
        seq![x]
    } else if s[0].expected_profit >= x.expected_profit {
        seq![s[0]] + spec_insert_desc(s.drop_first(), x)
    } else {
        seq![x] + s
    }
}

/// Stable sort by decreasing expected profit.
pub open spec fn spec_sort_desc(s: Seq<ProfitOpportunity>) -> Seq<ProfitOpportunity>
    decreases s.len(),
{
    if s.len() == 0 {
        s
    } else {
        spec_insert_desc(spec_sort_desc(s.drop_last()), s.last())
    }
}

proof fn lemma_insert_at(s: Seq<ProfitOpportunity>, x: ProfitOpportunity, p: int)
    requires
        0 <= p <= s.len(),
        forall|i: int| 0 <= i < p ==> s[i].expected_profit >= x.expected_profit,
        p < s.len() ==> s[p].expected_profit < x.expected_profit,
    ensures
        spec_insert_desc(s, x) == s.insert(p, x),
    decreases s.len(),
{
    if s.len() == 0 {
        assert(s.insert(p, x) =~= seq![x]);
    } else if p == 0 {
        assert(s.insert(0, x) =~= seq![x] + s);
    } else {
        lemma_insert_at(s.drop_first(), x, p - 1);
        assert(s.insert(p, x) =~= seq![s[0]] + s.drop_first().insert(p - 1, x));
    }
}

fn insert_desc(v: &mut Vec<ProfitOpportunity>, x: ProfitOpportunity)
    ensures
        final(v)@ == spec_insert_desc(old(v)@, x),
{
    let mut p: usize = 0;
    while p < v.len() && v[p].expected_profit >= x.expected_profit
        invariant
            p <= v@.len(),
            forall|i: int| 0 <= i < p ==> v@[i].expected_profit >= x.expected_profit,
        decreases v@.len() - p,
    {
        p = p + 1;
    }
    proof {
        lemma_insert_at(v@, x, p as int);
    }
    v.insert(p, x);
}

fn copy_market(m: &MarketData) -> (r: MarketData)
    ensures
        r == *m,
{
    *m
}

impl QuickProfitScanner {
    fn is_priority(&self, id: &[u8; 32]) -> (r: bool)
        ensures
            r == (exists|x: int| 0 <= x < self.priority_markets@.len() && self.priority_markets@[x]@ == id@),
    {
        let mut x: usize = 0;
        while x < self.priority_markets.len()
            invariant
                x <= self.priority_markets@.len(),
                forall|y: int| 0 <= y < x ==> self.priority_markets@[y]@ != id@,
            decreases self.priority_markets@.len() - x,
        {
            if crate::bytes::bytes_eq(&self.priority_markets[x], id) {
                return true;
            }
            x = x + 1;
        }
        false
    }

    fn markets_where(&self, markets: &[MarketData], want_priority: bool) -> (r: Vec<MarketData>)
        ensures
            r@ == markets@.filter(|m: MarketData| spec_is_priority(self.priority_markets@, m) == want_priority),
    {
        let ghost pred = |m: MarketData| spec_is_priority(self.priority_markets@, m) == want_priority;
        let mut out: Vec<MarketData> = Vec::new();
        let mut i: usize = 0;
        while i < markets.len()
            invariant
                i <= markets@.len(),
                pred == (|m: MarketData| spec_is_priority(self.priority_markets@, m) == want_priority),
                out@ == markets@.subrange(0, i as int).filter(pred),
            decreases markets@.len() - i,
        {
            proof {
                reveal_with_fuel(Seq::filter, 1);
                assert(markets@.subrange(0, i + 1).drop_last() =~= markets@.subrange(0, i as int));
            }
            if self.is_priority(&markets[i].market_id) == want_priority {
                out.push(copy_market(&markets[i]));
            }
            i = i + 1;
        }
        assert(markets@.subrange(0, i as int) =~= markets@);
        out
    }

    /// Opportunities among the first `max_scan_markets` markets, priority
    /// markets first, analyzed for a user with no open positions at
    /// `current_slot`; only trades with a positive expected profit are kept,
    /// by decreasing expected profit (ties in market order).
    pub fn scan_markets(&self, markets: &[MarketData], user_balance: u64, current_slot: u64) -> (r: Vec<ProfitOpportunity>)
        requires
            forall|i: int| 0 <= i < spec_prioritized(markets@, self.priority_markets@).len() && i < self.max_scan_markets
                ==> spec_analysis_defined(#[trigger] spec_prioritized(markets@, self.priority_markets@)[i], user_balance, 0),
        ensures
            r@ == spec_sort_desc(spec_found(
                spec_prioritized(markets@, self.priority_markets@).take(
                    if spec_prioritized(markets@, self.priority_markets@).len() < self.max_scan_markets {
                        spec_prioritized(markets@, self.priority_markets@).len() as int
                    } else {
                        self.max_scan_markets as int
                    },
                ),
                user_balance,
                current_slot,
            )),
    {
        let mut sorted = self.markets_where(markets, true);
        let rest = self.markets_where(markets, false);
        let mut j: usize = 0;
        let ghost first = sorted@;
        while j < rest.len()
            invariant
                j <= rest@.len(),
                sorted@ == first + rest@.subrange(0, j as int),
            decreases rest@.len() - j,
        {
            sorted.push(copy_market(&rest[j]));
            j = j + 1;
            assert(sorted@ =~= first + rest@.subrange(0, j as int));
        }
        assert(rest@.subrange(0, j as int) =~= rest@);
        proof {
            let pm = self.priority_markets@;
            assert((|m: MarketData| spec_is_priority(pm, m) == true) =~= (|m: MarketData| spec_is_priority(pm, m)));
            assert((|m: MarketData| spec_is_priority(pm, m) == false) =~= (|m: MarketData| !spec_is_priority(pm, m)));
        }
        assert(sorted@ =~= spec_prioritized(markets@, self.priority_markets@));
        let ghost all = sorted@;
        let limit: usize = if sorted.len() < self.max_scan_markets as usize { sorted.len() } else { self.max_scan_markets as usize };
        let ghost considered = all.take(limit as int);
        let ghost pred = |m: MarketData| spec_profitable(m, user_balance, current_slot);
        let ghost conv = |m: MarketData| spec_trade(m, user_balance, 0, current_slot);
        let optimizer = MoneyMakingOptimizer::new();
        let mut found: Vec<ProfitOpportunity> = Vec::new();
        let mut opportunities: Vec<ProfitOpportunity> = Vec::new();
        let mut i: usize = 0;
        while i < limit
            invariant
                i <= limit,
                limit <= all.len(),
                limit <= self.max_scan_markets,
                all == sorted@,
                considered == all.take(limit as int),
                pred == (|m: MarketData| spec_profitable(m, user_balance, current_slot)),
                conv == (|m: MarketData| spec_trade(m, user_balance, 0, current_slot)),
                forall|k: int| 0 <= k < all.len() && k < self.max_scan_markets
                    ==> spec_analysis_defined(#[trigger] all[k], user_balance, 0),
                found@ == considered.subrange(0, i as int).filter(pred).map_values(conv),
                opportunities@ == spec_sort_desc(found@),
            decreases limit - i,
        {
            let market = &sorted[i];
            proof {
                assert(spec_analysis_defined(all[i as int], user_balance, 0));
                reveal_with_fuel(Seq::filter, 1);
                assert(considered.subrange(0, i + 1).drop_last() =~= considered.subrange(0, i as int));
                assert(considered[i as int] == all[i as int]);
            }
            let res = optimizer.analyze_opportunity(market, user_balance, 0, current_slot);
            match res {
                Ok(opp) => {
                    if opp.should_trade && opp.expected_profit > 0 {
                        let ghost before = found@;
                        found.push(opp);
                        insert_desc(&mut opportunities, opp);
                        proof {
                            assert(found@.drop_last() =~= before);
                        }
                    }
                },
                Err(_) => {},
            }
            i = i + 1;
            assert(found@ =~= considered.subrange(0, i as int).filter(pred).map_values(conv));
        }
        assert(considered.subrange(0, i as int) =~= considered);
        assert(pred =~= (|m: MarketData| spec_profitable(m, user_balance, current_slot)));
        assert(conv =~= (|m: MarketData| spec_trade(m, user_balance, 0, current_slot)));
        opportunities
    }
}

/// Whether a list is sorted by decreasing expected profit.
pub open spec fn spec_sorted_desc(s: Seq<ProfitOpportunity>) -> bool {
    forall|i: int, j: int| 0 <= i < j < s.len() ==> s[i].expected_profit >= s[j].expected_profit
}

proof fn lemma_insert_desc_sorted(s: Seq<ProfitOpportunity>, x: ProfitOpportunity)
    requires
        spec_sorted_desc(s),
    ensures
        spec_sorted_desc(spec_insert_desc(s, x)),
        spec_insert_desc(s, x).len() == s.len() + 1,
        forall|i: int| 0 <= i < spec_insert_desc(s, x).len() ==> (spec_insert_desc(s, x)[i] == x || s.contains(
            #[trigger] spec_insert_desc(s, x)[i],
        )),
    decreases s.len(),
{
    if s.len() > 0 && s[0].expected_profit >= x.expected_profit {
        let t = s.drop_first();
        lemma_insert_desc_sorted(t, x);
        let r = spec_insert_desc(s, x);
        assert(r == seq![s[0]] + spec_insert_desc(t, x));
        assert forall|i: int| 0 <= i < r.len() implies (r[i] == x || s.contains(#[trigger] r[i])) by {
            if i > 0 {
                let e = spec_insert_desc(t, x)[i - 1];
                assert(r[i] == e);
                if e != x {
                    let k = choose|k: int| 0 <= k < t.len() && t[k] == e;
                    assert(s[k + 1] == e);
                }
            } else {
                assert(s[0] == r[0]);
            }
        }
        assert forall|i: int, j: int| 0 <= i < j < r.len() implies r[i].expected_profit >= r[j].expected_profit by {
            if i == 0 {
                let e = r[j];
                if e != x {
                    let k = choose|k: int| 0 <= k < s.len() && s[k] == e;
                    if k > 0 {
                        assert(s[0].expected_profit >= s[k].expected_profit);
                    }
                }
            }
        }
    } else if s.len() > 0 {
        let r = spec_insert_desc(s, x);
        assert(r == seq![x] + s);
        assert forall|i: int| 0 <= i < r.len() implies (r[i] == x || s.contains(#[trigger] r[i])) by {
            if i > 0 {
                assert(r[i] == s[i - 1]);
            }
        }
    }
}

/// The scan's ordering: sorting leaves the opportunities by decreasing
/// expected profit, with none added or lost in number.
pub proof fn lemma_sort_desc_sorted(s: Seq<ProfitOpportunity>)
    ensures
        spec_sorted_desc(spec_sort_desc(s)),
        spec_sort_desc(s).len() == s.len(),
    decreases s.len(),
{
    if s.len() > 0 {
        lemma_sort_desc_sorted(s.drop_last());
        lemma_insert_desc_sorted(spec_sort_desc(s.drop_last()), s.last());
    }
}

} // verus!
