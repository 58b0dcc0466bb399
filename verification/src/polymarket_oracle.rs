//! Shared oracle price constants and the price record every oracle source
//! produces.
use vstd::prelude::*;
use crate::oracle_coordinator::OracleSource;
use crate::bytes::bytes_eq;
use crate::crypto::{find_program_address, spec_find_program_address};
use crate::error::BettingPlatformError;

verus! {

/// Confidence required of a price (basis points).
pub const PRICE_CONFIDENCE_THRESHOLD: u64 = 9500;
/// Oldest price accepted, in slots.
pub const MAX_PRICE_AGE_SLOTS: u64 = 30;
/// Minimum liquidity ($10k).
pub const MIN_LIQUIDITY_THRESHOLD: u64 = 10_000_000_000;
/// Decimals of a standard price.
pub const PRICE_DECIMAL_PLACES: u32 = 8;
/// Largest move between updates (basis points).
pub const MAX_PRICE_DEVIATION_BPS: u16 = 500;
/// Polling interval in seconds.
pub const POLYMARKET_POLL_INTERVAL_SECONDS: u64 = 60;
/// Polling interval in slots.
pub const POLYMARKET_POLL_INTERVAL_SLOTS: u64 = 150;

/// Health of a price feed.
#[derive(Clone, Copy, Debug, PartialEq, Eq, Structural)]
pub enum PriceFeedStatus {
    Active,
    Stale,
    Insufficient,
    Disconnected,
}

/// A price read from an oracle.
#[derive(Clone, Copy, Debug, PartialEq, Eq, Structural)]
pub struct OraclePriceData {
    pub source: OracleSource,
    pub price: u64,
    /// Basis points.
    pub confidence: u64,
    pub timestamp: i64,
    pub slot: u64,
}

/// Whether a price updated at `updated_slot` is still fresh at `current_slot`.
pub open spec fn spec_is_fresh(current_slot: u64, updated_slot: u64) -> bool {
    (if current_slot >= updated_slot { current_slot - updated_slot } else { 0 }) <= MAX_PRICE_AGE_SLOTS
}

/// Ten to the power `e`.
pub open spec fn spec_pow10(e: nat) -> nat
    decreases e,
{
    if e == 0 { 1 } else { 10 * spec_pow10((e - 1) as nat) }
}

pub(crate) proof fn lemma_pow10_monotone(a: nat, b: nat)
    requires
        a <= b,
    ensures
        spec_pow10(a) <= spec_pow10(b),
        spec_pow10(a) >= 1,
    decreases b,
{
    if a < b {
        lemma_pow10_monotone(a, (b - 1) as nat);
    } else if a > 0 {
        lemma_pow10_monotone((a - 1) as nat, (a - 1) as nat);
    }
}

/// Ten to the power `e`, for exponents up to 38.
pub fn pow10_u128(e: u32) -> (r: u128)
    requires
        e <= 38,
    ensures
        r == spec_pow10(e as nat),
        1 <= r <= 100_000_000_000_000_000_000_000_000_000_000_000_000,
{
    proof {
        lemma_pow10_monotone(e as nat, 38);
        reveal_with_fuel(spec_pow10, 39);
        assert(spec_pow10(38) == 100_000_000_000_000_000_000_000_000_000_000_000_000nat);
    }
    let mut r: u128 = 1;
    let mut i: u32 = 0;
    while i < e
        invariant
            i <= e,
            e <= 38,
            r == spec_pow10(i as nat),
            spec_pow10(e as nat) <= 100_000_000_000_000_000_000_000_000_000_000_000_000nat,
        decreases e - i,
    {
        proof {
            lemma_pow10_monotone((i + 1) as nat, e as nat);
        }
        r = r * 10;
        i = i + 1;
    }
    r
}

/// Polymarket oracle state.
#[derive(Clone, Copy, Debug)]
pub struct PolymarketOracle {
    pub authority: [u8; 32],
    pub last_update_slot: u64,
    pub last_update_timestamp: i64,
    pub total_markets_tracked: u64,
    pub active_price_feeds: u64,
    pub connection_status: PriceFeedStatus,
    pub fallback_mode: bool,
    pub total_updates_processed: u64,
    pub failed_updates: u64,
    pub average_latency_ms: u32,
    pub lookup_table_counter: u8,
}

impl PolymarketOracle {
    pub const SIZE: usize = 32 + 8 + 8 + 8 + 8 + 1 + 1 + 8 + 8 + 4 + 1;

    /// A disconnected oracle owned by `authority`, with no history.
    pub fn initialize(&mut self, authority: &[u8; 32]) -> (r: Result<(), BettingPlatformError>)
        ensures
            r is Ok,
            *final(self) == (PolymarketOracle {
                authority: *authority,
                last_update_slot: 0,
                last_update_timestamp: 0,
                total_markets_tracked: 0,
                active_price_feeds: 0,
                connection_status: PriceFeedStatus::Disconnected,
                fallback_mode: false,
                total_updates_processed: 0,
                failed_updates: 0,
                average_latency_ms: 0,
                lookup_table_counter: 0,
            }),
    {
        self.authority = *authority;
        self.last_update_slot = 0;
        self.last_update_timestamp = 0;
        self.total_markets_tracked = 0;
        self.active_price_feeds = 0;
        self.connection_status = PriceFeedStatus::Disconnected;
        self.fallback_mode = false;
        self.total_updates_processed = 0;
        self.failed_updates = 0;
        self.average_latency_ms = 0;
        self.lookup_table_counter = 0;
        Ok(())
    }

    /// Healthy: connected, not in fallback, and failures under a tenth of
    /// the updates.
    pub fn is_healthy(&self) -> (r: bool)
        ensures
            r == (self.connection_status == PriceFeedStatus::Active && !self.fallback_mode
                && self.failed_updates < self.total_updates_processed / 10),
    {
        self.connection_status == PriceFeedStatus::Active && !self.fallback_mode && self.failed_updates < self.total_updates_processed / 10
    }

    /// Whether the polling interval has passed since the last update.
    pub fn should_poll(&self, current_slot: u64) -> (r: bool)
        ensures
            r == (current_slot >= self.last_update_slot + POLYMARKET_POLL_INTERVAL_SLOTS),
    {
        current_slot >= self.last_update_slot && current_slot - self.last_update_slot >= POLYMARKET_POLL_INTERVAL_SLOTS
    }

    /// Records a poll at `current_slot` and `current_timestamp`.
    pub fn update_poll_time(&mut self, current_slot: u64, current_timestamp: i64)
        requires
            old(self).total_updates_processed < u64::MAX,
        ensures
            *final(self) == (PolymarketOracle {
                last_update_slot: current_slot,
                last_update_timestamp: current_timestamp,
                total_updates_processed: (old(self).total_updates_processed + 1) as u64,
                ..*old(self)
            }),
    {
        self.last_update_slot = current_slot;
        self.last_update_timestamp = current_timestamp;
        self.total_updates_processed = self.total_updates_processed + 1;
    }
}

/// A market's price feed.
#[derive(Clone, Debug)]
pub struct MarketPriceFeed {
    pub market_id: [u8; 32],
    pub polymarket_id: String,
    pub yes_price: u64,
    pub no_price: u64,
    pub mid_price: u64,
    pub bid_ask_spread: u64,
    pub liquidity_usd: u64,
    pub volume_24h_usd: u64,
    pub last_trade_price: u64,
    pub last_update_slot: u64,
    pub last_update_timestamp: i64,
    pub price_confidence: u64,
    pub status: PriceFeedStatus,
    pub update_count: u64,
}

/// Whether a feed is usable at `slot`: fresh, liquid, confident and active.
pub open spec fn spec_feed_valid(f: MarketPriceFeed, slot: u64) -> bool {
    &&& spec_is_fresh(slot, f.last_update_slot)
    &&& f.liquidity_usd >= MIN_LIQUIDITY_THRESHOLD
    &&& f.price_confidence >= PRICE_CONFIDENCE_THRESHOLD
    &&& f.status == PriceFeedStatus::Active
}

impl MarketPriceFeed {
    pub const SIZE: usize = 32 + 64 + 8 + 8 + 8 + 8 + 8 + 8 + 8 + 8 + 8 + 8 + 1 + 8;

    /// Whether the feed is usable at `current_slot`: at most
    /// `MAX_PRICE_AGE_SLOTS` old, liquid, confident and active.
    pub fn is_valid(&self, current_slot: u64) -> (r: bool)
        ensures
            r == spec_feed_valid(*self, current_slot),
    {
        let age = if current_slot >= self.last_update_slot { current_slot - self.last_update_slot } else { 0 };
        age <= MAX_PRICE_AGE_SLOTS && self.liquidity_usd >= MIN_LIQUIDITY_THRESHOLD
            && self.price_confidence >= PRICE_CONFIDENCE_THRESHOLD && self.status == PriceFeedStatus::Active
    }
}

/// A signed price report from the oracle.
#[derive(Clone, Debug)]
pub struct OracleUpdate {
    pub market_id: [u8; 32],
    pub polymarket_id: String,
    pub yes_price: u64,
    pub no_price: u64,
    pub liquidity: u64,
    pub volume_24h: u64,
    pub timestamp: i64,
    /// Ed25519 signature of the oracle.
    pub signature: [u8; 64],
}

/// Aggregator of the market price feeds.
#[derive(Clone, Debug)]
pub struct PriceAggregator {
    pub oracle_pubkey: [u8; 32],
    pub price_feeds: Vec<MarketPriceFeed>,
    pub last_aggregation_slot: u64,
    pub total_value_locked: u64,
    pub aggregate_confidence: u64,
    /// Prices from the different oracles, kept for audit.
    pub oracle_prices: Vec<OraclePriceData>,
}

/// Position of the first feed of `market_id`, or -1.
pub open spec fn spec_feed_pos(feeds: Seq<MarketPriceFeed>, market_id: [u8; 32]) -> int
    decreases feeds.len(),
{
    if feeds.len() == 0 {
        -1
    } else {
        let p = spec_feed_pos(feeds.drop_last(), market_id);
        if p >= 0 { p } else if feeds.last().market_id@ == market_id@ { feeds.len() - 1 } else { -1 }
    }
}

proof fn lemma_feed_pos(feeds: Seq<MarketPriceFeed>, market_id: [u8; 32])
    ensures
        -1 <= spec_feed_pos(feeds, market_id) < feeds.len(),
        spec_feed_pos(feeds, market_id) >= 0 ==> feeds[spec_feed_pos(feeds, market_id)].market_id@ == market_id@,
        forall|q: int| 0 <= q < feeds.len() && (spec_feed_pos(feeds, market_id) < 0 || q < spec_feed_pos(feeds, market_id))
            ==> #[trigger] feeds[q].market_id@ != market_id@,
    decreases feeds.len(),
{
    if feeds.len() > 0 {
        lemma_feed_pos(feeds.drop_last(), market_id);
        assert forall|q: int| 0 <= q < feeds.len() && (spec_feed_pos(feeds, market_id) < 0 || q < spec_feed_pos(feeds, market_id))
            implies #[trigger] feeds[q].market_id@ != market_id@ by {
            if q < feeds.len() - 1 {
                assert(feeds[q] == feeds.drop_last()[q]);
            }
        }
    }
}

/// Why an update is refused for a feed, if it is: a blank signature, or
/// YES and NO prices summing to more than 5% away from 1.0.
pub open spec fn spec_update_refusal(u: OracleUpdate) -> Option<BettingPlatformError> {
    if u.signature@ == Seq::new(64, |i: int| 0u8) {
        Some(BettingPlatformError::InvalidOracleSignature)
    } else {
        let total = u.yes_price + u.no_price;
        let dev = if total > 100_000_000 { total - 100_000_000 } else { 100_000_000 - total };
        if dev > 5_000_000 { Some(BettingPlatformError::InvalidPriceSum) } else { None }
    }
}

/// Confidence of a feed (basis points): full, less the spread over the mid
/// price (up to 5%), plus one point per $10k of liquidity (up to 100).
pub open spec fn spec_feed_confidence(yes: u64, no: u64, liquidity: u64) -> int {
    let mid = (yes + no) / 2;
    let spread = if yes > no { yes - no } else { no - yes };
    let spread_bps = spread * 10000 / mid;
    let liq = if liquidity / MIN_LIQUIDITY_THRESHOLD < 100 { liquidity / MIN_LIQUIDITY_THRESHOLD } else { 100 };
    10000 - (if spread_bps < 500 { spread_bps } else { 500 }) + liq
}

/// A feed after an accepted update at `slot`.
pub open spec fn spec_feed_updated(f: MarketPriceFeed, u: OracleUpdate, slot: u64) -> MarketPriceFeed {
    MarketPriceFeed {
        yes_price: u.yes_price,
        no_price: u.no_price,
        mid_price: ((u.yes_price + u.no_price) / 2) as u64,
        bid_ask_spread: (if u.yes_price > u.no_price { u.yes_price - u.no_price } else { u.no_price - u.yes_price }) as u64,
        liquidity_usd: u.liquidity,
        volume_24h_usd: u.volume_24h,
        last_update_slot: slot,
        last_update_timestamp: u.timestamp,
        update_count: (f.update_count + 1) as u64,
        price_confidence: spec_feed_confidence(u.yes_price, u.no_price, u.liquidity) as u64,
        status: if u.liquidity >= MIN_LIQUIDITY_THRESHOLD { PriceFeedStatus::Active } else { PriceFeedStatus::Insufficient },
        ..f
    }
}

/// Feeds and answer after applying one update at `slot`.
pub open spec fn spec_apply_update(feeds: Seq<MarketPriceFeed>, u: OracleUpdate, slot: u64) -> (Seq<MarketPriceFeed>, Result<u64, BettingPlatformError>) {
    let p = spec_feed_pos(feeds, u.market_id);
    if p < 0 {
        (feeds, Err(BettingPlatformError::MarketNotFound))
    } else {
        match spec_update_refusal(u) {
            Some(e) => (feeds, Err(e)),
            None => {
                let nf = spec_feed_updated(feeds[p], u, slot);
                (feeds.update(p, nf), Ok(nf.price_confidence))
            },
        }
    }
}

/// Feeds, accepted updates and their total confidence after applying
/// `us` in order.
pub open spec fn spec_apply_all(feeds: Seq<MarketPriceFeed>, us: Seq<OracleUpdate>, slot: u64) -> (Seq<MarketPriceFeed>, nat, int)
    decreases us.len(),
{
    if us.len() == 0 {
        (feeds, 0, 0)
    } else {
        let (f1, n1, c1) = spec_apply_all(feeds, us.drop_last(), slot);
        let (f2, r) = spec_apply_update(f1, us.last(), slot);
        match r {
            Ok(c) => (f2, n1 + 1, c1 + c),
            Err(_) => (f2, n1, c1),
        }
    }
}

/// Every update's prices sum within 64 bits and no feed's update count
/// can reach the maximum through them.
pub open spec fn spec_updates_defined(feeds: Seq<MarketPriceFeed>, us: Seq<OracleUpdate>) -> bool {
    &&& forall|i: int| 0 <= i < us.len() ==> #[trigger] us[i].yes_price + us[i].no_price <= u64::MAX
    &&& forall|j: int| 0 <= j < feeds.len() ==> #[trigger] feeds[j].update_count + us.len() <= u64::MAX
    &&& us.len() * 10100 <= u64::MAX
}

/// Median of the available prices: the middle of three, the mean of two.
pub open spec fn spec_median(ps: Seq<u64>) -> Option<int> {
    if ps.len() < 2 {
        None
    } else if ps.len() == 2 {
        Some((ps[0] + ps[1]) / 2)
    } else {
        let a = ps[0];
        let b = ps[1];
        let c = ps[2];
        Some(if (a <= b && b <= c) || (c <= b && b <= a) { b as int } else if (b <= a && a <= c) || (c <= a && a <= b) { a as int } else { c as int })
    }
}

/// The prices present, in source order.
pub open spec fn spec_present(p: Option<u64>, y: Option<u64>, c: Option<u64>) -> Seq<u64> {
    (match p { Some(x) => seq![x], None => Seq::empty() }) + (match y { Some(x) => seq![x], None => Seq::empty() }) + (match c {
        Some(x) => seq![x],
        None => Seq::empty(),
    })
}

impl PriceAggregator {
    fn verify_oracle_signature(&self, update: &OracleUpdate) -> (r: bool)
        ensures
            r == (update.signature@ != Seq::new(64, |i: int| 0u8)),
    {
        let blank = [0u8; 64];
        assert(blank@ =~= Seq::new(64, |i: int| 0u8));
        !bytes_eq(&update.signature, &blank)
    }

    fn validate_price_update(&self, update: &OracleUpdate) -> (r: Result<(), BettingPlatformError>)
        requires
            update.yes_price + update.no_price <= u64::MAX,
        ensures
            r matches Err(e) ==> spec_update_refusal(*update) == Some(e),
            r is Ok ==> spec_update_refusal(*update) is None,
    {
        if !self.verify_oracle_signature(update) {
            return Err(BettingPlatformError::InvalidOracleSignature);
        }
        let total_price = update.yes_price + update.no_price;
        let expected_total: u64 = 100_000_000;
        let deviation = if total_price > expected_total { total_price - expected_total } else { expected_total - total_price };
        if deviation > expected_total * (MAX_PRICE_DEVIATION_BPS as u64) / 10000 {
            return Err(BettingPlatformError::InvalidPriceSum);
        }
        Ok(())
    }

    fn find_feed(&self, market_id: &[u8; 32]) -> (r: Option<usize>)
        ensures
            r is None ==> spec_feed_pos(self.price_feeds@, *market_id) < 0,
            r matches Some(i) ==> i == spec_feed_pos(self.price_feeds@, *market_id),
    {
        proof {
            lemma_feed_pos(self.price_feeds@, *market_id);
        }
        let mut i: usize = 0;
        while i < self.price_feeds.len()
            invariant
                i <= self.price_feeds@.len(),
                forall|q: int| 0 <= q < i ==> self.price_feeds@[q].market_id@ != market_id@,
                -1 <= spec_feed_pos(self.price_feeds@, *market_id) < self.price_feeds@.len(),
                spec_feed_pos(self.price_feeds@, *market_id) >= 0 ==> self.price_feeds@[spec_feed_pos(self.price_feeds@, *market_id)].market_id@ == market_id@,
                forall|q: int| 0 <= q < self.price_feeds@.len() && (spec_feed_pos(self.price_feeds@, *market_id) < 0 || q < spec_feed_pos(self.price_feeds@, *market_id))
                    ==> #[trigger] self.price_feeds@[q].market_id@ != market_id@,
            decreases self.price_feeds@.len() - i,
        {
            if bytes_eq(&self.price_feeds[i].market_id, market_id) {
                return Some(i);
            }
            i = i + 1;
        }
        None
    }

    /// Applies one update at `current_slot` to the feed of its market;
    /// returns the feed's new confidence.
    fn update_price_feed(&mut self, update: &OracleUpdate, current_slot: u64) -> (r: Result<u64, BettingPlatformError>)
        requires
            update.yes_price + update.no_price <= u64::MAX,
            forall|j: int| 0 <= j < old(self).price_feeds@.len() ==> #[trigger] old(self).price_feeds@[j].update_count < u64::MAX,
        ensures
            (final(self).price_feeds@, r) == spec_apply_update(old(self).price_feeds@, *update, current_slot),
            *final(self) == (PriceAggregator { price_feeds: final(self).price_feeds, ..*old(self) }),
    {
        let idx = match self.find_feed(&update.market_id) {
            Some(i) => i,
            None => return Err(BettingPlatformError::MarketNotFound),
        };
        match self.validate_price_update(update) {
            Ok(()) => {},
            Err(e) => return Err(e),
        }
        proof {
            lemma_feed_pos(self.price_feeds@, update.market_id);
        }
        let mut feed = self.price_feeds.remove(idx);
        let ghost f0 = feed;
        feed.yes_price = update.yes_price;
        feed.no_price = update.no_price;
        feed.mid_price = (update.yes_price + update.no_price) / 2;
        feed.bid_ask_spread = if update.yes_price > update.no_price { update.yes_price - update.no_price } else { update.no_price - update.yes_price };
        feed.liquidity_usd = update.liquidity;
        feed.volume_24h_usd = update.volume_24h;
        feed.last_update_slot = current_slot;
        feed.last_update_timestamp = update.timestamp;
        feed.update_count = feed.update_count + 1;
        assert(feed.mid_price >= 47_500_000);
        assert(feed.bid_ask_spread <= 105_000_000);
        let spread_bps = (feed.bid_ask_spread * 10000) / feed.mid_price;
        let l = feed.liquidity_usd / MIN_LIQUIDITY_THRESHOLD;
        let liquidity_score = if l < 100 { l } else { 100 };
        feed.price_confidence = 10000 - (if spread_bps < 500 { spread_bps } else { 500 }) + liquidity_score;
        feed.status = if feed.liquidity_usd >= MIN_LIQUIDITY_THRESHOLD { PriceFeedStatus::Active } else { PriceFeedStatus::Insufficient };
        let confidence = feed.price_confidence;
        let ghost nf = feed;
        let ghost feeds0 = old(self).price_feeds@;
        self.price_feeds.insert(idx, feed);
        assert(nf == spec_feed_updated(f0, *update, current_slot));
        assert(self.price_feeds@ =~= feeds0.update(idx as int, nf));
        Ok(confidence)
    }

    /// Applies a batch of updates at `current_slot`; refused updates are
    /// skipped. With at least one accepted, the aggregate confidence becomes
    /// their average and the aggregation slot moves to `current_slot`.
    pub fn aggregate_prices(&mut self, updates: &[OracleUpdate], current_slot: u64) -> (r: Result<(), BettingPlatformError>)
        requires
            spec_updates_defined(old(self).price_feeds@, updates@),
        ensures
            r is Ok,
            ({
                let (feeds, n, total) = spec_apply_all(old(self).price_feeds@, updates@, current_slot);
                &&& final(self).price_feeds@ == feeds
                &&& *final(self) == (PriceAggregator {
                    price_feeds: final(self).price_feeds,
                    aggregate_confidence: if n > 0 { (total / (n as int)) as u64 } else { old(self).aggregate_confidence },
                    last_aggregation_slot: if n > 0 { current_slot } else { old(self).last_aggregation_slot },
                    ..*old(self)
                })
            }),
    {
        let mut successful: u64 = 0;
        let mut total_confidence: u64 = 0;
        let mut i: usize = 0;
        while i < updates.len()
            invariant
                i <= updates@.len(),
                spec_updates_defined(old(self).price_feeds@, updates@),
                (self.price_feeds@, successful as nat, total_confidence as int) == spec_apply_all(old(self).price_feeds@, updates@.subrange(0, i as int), current_slot),
                self.price_feeds@.len() == old(self).price_feeds@.len(),
                forall|j: int| 0 <= j < self.price_feeds@.len() ==> #[trigger] self.price_feeds@[j].update_count <= old(self).price_feeds@[j].update_count + i,
                successful <= i,
                total_confidence <= i * 10100,
                *self == (PriceAggregator { price_feeds: self.price_feeds, ..*old(self) }),
            decreases updates@.len() - i,
        {
            let ghost before = self.price_feeds@;
            proof {
                assert(updates@.subrange(0, i + 1).drop_last() =~= updates@.subrange(0, i as int));
                assert(updates@[i as int].yes_price + updates@[i as int].no_price <= u64::MAX);
                assert forall|j: int| 0 <= j < before.len() implies #[trigger] before[j].update_count < u64::MAX by {
                    assert(old(self).price_feeds@[j].update_count + updates@.len() <= u64::MAX);
                }
            }
            match self.update_price_feed(&updates[i], current_slot) {
                Ok(confidence) => {
                    proof {
                        lemma_feed_pos(before, updates@[i as int].market_id);
                        assert(confidence <= 10100);
                    }
                    successful = successful + 1;
                    total_confidence = total_confidence + confidence;
                },
                Err(_) => {},
            }
            proof {
                lemma_feed_pos(before, updates@[i as int].market_id);
                assert forall|j: int| 0 <= j < self.price_feeds@.len() implies #[trigger] self.price_feeds@[j].update_count
                    <= old(self).price_feeds@[j].update_count + i + 1 by {
                    assert(before[j].update_count <= old(self).price_feeds@[j].update_count + i);
                }
            }
            i = i + 1;
        }
        assert(updates@.subrange(0, i as int) =~= updates@);
        if successful > 0 {
            self.aggregate_confidence = total_confidence / successful;
            self.last_aggregation_slot = current_slot;
        }
        Ok(())
    }

    /// The median of the available oracle prices: needs two or more; the
    /// middle of three, the mean of two.
    pub fn calculate_median_price(
        &self,
        market_id: &[u8; 32],
        polymarket_price: Option<u64>,
        pyth_price: Option<u64>,
        chainlink_price: Option<u64>,
    ) -> (r: Result<u64, BettingPlatformError>)
        requires
            spec_present(polymarket_price, pyth_price, chainlink_price).len() == 2 ==> spec_present(
                polymarket_price, pyth_price, chainlink_price)[0] + spec_present(polymarket_price, pyth_price, chainlink_price)[1]
                <= u64::MAX,
        ensures
            match spec_median(spec_present(polymarket_price, pyth_price, chainlink_price)) {
                Some(m) => r == Ok::<u64, BettingPlatformError>(m as u64),
                None => r == Err::<u64, BettingPlatformError>(BettingPlatformError::InsufficientOracleSources),
            },
    {
        let mut prices: Vec<u64> = Vec::new();
        if let Some(price) = polymarket_price {
            prices.push(price);
        }
        if let Some(price) = pyth_price {
            prices.push(price);
        }
        if let Some(price) = chainlink_price {
            prices.push(price);
        }
        assert(prices@ =~= spec_present(polymarket_price, pyth_price, chainlink_price));
        if prices.len() < 2 {
            return Err(BettingPlatformError::InsufficientOracleSources);
        }
        if prices.len() == 2 {
            return Ok((prices[0] + prices[1]) / 2);
        }
        let a = prices[0];
        let b = prices[1];
        let c = prices[2];
        let m = if (a <= b && b <= c) || (c <= b && b <= a) { b } else if (b <= a && a <= c) || (c <= a && a <= b) { a } else { c };
        Ok(m)
    }

    /// Address of a lookup table for the given markets: the program-derived
    /// address of `polymarket_lookup`, the oracle key and counter 0 under
    /// `program_id`. Refused for no markets or more than 256.
    pub fn create_market_lookup_table(&self, markets: &[[u8; 32]], program_id: &[u8; 32]) -> (r: Result<[u8; 32], BettingPlatformError>)
        ensures
            markets@.len() == 0 || markets@.len() > 256 ==> r == Err::<[u8; 32], BettingPlatformError>(BettingPlatformError::InvalidInput),
            0 < markets@.len() <= 256 ==> match spec_find_program_address(seq![spec_lookup_label(), self.oracle_pubkey@, seq![0u8]], program_id@) {
                Some(found) => r matches Ok(k) && k@ == found.0,
                None => r == Err::<[u8; 32], BettingPlatformError>(BettingPlatformError::InvalidSeeds),
            },
    {
        if markets.len() == 0 || markets.len() > 256 {
            return Err(BettingPlatformError::InvalidInput);
        }
        let mut seeds: Vec<Vec<u8>> = Vec::new();
        let label = vec![112u8, 111, 108, 121, 109, 97, 114, 107, 101, 116, 95, 108, 111, 111, 107, 117, 112];
        assert(label@ =~= spec_lookup_label());
        seeds.push(label);
        seeds.push(crate::bytes::slice_to_vec(self.oracle_pubkey.as_slice()));
        let counter = vec![0u8];
        assert(counter@ =~= seq![0u8]);
        seeds.push(counter);
        assert(seeds@.map_values(|s: Vec<u8>| s@) =~= seq![spec_lookup_label(), self.oracle_pubkey@, seq![0u8]]);
        match find_program_address(&seeds, program_id) {
            Some((key, _bump)) => Ok(key),
            None => Err(BettingPlatformError::InvalidSeeds),
        }
    }

    /// The market at `index` of a lookup table's addresses.
    pub fn get_market_from_lookup(&self, addresses: &[[u8; 32]], index: u8) -> (r: Result<[u8; 32], BettingPlatformError>)
        ensures
            index >= addresses@.len() ==> r == Err::<[u8; 32], BettingPlatformError>(BettingPlatformError::InvalidInput),
            index < addresses@.len() ==> r == Ok::<[u8; 32], BettingPlatformError>(addresses@[index as int]),
    {
        if index as usize >= addresses.len() {
            return Err(BettingPlatformError::InvalidInput);
        }
        Ok(addresses[index as usize])
    }
}

/// Bytes of the label `polymarket_lookup`.
pub open spec fn spec_lookup_label() -> Seq<u8> {
    seq![112u8, 111, 108, 121, 109, 97, 114, 107, 101, 116, 95, 108, 111, 111, 107, 117, 112]
}

/// The latest fresh price of each source among the updates, at `slot`:
/// (Polymarket, Pyth or Pyth Network, Chainlink); the internal cache is
/// not a source.
pub open spec fn spec_latest_prices(us: Seq<OraclePriceData>, slot: u64) -> (Option<u64>, Option<u64>, Option<u64>)
    decreases us.len(),
{
    if us.len() == 0 {
        (None, None, None)
    } else {
        let (p, y, c) = spec_latest_prices(us.drop_last(), slot);
        let u = us.last();
        if slot - u.slot > MAX_PRICE_AGE_SLOTS {
            (p, y, c)
        } else {
            match u.source {
                OracleSource::Polymarket => (Some(u.price), y, c),
                OracleSource::Pyth => (p, Some(u.price), c),
                OracleSource::PythNetwork => (p, Some(u.price), c),
                OracleSource::Chainlink => (p, y, Some(u.price)),
                OracleSource::InternalCache => (p, y, c),
            }
        }
    }
}

/// Equal feeds, names compared by content.
pub open spec fn spec_same_feed(a: MarketPriceFeed, b: MarketPriceFeed) -> bool {
    &&& a.polymarket_id@ == b.polymarket_id@
    &&& a == (MarketPriceFeed { polymarket_id: a.polymarket_id, ..b })
}

/// Copies a feed.
pub fn clone_feed(f: &MarketPriceFeed) -> (r: MarketPriceFeed)
    ensures
        spec_same_feed(r, *f),
{
    MarketPriceFeed {
        market_id: f.market_id,
        polymarket_id: f.polymarket_id.clone(),
        yes_price: f.yes_price,
        no_price: f.no_price,
        mid_price: f.mid_price,
        bid_ask_spread: f.bid_ask_spread,
        liquidity_usd: f.liquidity_usd,
        volume_24h_usd: f.volume_24h_usd,
        last_trade_price: f.last_trade_price,
        last_update_slot: f.last_update_slot,
        last_update_timestamp: f.last_update_timestamp,
        price_confidence: f.price_confidence,
        status: f.status,
        update_count: f.update_count,
    }
}

impl PriceAggregator {
    /// Takes the latest fresh price of each oracle source at `current_slot`,
    /// computes their median, and, when the market has a feed, stores it as
    /// the feed's mid price with the updates kept for audit.
    pub fn update_median_price(&mut self, market_id: &[u8; 32], oracle_updates: Vec<OraclePriceData>, current_slot: u64) -> (r: Result<u64, BettingPlatformError>)
        requires
            forall|i: int| 0 <= i < oracle_updates@.len() ==> #[trigger] oracle_updates@[i].slot <= current_slot,
            ({
                let (p, y, c) = spec_latest_prices(oracle_updates@, current_slot);
                spec_present(p, y, c).len() == 2 ==> spec_present(p, y, c)[0] + spec_present(p, y, c)[1] <= u64::MAX
            }),
        ensures
            ({
                let (p, y, c) = spec_latest_prices(oracle_updates@, current_slot);
                let pos = spec_feed_pos(old(self).price_feeds@, *market_id);
                match spec_median(spec_present(p, y, c)) {
                    None => r == Err::<u64, BettingPlatformError>(BettingPlatformError::InsufficientOracleSources) && *final(self) == *old(self),
                    Some(m) => {
                        &&& r == Ok::<u64, BettingPlatformError>(m as u64)
                        &&& pos < 0 ==> *final(self) == *old(self)
                        &&& pos >= 0 ==> *final(self) == (PriceAggregator {
                            price_feeds: final(self).price_feeds,
                            oracle_prices: final(self).oracle_prices,
                            ..*old(self)
                        }) && final(self).oracle_prices@ == oracle_updates@ && final(self).price_feeds@ == old(self).price_feeds@.update(
                            pos,
                            MarketPriceFeed { mid_price: m as u64, last_update_slot: current_slot, ..old(self).price_feeds@[pos] },
                        )
                    },
                }
            }),
    {
        let mut polymarket_price: Option<u64> = None;
        let mut pyth_price: Option<u64> = None;
        let mut chainlink_price: Option<u64> = None;
        let mut i: usize = 0;
        while i < oracle_updates.len()
            invariant
                i <= oracle_updates@.len(),
                forall|k: int| 0 <= k < oracle_updates@.len() ==> #[trigger] oracle_updates@[k].slot <= current_slot,
                (polymarket_price, pyth_price, chainlink_price) == spec_latest_prices(oracle_updates@.subrange(0, i as int), current_slot),
            decreases oracle_updates@.len() - i,
        {
            proof {
                assert(oracle_updates@.subrange(0, i + 1).drop_last() =~= oracle_updates@.subrange(0, i as int));
                assert(oracle_updates@[i as int].slot <= current_slot);
            }
            let update = oracle_updates[i];
            if current_slot - update.slot <= MAX_PRICE_AGE_SLOTS {
                match update.source {
                    OracleSource::Polymarket => polymarket_price = Some(update.price),
                    OracleSource::Pyth => pyth_price = Some(update.price),
                    OracleSource::Chainlink => chainlink_price = Some(update.price),
                    OracleSource::PythNetwork => pyth_price = Some(update.price),
                    OracleSource::InternalCache => {},
                }
            }
            i = i + 1;
        }
        assert(oracle_updates@.subrange(0, i as int) =~= oracle_updates@);
        let median_price = match self.calculate_median_price(market_id, polymarket_price, pyth_price, chainlink_price) {
            Ok(m) => m,
            Err(e) => return Err(e),
        };
        proof {
            lemma_feed_pos(self.price_feeds@, *market_id);
        }
        match self.find_feed(market_id) {
            Some(idx) => {
                let mut feed = self.price_feeds.remove(idx);
                feed.mid_price = median_price;
                feed.last_update_slot = current_slot;
                let ghost nf = feed;
                self.price_feeds.insert(idx, feed);
                assert(self.price_feeds@ =~= old(self).price_feeds@.update(idx as int, nf));
                self.oracle_prices = oracle_updates;
            },
            None => {},
        }
        Ok(median_price)
    }
}

/// Fallback prices kept while the oracle is disconnected.
#[derive(Clone, Debug)]
pub struct OracleFallbackHandler {
    pub last_good_prices: Vec<MarketPriceFeed>,
    pub fallback_activated_slot: u64,
    pub max_fallback_duration: u64,
    /// Confidence lost per slot, in basis points.
    pub decay_rate_bps: u16,
}

impl OracleFallbackHandler {
    /// Longest fallback (~2 minutes).
    pub const MAX_FALLBACK_SLOTS: u64 = 300;

    /// Keeps the current prices as fallback from `current_slot`.
    pub fn activate_fallback(&mut self, current_prices: &[MarketPriceFeed], current_slot: u64) -> (r: Result<(), BettingPlatformError>)
        ensures
            r is Ok,
            final(self).last_good_prices@.len() == current_prices@.len(),
            forall|i: int| 0 <= i < current_prices@.len() ==> spec_same_feed(#[trigger] final(self).last_good_prices@[i], current_prices@[i]),
            final(self).fallback_activated_slot == current_slot,
            final(self).max_fallback_duration == Self::MAX_FALLBACK_SLOTS,
            final(self).decay_rate_bps == old(self).decay_rate_bps,
    {
        let mut kept: Vec<MarketPriceFeed> = Vec::new();
        let mut i: usize = 0;
        while i < current_prices.len()
            invariant
                i <= current_prices@.len(),
                kept@.len() == i,
                forall|k: int| 0 <= k < i ==> spec_same_feed(#[trigger] kept@[k], current_prices@[k]),
            decreases current_prices@.len() - i,
        {
            kept.push(clone_feed(&current_prices[i]));
            i = i + 1;
        }
        self.last_good_prices = kept;
        self.fallback_activated_slot = current_slot;
        self.max_fallback_duration = Self::MAX_FALLBACK_SLOTS;
        Ok(())
    }

    /// The fallback price and decayed confidence of a market at
    /// `current_slot`; refused without a kept price, after the fallback
    /// expired, or once confidence falls under half the threshold.
    pub fn get_fallback_price(&self, market_id: &[u8; 32], current_slot: u64) -> (r: Result<(u64, u64), BettingPlatformError>)
        requires
            (if current_slot >= self.fallback_activated_slot { current_slot - self.fallback_activated_slot } else { 0 }) * self.decay_rate_bps <= u64::MAX,
        ensures
            ({
                let pos = spec_feed_pos(self.last_good_prices@, *market_id);
                let elapsed = if current_slot >= self.fallback_activated_slot { current_slot - self.fallback_activated_slot } else { 0 };
                let decay = elapsed * self.decay_rate_bps / 10000;
                if pos < 0 {
                    r == Err::<(u64, u64), BettingPlatformError>(BettingPlatformError::NoFallbackPrice)
                } else if elapsed > self.max_fallback_duration {
                    r == Err::<(u64, u64), BettingPlatformError>(BettingPlatformError::FallbackExpired)
                } else {
                    let f = self.last_good_prices@[pos];
                    let conf = if f.price_confidence > decay { f.price_confidence - decay } else { 0 };
                    if conf < PRICE_CONFIDENCE_THRESHOLD / 2 {
                        r == Err::<(u64, u64), BettingPlatformError>(BettingPlatformError::InsufficientConfidence)
                    } else {
                        r == Ok::<(u64, u64), BettingPlatformError>((f.mid_price, conf as u64))
                    }
                }
            }),
    {
        proof {
            lemma_feed_pos(self.last_good_prices@, *market_id);
        }
        let mut idx: usize = 0;
        let mut found = false;
        while idx < self.last_good_prices.len()
            invariant_except_break
                !found,
            invariant
                idx <= self.last_good_prices@.len(),
                forall|q: int| 0 <= q < idx ==> self.last_good_prices@[q].market_id@ != market_id@,
            ensures
                idx <= self.last_good_prices@.len(),
                forall|q: int| 0 <= q < idx ==> self.last_good_prices@[q].market_id@ != market_id@,
                found ==> idx < self.last_good_prices@.len() && self.last_good_prices@[idx as int].market_id@ == market_id@,
                !found ==> idx == self.last_good_prices@.len(),
            decreases self.last_good_prices@.len() - idx,
        {
            if bytes_eq(&self.last_good_prices[idx].market_id, market_id) {
                found = true;
                break;
            }
            idx = idx + 1;
        }
        if !found {
            return Err(BettingPlatformError::NoFallbackPrice);
        }
        let feed = &self.last_good_prices[idx];
        let elapsed = if current_slot >= self.fallback_activated_slot { current_slot - self.fallback_activated_slot } else { 0 };
        if elapsed > self.max_fallback_duration {
            return Err(BettingPlatformError::FallbackExpired);
        }
        let decay = (elapsed * self.decay_rate_bps as u64) / 10000;
        let confidence = if feed.price_confidence > decay { feed.price_confidence - decay } else { 0 };
        if confidence < PRICE_CONFIDENCE_THRESHOLD / 2 {
            return Err(BettingPlatformError::InsufficientConfidence);
        }
        Ok((feed.mid_price, confidence))
    }
}

/// Keeper that submits oracle updates.
#[derive(Clone, Copy, Debug)]
pub struct OracleKeeper {
    pub keeper_id: [u8; 32],
    pub authority: [u8; 32],
    /// Slots between submissions.
    pub update_frequency: u64,
    pub last_update_slot: u64,
    pub rewards_earned: u64,
    pub updates_submitted: u64,
    pub failed_updates: u64,
}

/// Reward per submitted update (0.001 SOL).
pub const REWARD_PER_UPDATE: u64 = 1000;

impl OracleKeeper {
    /// Submits a batch at `current_slot`: refused before the keeper's
    /// frequency allows; otherwise the aggregator applies the updates, the
    /// oracle is marked connected and the keeper is credited.
    pub fn submit_updates(
        &mut self,
        updates: Vec<OracleUpdate>,
        oracle: &mut PolymarketOracle,
        aggregator: &mut PriceAggregator,
        current_slot: u64,
        current_timestamp: i64,
    ) -> (r: Result<(), BettingPlatformError>)
        requires
            spec_updates_defined(old(aggregator).price_feeds@, updates@),
            old(oracle).total_updates_processed + updates@.len() <= u64::MAX,
            old(self).updates_submitted + updates@.len() <= u64::MAX,
            old(self).rewards_earned + REWARD_PER_UPDATE * updates@.len() <= u64::MAX,
        ensures
            current_slot < old(self).last_update_slot + old(self).update_frequency ==> r == Err::<(), BettingPlatformError>(
                BettingPlatformError::UpdateTooFrequent) && *final(self) == *old(self) && *final(oracle) == *old(oracle)
                && *final(aggregator) == *old(aggregator),
            current_slot >= old(self).last_update_slot + old(self).update_frequency ==> {
                let (feeds, n, total) = spec_apply_all(old(aggregator).price_feeds@, updates@, current_slot);
                &&& r is Ok
                &&& final(aggregator).price_feeds@ == feeds
                &&& *final(aggregator) == (PriceAggregator {
                    price_feeds: final(aggregator).price_feeds,
                    aggregate_confidence: if n > 0 { (total / (n as int)) as u64 } else { old(aggregator).aggregate_confidence },
                    last_aggregation_slot: if n > 0 { current_slot } else { old(aggregator).last_aggregation_slot },
                    ..*old(aggregator)
                })
                &&& *final(oracle) == (PolymarketOracle {
                    total_updates_processed: (old(oracle).total_updates_processed + updates@.len()) as u64,
                    last_update_slot: current_slot,
                    last_update_timestamp: current_timestamp,
                    connection_status: PriceFeedStatus::Active,
                    ..*old(oracle)
                })
                &&& *final(self) == (OracleKeeper {
                    last_update_slot: current_slot,
                    updates_submitted: (old(self).updates_submitted + updates@.len()) as u64,
                    rewards_earned: (old(self).rewards_earned + REWARD_PER_UPDATE * updates@.len()) as u64,
                    ..*old(self)
                })
            },
    {
        if !(current_slot >= self.last_update_slot && current_slot - self.last_update_slot >= self.update_frequency) {
            return Err(BettingPlatformError::UpdateTooFrequent);
        }
        match aggregator.aggregate_prices(updates.as_slice(), current_slot) {
            Ok(()) => {},
            Err(e) => return Err(e),
        }
        let n = updates.len() as u64;
        oracle.total_updates_processed = oracle.total_updates_processed + n;
        oracle.last_update_slot = current_slot;
        oracle.last_update_timestamp = current_timestamp;
        oracle.connection_status = PriceFeedStatus::Active;
        self.last_update_slot = current_slot;
        self.updates_submitted = self.updates_submitted + n;
        self.rewards_earned = self.rewards_earned + REWARD_PER_UPDATE * n;
        Ok(())
    }
}

/// With all three sources present, the median is one of the three prices
/// with another price at or below it and another at or above it, whatever
/// the order of the sources: swapping any two sources leaves it unchanged.
/// With two present it is their mean, rounded down.
pub proof fn lemma_median_is_middle_price(x: u64, y: u64, z: u64)
    ensures
        spec_median(spec_present(Some(x), Some(y), Some(z))) matches Some(m) && {
            &&& (m == x || m == y || m == z)
            &&& (m == x ==> (y <= m || z <= m) && (y >= m || z >= m))
            &&& (m == y ==> (x <= m || z <= m) && (x >= m || z >= m))
            &&& (m == z ==> (x <= m || y <= m) && (x >= m || y >= m))
            &&& ((x <= m) as int + (y <= m) as int + (z <= m) as int) >= 2
            &&& ((x >= m) as int + (y >= m) as int + (z >= m) as int) >= 2
        },
        spec_median(spec_present(Some(x), Some(y), Some(z))) == spec_median(spec_present(Some(y), Some(x), Some(z))),
        spec_median(spec_present(Some(x), Some(y), Some(z))) == spec_median(spec_present(Some(x), Some(z), Some(y))),
        spec_median(spec_present(Some(x), Some(y), Some(z))) == spec_median(spec_present(Some(z), Some(y), Some(x))),
        spec_median(spec_present(Some(x), Some(y), None)) == Some((x + y) / 2),
        spec_median(spec_present(Some(x), None, Some(z))) == Some((x + z) / 2),
        spec_median(spec_present(None, Some(y), Some(z))) == Some((y + z) / 2),
{
    assert(spec_present(Some(x), Some(y), Some(z)) =~= seq![x, y, z]);
    assert(spec_present(Some(y), Some(x), Some(z)) =~= seq![y, x, z]);
    assert(spec_present(Some(x), Some(z), Some(y)) =~= seq![x, z, y]);
    assert(spec_present(Some(z), Some(y), Some(x)) =~= seq![z, y, x]);
    assert(spec_present(Some(x), Some(y), None) =~= seq![x, y]);
    assert(spec_present(Some(x), None, Some(z)) =~= seq![x, z]);
    assert(spec_present(None, Some(y), Some(z)) =~= seq![y, z]);
}

} // verus!
