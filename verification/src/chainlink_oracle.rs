//! Chainlink price feeds: validation of an aggregator, conversion of its
//! answer to the standard eight decimals, confidence and freshness, and the
//! feed mappings kept per market.
use vstd::prelude::*;
use crate::bytes::bytes_eq;
use crate::error::BettingPlatformError;
use crate::oracle_coordinator::OracleSource;
use crate::polymarket_oracle::{
    lemma_pow10_monotone, pow10_u128, spec_is_fresh, spec_pow10, OraclePriceData, MAX_PRICE_AGE_SLOTS, PRICE_DECIMAL_PLACES,
};

verus! {

/// A Chainlink round.
#[derive(Clone, Copy, Debug)]
pub struct ChainlinkRound {
    pub round_id: u128,
    pub answer: i128,
    pub started_at: u64,
    pub updated_at: u64,
    pub answered_in_round: u128,
}

impl ChainlinkRound {
    pub const SIZE: usize = 16 + 16 + 8 + 8 + 16;
}

/// A Chainlink aggregator account.
#[derive(Clone, Debug)]
pub struct ChainlinkAggregator {
    pub version: u8,
    pub decimals: u8,
    pub description: String,
    pub latest_round_id: u128,
    pub latest_answer: i128,
    pub latest_timestamp: u64,
    pub latest_started_at: u64,
    pub updated_at_slot: u64,
    pub min_answer: i128,
    pub max_answer: i128,
    pub answered_in_round: u128,
}

/// The outcome of validating an aggregator; the checks run in this order.
pub open spec fn spec_validate(a: ChainlinkAggregator) -> Result<(), BettingPlatformError> {
    if a.version != 3 {
        Err(BettingPlatformError::InvalidChainlinkVersion)
    } else if a.decimals > 18 {
        Err(BettingPlatformError::InvalidChainlinkDecimals)
    } else if a.latest_answer <= 0 {
        Err(BettingPlatformError::InvalidChainlinkPrice)
    } else if a.latest_answer < a.min_answer || a.latest_answer > a.max_answer {
        Err(BettingPlatformError::ChainlinkPriceOutOfBounds)
    } else {
        Ok(())
    }
}

/// The answer rescaled to eight decimals (cut to 64 bits as computed).
pub open spec fn spec_standard_price(a: ChainlinkAggregator) -> u64 {
    if a.decimals > 8 {
        ((a.latest_answer as int) / (spec_pow10((a.decimals - 8) as nat) as int)) as u64
    } else {
        (a.latest_answer * spec_pow10((8 - a.decimals) as nat)) as u64
    }
}

/// The inputs on which the rescaling stays within 128 bits.
pub open spec fn spec_price_defined(a: ChainlinkAggregator) -> bool {
    &&& a.decimals <= 46
    &&& a.decimals <= 8 ==> a.latest_answer * spec_pow10((8 - a.decimals) as nat) <= u128::MAX
}

/// Age of the answer in seconds, as computed (signed difference, absolute
/// value).
pub open spec fn spec_age_seconds(a: ChainlinkAggregator, now: i64) -> int {
    let d = now - (a.latest_timestamp as i64);
    if d < 0 { -d } else { d }
}

/// Confidence: 95%, less 1% per minute of age (at most 50%), plus 5% when
/// the latest round answered itself, capped at 100%.
pub open spec fn spec_chainlink_confidence(a: ChainlinkAggregator, now: i64) -> int {
    let minutes = spec_age_seconds(a, now) / 60;
    let penalty = (if minutes < 50 { minutes } else { 50 }) * 100;
    let base = 9500 - penalty;
    let c = if a.latest_round_id == a.answered_in_round { base + 500 } else { base };
    if c < 10000 { c } else { 10000 }
}

impl ChainlinkAggregator {
    pub const VERSION: u8 = 3;
    pub const MAX_DECIMALS: u8 = 18;

    /// Checks version, decimals, a positive answer, and the answer bounds.
    pub fn validate(&self) -> (r: Result<(), BettingPlatformError>)
        ensures
            r == spec_validate(*self),
    {
        if self.version != Self::VERSION {
            return Err(BettingPlatformError::InvalidChainlinkVersion);
        }
        if self.decimals > Self::MAX_DECIMALS {
            return Err(BettingPlatformError::InvalidChainlinkDecimals);
        }
        if self.latest_answer <= 0 {
            return Err(BettingPlatformError::InvalidChainlinkPrice);
        }
        if self.latest_answer < self.min_answer || self.latest_answer > self.max_answer {
            return Err(BettingPlatformError::ChainlinkPriceOutOfBounds);
        }
        Ok(())
    }

    /// The answer in the standard eight decimals; refused unless positive.
    pub fn get_price(&self) -> (r: Result<u64, BettingPlatformError>)
        requires
            spec_price_defined(*self),
        ensures
            self.latest_answer <= 0 ==> r == Err::<u64, BettingPlatformError>(BettingPlatformError::InvalidChainlinkPrice),
            self.latest_answer > 0 ==> r == Ok::<u64, BettingPlatformError>(spec_standard_price(*self)),
    {
        if self.latest_answer <= 0 {
            return Err(BettingPlatformError::InvalidChainlinkPrice);
        }
        let answer = self.latest_answer as u128;
        let price = if self.decimals > PRICE_DECIMAL_PLACES as u8 {
            let scale = pow10_u128((self.decimals - PRICE_DECIMAL_PLACES as u8) as u32);
            (answer / scale) as u64
        } else {
            let scale = pow10_u128((PRICE_DECIMAL_PLACES as u8 - self.decimals) as u32);
            (answer * scale) as u64
        };
        Ok(price)
    }

    /// Confidence (basis points) at `current_timestamp`.
    pub fn get_confidence(&self, current_timestamp: i64) -> (r: u64)
        requires
            i64::MIN < current_timestamp - (self.latest_timestamp as i64) <= i64::MAX,
        ensures
            r == spec_chainlink_confidence(*self, current_timestamp),
    {
        let mut confidence: u64 = 9500;
        let d = current_timestamp - self.latest_timestamp as i64;
        let age_seconds = (if d < 0 { -d } else { d }) as u64;
        let minutes = age_seconds / 60;
        let age_penalty = (if minutes < 50 { minutes } else { 50 }) * 100;
        confidence = confidence.saturating_sub(age_penalty);
        if self.latest_round_id == self.answered_in_round {
            confidence = confidence + 500;
        }
        if confidence < 10000 { confidence } else { 10000 }
    }

    /// Whether the aggregator was updated within `MAX_PRICE_AGE_SLOTS`.
    pub fn is_fresh(&self, current_slot: u64) -> (r: bool)
        ensures
            r == spec_is_fresh(current_slot, self.updated_at_slot),
    {
        current_slot.saturating_sub(self.updated_at_slot) <= MAX_PRICE_AGE_SLOTS
    }
}

/// A market's Chainlink feed.
#[derive(Clone, Debug)]
pub struct ChainlinkPriceFeedMapping {
    pub market_id: [u8; 32],
    pub feed_account: [u8; 32],
    pub base_symbol: String,
    pub quote_symbol: String,
    pub last_update_slot: u64,
    pub last_price: u64,
    pub last_round_id: u128,
}

impl ChainlinkPriceFeedMapping {
    pub const SIZE: usize = 32 + 32 + 16 + 16 + 8 + 8 + 16;
}

/// The Chainlink configuration: one mapping per market.
#[derive(Clone, Debug)]
pub struct ChainlinkOracleConfig {
    pub authority: [u8; 32],
    pub chainlink_program_id: [u8; 32],
    pub price_feeds: Vec<ChainlinkPriceFeedMapping>,
    pub last_update_slot: u64,
    pub total_feeds: u32,
    pub active_feeds: u32,
}

/// Whether some feed maps market `id`.
pub open spec fn spec_has_feed(feeds: Seq<ChainlinkPriceFeedMapping>, id: [u8; 32]) -> bool {
    exists|k: int| 0 <= k < feeds.len() && #[trigger] feeds[k].market_id@ == id@
}

/// Number of feeds updated within `MAX_PRICE_AGE_SLOTS` of `slot`.
pub open spec fn spec_active_count(feeds: Seq<ChainlinkPriceFeedMapping>, slot: u64) -> nat
    decreases feeds.len(),
{
    if feeds.len() == 0 { 0 } else {
        spec_active_count(feeds.drop_last(), slot) + if spec_is_fresh(slot, feeds.last().last_update_slot) {
            1nat
        } else {
            0nat
        }
    }
}

/// The (market, last price) of the feeds fresh at `slot`, in order.
pub open spec fn spec_active_prices(feeds: Seq<ChainlinkPriceFeedMapping>, slot: u64) -> Seq<([u8; 32], u64)>
    decreases feeds.len(),
{
    if feeds.len() == 0 { Seq::empty() } else {
        spec_active_prices(feeds.drop_last(), slot) + if spec_is_fresh(slot, feeds.last().last_update_slot) {
            seq![(feeds.last().market_id, feeds.last().last_price)]
        } else {
            Seq::empty()
        }
    }
}

proof fn lemma_active_count_le(feeds: Seq<ChainlinkPriceFeedMapping>, slot: u64)
    ensures
        spec_active_count(feeds, slot) <= feeds.len(),
    decreases feeds.len(),
{
    if feeds.len() > 0 {
        lemma_active_count_le(feeds.drop_last(), slot);
    }
}

impl ChainlinkOracleConfig {
    /// Sets the authority and program and drops every feed.
    pub fn initialize(&mut self, authority: &[u8; 32], chainlink_program_id: &[u8; 32]) -> (r: Result<(), BettingPlatformError>)
        ensures
            r is Ok,
            final(self).authority == *authority,
            final(self).chainlink_program_id == *chainlink_program_id,
            final(self).price_feeds@.len() == 0,
            final(self).last_update_slot == 0,
            final(self).total_feeds == 0,
            final(self).active_feeds == 0,
    {
        self.authority = *authority;
        self.chainlink_program_id = *chainlink_program_id;
        self.price_feeds = Vec::new();
        self.last_update_slot = 0;
        self.total_feeds = 0;
        self.active_feeds = 0;
        Ok(())
    }

    /// Adds the feed of a market; refused when the market has one.
    pub fn add_price_feed(
        &mut self,
        market_id: [u8; 32],
        feed_account: [u8; 32],
        base_symbol: String,
        quote_symbol: String,
    ) -> (r: Result<(), BettingPlatformError>)
        requires
            old(self).total_feeds < u32::MAX,
        ensures
            spec_has_feed(old(self).price_feeds@, market_id) ==> r == Err::<(), BettingPlatformError>(
                BettingPlatformError::PriceFeedAlreadyExists) && final(self).price_feeds@ == old(self).price_feeds@
                && final(self).total_feeds == old(self).total_feeds,
            !spec_has_feed(old(self).price_feeds@, market_id) ==> {
                &&& r is Ok
                &&& final(self).price_feeds@.len() == old(self).price_feeds@.len() + 1
                &&& final(self).price_feeds@.drop_last() == old(self).price_feeds@
                &&& final(self).price_feeds@.last().market_id == market_id
                &&& final(self).price_feeds@.last().feed_account == feed_account
                &&& final(self).price_feeds@.last().base_symbol@ == base_symbol@
                &&& final(self).price_feeds@.last().quote_symbol@ == quote_symbol@
                &&& final(self).price_feeds@.last().last_update_slot == 0
                &&& final(self).price_feeds@.last().last_price == 0
                &&& final(self).price_feeds@.last().last_round_id == 0
                &&& final(self).total_feeds == old(self).total_feeds + 1
            },
    {
        let mut k: usize = 0;
        while k < self.price_feeds.len()
            invariant
                k <= self.price_feeds@.len(),
                forall|j: int| 0 <= j < k ==> #[trigger] self.price_feeds@[j].market_id@ != market_id@,
            decreases self.price_feeds@.len() - k,
        {
            if bytes_eq(&self.price_feeds[k].market_id, &market_id) {
                return Err(BettingPlatformError::PriceFeedAlreadyExists);
            }
            k = k + 1;
        }
        self.price_feeds.push(ChainlinkPriceFeedMapping {
            market_id,
            feed_account,
            base_symbol,
            quote_symbol,
            last_update_slot: 0,
            last_price: 0,
            last_round_id: 0,
        });
        assert(self.price_feeds@.drop_last() =~= old(self).price_feeds@);
        self.total_feeds = self.total_feeds + 1;
        Ok(())
    }
}

/// The price read from an aggregator, when it is valid and fresh.
pub open spec fn spec_fetch(a: ChainlinkAggregator, slot: u64, now: i64) -> Result<OraclePriceData, BettingPlatformError> {
    match spec_validate(a) {
        Err(e) => Err(e),
        Ok(()) => if !spec_is_fresh(slot, a.updated_at_slot) {
            Err(BettingPlatformError::StaleChainlinkPrice)
        } else {
            Ok(OraclePriceData {
                source: OracleSource::Chainlink,
                price: spec_standard_price(a),
                confidence: spec_chainlink_confidence(a, now) as u64,
                timestamp: a.latest_timestamp as i64,
                slot,
            })
        },
    }
}

/// The inputs on which reading an aggregator is free of overflow.
pub open spec fn spec_fetch_defined(a: ChainlinkAggregator, now: i64) -> bool {
    &&& spec_price_defined(a)
    &&& i64::MIN < now - (a.latest_timestamp as i64) <= i64::MAX
}

fn find_feed(feeds: &Vec<ChainlinkPriceFeedMapping>, id: &[u8; 32]) -> (r: Option<usize>)
    ensures
        match r {
            Some(k) => k < feeds@.len() && feeds@[k as int].market_id@ == id@ && (forall|j: int|
                0 <= j < k ==> #[trigger] feeds@[j].market_id@ != id@),
            None => !spec_has_feed(feeds@, *id),
        },
{
    let mut k: usize = 0;
    while k < feeds.len()
        invariant
            k <= feeds@.len(),
            forall|j: int| 0 <= j < k ==> #[trigger] feeds@[j].market_id@ != id@,
        decreases feeds@.len() - k,
    {
        if bytes_eq(&feeds[k].market_id, id) {
            return Some(k);
        }
        k = k + 1;
    }
    None
}

/// Reads Chainlink prices.
pub struct ChainlinkOracleHandler;

impl ChainlinkOracleHandler {
    /// The price of a deserialised aggregator at `current_slot` and
    /// `current_timestamp`: validated, then refused when stale.
    pub fn fetch_price(aggregator: &ChainlinkAggregator, current_slot: u64, current_timestamp: i64) -> (r: Result<
        OraclePriceData,
        BettingPlatformError,
    >)
        requires
            spec_fetch_defined(*aggregator, current_timestamp),
        ensures
            r == spec_fetch(*aggregator, current_slot, current_timestamp),
    {
        match aggregator.validate() {
            Ok(()) => {},
            Err(e) => return Err(e),
        }
        if !aggregator.is_fresh(current_slot) {
            return Err(BettingPlatformError::StaleChainlinkPrice);
        }
        let price = match aggregator.get_price() {
            Ok(p) => p,
            Err(e) => return Err(e),
        };
        let confidence = aggregator.get_confidence(current_timestamp);
        Ok(OraclePriceData {
            source: OracleSource::Chainlink,
            price,
            confidence,
            timestamp: aggregator.latest_timestamp as i64,
            slot: current_slot,
        })
    }

    /// Reads the price of `market_id` from its feed account `feed_key`
    /// holding `aggregator`, and records it in the market's mapping.
    pub fn update_price(
        config: &mut ChainlinkOracleConfig,
        market_id: &[u8; 32],
        feed_key: &[u8; 32],
        aggregator: &ChainlinkAggregator,
        current_slot: u64,
        current_timestamp: i64,
    ) -> (r: Result<OraclePriceData, BettingPlatformError>)
        requires
            spec_fetch_defined(*aggregator, current_timestamp),
        ensures
            !spec_has_feed(old(config).price_feeds@, *market_id) ==> r == Err::<OraclePriceData, BettingPlatformError>(
                BettingPlatformError::ChainlinkMappingNotFound),
            r is Err ==> *final(config) == *old(config),
            r matches Ok(d) ==> {
                &&& spec_fetch(*aggregator, current_slot, current_timestamp) == Ok::<OraclePriceData, BettingPlatformError>(d)
                &&& final(config).last_update_slot == current_slot
                &&& final(config).active_feeds == spec_active_count(final(config).price_feeds@, current_slot) as u32
                &&& final(config).price_feeds@.len() == old(config).price_feeds@.len()
                &&& exists|k: int| 0 <= k < old(config).price_feeds@.len() && old(config).price_feeds@[k].market_id@ == market_id@
                    && (forall|j: int| 0 <= j < k ==> #[trigger] old(config).price_feeds@[j].market_id@ != market_id@)
                    && old(config).price_feeds@[k].feed_account@ == feed_key@
                    && final(config).price_feeds@ == old(config).price_feeds@.update(k, ChainlinkPriceFeedMapping {
                        last_update_slot: current_slot,
                        last_price: d.price,
                        ..old(config).price_feeds@[k]
                    })
            },
    {
        let k = match find_feed(&config.price_feeds, market_id) {
            Some(k) => k,
            None => return Err(BettingPlatformError::ChainlinkMappingNotFound),
        };
        if !bytes_eq(&config.price_feeds[k].feed_account, feed_key) {
            return Err(BettingPlatformError::InvalidChainlinkFeed);
        }
        let price_data = match Self::fetch_price(aggregator, current_slot, current_timestamp) {
            Ok(d) => d,
            Err(e) => return Err(e),
        };
        let old_mapping = config.price_feeds.remove(k);
        let mapping = ChainlinkPriceFeedMapping {
            last_update_slot: current_slot,
            last_price: price_data.price,
            ..old_mapping
        };
        config.price_feeds.insert(k, mapping);
        assert(config.price_feeds@ =~= old(config).price_feeds@.update(k as int, ChainlinkPriceFeedMapping {
            last_update_slot: current_slot,
            last_price: price_data.price,
            ..old(config).price_feeds@[k as int]
        }));
        config.last_update_slot = current_slot;
        let active = Self::count_active(&config.price_feeds, current_slot);
        proof {
            lemma_active_count_le(config.price_feeds@, current_slot);
        }
        config.active_feeds = active as u32;
        Ok(price_data)
    }

    fn count_active(feeds: &Vec<ChainlinkPriceFeedMapping>, slot: u64) -> (r: usize)
        ensures
            r == spec_active_count(feeds@, slot),
    {
        let mut n: usize = 0;
        let mut i: usize = 0;
        while i < feeds.len()
            invariant
                i <= feeds@.len(),
                n == spec_active_count(feeds@.take(i as int), slot),
                n <= i,
            decreases feeds@.len() - i,
        {
            assert(feeds@.take(i as int + 1).drop_last() =~= feeds@.take(i as int));
            if slot.saturating_sub(feeds[i].last_update_slot) <= MAX_PRICE_AGE_SLOTS {
                n = n + 1;
            }
            i = i + 1;
        }
        assert(feeds@.take(feeds@.len() as int) =~= feeds@);
        n
    }

    /// The (market, last price) of the feeds fresh at `current_slot`.
    pub fn get_active_prices(config: &ChainlinkOracleConfig, current_slot: u64) -> (r: Vec<([u8; 32], u64)>)
        ensures
            r@ == spec_active_prices(config.price_feeds@, current_slot),
    {
        let feeds = &config.price_feeds;
        let mut out: Vec<([u8; 32], u64)> = Vec::new();
        let mut i: usize = 0;
        while i < feeds.len()
            invariant
                i <= feeds@.len(),
                feeds == &config.price_feeds,
                out@ == spec_active_prices(feeds@.take(i as int), current_slot),
            decreases feeds@.len() - i,
        {
            assert(feeds@.take(i as int + 1).drop_last() =~= feeds@.take(i as int));
            if current_slot.saturating_sub(feeds[i].last_update_slot) <= MAX_PRICE_AGE_SLOTS {
                out.push((feeds[i].market_id, feeds[i].last_price));
            }
            assert(out@ =~= spec_active_prices(feeds@.take(i as int + 1), current_slot));
            i = i + 1;
        }
        assert(feeds@.take(feeds@.len() as int) =~= feeds@);
        out
    }

    /// The yes and no probabilities (eight decimals) of a price for a
    /// binary or price-level market; other market types are refused.
    pub fn convert_to_probability(price: u64, market_type: &str) -> (r: Result<(u64, u64), BettingPlatformError>)
        requires
            (market_type@ == "BINARY"@ || market_type@ == "PRICE_LEVEL"@) ==> price <= 100_000_000,
        ensures
            (market_type@ == "BINARY"@ || market_type@ == "PRICE_LEVEL"@) ==> r == Ok::<(u64, u64), BettingPlatformError>(
                (price, (100_000_000 - price) as u64),
            ),
            !(market_type@ == "BINARY"@ || market_type@ == "PRICE_LEVEL"@) ==> r == Err::<(u64, u64), BettingPlatformError>(
                BettingPlatformError::UnsupportedMarketType),
    {
        let t = String::from_str(market_type);
        let one = pow10_u128(PRICE_DECIMAL_PLACES) as u64;
        proof {
            reveal_with_fuel(spec_pow10, 9);
        }
        if t == String::from_str("BINARY") {
            let yes_prob = price;
            let no_prob = one - yes_prob;
            Ok((yes_prob, no_prob))
        } else if t == String::from_str("PRICE_LEVEL") {
            Ok((price, one - price))
        } else {
            Err(BettingPlatformError::UnsupportedMarketType)
        }
    }
}

/// A positive Chainlink answer is expressed with eight decimals: with more
/// decimals the price `p` is the answer cut to eight, so that
/// `p * 10^(decimals - 8) <= answer < (p + 1) * 10^(decimals - 8)` (while
/// that fits in 64 bits); with eight or fewer it is the answer scaled up by
/// `10^(8 - decimals)` exactly.
pub proof fn lemma_chainlink_price_has_eight_decimals(a: ChainlinkAggregator)
    requires
        a.latest_answer > 0,
    ensures
        a.decimals > 8 && a.latest_answer < (u64::MAX as int + 1) * spec_pow10((a.decimals - 8) as nat) ==> {
            let s = spec_pow10((a.decimals - 8) as nat) as int;
            let p = spec_standard_price(a) as int;
            p * s <= a.latest_answer < (p + 1) * s
        },
        a.decimals <= 8 && a.latest_answer * spec_pow10((8 - a.decimals) as nat) <= u64::MAX
            ==> spec_standard_price(a) == a.latest_answer * spec_pow10((8 - a.decimals) as nat),
{
    if a.decimals > 8 {
        let e = (a.decimals - 8) as nat;
        lemma_pow10_monotone(0, e);
        let s = spec_pow10(e) as int;
        let x = a.latest_answer as int;
        let q = x / s;
        assert(q * s <= x < (q + 1) * s) by (nonlinear_arith)
            requires s >= 1, q == x / s, x >= 0;
        if x < (u64::MAX as int + 1) * s {
            assert(q <= u64::MAX) by (nonlinear_arith)
                requires q * s <= x, x < (u64::MAX as int + 1) * s, s >= 1;
            assert(q >= 0) by (nonlinear_arith) requires s >= 1, q == x / s, x >= 0;
        }
    }
}

} // verus!
