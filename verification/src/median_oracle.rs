//! Polymarket as the sole oracle: price results from its feeds with
//! staleness and spread checks, and the oracle's bookkeeping.
use vstd::prelude::*;
use crate::bytes::{bytes_eq, read_u64_le, spec_u64_from_le};
use crate::error::BettingPlatformError;
use crate::polymarket_oracle::{MarketPriceFeed, MAX_PRICE_AGE_SLOTS, PRICE_CONFIDENCE_THRESHOLD};

verus! {

/// Result of the median calculation.
#[derive(Clone, Copy, Debug)]
pub struct MedianPriceResult {
    pub price: u64,
    pub confidence: u64,
    pub timestamp: i64,
}

/// State of the Polymarket oracle.
#[derive(Clone, Copy, Debug)]
pub struct PolymarketOracleState {
    pub authority: [u8; 32],
    pub polymarket_oracle: [u8; 32],
    pub last_update_slot: u64,
    pub total_markets: u32,
    pub active_markets: u32,
    pub price_updates: u64,
    pub failed_updates: u64,
    pub halted_markets: u32,
    pub stale_price_flags: u32,
    /// Slots between polls (60 seconds).
    pub polling_interval_slots: u64,
}

/// The same state under its earlier name.
pub type MedianOracleState = PolymarketOracleState;

impl PolymarketOracleState {
    pub const SIZE: usize = 32 + 32 + 8 + 4 + 4 + 8 + 8 + 4 + 4 + 8;
    pub const POLLING_INTERVAL_SECONDS: u64 = 60;
    pub const POLLING_INTERVAL_SLOTS: u64 = 150;

    /// Starts the state with the given authority and oracle, polling every
    /// 150 slots.
    pub fn initialize(&mut self, authority: &[u8; 32], polymarket_oracle: &[u8; 32]) -> (r: Result<(), BettingPlatformError>)
        ensures
            r is Ok,
            *final(self) == (PolymarketOracleState {
                authority: *authority,
                polymarket_oracle: *polymarket_oracle,
                last_update_slot: 0,
                total_markets: 0,
                active_markets: 0,
                price_updates: 0,
                failed_updates: 0,
                halted_markets: 0,
                stale_price_flags: 0,
                polling_interval_slots: Self::POLLING_INTERVAL_SLOTS,
            }),
    {
        self.authority = *authority;
        self.polymarket_oracle = *polymarket_oracle;
        self.last_update_slot = 0;
        self.total_markets = 0;
        self.active_markets = 0;
        self.price_updates = 0;
        self.failed_updates = 0;
        self.halted_markets = 0;
        self.stale_price_flags = 0;
        self.polling_interval_slots = Self::POLLING_INTERVAL_SLOTS;
        Ok(())
    }

    /// Whether the polling interval has passed.
    pub fn should_poll(&self, current_slot: u64) -> (r: bool)
        ensures
            r == ((if current_slot >= self.last_update_slot { current_slot - self.last_update_slot } else { 0 }) >= self.polling_interval_slots),
    {
        let since = if current_slot >= self.last_update_slot { current_slot - self.last_update_slot } else { 0 };
        since >= self.polling_interval_slots
    }

    /// Applies a configuration update signed by the authority: byte 0 picks
    /// it (0 a new oracle from the next 32 bytes, 1 a polling interval from
    /// the next 8, little-endian).
    pub fn apply_config_update(&mut self, caller: &[u8; 32], caller_signed: bool, data: &[u8]) -> (r: Result<(), BettingPlatformError>)
        requires
            data@.len() >= 1,
            data@[0] == 0 ==> data@.len() >= 33,
            data@[0] == 1 ==> data@.len() >= 9,
        ensures
            !caller_signed ==> r == Err::<(), BettingPlatformError>(BettingPlatformError::MissingRequiredSignature) && *final(self) == *old(self),
            caller_signed && caller@ != old(self).authority@ ==> r == Err::<(), BettingPlatformError>(
                BettingPlatformError::UnauthorizedOracleUpdate) && *final(self) == *old(self),
            caller_signed && caller@ == old(self).authority@ ==> {
                &&& data@[0] > 1 ==> r == Err::<(), BettingPlatformError>(BettingPlatformError::InvalidInstructionData) && *final(self) == *old(self)
                &&& data@[0] == 0 ==> r is Ok && final(self).polymarket_oracle@ == data@.subrange(1, 33)
                    && *final(self) == (PolymarketOracleState { polymarket_oracle: final(self).polymarket_oracle, ..*old(self) })
                &&& data@[0] == 1 ==> r is Ok && *final(self) == (PolymarketOracleState {
                    polling_interval_slots: spec_u64_from_le(data@.subrange(1, 9)) as u64,
                    ..*old(self)
                })
            },
    {
        if !caller_signed {
            return Err(BettingPlatformError::MissingRequiredSignature);
        }
        if !bytes_eq(caller, &self.authority) {
            return Err(BettingPlatformError::UnauthorizedOracleUpdate);
        }
        if data[0] == 0 {
            let mut key = [0u8; 32];
            let mut i: usize = 0;
            while i < 32
                invariant
                    i <= 32,
                    data@.len() >= 33,
                    key@.len() == 32,
                    forall|j: int| 0 <= j < i ==> key@[j] == data@[j + 1],
                decreases 32 - i,
            {
                key[i] = data[i + 1];
                i = i + 1;
            }
            assert(key@ =~= data@.subrange(1, 33));
            self.polymarket_oracle = key;
        } else if data[0] == 1 {
            self.polling_interval_slots = read_u64_le(data, 1);
        } else {
            return Err(BettingPlatformError::InvalidInstructionData);
        }
        Ok(())
    }
}

/// A Polymarket price with its metadata.
#[derive(Clone, Copy, Debug)]
pub struct PolymarketPriceResult {
    pub market_id: [u8; 32],
    pub price: u64,
    pub yes_price: u64,
    pub no_price: u64,
    pub confidence: u64,
    pub timestamp: i64,
    pub slot: u64,
    pub is_stale: bool,
    /// Distance of YES plus NO from 100%, in basis points.
    pub spread_basis_points: u16,
    pub is_halted: bool,
}

impl PolymarketPriceResult {
    pub const SIZE: usize = 32 + 8 + 8 + 8 + 8 + 8 + 8 + 1 + 2 + 1;
    /// Largest spread accepted (10%).
    pub const MAX_SPREAD_BASIS_POINTS: u16 = 1000;
}

/// Spread of a feed: distance of YES plus NO from 10000, in basis points of
/// 10000, kept to 16 bits.
pub open spec fn spec_spread_bps(yes: u64, no: u64) -> u16 {
    let total = yes + no;
    let diff = if total > 10000 { total - 10000 } else { 10000 - total };
    (diff * 10000 / 10000) as u16
}

/// Whether a feed is older than `MAX_PRICE_AGE_SLOTS` at `slot`.
pub open spec fn spec_stale(feed: MarketPriceFeed, slot: u64) -> bool {
    (if slot >= feed.last_update_slot { slot - feed.last_update_slot } else { 0 }) > MAX_PRICE_AGE_SLOTS
}

/// Handler of Polymarket prices.
pub struct PolymarketOracleHandler;

impl PolymarketOracleHandler {
    /// With Polymarket the sole oracle, the median is its price, at the
    /// confidence threshold; the other sources are ignored.
    pub fn calculate_median_price(polymarket_price: Option<u64>, _pyth_price: Option<u64>, _chainlink_price: Option<u64>) -> (r: Result<MedianPriceResult, BettingPlatformError>)
        ensures
            polymarket_price matches Some(p) ==> r == Ok::<MedianPriceResult, BettingPlatformError>(
                MedianPriceResult { price: p, confidence: PRICE_CONFIDENCE_THRESHOLD, timestamp: 0 }),
            polymarket_price is None ==> r == Err::<MedianPriceResult, BettingPlatformError>(BettingPlatformError::InsufficientOracleSources),
    {
        match polymarket_price {
            Some(price) => Ok(MedianPriceResult { price, confidence: PRICE_CONFIDENCE_THRESHOLD, timestamp: 0 }),
            None => Err(BettingPlatformError::InsufficientOracleSources),
        }
    }

    /// The price of a feed at `current_slot`: refused under the confidence
    /// threshold or with a spread over 10%; a stale feed is flagged.
    pub fn get_price(feed: &MarketPriceFeed, current_slot: u64) -> (r: Result<PolymarketPriceResult, BettingPlatformError>)
        requires
            feed.yes_price + feed.no_price <= u64::MAX,
            (if feed.yes_price + feed.no_price > 10000 { feed.yes_price + feed.no_price - 10000 } else { 0 }) * 10000 <= u64::MAX,
        ensures
            feed.price_confidence < PRICE_CONFIDENCE_THRESHOLD ==> r == Err::<PolymarketPriceResult, BettingPlatformError>(
                BettingPlatformError::InsufficientConfidence),
            feed.price_confidence >= PRICE_CONFIDENCE_THRESHOLD && spec_spread_bps(feed.yes_price, feed.no_price)
                > PolymarketPriceResult::MAX_SPREAD_BASIS_POINTS ==> r == Err::<PolymarketPriceResult, BettingPlatformError>(
                BettingPlatformError::ExcessivePriceMovement),
            feed.price_confidence >= PRICE_CONFIDENCE_THRESHOLD && spec_spread_bps(feed.yes_price, feed.no_price)
                <= PolymarketPriceResult::MAX_SPREAD_BASIS_POINTS ==> r == Ok::<PolymarketPriceResult, BettingPlatformError>(
                PolymarketPriceResult {
                    market_id: feed.market_id,
                    price: feed.mid_price,
                    yes_price: feed.yes_price,
                    no_price: feed.no_price,
                    confidence: feed.price_confidence,
                    timestamp: feed.last_update_timestamp,
                    slot: feed.last_update_slot,
                    is_stale: spec_stale(*feed, current_slot),
                    spread_basis_points: spec_spread_bps(feed.yes_price, feed.no_price),
                    is_halted: false,
                }),
    {
        let age_slots = if current_slot >= feed.last_update_slot { current_slot - feed.last_update_slot } else { 0 };
        let is_stale = age_slots > MAX_PRICE_AGE_SLOTS;
        if feed.price_confidence < PRICE_CONFIDENCE_THRESHOLD {
            return Err(BettingPlatformError::InsufficientConfidence);
        }
        let total = feed.yes_price + feed.no_price;
        let expected_total: u64 = 10000;
        let spread_basis_points = if total > expected_total {
            ((total - expected_total) * 10000 / expected_total) as u16
        } else {
            ((expected_total - total) * 10000 / expected_total) as u16
        };
        let is_halted = spread_basis_points > PolymarketPriceResult::MAX_SPREAD_BASIS_POINTS;
        if is_halted {
            return Err(BettingPlatformError::ExcessivePriceMovement);
        }
        Ok(PolymarketPriceResult {
            market_id: feed.market_id,
            price: feed.mid_price,
            yes_price: feed.yes_price,
            no_price: feed.no_price,
            confidence: feed.price_confidence,
            timestamp: feed.last_update_timestamp,
            slot: feed.last_update_slot,
            is_stale,
            spread_basis_points,
            is_halted,
        })
    }

    /// The price of `market_id` from its feed; refused when the feed is for
    /// another market.
    pub fn fetch_price(market_id: &[u8; 32], feed: &MarketPriceFeed, current_slot: u64) -> (r: Result<PolymarketPriceResult, BettingPlatformError>)
        requires
            feed.yes_price + feed.no_price <= u64::MAX,
            (if feed.yes_price + feed.no_price > 10000 { feed.yes_price + feed.no_price - 10000 } else { 0 }) * 10000 <= u64::MAX,
        ensures
            feed.market_id@ != market_id@ ==> r == Err::<PolymarketPriceResult, BettingPlatformError>(BettingPlatformError::InvalidMarket),
            feed.market_id@ == market_id@ ==> ({
                let expected = Self::get_price_spec(*feed, current_slot);
                r == expected
            }),
    {
        if !bytes_eq(&feed.market_id, market_id) {
            return Err(BettingPlatformError::InvalidMarket);
        }
        Self::get_price(feed, current_slot)
    }

    /// The answer `get_price` gives for a feed at `slot`.
    pub open spec fn get_price_spec(feed: MarketPriceFeed, slot: u64) -> Result<PolymarketPriceResult, BettingPlatformError> {
        if feed.price_confidence < PRICE_CONFIDENCE_THRESHOLD {
            Err(BettingPlatformError::InsufficientConfidence)
        } else if spec_spread_bps(feed.yes_price, feed.no_price) > PolymarketPriceResult::MAX_SPREAD_BASIS_POINTS {
            Err(BettingPlatformError::ExcessivePriceMovement)
        } else {
            Ok(PolymarketPriceResult {
                market_id: feed.market_id,
                price: feed.mid_price,
                yes_price: feed.yes_price,
                no_price: feed.no_price,
                confidence: feed.price_confidence,
                timestamp: feed.last_update_timestamp,
                slot: feed.last_update_slot,
                is_stale: spec_stale(feed, slot),
                spread_basis_points: spec_spread_bps(feed.yes_price, feed.no_price),
                is_halted: false,
            })
        }
    }

    /// A price is usable unless its market is halted or its spread is over
    /// 10%; a stale price is allowed.
    pub fn validate_price(result: &PolymarketPriceResult) -> (r: Result<(), BettingPlatformError>)
        ensures
            result.is_halted ==> r == Err::<(), BettingPlatformError>(BettingPlatformError::MarketHalted),
            !result.is_halted && result.spread_basis_points > PolymarketPriceResult::MAX_SPREAD_BASIS_POINTS ==> r
                == Err::<(), BettingPlatformError>(BettingPlatformError::ExcessivePriceMovement),
            !result.is_halted && result.spread_basis_points <= PolymarketPriceResult::MAX_SPREAD_BASIS_POINTS ==> r is Ok,
    {
        if result.is_halted {
            return Err(BettingPlatformError::MarketHalted);
        }
        if result.spread_basis_points > PolymarketPriceResult::MAX_SPREAD_BASIS_POINTS {
            return Err(BettingPlatformError::ExcessivePriceMovement);
        }
        Ok(())
    }

    /// Counts a price update at `current_slot`, with its stale and halted
    /// flags.
    pub fn process_price_update(oracle_state: &mut PolymarketOracleState, result: &PolymarketPriceResult, current_slot: u64) -> (r: Result<(), BettingPlatformError>)
        requires
            old(oracle_state).price_updates < u64::MAX,
            result.is_stale ==> old(oracle_state).stale_price_flags < u32::MAX,
            result.is_halted ==> old(oracle_state).halted_markets < u32::MAX,
        ensures
            r is Ok,
            *final(oracle_state) == (PolymarketOracleState {
                price_updates: (old(oracle_state).price_updates + 1) as u64,
                last_update_slot: current_slot,
                stale_price_flags: (old(oracle_state).stale_price_flags + (if result.is_stale { 1int } else { 0 })) as u32,
                halted_markets: (old(oracle_state).halted_markets + (if result.is_halted { 1int } else { 0 })) as u32,
                ..*old(oracle_state)
            }),
    {
        oracle_state.price_updates = oracle_state.price_updates + 1;
        oracle_state.last_update_slot = current_slot;
        if result.is_stale {
            oracle_state.stale_price_flags = oracle_state.stale_price_flags + 1;
        }
        if result.is_halted {
            oracle_state.halted_markets = oracle_state.halted_markets + 1;
        }
        Ok(())
    }
}

} // verus!
