//! Polymarket as the only oracle: prices are mirrored directly (YES price as
//! truth), polled every 60 seconds, and a market halts when its price is
//! more than 5 minutes old or YES plus NO strays more than 10% from 100%.
use vstd::prelude::*;
use crate::error::BettingPlatformError;

verus! {

/// Slots between polls (60 seconds).
pub const POLYMARKET_POLL_INTERVAL_SLOTS: u64 = 150;
/// Age after which a price is stale (5 minutes).
pub const STALE_PRICE_THRESHOLD_SLOTS: u64 = 750;
/// Spread that halts a market (10%).
pub const SPREAD_HALT_THRESHOLD_BPS: u16 = 1000;
/// Polymarket prices have 4 decimals (basis points).
pub const PRICE_DECIMAL_PLACES: u32 = 4;

/// Why a market is halted.
#[derive(Clone, Copy, Debug, PartialEq, Eq, Structural)]
pub enum HaltReason {
    NoHalt,
    SpreadTooHigh,
    StalePrice,
    InternalError,
    ManualHalt,
    LowCoverage,
}

/// Price of a market as mirrored from Polymarket.
#[derive(Clone, Copy, Debug)]
pub struct PolymarketPriceData {
    pub market_id: [u8; 16],
    /// In basis points (10000 = 100%).
    pub yes_price: u64,
    pub no_price: u64,
    pub last_update_slot: u64,
    pub last_update_timestamp: i64,
    pub volume_24h: u64,
    pub liquidity: u64,
    pub is_halted: bool,
    pub halt_reason: HaltReason,
}

/// State of the sole oracle.
#[derive(Clone, Copy, Debug)]
pub struct PolymarketSoleOracle {
    pub authority: [u8; 32],
    pub is_initialized: bool,
    pub last_poll_slot: u64,
    pub total_markets_tracked: u64,
    pub halted_markets_count: u64,
    pub total_updates_processed: u64,
    pub total_spread_halts: u64,
    pub total_stale_halts: u64,
}

/// Whether a price is more than `STALE_PRICE_THRESHOLD_SLOTS` old at `slot`.
pub open spec fn spec_price_stale(p: PolymarketPriceData, slot: u64) -> bool {
    slot > p.last_update_slot + STALE_PRICE_THRESHOLD_SLOTS
}

/// Distance of YES plus NO from 100%, in basis points.
pub open spec fn spec_spread(p: PolymarketPriceData) -> int {
    let total = p.yes_price + p.no_price;
    if total > 10000 { total - 10000 } else { 10000 - total }
}

/// Oracle and price after a price update at `slot`.
pub open spec fn spec_price_update(o: PolymarketSoleOracle, p: PolymarketPriceData, slot: u64) -> (PolymarketSoleOracle, PolymarketPriceData) {
    if spec_price_stale(p, slot) {
        (PolymarketSoleOracle { total_stale_halts: (o.total_stale_halts + 1) as u64, ..o },
         PolymarketPriceData { is_halted: true, halt_reason: HaltReason::StalePrice, ..p })
    } else if spec_spread(p) > SPREAD_HALT_THRESHOLD_BPS {
        (PolymarketSoleOracle { total_spread_halts: (o.total_spread_halts + 1) as u64, ..o },
         PolymarketPriceData { is_halted: true, halt_reason: HaltReason::SpreadTooHigh, ..p })
    } else {
        (PolymarketSoleOracle { total_updates_processed: (o.total_updates_processed + 1) as u64, ..o },
         PolymarketPriceData { last_update_slot: slot, is_halted: false, halt_reason: HaltReason::NoHalt, ..p })
    }
}

impl PolymarketSoleOracle {
    pub const SIZE: usize = 32 + 1 + 8 + 8 + 8 + 8 + 8 + 8;

    /// Initializes the oracle for `authority`; refused once initialized.
    pub fn initialize(&mut self, authority: &[u8; 32]) -> (r: Result<(), BettingPlatformError>)
        ensures
            old(self).is_initialized ==> r == Err::<(), BettingPlatformError>(BettingPlatformError::AlreadyInitialized) && *final(self) == *old(self),
            !old(self).is_initialized ==> r is Ok && *final(self) == (PolymarketSoleOracle {
                authority: *authority,
                is_initialized: true,
                last_poll_slot: 0,
                total_markets_tracked: 0,
                halted_markets_count: 0,
                total_updates_processed: 0,
                total_spread_halts: 0,
                total_stale_halts: 0,
            }),
    {
        if self.is_initialized {
            return Err(BettingPlatformError::AlreadyInitialized);
        }
        self.authority = *authority;
        self.is_initialized = true;
        self.last_poll_slot = 0;
        self.total_markets_tracked = 0;
        self.halted_markets_count = 0;
        self.total_updates_processed = 0;
        self.total_spread_halts = 0;
        self.total_stale_halts = 0;
        Ok(())
    }

    /// Whether 60 seconds have passed since the last poll.
    pub fn should_poll(&self, current_slot: u64) -> (r: bool)
        ensures
            r == (current_slot >= self.last_poll_slot + POLYMARKET_POLL_INTERVAL_SLOTS),
    {
        current_slot >= self.last_poll_slot && current_slot - self.last_poll_slot >= POLYMARKET_POLL_INTERVAL_SLOTS
    }

    /// Records a poll at `current_slot`.
    pub fn update_poll_time(&mut self, current_slot: u64)
        ensures
            *final(self) == (PolymarketSoleOracle { last_poll_slot: current_slot, ..*old(self) }),
    {
        self.last_poll_slot = current_slot;
    }

    /// Takes a price at `current_slot`: a stale price halts the market, a
    /// spread over 10% halts it, otherwise the price is refreshed and the
    /// market resumes.
    pub fn process_price_update(&mut self, price_data: &mut PolymarketPriceData, current_slot: u64) -> (r: Result<(), BettingPlatformError>)
        requires
            old(price_data).yes_price + old(price_data).no_price <= u64::MAX,
            old(self).total_stale_halts < u64::MAX,
            old(self).total_spread_halts < u64::MAX,
            old(self).total_updates_processed < u64::MAX,
        ensures
            r is Ok,
            (*final(self), *final(price_data)) == spec_price_update(*old(self), *old(price_data), current_slot),
    {
        if self.is_price_stale(price_data, current_slot) {
            price_data.is_halted = true;
            price_data.halt_reason = HaltReason::StalePrice;
            self.total_stale_halts = self.total_stale_halts + 1;
            return Ok(());
        }
        let total_prob = price_data.yes_price + price_data.no_price;
        let spread = if total_prob > 10000 { total_prob - 10000 } else { 10000 - total_prob };
        if spread > SPREAD_HALT_THRESHOLD_BPS as u64 {
            price_data.is_halted = true;
            price_data.halt_reason = HaltReason::SpreadTooHigh;
            self.total_spread_halts = self.total_spread_halts + 1;
            return Ok(());
        }
        price_data.last_update_slot = current_slot;
        price_data.is_halted = false;
        price_data.halt_reason = HaltReason::NoHalt;
        self.total_updates_processed = self.total_updates_processed + 1;
        Ok(())
    }

    /// Whether a price is more than 5 minutes old at `current_slot`.
    pub fn is_price_stale(&self, price_data: &PolymarketPriceData, current_slot: u64) -> (r: bool)
        ensures
            r == spec_price_stale(*price_data, current_slot),
    {
        current_slot > price_data.last_update_slot && current_slot - price_data.last_update_slot > STALE_PRICE_THRESHOLD_SLOTS
    }

    /// The market's price (its YES price); refused while halted.
    pub fn get_price(&self, price_data: &PolymarketPriceData) -> (r: Result<u64, BettingPlatformError>)
        ensures
            price_data.is_halted ==> r == Err::<u64, BettingPlatformError>(BettingPlatformError::MarketHalted),
            !price_data.is_halted ==> r == Ok::<u64, BettingPlatformError>(price_data.yes_price),
    {
        if price_data.is_halted {
            return Err(BettingPlatformError::MarketHalted);
        }
        Ok(price_data.yes_price)
    }

    /// Halts or resumes a market by hand, keeping the count of halted
    /// markets.
    pub fn set_halt_status(&mut self, price_data: &mut PolymarketPriceData, halt: bool, reason: HaltReason) -> (r: Result<(), BettingPlatformError>)
        requires
            halt ==> old(self).halted_markets_count < u64::MAX,
        ensures
            r is Ok,
            *final(price_data) == (PolymarketPriceData { is_halted: halt, halt_reason: reason, ..*old(price_data) }),
            *final(self) == (PolymarketSoleOracle {
                halted_markets_count: if halt {
                    (old(self).halted_markets_count + 1) as u64
                } else if old(self).halted_markets_count > 0 {
                    (old(self).halted_markets_count - 1) as u64
                } else {
                    0
                },
                ..*old(self)
            }),
    {
        price_data.is_halted = halt;
        price_data.halt_reason = reason;
        if halt {
            self.halted_markets_count = self.halted_markets_count + 1;
        } else if self.halted_markets_count > 0 {
            self.halted_markets_count = self.halted_markets_count - 1;
        }
        Ok(())
    }
}

/// After a price update a market serves a price exactly when the price was
/// fresh and its spread within 10%, and that price is the YES price.
pub proof fn lemma_update_then_read(o: PolymarketSoleOracle, p: PolymarketPriceData, slot: u64)
    ensures
        !spec_price_update(o, p, slot).1.is_halted <==> (!spec_price_stale(p, slot) && spec_spread(p) <= SPREAD_HALT_THRESHOLD_BPS),
        spec_price_update(o, p, slot).1.yes_price == p.yes_price,
{
}

} // verus!
