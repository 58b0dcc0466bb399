//! Batched fetching of Polymarket markets: progress through the batches,
//! pacing, exponential backoff on rate limits, and diffs between market
//! snapshots.
use vstd::prelude::*;
use crate::error::BettingPlatformError;
use crate::polymarket_api_types::InternalMarketData;
use crate::rate_limiter::RateLimiter;
use crate::text::{push_decimal, spec_decimal};

verus! {

/// Markets per batch.
pub const BATCH_SIZE: u32 = 1000;
/// Markets to fetch in a full cycle.
pub const MAX_MARKETS: u32 = 21000;
/// Seconds between full cycles.
pub const FETCH_INTERVAL_SECONDS: i64 = 60;
/// Milliseconds between batches.
pub const REQUEST_DELAY_MS: u64 = 3000;
/// Rate-limit retries before pausing.
pub const MAX_RETRIES: u8 = 3;
/// First backoff, in seconds.
pub const INITIAL_BACKOFF_SECONDS: i64 = 10;

/// Progress and pacing of batch fetching.
#[derive(Clone, Copy, Debug, PartialEq, Eq, Structural)]
pub struct BatchFetchState {
    pub last_fetch_timestamp: i64,
    pub last_successful_batch: u32,
    pub total_batches_fetched: u64,
    pub total_markets_processed: u64,
    pub current_retry_count: u8,
    pub current_backoff_seconds: i64,
    pub is_paused: bool,
    pub pause_until_timestamp: i64,
}

impl BatchFetchState {
    pub const SIZE: usize = 8 + 4 + 8 + 8 + 1 + 8 + 1 + 8;

    /// Nothing fetched, the first backoff ready.
    pub open spec fn spec_initial() -> Self {
        BatchFetchState {
            last_fetch_timestamp: 0,
            last_successful_batch: 0,
            total_batches_fetched: 0,
            total_markets_processed: 0,
            current_retry_count: 0,
            current_backoff_seconds: INITIAL_BACKOFF_SECONDS,
            is_paused: false,
            pause_until_timestamp: 0,
        }
    }

    /// Nothing fetched, the first backoff ready.
    pub fn new() -> (r: Self)
        ensures
            r == Self::spec_initial(),
    {
        BatchFetchState {
            last_fetch_timestamp: 0,
            last_successful_batch: 0,
            total_batches_fetched: 0,
            total_markets_processed: 0,
            current_retry_count: 0,
            current_backoff_seconds: INITIAL_BACKOFF_SECONDS,
            is_paused: false,
            pause_until_timestamp: 0,
        }
    }

    /// Whether the next batch may be fetched at `current_timestamp`: not
    /// while paused, and three seconds after the last fetch.
    pub fn should_fetch_next(&self, current_timestamp: i64) -> (r: bool)
        requires
            i64::MIN <= current_timestamp - self.last_fetch_timestamp <= i64::MAX,
        ensures
            r == (!(self.is_paused && current_timestamp < self.pause_until_timestamp) && current_timestamp
                - self.last_fetch_timestamp >= (REQUEST_DELAY_MS / 1000) as int),
    {
        if self.is_paused && current_timestamp < self.pause_until_timestamp {
            return false;
        }
        let time_since_last = current_timestamp - self.last_fetch_timestamp;
        time_since_last >= (REQUEST_DELAY_MS / 1000) as i64
    }

    /// Offset of the next batch.
    pub fn get_next_offset(&self) -> (r: u32)
        requires
            (self.last_successful_batch + 1) * BATCH_SIZE <= u32::MAX,
        ensures
            r == (self.last_successful_batch + 1) * BATCH_SIZE,
    {
        (self.last_successful_batch + 1) * BATCH_SIZE
    }

    /// Records a fetched batch of `markets_count` markets at `timestamp`,
    /// clearing the backoff.
    pub fn on_successful_fetch(&mut self, markets_count: u32, timestamp: i64)
        requires
            old(self).last_successful_batch < u32::MAX,
            old(self).total_batches_fetched < u64::MAX,
            old(self).total_markets_processed + markets_count <= u64::MAX,
        ensures
            *final(self) == (BatchFetchState {
                last_fetch_timestamp: timestamp,
                last_successful_batch: (old(self).last_successful_batch + 1) as u32,
                total_batches_fetched: (old(self).total_batches_fetched + 1) as u64,
                total_markets_processed: (old(self).total_markets_processed + markets_count) as u64,
                current_retry_count: 0,
                current_backoff_seconds: INITIAL_BACKOFF_SECONDS,
                is_paused: false,
                pause_until_timestamp: old(self).pause_until_timestamp,
            }),
    {
        self.last_fetch_timestamp = timestamp;
        self.last_successful_batch = self.last_successful_batch + 1;
        self.total_batches_fetched = self.total_batches_fetched + 1;
        self.total_markets_processed = self.total_markets_processed + markets_count as u64;
        self.current_retry_count = 0;
        self.current_backoff_seconds = INITIAL_BACKOFF_SECONDS;
        self.is_paused = false;
    }

    /// Backs off after a rate-limit error at `current_timestamp`: after
    /// `MAX_RETRIES` retries it pauses for five minutes, otherwise it waits
    /// the current backoff and doubles it.
    pub fn on_rate_limit_error(&mut self, current_timestamp: i64)
        requires
            old(self).current_retry_count < u8::MAX,
            old(self).current_retry_count + 1 >= MAX_RETRIES ==> current_timestamp + 300 <= i64::MAX,
            old(self).current_retry_count + 1 < MAX_RETRIES ==> {
                &&& i64::MIN <= current_timestamp + old(self).current_backoff_seconds <= i64::MAX
                &&& i64::MIN <= old(self).current_backoff_seconds * 2 <= i64::MAX
            },
        ensures
            final(self).current_retry_count == old(self).current_retry_count + 1,
            final(self).current_retry_count >= MAX_RETRIES ==> {
                &&& final(self).is_paused
                &&& final(self).pause_until_timestamp == current_timestamp + 300
                &&& final(self).current_backoff_seconds == old(self).current_backoff_seconds
            },
            final(self).current_retry_count < MAX_RETRIES ==> {
                &&& final(self).is_paused == old(self).is_paused
                &&& final(self).pause_until_timestamp == current_timestamp + old(self).current_backoff_seconds
                &&& final(self).current_backoff_seconds == old(self).current_backoff_seconds * 2
            },
            final(self).last_fetch_timestamp == old(self).last_fetch_timestamp,
            final(self).last_successful_batch == old(self).last_successful_batch,
            final(self).total_batches_fetched == old(self).total_batches_fetched,
            final(self).total_markets_processed == old(self).total_markets_processed,
    {
        self.current_retry_count = self.current_retry_count + 1;
        if self.current_retry_count >= MAX_RETRIES {
            self.is_paused = true;
            self.pause_until_timestamp = current_timestamp + 300;
        } else {
            self.pause_until_timestamp = current_timestamp + self.current_backoff_seconds;
            self.current_backoff_seconds = self.current_backoff_seconds * 2;
        }
    }

    /// Starts again from the first batch.
    pub fn reset(&mut self)
        ensures
            *final(self) == (BatchFetchState {
                last_successful_batch: 0,
                current_retry_count: 0,
                current_backoff_seconds: INITIAL_BACKOFF_SECONDS,
                is_paused: false,
                pause_until_timestamp: 0,
                ..*old(self)
            }),
    {
        self.last_successful_batch = 0;
        self.current_retry_count = 0;
        self.current_backoff_seconds = INITIAL_BACKOFF_SECONDS;
        self.is_paused = false;
        self.pause_until_timestamp = 0;
    }
}

/// The batch fetcher: its progress and request limiter.
#[derive(Clone, Debug)]
pub struct PolymarketBatchFetcher {
    pub state: BatchFetchState,
    pub rate_limiter: RateLimiter,
}

/// The URL of the batch at `offset`.
pub open spec fn spec_batch_url(offset: u32) -> Seq<char> {
    "https://api.polymarket.com/markets?limit="@ + spec_decimal(BATCH_SIZE as nat) + "&offset="@ + spec_decimal(
        offset as nat,
    )
}

impl PolymarketBatchFetcher {
    /// A fresh fetcher.
    pub fn new() -> (r: Self)
        ensures
            r.state == BatchFetchState::spec_initial(),
            r.rate_limiter.market_log().len() == 0,
            r.rate_limiter.order_log().len() == 0,
    {
        PolymarketBatchFetcher { state: BatchFetchState::new(), rate_limiter: RateLimiter::new() }
    }

    /// The API URL of the batch at `offset`.
    pub fn get_batch_url(&self, offset: u32) -> (r: String)
        ensures
            r@ == spec_batch_url(offset),
    {
        let mut s = String::from_str("https://api.polymarket.com/markets?limit=");
        push_decimal(&mut s, BATCH_SIZE as u64);
        s.append("&offset=");
        push_decimal(&mut s, offset as u64);
        s
    }

    /// Reacts to an API error with code `error_code` at
    /// `current_timestamp`: a rate limit backs off and is reported as such;
    /// any other code is reported as an API error.
    pub fn handle_error(&mut self, error_code: &str, current_timestamp: i64) -> (r: Result<(), BettingPlatformError>)
        requires
            error_code@ == "RATE_LIMITED"@ ==> {
                &&& old(self).state.current_retry_count < u8::MAX
                &&& old(self).state.current_retry_count + 1 >= MAX_RETRIES ==> current_timestamp + 300 <= i64::MAX
                &&& old(self).state.current_retry_count + 1 < MAX_RETRIES ==> {
                    &&& i64::MIN <= current_timestamp + old(self).state.current_backoff_seconds <= i64::MAX
                    &&& i64::MIN <= old(self).state.current_backoff_seconds * 2 <= i64::MAX
                }
            },
        ensures
            error_code@ == "RATE_LIMITED"@ ==> r == Err::<(), BettingPlatformError>(
                BettingPlatformError::RateLimitExceeded) && final(self).state.current_retry_count
                == old(self).state.current_retry_count + 1,
            error_code@ != "RATE_LIMITED"@ ==> r == Err::<(), BettingPlatformError>(BettingPlatformError::ApiError)
                && final(self).state == old(self).state,
    {
        let code = String::from_str(error_code);
        if code == String::from_str("RATE_LIMITED") {
            self.state.on_rate_limit_error(current_timestamp);
            Err(BettingPlatformError::RateLimitExceeded)
        } else {
            Err(BettingPlatformError::ApiError)
        }
    }

    /// Whether every batch of the cycle has been fetched.
    pub fn is_complete(&self) -> (r: bool)
        requires
            (self.state.last_successful_batch + 1) * BATCH_SIZE <= u32::MAX,
        ensures
            r == ((self.state.last_successful_batch + 1) * BATCH_SIZE >= MAX_MARKETS),
    {
        self.state.get_next_offset() >= MAX_MARKETS
    }
}

/// What changed between two snapshots of a market.
#[derive(Clone, Copy, Debug)]
pub struct MarketUpdateDiff {
    pub market_id: [u8; 16],
    pub price_changed: bool,
    pub volume_changed: bool,
    pub liquidity_changed: bool,
    pub status_changed: bool,
    pub spread_changed: bool,
    pub yes_price_delta: i64,
    pub no_price_delta: i64,
}

impl MarketUpdateDiff {
    /// Whether anything changed.
    pub fn has_changes(&self) -> (r: bool)
        ensures
            r == (self.price_changed || self.volume_changed || self.liquidity_changed || self.status_changed
                || self.spread_changed),
    {
        self.price_changed || self.volume_changed || self.liquidity_changed || self.status_changed
            || self.spread_changed
    }
}

/// The change of a price in basis points, as signed 64-bit values.
pub open spec fn spec_price_delta(old_bps: u64, new_bps: u64) -> int {
    (new_bps as i64) - (old_bps as i64)
}

/// Computes snapshot diffs.
pub struct MarketDiffCalculator;

impl MarketDiffCalculator {
    /// The diff from `old` to `new`, or `None` when nothing watched changed:
    /// prices (with their deltas), volume, liquidity, status and spread.
    pub fn calculate_diff(old: &InternalMarketData, new: &InternalMarketData) -> (r: Option<MarketUpdateDiff>)
        requires
            old.yes_price_bps != new.yes_price_bps ==> i64::MIN <= spec_price_delta(old.yes_price_bps,
                new.yes_price_bps) <= i64::MAX,
            old.no_price_bps != new.no_price_bps ==> i64::MIN <= spec_price_delta(old.no_price_bps,
                new.no_price_bps) <= i64::MAX,
        ensures
            ({
                let price = old.yes_price_bps != new.yes_price_bps || old.no_price_bps != new.no_price_bps;
                let any = price || old.volume_24h != new.volume_24h || old.liquidity != new.liquidity || old.status
                    != new.status || old.spread_bps != new.spread_bps;
                &&& !any ==> r is None
                &&& any ==> r == Some(MarketUpdateDiff {
                    market_id: new.market_id,
                    price_changed: price,
                    volume_changed: old.volume_24h != new.volume_24h,
                    liquidity_changed: old.liquidity != new.liquidity,
                    status_changed: old.status != new.status,
                    spread_changed: old.spread_bps != new.spread_bps,
                    yes_price_delta: if old.yes_price_bps != new.yes_price_bps {
                        spec_price_delta(old.yes_price_bps, new.yes_price_bps) as i64
                    } else {
                        0
                    },
                    no_price_delta: if old.no_price_bps != new.no_price_bps {
                        spec_price_delta(old.no_price_bps, new.no_price_bps) as i64
                    } else {
                        0
                    },
                })
            }),
    {
        let mut diff = MarketUpdateDiff {
            market_id: new.market_id,
            price_changed: false,
            volume_changed: false,
            liquidity_changed: false,
            status_changed: false,
            spread_changed: false,
            yes_price_delta: 0,
            no_price_delta: 0,
        };
        if old.yes_price_bps != new.yes_price_bps {
            diff.price_changed = true;
            diff.yes_price_delta = new.yes_price_bps as i64 - old.yes_price_bps as i64;
        }
        if old.no_price_bps != new.no_price_bps {
            diff.price_changed = true;
            diff.no_price_delta = new.no_price_bps as i64 - old.no_price_bps as i64;
        }
        if old.volume_24h != new.volume_24h {
            diff.volume_changed = true;
        }
        if old.liquidity != new.liquidity {
            diff.liquidity_changed = true;
        }
        if old.status != new.status {
            diff.status_changed = true;
        }
        if old.spread_bps != new.spread_bps {
            diff.spread_changed = true;
        }
        if diff.has_changes() {
            Some(diff)
        } else {
            None
        }
    }
}

} // verus!
