//! Pyth price accounts: validation, confidence and freshness, and the feed
//! mappings kept per market. Converting a Pyth price with its exponent is
//! done in floating point by the caller; the result is handed in.
use vstd::prelude::*;
use crate::bytes::bytes_eq;
use crate::error::BettingPlatformError;
use crate::oracle_coordinator::OracleSource;
use crate::polymarket_oracle::{spec_is_fresh, OraclePriceData, MAX_PRICE_AGE_SLOTS};

verus! {

/// Status of a Pyth price.
#[derive(Clone, Copy, Debug, PartialEq, Eq, Structural)]
pub enum PythPriceStatus {
    Unknown,
    Trading,
    Halted,
    Auction,
}

/// Kind of a Pyth price.
#[derive(Clone, Copy, Debug, PartialEq, Eq, Structural)]
pub enum PythPriceType {
    Unknown,
    Price,
    TWAP,
    Volatility,
}

/// A Pyth price account.
#[derive(Clone, Copy, Debug)]
pub struct PythPriceAccount {
    pub magic: u32,
    pub version: u32,
    pub account_type: u32,
    pub size: u32,
    pub price_type: PythPriceType,
    pub exponent: i32,
    pub num_components: u32,
    pub num_quoters: u32,
    pub last_slot: u64,
    pub valid_slot: u64,
    pub prod_price: i64,
    pub next_price: i64,
    pub prev_slot: u64,
    pub prev_price: i64,
    pub prev_conf: u64,
    pub price: i64,
    pub conf: u64,
    pub status: PythPriceStatus,
    pub corporate_action: u32,
    pub publish_slot: u64,
}

/// The outcome of validating a price account; the checks run in this order.
pub open spec fn spec_validate(a: PythPriceAccount) -> Result<(), BettingPlatformError> {
    if a.magic != 0xa1b2c3d4 {
        Err(BettingPlatformError::InvalidPythAccount)
    } else if a.account_type != 3 {
        Err(BettingPlatformError::InvalidPythAccountType)
    } else if a.status != PythPriceStatus::Trading {
        Err(BettingPlatformError::PythPriceNotTrading)
    } else {
        Ok(())
    }
}

/// Confidence (basis points): one less the confidence interval relative to
/// the price, 0 for a zero price.
pub open spec fn spec_pyth_confidence(a: PythPriceAccount) -> int {
    let p: int = if a.price < 0 { -a.price } else { a.price as int };
    if p == 0 {
        0
    } else {
        let ratio = (a.conf * 10000) / p;
        if ratio < 10000 { 10000 - ratio } else { 0 }
    }
}

/// The inputs on which the confidence is computed without overflow.
pub open spec fn spec_confidence_defined(a: PythPriceAccount) -> bool {
    &&& a.price != i64::MIN
    &&& a.price != 0 ==> a.conf * 10000 <= u64::MAX
}

impl PythPriceAccount {
    pub const MAGIC: u32 = 0xa1b2c3d4;
    pub const VERSION: u32 = 2;
    pub const PRICE_ACCOUNT_TYPE: u32 = 3;

    /// Checks the magic number, account type and trading status.
    pub fn validate(&self) -> (r: Result<(), BettingPlatformError>)
        ensures
            r == spec_validate(*self),
    {
        if self.magic != Self::MAGIC {
            return Err(BettingPlatformError::InvalidPythAccount);
        }
        if self.account_type != Self::PRICE_ACCOUNT_TYPE {
            return Err(BettingPlatformError::InvalidPythAccountType);
        }
        if self.status != PythPriceStatus::Trading {
            return Err(BettingPlatformError::PythPriceNotTrading);
        }
        Ok(())
    }

    /// Confidence in basis points.
    pub fn get_confidence(&self) -> (r: u64)
        requires
            spec_confidence_defined(*self),
        ensures
            r == spec_pyth_confidence(*self),
    {
        let price_abs = (if self.price < 0 { -self.price } else { self.price }) as u64;
        if price_abs == 0 {
            return 0;
        }
        let conf_ratio = (self.conf * 10000) / price_abs;
        10000u64.saturating_sub(conf_ratio)
    }

    /// Whether the price was published within `MAX_PRICE_AGE_SLOTS`.
    pub fn is_fresh(&self, current_slot: u64) -> (r: bool)
        ensures
            r == spec_is_fresh(current_slot, self.publish_slot),
    {
        current_slot.saturating_sub(self.publish_slot) <= MAX_PRICE_AGE_SLOTS
    }
}

/// A market's Pyth price account.
#[derive(Clone, Debug)]
pub struct PythPriceFeedMapping {
    pub market_id: [u8; 32],
    pub pyth_price_account: [u8; 32],
    pub symbol: String,
    pub last_update_slot: u64,
    pub last_price: u64,
}

impl PythPriceFeedMapping {
    pub const SIZE: usize = 32 + 32 + 32 + 8 + 8;
}

/// The Pyth configuration: one mapping per market.
#[derive(Clone, Debug)]
pub struct PythOracleConfig {
    pub authority: [u8; 32],
    pub pyth_program_id: [u8; 32],
    pub price_feeds: Vec<PythPriceFeedMapping>,
    pub last_update_slot: u64,
    pub total_feeds: u32,
    pub active_feeds: u32,
}

/// Whether some feed maps market `id`.
pub open spec fn spec_has_feed(feeds: Seq<PythPriceFeedMapping>, id: [u8; 32]) -> bool {
    exists|k: int| 0 <= k < feeds.len() && #[trigger] feeds[k].market_id@ == id@
}

/// Number of feeds updated within `MAX_PRICE_AGE_SLOTS` of `slot`.
pub open spec fn spec_active_count(feeds: Seq<PythPriceFeedMapping>, slot: u64) -> nat
    decreases feeds.len(),
{
    if feeds.len() == 0 { 0 } else {
        spec_active_count(feeds.drop_last(), slot) + if spec_is_fresh(slot, feeds.last().last_update_slot) {
            1nat
        } else {
            0nat
        }
    }
}

/// The (market, last price) of the feeds fresh at `slot`, in order.
pub open spec fn spec_active_prices(feeds: Seq<PythPriceFeedMapping>, slot: u64) -> Seq<([u8; 32], u64)>
    decreases feeds.len(),
{
    if feeds.len() == 0 { Seq::empty() } else {
        spec_active_prices(feeds.drop_last(), slot) + if spec_is_fresh(slot, feeds.last().last_update_slot) {
            seq![(feeds.last().market_id, feeds.last().last_price)]
        } else {
            Seq::empty()
        }
    }
}

proof fn lemma_active_count_le(feeds: Seq<PythPriceFeedMapping>, slot: u64)
    ensures
        spec_active_count(feeds, slot) <= feeds.len(),
    decreases feeds.len(),
{
    if feeds.len() > 0 {
        lemma_active_count_le(feeds.drop_last(), slot);
    }
}

impl PythOracleConfig {
    /// Sets the authority and program and drops every feed.
    pub fn initialize(&mut self, authority: &[u8; 32], pyth_program_id: &[u8; 32]) -> (r: Result<(), BettingPlatformError>)
        ensures
            r is Ok,
            final(self).authority == *authority,
            final(self).pyth_program_id == *pyth_program_id,
            final(self).price_feeds@.len() == 0,
            final(self).last_update_slot == 0,
            final(self).total_feeds == 0,
            final(self).active_feeds == 0,
    {
        self.authority = *authority;
        self.pyth_program_id = *pyth_program_id;
        self.price_feeds = Vec::new();
        self.last_update_slot = 0;
        self.total_feeds = 0;
        self.active_feeds = 0;
        Ok(())
    }

    /// Adds the feed of a market; refused when the market has one.
    pub fn add_price_feed(
        &mut self,
        market_id: [u8; 32],
        pyth_price_account: [u8; 32],
        symbol: String,
    ) -> (r: Result<(), BettingPlatformError>)
        requires
            old(self).total_feeds < u32::MAX,
        ensures
            spec_has_feed(old(self).price_feeds@, market_id) ==> r == Err::<(), BettingPlatformError>(
                BettingPlatformError::PriceFeedAlreadyExists) && final(self).price_feeds@ == old(self).price_feeds@
                && final(self).total_feeds == old(self).total_feeds,
            !spec_has_feed(old(self).price_feeds@, market_id) ==> {
                &&& r is Ok
                &&& final(self).price_feeds@.len() == old(self).price_feeds@.len() + 1
                &&& final(self).price_feeds@.drop_last() == old(self).price_feeds@
                &&& final(self).price_feeds@.last().market_id == market_id
                &&& final(self).price_feeds@.last().pyth_price_account == pyth_price_account
                &&& final(self).price_feeds@.last().symbol@ == symbol@
                &&& final(self).price_feeds@.last().last_update_slot == 0
                &&& final(self).price_feeds@.last().last_price == 0
                &&& final(self).total_feeds == old(self).total_feeds + 1
            },
    {
        let mut k: usize = 0;
        while k < self.price_feeds.len()
            invariant
                k <= self.price_feeds@.len(),
                forall|j: int| 0 <= j < k ==> #[trigger] self.price_feeds@[j].market_id@ != market_id@,
            decreases self.price_feeds@.len() - k,
        {
            if bytes_eq(&self.price_feeds[k].market_id, &market_id) {
                return Err(BettingPlatformError::PriceFeedAlreadyExists);
            }
            k = k + 1;
        }
        self.price_feeds.push(PythPriceFeedMapping {
            market_id,
            pyth_price_account,
            symbol,
            last_update_slot: 0,
            last_price: 0,
        });
        assert(self.price_feeds@.drop_last() =~= old(self).price_feeds@);
        self.total_feeds = self.total_feeds + 1;
        Ok(())
    }
}

/// The price read from an account, when it is valid, fresh and positive.
pub open spec fn spec_fetch(a: PythPriceAccount, standard_price: u64, slot: u64, now: i64) -> Result<OraclePriceData, BettingPlatformError> {
    match spec_validate(a) {
        Err(e) => Err(e),
        Ok(()) => if !spec_is_fresh(slot, a.publish_slot) {
            Err(BettingPlatformError::StalePythPrice)
        } else if a.price <= 0 {
            Err(BettingPlatformError::InvalidPythPrice)
        } else {
            Ok(OraclePriceData {
                source: OracleSource::Pyth,
                price: standard_price,
                confidence: spec_pyth_confidence(a) as u64,
                timestamp: now,
                slot,
            })
        },
    }
}

fn find_feed(feeds: &Vec<PythPriceFeedMapping>, id: &[u8; 32]) -> (r: Option<usize>)
    ensures
        match r {
            Some(k) => k < feeds@.len() && feeds@[k as int].market_id@ == id@ && (forall|j: int|
                0 <= j < k ==> #[trigger] feeds@[j].market_id@ != id@),
            None => !spec_has_feed(feeds@, *id),
        },
{
    let mut k: usize = 0;
    while k < feeds.len()
        invariant
            k <= feeds@.len(),
            forall|j: int| 0 <= j < k ==> #[trigger] feeds@[j].market_id@ != id@,
        decreases feeds@.len() - k,
    {
        if bytes_eq(&feeds[k].market_id, id) {
            return Some(k);
        }
        k = k + 1;
    }
    None
}

/// Reads Pyth prices.
pub struct PythOracleHandler;

impl PythOracleHandler {
    /// The price of a deserialised Pyth price account at `current_slot`
    /// and `current_timestamp`: validated, refused when stale or not
    /// positive; `standard_price` is the account's price converted to eight
    /// decimals.
    pub fn fetch_price(
        account: &PythPriceAccount,
        standard_price: u64,
        current_slot: u64,
        current_timestamp: i64,
    ) -> (r: Result<OraclePriceData, BettingPlatformError>)
        requires
            spec_confidence_defined(*account),
        ensures
            r == spec_fetch(*account, standard_price, current_slot, current_timestamp),
    {
        match account.validate() {
            Ok(()) => {},
            Err(e) => return Err(e),
        }
        if !account.is_fresh(current_slot) {
            return Err(BettingPlatformError::StalePythPrice);
        }
        if account.price <= 0 {
            return Err(BettingPlatformError::InvalidPythPrice);
        }
        let confidence = account.get_confidence();
        Ok(OraclePriceData {
            source: OracleSource::Pyth,
            price: standard_price,
            confidence,
            timestamp: current_timestamp,
            slot: current_slot,
        })
    }

    /// Reads the price of `market_id` from its price account `account_key`
    /// holding `account` (price converted to `standard_price`), and records
    /// it in the market's mapping.
    pub fn update_price(
        config: &mut PythOracleConfig,
        market_id: &[u8; 32],
        account_key: &[u8; 32],
        account: &PythPriceAccount,
        standard_price: u64,
        current_slot: u64,
        current_timestamp: i64,
    ) -> (r: Result<OraclePriceData, BettingPlatformError>)
        requires
            spec_confidence_defined(*account),
        ensures
            !spec_has_feed(old(config).price_feeds@, *market_id) ==> r == Err::<OraclePriceData, BettingPlatformError>(
                BettingPlatformError::PythMappingNotFound),
            r is Err ==> *final(config) == *old(config),
            r matches Ok(d) ==> {
                &&& spec_fetch(*account, standard_price, current_slot, current_timestamp) == Ok::<OraclePriceData, BettingPlatformError>(d)
                &&& final(config).last_update_slot == current_slot
                &&& final(config).active_feeds == spec_active_count(final(config).price_feeds@, current_slot) as u32
                &&& final(config).price_feeds@.len() == old(config).price_feeds@.len()
                &&& exists|k: int| 0 <= k < old(config).price_feeds@.len() && old(config).price_feeds@[k].market_id@ == market_id@
                    && (forall|j: int| 0 <= j < k ==> #[trigger] old(config).price_feeds@[j].market_id@ != market_id@)
                    && old(config).price_feeds@[k].pyth_price_account@ == account_key@
                    && final(config).price_feeds@ == old(config).price_feeds@.update(k, PythPriceFeedMapping {
                        last_update_slot: current_slot,
                        last_price: d.price,
                        ..old(config).price_feeds@[k]
                    })
            },
    {
        let k = match find_feed(&config.price_feeds, market_id) {
            Some(k) => k,
            None => return Err(BettingPlatformError::PythMappingNotFound),
        };
        if !bytes_eq(&config.price_feeds[k].pyth_price_account, account_key) {
            return Err(BettingPlatformError::InvalidPythAccount);
        }
        let price_data = match Self::fetch_price(account, standard_price, current_slot, current_timestamp) {
            Ok(d) => d,
            Err(e) => return Err(e),
        };
        let old_mapping = config.price_feeds.remove(k);
        let mapping = PythPriceFeedMapping {
            last_update_slot: current_slot,
            last_price: price_data.price,
            ..old_mapping
        };
        config.price_feeds.insert(k, mapping);
        assert(config.price_feeds@ =~= old(config).price_feeds@.update(k as int, PythPriceFeedMapping {
            last_update_slot: current_slot,
            last_price: price_data.price,
            ..old(config).price_feeds@[k as int]
        }));
        config.last_update_slot = current_slot;
        let active = Self::count_active(&config.price_feeds, current_slot);
        proof {
            lemma_active_count_le(config.price_feeds@, current_slot);
        }
        config.active_feeds = active as u32;
        Ok(price_data)
    }

    fn count_active(feeds: &Vec<PythPriceFeedMapping>, slot: u64) -> (r: usize)
        ensures
            r == spec_active_count(feeds@, slot),
    {
        let mut n: usize = 0;
        let mut i: usize = 0;
        while i < feeds.len()
            invariant
                i <= feeds@.len(),
                n == spec_active_count(feeds@.take(i as int), slot),
                n <= i,
            decreases feeds@.len() - i,
        {
            assert(feeds@.take(i as int + 1).drop_last() =~= feeds@.take(i as int));
            if slot.saturating_sub(feeds[i].last_update_slot) <= MAX_PRICE_AGE_SLOTS {
                n = n + 1;
            }
            i = i + 1;
        }
        assert(feeds@.take(feeds@.len() as int) =~= feeds@);
        n
    }

    /// The (market, last price) of the feeds fresh at `current_slot`.
    pub fn get_active_prices(config: &PythOracleConfig, current_slot: u64) -> (r: Vec<([u8; 32], u64)>)
        ensures
            r@ == spec_active_prices(config.price_feeds@, current_slot),
    {
        let feeds = &config.price_feeds;
        let mut out: Vec<([u8; 32], u64)> = Vec::new();
        let mut i: usize = 0;
        while i < feeds.len()
            invariant
                i <= feeds@.len(),
                feeds == &config.price_feeds,
                out@ == spec_active_prices(feeds@.take(i as int), current_slot),
            decreases feeds@.len() - i,
        {
            assert(feeds@.take(i as int + 1).drop_last() =~= feeds@.take(i as int));
            if current_slot.saturating_sub(feeds[i].last_update_slot) <= MAX_PRICE_AGE_SLOTS {
                out.push((feeds[i].market_id, feeds[i].last_price));
            }
            assert(out@ =~= spec_active_prices(feeds@.take(i as int + 1), current_slot));
            i = i + 1;
        }
        assert(feeds@.take(feeds@.len() as int) =~= feeds@);
        out
    }

}

/// The confidence falls as the interval widens: for a nonzero price whose
/// interval is narrower than the price, confidence and the interval's share
/// of the price (basis points) add up to 10000; at or beyond the price it is
/// zero; and a wider interval never gives a higher confidence.
pub proof fn lemma_pyth_confidence_falls_with_interval(a: PythPriceAccount, wider_conf: u64)
    requires
        a.price != 0,
        a.price != i64::MIN,
        a.conf <= wider_conf,
    ensures
        ({
            let p: int = if a.price < 0 { -a.price } else { a.price as int };
            &&& a.conf < p ==> spec_pyth_confidence(a) + a.conf * 10000 / p == 10000
            &&& a.conf >= p ==> spec_pyth_confidence(a) == 0
            &&& 0 <= spec_pyth_confidence(a) <= 10000
            &&& spec_pyth_confidence(PythPriceAccount { conf: wider_conf, ..a }) <= spec_pyth_confidence(a)
        }),
{
    let p: int = if a.price < 0 { -a.price } else { a.price as int };
    let c = a.conf as int;
    let w = wider_conf as int;
    assert(p >= 1);
    if c < p {
        assert(c * 10000 / p < 10000) by (nonlinear_arith)
            requires c < p, p >= 1, c >= 0;
    } else {
        assert(c * 10000 / p >= 10000) by (nonlinear_arith)
            requires c >= p, p >= 1;
    }
    assert(c * 10000 / p <= w * 10000 / p) by (nonlinear_arith)
        requires c <= w, p >= 1, c >= 0;
}

} // verus!
