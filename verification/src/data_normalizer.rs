//! Normalisation of external market data into the platform's common
//! format: validation against the configured rules, fixed-point prices and
//! volumes, status, category, tags and a market id derived from the
//! external id.
use vstd::prelude::*;
use vstd::utf8::encode_utf8;
use crate::crypto::{sha256, spec_sha256};
use crate::error::BettingPlatformError;
use crate::text::{
    spec_contains, spec_lowercase, spec_split_whitespace, split_whitespace, str_contains, to_lowercase,
};

verus! {

/// Markets processed per batch.
pub const MAX_BATCH_SIZE: usize = 1000;
/// Version stamped on normalised data.
pub const NORMALIZATION_VERSION: u8 = 1;
/// Price units (six decimals).
pub const PRICE_PRECISION: u64 = 1_000_000;
/// Volume units (nine decimals).
pub const VOLUME_PRECISION: u64 = 1_000_000_000;

/// Where data comes from.
#[derive(Clone, Debug, PartialEq)]
pub enum DataSource {
    Polymarket,
    Pyth,
    Chainlink,
    Switchboard,
    Internal,
    Custom(String),
}

/// A Polymarket market as ingested: prices in basis points.
#[derive(Clone, Debug)]
pub struct PolymarketMarketData {
    pub id: String,
    pub title: String,
    pub description: String,
    pub outcomes: Vec<String>,
    pub yes_price: u64,
    pub no_price: u64,
    pub volume_24h: u64,
    pub liquidity: u64,
    pub resolved: bool,
    pub resolution: Option<String>,
    pub disputed: bool,
    pub dispute_reason: Option<String>,
}

/// A normalised outcome.
#[derive(Clone, Debug)]
pub struct NormalizedOutcome {
    pub index: u8,
    pub name: String,
    /// In `PRICE_PRECISION` units.
    pub price: u64,
    /// Basis points.
    pub probability: u16,
    pub volume: u64,
}

/// Normalised prices, in `PRICE_PRECISION` units.
#[derive(Clone, Copy, Debug, PartialEq, Eq, Structural)]
pub struct NormalizedPrices {
    pub bid: u64,
    pub ask: u64,
    pub mid: u64,
    pub last: u64,
    /// Basis points.
    pub change_24h: i64,
    pub high_24h: u64,
    pub low_24h: u64,
}

/// Normalised volume.
#[derive(Clone, Copy, Debug, PartialEq, Eq, Structural)]
pub struct NormalizedVolume {
    pub total_24h: u64,
    pub buy_24h: u64,
    pub sell_24h: u64,
    pub trades_24h: u32,
    pub unique_traders: u32,
}

/// Market status.
#[derive(Clone, Copy, Debug, PartialEq, Eq, Structural)]
pub enum MarketStatus {
    Active,
    Paused,
    Resolved,
    Disputed,
    Cancelled,
}

/// A dispute on a market.
#[derive(Clone, Debug)]
pub struct DisputeInfo {
    pub reason: String,
    pub raised_at: i64,
    pub raised_by: Option<[u8; 32]>,
    pub evidence_url: Option<String>,
}

/// Market metadata.
#[derive(Clone, Debug)]
pub struct MarketMetadata {
    pub category: String,
    pub tags: Vec<String>,
    pub resolution_time: Option<i64>,
    pub create_time: i64,
    pub update_time: i64,
    pub dispute_info: Option<DisputeInfo>,
}

/// A market in the common format.
#[derive(Clone, Debug)]
pub struct NormalizedMarketData {
    pub market_id: [u8; 32],
    pub source: DataSource,
    pub external_id: String,
    pub title: String,
    pub description: String,
    pub outcomes: Vec<NormalizedOutcome>,
    pub prices: NormalizedPrices,
    pub volume: NormalizedVolume,
    pub liquidity: u64,
    pub status: MarketStatus,
    pub metadata: MarketMetadata,
    pub timestamp: i64,
    pub version: u8,
}

/// Rules that ingested data must meet.
#[derive(Clone, Copy, Debug, PartialEq, Eq, Structural)]
pub struct ValidationRules {
    /// Prices must sum to about 100%.
    pub require_price_sum: bool,
    /// Allowed deviation of the sum, in basis points.
    pub max_price_deviation: u16,
    pub min_liquidity: u64,
    pub max_outcome_count: u8,
    pub require_description: bool,
    /// Longest title, in bytes.
    pub max_title_length: u16,
}

/// The default rules: prices within 2% of 100%, $10k liquidity, at most ten
/// outcomes, a description, and titles up to 200 bytes.
pub open spec fn spec_default_rules() -> ValidationRules {
    ValidationRules {
        require_price_sum: true,
        max_price_deviation: 200,
        min_liquidity: 10_000_000_000,
        max_outcome_count: 10,
        require_description: true,
        max_title_length: 200,
    }
}

impl Default for ValidationRules {
    fn default() -> (r: Self)
        ensures
            r == spec_default_rules(),
    {
        ValidationRules {
            require_price_sum: true,
            max_price_deviation: 200,
            min_liquidity: 10_000_000_000,
            max_outcome_count: 10,
            require_description: true,
            max_title_length: 200,
        }
    }
}

/// The normaliser and its counters. Each source name occurs once in
/// `source_mappings`.
#[derive(Clone, Debug)]
pub struct DataNormalizer {
    pub total_processed: u64,
    pub total_errors: u64,
    pub validation_rules: ValidationRules,
    pub source_mappings: Vec<(String, DataSource)>,
    pub last_update: i64,
}

/// The deviation of the price sum from 100%, computed as the normaliser
/// does: the sum taken as a 32-bit signed value, its distance to 10000, cut
/// to 16 bits.
pub open spec fn spec_price_deviation(yes_price: u64, no_price: u64) -> u16 {
    let t = ((yes_price + no_price) as u64) as i32;
    let d = t - 10000;
    (if d < 0 { -d } else { d }) as u16
}

/// The number of bytes of a text in UTF-8, as `str::len` reports it.
pub open spec fn spec_byte_len(s: Seq<char>) -> usize {
    encode_utf8(s).len() as usize
}

/// The outcome of validating a market against the rules; the checks run in
/// this order.
pub open spec fn spec_validation(rules: ValidationRules, data: PolymarketMarketData) -> Result<(), BettingPlatformError> {
    if rules.require_price_sum && spec_price_deviation(data.yes_price, data.no_price) > rules.max_price_deviation {
        Err(BettingPlatformError::InvalidPriceSum)
    } else if data.liquidity < rules.min_liquidity {
        Err(BettingPlatformError::InsufficientLiquidity)
    } else if data.outcomes@.len() > rules.max_outcome_count {
        Err(BettingPlatformError::TooManyOutcomes)
    } else if spec_byte_len(data.title@) > rules.max_title_length {
        Err(BettingPlatformError::TitleTooLong)
    } else if rules.require_description && data.description@.len() == 0 {
        Err(BettingPlatformError::MissingDescription)
    } else {
        Ok(())
    }
}

/// The inputs on which validation runs without overflow.
pub open spec fn spec_validation_defined(rules: ValidationRules, data: PolymarketMarketData) -> bool {
    rules.require_price_sum ==> {
        &&& data.yes_price + data.no_price <= u64::MAX
        &&& ((data.yes_price + data.no_price) as u64) as i32 > i32::MIN + 10000
    }
}

/// Mid price in basis points.
pub open spec fn spec_mid(data: PolymarketMarketData) -> int {
    (data.yes_price + data.no_price) / 2
}

/// The inputs on which a validated market can be normalised at `time`
/// without overflow: fixed-point prices fit, the price band stays above
/// zero, the volume split fits, and the creation time fits.
pub open spec fn spec_normalize_defined(rules: ValidationRules, data: PolymarketMarketData, time: i64) -> bool {
    &&& spec_validation_defined(rules, data)
    &&& spec_validation(rules, data) is Ok ==> {
        &&& data.outcomes@.len() >= 2 ==> data.yes_price * PRICE_PRECISION <= u64::MAX && data.no_price
            * PRICE_PRECISION <= u64::MAX
        &&& data.yes_price + data.no_price <= u64::MAX
        &&& spec_mid(data) >= 100
        &&& (spec_mid(data) + 100) * PRICE_PRECISION <= u64::MAX
        &&& data.volume_24h * 55 <= u64::MAX
        &&& time - 86400 >= i64::MIN
    }
}

/// The category read from a title's keywords.
pub open spec fn spec_category(title: Seq<char>) -> Seq<char> {
    let l = spec_lowercase(title);
    if spec_contains(l, "election"@) || spec_contains(l, "president"@) {
        "Politics"@
    } else if spec_contains(l, "bitcoin"@) || spec_contains(l, "crypto"@) {
        "Crypto"@
    } else if spec_contains(l, "sports"@) || spec_contains(l, "game"@) {
        "Sports"@
    } else if spec_contains(l, "stock"@) || spec_contains(l, "market"@) {
        "Finance"@
    } else {
        "General"@
    }
}

/// Whether a word is too common to be a tag.
pub open spec fn spec_is_common_word(word: Seq<char>) -> bool {
    let l = spec_lowercase(word);
    l == "will"@ || l == "does"@ || l == "when"@ || l == "what"@ || l == "where"@ || l == "which"@ || l
        == "there"@ || l == "their"@ || l == "these"@ || l == "those"@
}

/// Whether a word becomes a tag: longer than four bytes and not common.
pub open spec fn spec_is_tag_word(word: Seq<char>) -> bool {
    spec_byte_len(word) > 4 && !spec_is_common_word(word)
}

/// The lower-cased tag words among `words`, in order.
pub open spec fn spec_tag_candidates(words: Seq<Seq<char>>) -> Seq<Seq<char>>
    decreases words.len(),
{
    if words.len() == 0 {
        Seq::empty()
    } else if spec_is_tag_word(words.last()) {
        spec_tag_candidates(words.drop_last()).push(spec_lowercase(words.last()))
    } else {
        spec_tag_candidates(words.drop_last())
    }
}

/// The tags of a title: its first five tag words, lower-cased.
pub open spec fn spec_tags(title: Seq<char>) -> Seq<Seq<char>> {
    let c = spec_tag_candidates(spec_split_whitespace(title));
    if c.len() <= 5 { c } else { c.subrange(0, 5) }
}

/// The texts of a list of strings.
pub open spec fn spec_texts(v: Seq<String>) -> Seq<Seq<char>> {
    v.map_values(|s: String| s@)
}

/// The id of the market with external id `id`: the SHA-256 of `market:`
/// followed by the id.
pub open spec fn spec_market_id(id: Seq<char>) -> Seq<u8> {
    spec_sha256(encode_utf8("market:"@ + id))
}

/// A price in basis points as a fixed-point price.
pub open spec fn spec_fixed_price(bps: int) -> int {
    bps * (PRICE_PRECISION as int) / 10000
}

/// `r` is the normalised form of `data` at `time`.
pub open spec fn spec_normalized_is(r: NormalizedMarketData, data: PolymarketMarketData, time: i64) -> bool {
    let mid = spec_mid(data);
    let v = data.volume_24h;
    &&& r.market_id@ == spec_market_id(data.id@)
    &&& r.source == DataSource::Polymarket
    &&& r.external_id@ == data.id@
    &&& r.title@ == data.title@
    &&& r.description@ == data.description@
    &&& (if data.outcomes@.len() >= 2 {
        &&& r.outcomes@.len() == 2
        &&& r.outcomes@[0].index == 0
        &&& r.outcomes@[0].name@ == data.outcomes@[0]@
        &&& r.outcomes@[0].price == spec_fixed_price(data.yes_price as int)
        &&& r.outcomes@[0].probability == data.yes_price as u16
        &&& r.outcomes@[0].volume == v / 2
        &&& r.outcomes@[1].index == 1
        &&& r.outcomes@[1].name@ == data.outcomes@[1]@
        &&& r.outcomes@[1].price == spec_fixed_price(data.no_price as int)
        &&& r.outcomes@[1].probability == data.no_price as u16
        &&& r.outcomes@[1].volume == v / 2
    } else {
        r.outcomes@.len() == 0
    })
    &&& r.prices.bid == spec_fixed_price(mid - 50)
    &&& r.prices.ask == spec_fixed_price(mid + 50)
    &&& r.prices.mid == spec_fixed_price(mid)
    &&& r.prices.last == spec_fixed_price(mid)
    &&& r.prices.change_24h == 0
    &&& r.prices.high_24h == spec_fixed_price(mid + 100)
    &&& r.prices.low_24h == spec_fixed_price(mid - 100)
    &&& r.volume.total_24h == v
    &&& r.volume.buy_24h == v * 45 / 100
    &&& r.volume.sell_24h == v * 55 / 100
    &&& r.volume.trades_24h == (v / 100_000_000) as u32
    &&& r.volume.unique_traders == (v / 1_000_000_000) as u32
    &&& r.liquidity == data.liquidity
    &&& r.status == (if data.resolved {
        MarketStatus::Resolved
    } else if data.disputed {
        MarketStatus::Disputed
    } else {
        MarketStatus::Active
    })
    &&& r.metadata.category@ == spec_category(data.title@)
    &&& spec_texts(r.metadata.tags@) == spec_tags(data.title@)
    &&& r.metadata.resolution_time == (if data.resolved { Some(time) } else { None })
    &&& r.metadata.create_time == time - 86400
    &&& r.metadata.update_time == time
    &&& (if data.disputed {
        r.metadata.dispute_info matches Some(d) && d.raised_at == time && d.raised_by is None && d.evidence_url is None
            && d.reason@ == (match data.dispute_reason {
            Some(s) => s@,
            None => Seq::<char>::empty(),
        })
    } else {
        r.metadata.dispute_info is None
    })
    &&& r.timestamp == time
    &&& r.version == NORMALIZATION_VERSION
}

impl DataNormalizer {
    pub const SIZE: usize = 8 + 8 + 200 + 4 + (100 * 50) + 8;

    /// A normaliser with the default rules and the Polymarket, Pyth and
    /// Chainlink sources, last updated at `current_time`.
    pub fn new(current_time: i64) -> (r: Self)
        ensures
            r.total_processed == 0,
            r.total_errors == 0,
            r.validation_rules == spec_default_rules(),
            r.source_mappings@.len() == 3,
            r.source_mappings@[0].0@ == "polymarket"@ && r.source_mappings@[0].1 == DataSource::Polymarket,
            r.source_mappings@[1].0@ == "pyth"@ && r.source_mappings@[1].1 == DataSource::Pyth,
            r.source_mappings@[2].0@ == "chainlink"@ && r.source_mappings@[2].1 == DataSource::Chainlink,
            r.last_update == current_time,
    {
        let mut source_mappings: Vec<(String, DataSource)> = Vec::new();
        source_mappings.push((String::from_str("polymarket"), DataSource::Polymarket));
        source_mappings.push((String::from_str("pyth"), DataSource::Pyth));
        source_mappings.push((String::from_str("chainlink"), DataSource::Chainlink));
        DataNormalizer {
            total_processed: 0,
            total_errors: 0,
            validation_rules: ValidationRules::default(),
            source_mappings,
            last_update: current_time,
        }
    }

    /// Checks a market against the rules: price sum, liquidity, outcome
    /// count, title length, description; the first failed check gives the
    /// error.
    pub fn validate_polymarket_data(&self, data: &PolymarketMarketData) -> (r: Result<(), BettingPlatformError>)
        requires
            spec_validation_defined(self.validation_rules, *data),
        ensures
            r == spec_validation(self.validation_rules, *data),
    {
        let rules = &self.validation_rules;
        if rules.require_price_sum {
            let price_sum = data.yes_price + data.no_price;
            let t = price_sum as i32;
            let d = t - 10000;
            let a = if d < 0 { -d } else { d };
            let deviation = a as u16;
            if deviation > rules.max_price_deviation {
                return Err(BettingPlatformError::InvalidPriceSum);
            }
        }
        if data.liquidity < rules.min_liquidity {
            return Err(BettingPlatformError::InsufficientLiquidity);
        }
        if data.outcomes.len() > rules.max_outcome_count as usize {
            return Err(BettingPlatformError::TooManyOutcomes);
        }
        if data.title.as_str().len() > rules.max_title_length as usize {
            return Err(BettingPlatformError::TitleTooLong);
        }
        if rules.require_description && data.description.as_str().is_empty() {
            return Err(BettingPlatformError::MissingDescription);
        }
        Ok(())
    }

    /// The category of a title from its keywords.
    pub fn extract_category(&self, title: &str) -> (r: String)
        ensures
            r@ == spec_category(title@),
    {
        let lower = to_lowercase(title);
        let l = lower.as_str();
        if str_contains(l, "election") || str_contains(l, "president") {
            String::from_str("Politics")
        } else if str_contains(l, "bitcoin") || str_contains(l, "crypto") {
            String::from_str("Crypto")
        } else if str_contains(l, "sports") || str_contains(l, "game") {
            String::from_str("Sports")
        } else if str_contains(l, "stock") || str_contains(l, "market") {
            String::from_str("Finance")
        } else {
            String::from_str("General")
        }
    }

    /// Whether a word is too common to be a tag.
    pub fn is_common_word(word: &str) -> (r: bool)
        ensures
            r == spec_is_common_word(word@),
    {
        let l = to_lowercase(word);
        l == String::from_str("will") || l == String::from_str("does") || l == String::from_str("when") || l
            == String::from_str("what") || l == String::from_str("where") || l == String::from_str("which") || l
            == String::from_str("there") || l == String::from_str("their") || l == String::from_str("these") || l
            == String::from_str("those")
    }

    /// The tags of a title: its first five words that are longer than four
    /// bytes and not common, lower-cased.
    pub fn extract_tags(&self, title: &str) -> (r: Vec<String>)
        ensures
            spec_texts(r@) == spec_tags(title@),
    {
        let words = split_whitespace(title);
        let ghost ws = spec_split_whitespace(title@);
        assert(ws.len() == words@.len());
        let mut tags: Vec<String> = Vec::new();
        let mut i: usize = 0;
        while i < words.len()
            invariant
                i <= words@.len(),
                ws == words@.map_values(|w: String| w@),
                spec_texts(tags@) == spec_tag_candidates(ws.take(i as int)),
            decreases words@.len() - i,
        {
            let word = words[i].as_str();
            assert(ws.take(i as int + 1).drop_last() =~= ws.take(i as int));
            assert(ws[i as int] == word@);
            if word.len() > 4 && !Self::is_common_word(word) {
                let ghost prev = tags@;
                tags.push(to_lowercase(word));
                assert(spec_texts(tags@) =~= spec_texts(prev).push(spec_lowercase(word@)));
            }
            i = i + 1;
        }
        assert(ws.take(words@.len() as int) =~= ws);
        tags.truncate(5);
        proof {
            let c = spec_tag_candidates(ws);
            if c.len() > 5 {
                assert(spec_texts(tags@) =~= c.subrange(0, 5));
            }
        }
        tags
    }

    /// The market id for an external id: the SHA-256 of `market:` and the id.
    pub fn generate_market_id(&self, external_id: &str) -> (r: [u8; 32])
        ensures
            r@ == spec_market_id(external_id@),
    {
        let mut seed = String::from_str("market:");
        seed.append(external_id);
        sha256(seed.as_str().as_bytes())
    }

    /// Normalises a Polymarket market at `current_time`: validated first,
    /// then converted to fixed-point prices and volumes with estimated
    /// spread and trade counts, its status, category and tags, and counted.
    /// The normaliser is unchanged when validation fails.
    pub fn normalize_polymarket(&mut self, data: &PolymarketMarketData, current_time: i64) -> (r: Result<
        NormalizedMarketData,
        BettingPlatformError,
    >)
        requires
            spec_normalize_defined(old(self).validation_rules, *data, current_time),
            old(self).total_processed < u64::MAX,
        ensures
            spec_validation(old(self).validation_rules, *data) matches Err(e) ==> r == Err::<
                NormalizedMarketData,
                BettingPlatformError,
            >(e) && *final(self) == *old(self),
            spec_validation(old(self).validation_rules, *data) is Ok ==> {
                &&& r matches Ok(n) && spec_normalized_is(n, *data, current_time)
                &&& final(self).total_processed == old(self).total_processed + 1
                &&& final(self).last_update == current_time
                &&& final(self).total_errors == old(self).total_errors
                &&& final(self).validation_rules == old(self).validation_rules
                &&& final(self).source_mappings@ == old(self).source_mappings@
            },
    {
        match self.validate_polymarket_data(data) {
            Ok(()) => {},
            Err(e) => return Err(e),
        }
        let v = data.volume_24h;
        let mut outcomes: Vec<NormalizedOutcome> = Vec::new();
        if data.outcomes.len() >= 2 {
            outcomes.push(NormalizedOutcome {
                index: 0,
                name: data.outcomes[0].clone(),
                price: data.yes_price * PRICE_PRECISION / 10000,
                probability: data.yes_price as u16,
                volume: v / 2,
            });
            outcomes.push(NormalizedOutcome {
                index: 1,
                name: data.outcomes[1].clone(),
                price: data.no_price * PRICE_PRECISION / 10000,
                probability: data.no_price as u16,
                volume: v / 2,
            });
        }
        let mid_price = (data.yes_price + data.no_price) / 2;
        let prices = NormalizedPrices {
            bid: (mid_price - 50) * PRICE_PRECISION / 10000,
            ask: (mid_price + 50) * PRICE_PRECISION / 10000,
            mid: mid_price * PRICE_PRECISION / 10000,
            last: mid_price * PRICE_PRECISION / 10000,
            change_24h: 0,
            high_24h: (mid_price + 100) * PRICE_PRECISION / 10000,
            low_24h: (mid_price - 100) * PRICE_PRECISION / 10000,
        };
        let volume = NormalizedVolume {
            total_24h: v,
            buy_24h: v * 45 / 100,
            sell_24h: v * 55 / 100,
            trades_24h: (v / 100_000_000) as u32,
            unique_traders: (v / 1_000_000_000) as u32,
        };
        let status = if data.resolved {
            MarketStatus::Resolved
        } else if data.disputed {
            MarketStatus::Disputed
        } else {
            MarketStatus::Active
        };
        let dispute_info = if data.disputed {
            let reason = match &data.dispute_reason {
                Some(s) => s.clone(),
                None => String::new(),
            };
            Some(DisputeInfo { reason, raised_at: current_time, raised_by: None, evidence_url: None })
        } else {
            None
        };
        let metadata = MarketMetadata {
            category: self.extract_category(data.title.as_str()),
            tags: self.extract_tags(data.title.as_str()),
            resolution_time: if data.resolved { Some(current_time) } else { None },
            create_time: current_time - 86400,
            update_time: current_time,
            dispute_info,
        };
        let normalized = NormalizedMarketData {
            market_id: self.generate_market_id(data.id.as_str()),
            source: DataSource::Polymarket,
            external_id: data.id.clone(),
            title: data.title.clone(),
            description: data.description.clone(),
            outcomes,
            prices,
            volume,
            liquidity: data.liquidity,
            status,
            metadata,
            timestamp: current_time,
            version: NORMALIZATION_VERSION,
        };
        self.total_processed = self.total_processed + 1;
        self.last_update = current_time;
        Ok(normalized)
    }

    /// Replaces the validation rules.
    pub fn update_rules(&mut self, new_rules: ValidationRules) -> (r: Result<(), BettingPlatformError>)
        ensures
            r is Ok,
            final(self).validation_rules == new_rules,
            final(self).total_processed == old(self).total_processed,
            final(self).total_errors == old(self).total_errors,
            final(self).last_update == old(self).last_update,
            final(self).source_mappings@ == old(self).source_mappings@,
    {
        self.validation_rules = new_rules;
        Ok(())
    }
}


/// The markets among `ms` that pass validation, in order.
pub open spec fn spec_valid_markets(rules: ValidationRules, ms: Seq<PolymarketMarketData>) -> Seq<PolymarketMarketData>
    decreases ms.len(),
{
    if ms.len() == 0 {
        Seq::empty()
    } else if spec_validation(rules, ms.last()) is Ok {
        spec_valid_markets(rules, ms.drop_last()).push(ms.last())
    } else {
        spec_valid_markets(rules, ms.drop_last())
    }
}

proof fn lemma_valid_markets_len(rules: ValidationRules, ms: Seq<PolymarketMarketData>)
    ensures
        spec_valid_markets(rules, ms).len() <= ms.len(),
    decreases ms.len(),
{
    if ms.len() > 0 {
        lemma_valid_markets_len(rules, ms.drop_last());
    }
}

/// The markets a batch takes: the first `MAX_BATCH_SIZE`.
pub open spec fn spec_batch(ms: Seq<PolymarketMarketData>) -> Seq<PolymarketMarketData> {
    if ms.len() <= MAX_BATCH_SIZE { ms } else { ms.take(MAX_BATCH_SIZE as int) }
}

/// A price feed.
#[derive(Clone, Debug)]
pub struct PriceFeed {
    pub market_id: [u8; 32],
    pub price: u64,
    /// Basis points.
    pub confidence: u16,
    pub timestamp: i64,
    pub source: DataSource,
}

/// Kinds of analytics event.
#[derive(Clone, Copy, Debug, PartialEq, Eq, Structural)]
pub enum AnalyticsEventType {
    MarketUpdate,
    PriceChange,
    VolumeSpike,
    LiquidityChange,
}

/// An analytics event.
#[derive(Clone, Copy, Debug)]
pub struct AnalyticsEvent {
    pub market_id: [u8; 32],
    pub event_type: AnalyticsEventType,
    pub volume_24h: u64,
    pub trades_24h: u32,
    pub unique_traders: u32,
    pub price_change_24h: i64,
    pub timestamp: i64,
}

/// Confidence (basis points) from volume, liquidity and trade count, each
/// scored up to 100 and weighted 4:4:2.
pub open spec fn spec_confidence(volume: NormalizedVolume, liquidity: u64) -> int {
    let vs: int = if volume.total_24h / 1_000_000_000 < 100 { (volume.total_24h / 1_000_000_000) as int } else { 100 };
    let ls: int = if liquidity / 10_000_000_000 < 100 { (liquidity / 10_000_000_000) as int } else { 100 };
    let ts: int = if volume.trades_24h / 100 < 100 { (volume.trades_24h / 100) as int } else { 100 };
    ((vs * 4 + ls * 4 + ts * 2) / 10) * 100
}

/// Confidence of a market's data, in basis points.
pub fn calculate_confidence(volume: &NormalizedVolume, liquidity: u64) -> (r: u16)
    ensures
        r == spec_confidence(*volume, liquidity),
{
    let v = volume.total_24h / 1_000_000_000;
    let volume_score: u16 = if v < 100 { v as u16 } else { 100 };
    let l = liquidity / 10_000_000_000;
    let liquidity_score: u16 = if l < 100 { l as u16 } else { 100 };
    let t = volume.trades_24h / 100;
    let trade_score: u16 = if t < 100 { t as u16 } else { 100 };
    let confidence = (volume_score * 4 + liquidity_score * 4 + trade_score * 2) / 10;
    confidence * 100
}

/// Conversions of normalised data for other consumers.
pub struct DataTransformer;

/// A market in the trading engine's format.
#[derive(Clone, Debug)]
pub struct MarketData {
    pub market_id: [u8; 32],
    pub title: String,
    /// Probability of the first outcome in basis points, as the raw bits
    /// of a 64.64 fixed-point number.
    pub probability: u128,
    pub yes_price: u64,
    pub volume_7d: u64,
    pub volume_24h: u64,
    pub liquidity_depth: u64,
    pub liquidity: u64,
    pub last_trade_time: i64,
    pub category: String,
    pub created_at: i64,
}

impl DataTransformer {
    /// A market in the trading engine's format: the first outcome's
    /// probability and price, seven days of volume estimated from the last
    /// day, and the liquidity as depth.
    pub fn to_internal_market(data: &NormalizedMarketData) -> (r: MarketData)
        requires
            data.outcomes@.len() >= 1,
            data.volume.total_24h * 7 <= u64::MAX,
        ensures
            r.market_id == data.market_id,
            r.title@ == data.title@,
            r.probability == (data.outcomes@[0].probability as int) * 0x1_0000_0000_0000_0000,
            r.yes_price == data.outcomes@[0].price,
            r.volume_7d == data.volume.total_24h * 7,
            r.volume_24h == data.volume.total_24h,
            r.liquidity_depth == data.liquidity,
            r.liquidity == data.liquidity,
            r.last_trade_time == data.timestamp,
            r.category@ == data.metadata.category@,
            r.created_at == data.metadata.create_time,
    {
        let first = &data.outcomes[0];
        MarketData {
            market_id: data.market_id,
            title: data.title.clone(),
            probability: first.probability as u128 * 0x1_0000_0000_0000_0000u128,
            yes_price: first.price,
            volume_7d: data.volume.total_24h * 7,
            volume_24h: data.volume.total_24h,
            liquidity_depth: data.liquidity,
            liquidity: data.liquidity,
            last_trade_time: data.timestamp,
            category: data.metadata.category.clone(),
            created_at: data.metadata.create_time,
        }
    }

    /// The price feed of a market: its mid price and data confidence.
    pub fn to_price_feed(data: &NormalizedMarketData) -> (r: PriceFeed)
        ensures
            r.market_id == data.market_id,
            r.price == data.prices.mid,
            r.confidence == spec_confidence(data.volume, data.liquidity),
            r.timestamp == data.timestamp,
            r.source == data.source,
    {
        PriceFeed {
            market_id: data.market_id,
            price: data.prices.mid,
            confidence: calculate_confidence(&data.volume, data.liquidity),
            timestamp: data.timestamp,
            source: clone_source(&data.source),
        }
    }

    /// The market-update analytics event of a market.
    pub fn to_analytics_event(data: &NormalizedMarketData) -> (r: AnalyticsEvent)
        ensures
            r.market_id == data.market_id,
            r.event_type == AnalyticsEventType::MarketUpdate,
            r.volume_24h == data.volume.total_24h,
            r.trades_24h == data.volume.trades_24h,
            r.unique_traders == data.volume.unique_traders,
            r.price_change_24h == data.prices.change_24h,
            r.timestamp == data.timestamp,
    {
        AnalyticsEvent {
            market_id: data.market_id,
            event_type: AnalyticsEventType::MarketUpdate,
            volume_24h: data.volume.total_24h,
            trades_24h: data.volume.trades_24h,
            unique_traders: data.volume.unique_traders,
            price_change_24h: data.prices.change_24h,
            timestamp: data.timestamp,
        }
    }
}

/// Copies a data source.
pub fn clone_source(s: &DataSource) -> (r: DataSource)
    ensures
        r == *s,
{
    match s {
        DataSource::Polymarket => DataSource::Polymarket,
        DataSource::Pyth => DataSource::Pyth,
        DataSource::Chainlink => DataSource::Chainlink,
        DataSource::Switchboard => DataSource::Switchboard,
        DataSource::Internal => DataSource::Internal,
        DataSource::Custom(name) => DataSource::Custom(name.clone()),
    }
}

/// Starts the data normaliser; there is nothing to set up.
pub fn initialize_data_normalizer() -> (r: Result<(), BettingPlatformError>)
    ensures
        r is Ok,
{
    Ok(())
}

/// Counters of a normaliser. The error rate, a ratio of two of them, is a
/// floating-point figure and is derived by the reader.
#[derive(Clone, Copy, Debug)]
pub struct NormalizerStats {
    pub total_processed: u64,
    pub total_errors: u64,
    pub last_update: i64,
    pub sources_configured: u32,
}

impl DataNormalizer {
    /// The normaliser's counters and the number of configured sources.
    pub fn get_stats(&self) -> (r: NormalizerStats)
        ensures
            r.total_processed == self.total_processed,
            r.total_errors == self.total_errors,
            r.last_update == self.last_update,
            r.sources_configured == self.source_mappings@.len() as u32,
    {
        NormalizerStats {
            total_processed: self.total_processed,
            total_errors: self.total_errors,
            last_update: self.last_update,
            sources_configured: self.source_mappings.len() as u32,
        }
    }

    /// Normalises up to `MAX_BATCH_SIZE` markets at `current_time`, keeping
    /// those that pass validation and counting the others as errors. More
    /// than a tenth of the batch size in errors fails the batch; the
    /// counters are updated either way.
    pub fn batch_normalize(&mut self, markets: Vec<PolymarketMarketData>, current_time: i64) -> (r: Result<
        Vec<NormalizedMarketData>,
        BettingPlatformError,
    >)
        requires
            forall|k: int| 0 <= k < spec_batch(markets@).len() ==> spec_normalize_defined(
                old(self).validation_rules,
                #[trigger] spec_batch(markets@)[k],
                current_time,
            ),
            old(self).total_processed + spec_batch(markets@).len() <= u64::MAX,
            old(self).total_errors + spec_batch(markets@).len() <= u64::MAX,
        ensures
            ({
                let b = spec_batch(markets@);
                let ok = spec_valid_markets(old(self).validation_rules, b);
                let errors = b.len() - ok.len();
                &&& final(self).total_processed == old(self).total_processed + ok.len()
                &&& final(self).total_errors == old(self).total_errors + errors
                &&& final(self).validation_rules == old(self).validation_rules
                &&& errors > MAX_BATCH_SIZE / 10 ==> r == Err::<Vec<NormalizedMarketData>, BettingPlatformError>(
                    BettingPlatformError::TooManyNormalizationErrors)
                &&& errors <= MAX_BATCH_SIZE / 10 ==> (r matches Ok(v) && v@.len() == ok.len() && forall|k: int|
                    0 <= k < v@.len() ==> spec_normalized_is(#[trigger] v@[k], ok[k], current_time))
            }),
    {
        let ghost rules = self.validation_rules;
        let ghost b = spec_batch(markets@);
        let n = if markets.len() <= MAX_BATCH_SIZE { markets.len() } else { MAX_BATCH_SIZE };
        assert(b.len() == n);
        let mut normalized: Vec<NormalizedMarketData> = Vec::new();
        let mut errors: usize = 0;
        let mut i: usize = 0;
        while i < n
            invariant
                n == b.len(),
                n <= markets@.len(),
                b == spec_batch(markets@),
                forall|k: int| 0 <= k < n ==> b[k] == markets@[k],
                i <= n,
                self.validation_rules == rules,
                rules == old(self).validation_rules,
                forall|k: int| 0 <= k < b.len() ==> spec_normalize_defined(rules, #[trigger] b[k], current_time),
                normalized@.len() == spec_valid_markets(rules, b.take(i as int)).len(),
                forall|k: int| 0 <= k < normalized@.len() ==> spec_normalized_is(#[trigger] normalized@[k],
                    spec_valid_markets(rules, b.take(i as int))[k], current_time),
                errors == i - spec_valid_markets(rules, b.take(i as int)).len(),
                self.total_processed == old(self).total_processed + spec_valid_markets(rules, b.take(i as int)).len(),
                self.total_errors == old(self).total_errors + errors,
                old(self).total_processed + n <= u64::MAX,
                old(self).total_errors + n <= u64::MAX,
            decreases n - i,
        {
            assert(b.take(i as int + 1).drop_last() =~= b.take(i as int));
            assert(b.take(i as int + 1).last() == b[i as int]);
            proof {
                lemma_valid_markets_len(rules, b.take(i as int));
            }
            match self.normalize_polymarket(&markets[i], current_time) {
                Ok(data) => {
                    normalized.push(data);
                },
                Err(e) => {
                    errors = errors + 1;
                    self.total_errors = self.total_errors + 1;
                },
            }
            i = i + 1;
        }
        assert(b.take(n as int) =~= b);
        if errors > MAX_BATCH_SIZE / 10 {
            return Err(BettingPlatformError::TooManyNormalizationErrors);
        }
        Ok(normalized)
    }
}

} // verus!
