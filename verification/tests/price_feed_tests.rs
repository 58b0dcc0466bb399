use betting_platform::error::BettingPlatformError;
use betting_platform::median_oracle::{PolymarketOracleHandler, PolymarketOracleState, PolymarketPriceResult};
use betting_platform::oracle_coordinator::OracleSource;
use betting_platform::polymarket_oracle::{
    MarketPriceFeed, OracleFallbackHandler, OracleKeeper, OraclePriceData, OracleUpdate, PolymarketOracle, PriceAggregator,
    PriceFeedStatus,
};

fn feed(id: u8) -> MarketPriceFeed {
    MarketPriceFeed {
        market_id: [id; 32],
        polymarket_id: "pm".to_string(),
        yes_price: 0,
        no_price: 0,
        mid_price: 0,
        bid_ask_spread: 0,
        liquidity_usd: 0,
        volume_24h_usd: 0,
        last_trade_price: 0,
        last_update_slot: 0,
        last_update_timestamp: 0,
        price_confidence: 0,
        status: PriceFeedStatus::Disconnected,
        update_count: 0,
    }
}

fn update(id: u8, yes: u64, no: u64, liquidity: u64, signed: bool) -> OracleUpdate {
    OracleUpdate { market_id: [id; 32], polymarket_id: "pm".to_string(), yes_price: yes, no_price: no, liquidity, volume_24h: 7, timestamp: 99, signature: [if signed { 1 } else { 0 }; 64] }
}

fn aggregator() -> PriceAggregator {
    PriceAggregator { oracle_pubkey: [8u8; 32], price_feeds: vec![feed(1), feed(2)], last_aggregation_slot: 0, total_value_locked: 0, aggregate_confidence: 0, oracle_prices: vec![] }
}

#[test]
fn aggregator_applies_valid_updates() {
    let mut agg = aggregator();
    let updates = vec![
        update(1, 60_000_000, 40_000_000, 20_000_000_000, true),
        update(2, 60_000_000, 40_000_000, 20_000_000_000, false),
        update(3, 50_000_000, 50_000_000, 0, true),
        update(2, 80_000_000, 40_000_000, 0, true),
    ];
    agg.aggregate_prices(&updates, 10).unwrap();
    let f = &agg.price_feeds[0];
    assert_eq!(f.mid_price, 50_000_000);
    assert_eq!(f.bid_ask_spread, 20_000_000);
    // spread 4000 bps capped at 500, plus 2 for $20k liquidity
    assert_eq!(f.price_confidence, 9502);
    assert_eq!(f.status, PriceFeedStatus::Active);
    assert_eq!(f.update_count, 1);
    assert_eq!(agg.price_feeds[1].update_count, 0);
    assert_eq!(agg.aggregate_confidence, 9502);
    assert_eq!(agg.last_aggregation_slot, 10);
}

#[test]
fn aggregator_median_of_sources() {
    let mut agg = aggregator();
    assert_eq!(agg.calculate_median_price(&[1u8; 32], Some(5), Some(9), Some(7)), Ok(7));
    assert_eq!(agg.calculate_median_price(&[1u8; 32], Some(5), None, Some(8)), Ok(6));
    assert_eq!(agg.calculate_median_price(&[1u8; 32], None, None, Some(8)), Err(BettingPlatformError::InsufficientOracleSources));
    let updates = vec![
        OraclePriceData { source: OracleSource::Polymarket, price: 100, confidence: 0, timestamp: 0, slot: 95 },
        OraclePriceData { source: OracleSource::PythNetwork, price: 300, confidence: 0, timestamp: 0, slot: 95 },
        OraclePriceData { source: OracleSource::Chainlink, price: 200, confidence: 0, timestamp: 0, slot: 10 },
        OraclePriceData { source: OracleSource::InternalCache, price: 1, confidence: 0, timestamp: 0, slot: 99 },
    ];
    // the Chainlink price is stale: mean of 100 and 300
    assert_eq!(agg.update_median_price(&[2u8; 32], updates, 100), Ok(200));
    assert_eq!(agg.price_feeds[1].mid_price, 200);
    assert_eq!(agg.price_feeds[1].last_update_slot, 100);
    assert_eq!(agg.oracle_prices.len(), 4);
    assert_eq!(agg.get_market_from_lookup(&[[4u8; 32]], 0), Ok([4u8; 32]));
    assert_eq!(agg.get_market_from_lookup(&[[4u8; 32]], 1), Err(BettingPlatformError::InvalidInput));
    assert_eq!(agg.create_market_lookup_table(&[], &[9u8; 32]), Err(BettingPlatformError::InvalidInput));
    let a = agg.create_market_lookup_table(&[[1u8; 32]], &[9u8; 32]).unwrap();
    let b = agg.create_market_lookup_table(&[[1u8; 32]], &[9u8; 32]).unwrap();
    let c = agg.create_market_lookup_table(&[[1u8; 32]], &[10u8; 32]).unwrap();
    assert_eq!(a, b);
    assert_ne!(a, c);
}

#[test]
fn fallback_prices_decay() {
    let mut f = feed(1);
    f.mid_price = 55;
    f.price_confidence = 9500;
    let mut fb = OracleFallbackHandler { last_good_prices: vec![], fallback_activated_slot: 0, max_fallback_duration: 0, decay_rate_bps: 10000 };
    fb.activate_fallback(&[f], 100).unwrap();
    assert_eq!(fb.max_fallback_duration, 300);
    assert_eq!(fb.get_fallback_price(&[1u8; 32], 110), Ok((55, 9490)));
    assert_eq!(fb.get_fallback_price(&[2u8; 32], 110), Err(BettingPlatformError::NoFallbackPrice));
    assert_eq!(fb.get_fallback_price(&[1u8; 32], 401), Err(BettingPlatformError::FallbackExpired));
    fb.max_fallback_duration = 10_000;
    fb.decay_rate_bps = 60000;
    assert_eq!(fb.get_fallback_price(&[1u8; 32], 9_100), Err(BettingPlatformError::InsufficientConfidence));
}

#[test]
fn oracle_state_and_keeper() {
    let mut o = PolymarketOracle { authority: [0u8; 32], last_update_slot: 5, last_update_timestamp: 5, total_markets_tracked: 5, active_price_feeds: 5, connection_status: PriceFeedStatus::Active, fallback_mode: true, total_updates_processed: 5, failed_updates: 5, average_latency_ms: 5, lookup_table_counter: 5 };
    o.initialize(&[3u8; 32]).unwrap();
    assert_eq!(o.connection_status, PriceFeedStatus::Disconnected);
    assert!(!o.is_healthy());
    assert!(!o.should_poll(149));
    assert!(o.should_poll(150));
    o.update_poll_time(150, 1000);
    assert_eq!(o.total_updates_processed, 1);
    let mut keeper = OracleKeeper { keeper_id: [0u8; 32], authority: [0u8; 32], update_frequency: 10, last_update_slot: 100, rewards_earned: 0, updates_submitted: 0, failed_updates: 0 };
    let mut agg = aggregator();
    assert_eq!(keeper.submit_updates(vec![], &mut o, &mut agg, 105, 0), Err(BettingPlatformError::UpdateTooFrequent));
    keeper.submit_updates(vec![update(1, 50_000_000, 50_000_000, 0, true)], &mut o, &mut agg, 110, 77).unwrap();
    assert_eq!(keeper.rewards_earned, 1000);
    assert_eq!(keeper.updates_submitted, 1);
    assert_eq!(o.connection_status, PriceFeedStatus::Active);
    assert_eq!(o.last_update_timestamp, 77);
    assert_eq!(agg.price_feeds[0].status, PriceFeedStatus::Insufficient);
    let mut f = feed(1);
    f.last_update_slot = 100;
    f.liquidity_usd = 10_000_000_000;
    f.price_confidence = 9500;
    f.status = PriceFeedStatus::Active;
    assert!(f.is_valid(130));
    assert!(!f.is_valid(131));
}

#[test]
fn sole_oracle_prices() {
    let mut f = feed(1);
    f.yes_price = 6000;
    f.no_price = 4100;
    f.mid_price = 5050;
    f.price_confidence = 9600;
    f.last_update_slot = 10;
    let r = PolymarketOracleHandler::get_price(&f, 50).unwrap();
    assert_eq!(r.spread_basis_points, 100);
    assert!(r.is_stale);
    assert_eq!(r.price, 5050);
    f.no_price = 5100;
    assert_eq!(PolymarketOracleHandler::get_price(&f, 50).unwrap_err(), BettingPlatformError::ExcessivePriceMovement);
    f.price_confidence = 9000;
    assert_eq!(PolymarketOracleHandler::get_price(&f, 50).unwrap_err(), BettingPlatformError::InsufficientConfidence);
    assert_eq!(PolymarketOracleHandler::fetch_price(&[2u8; 32], &f, 50).unwrap_err(), BettingPlatformError::InvalidMarket);
    assert_eq!(PolymarketOracleHandler::calculate_median_price(Some(7), None, Some(1)).unwrap().price, 7);
    assert!(PolymarketOracleHandler::calculate_median_price(None, Some(1), Some(1)).is_err());
    let mut state = PolymarketOracleState { authority: [0u8; 32], polymarket_oracle: [0u8; 32], last_update_slot: 0, total_markets: 0, active_markets: 0, price_updates: 0, failed_updates: 0, halted_markets: 0, stale_price_flags: 0, polling_interval_slots: 0 };
    state.initialize(&[1u8; 32], &[2u8; 32]).unwrap();
    assert!(!state.should_poll(149));
    assert!(state.should_poll(150));
    PolymarketOracleHandler::process_price_update(&mut state, &r, 60).unwrap();
    assert_eq!(state.price_updates, 1);
    assert_eq!(state.stale_price_flags, 1);
    assert_eq!(state.last_update_slot, 60);
    let halted = PolymarketPriceResult { is_halted: true, ..r };
    assert_eq!(PolymarketOracleHandler::validate_price(&halted), Err(BettingPlatformError::MarketHalted));
    assert_eq!(PolymarketOracleHandler::validate_price(&r), Ok(()));
    let mut data = vec![1u8];
    data.extend_from_slice(&300u64.to_le_bytes());
    assert_eq!(state.apply_config_update(&[9u8; 32], true, &data), Err(BettingPlatformError::UnauthorizedOracleUpdate));
    state.apply_config_update(&[1u8; 32], true, &data).unwrap();
    assert_eq!(state.polling_interval_slots, 300);
    let mut key = vec![0u8];
    key.extend_from_slice(&[5u8; 32]);
    state.apply_config_update(&[1u8; 32], true, &key).unwrap();
    assert_eq!(state.polymarket_oracle, [5u8; 32]);
}
