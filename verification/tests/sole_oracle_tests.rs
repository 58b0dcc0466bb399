use betting_platform::error::BettingPlatformError;
use betting_platform::polymarket_sole_oracle::{HaltReason, PolymarketPriceData, PolymarketSoleOracle};

fn oracle(last_poll_slot: u64) -> PolymarketSoleOracle {
    PolymarketSoleOracle {
        authority: [0u8; 32],
        is_initialized: true,
        last_poll_slot,
        total_markets_tracked: 0,
        halted_markets_count: 0,
        total_updates_processed: 0,
        total_spread_halts: 0,
        total_stale_halts: 0,
    }
}

fn price(id: u8, yes: u64, no: u64, last_update_slot: u64) -> PolymarketPriceData {
    PolymarketPriceData {
        market_id: [id; 16],
        yes_price: yes,
        no_price: no,
        last_update_slot,
        last_update_timestamp: 1234567890,
        volume_24h: 1_000_000,
        liquidity: 500_000,
        is_halted: false,
        halt_reason: HaltReason::NoHalt,
    }
}

#[test]
fn test_spread_detection() {
    let mut oracle = oracle(0);
    let mut normal_price = price(0, 6000, 4000, 100);
    oracle.process_price_update(&mut normal_price, 200).unwrap();
    assert!(!normal_price.is_halted);
    let mut high_spread = price(1, 7000, 4500, 100);
    oracle.process_price_update(&mut high_spread, 200).unwrap();
    assert!(high_spread.is_halted);
    assert_eq!(high_spread.halt_reason, HaltReason::SpreadTooHigh);
    assert_eq!(oracle.total_spread_halts, 1);
}

#[test]
fn test_stale_price_detection() {
    let oracle = oracle(0);
    let price_data = price(0, 5000, 5000, 1000);
    assert!(!oracle.is_price_stale(&price_data, 1500));
    assert!(oracle.is_price_stale(&price_data, 1751));
}

#[test]
fn test_polling_interval() {
    let oracle = oracle(1000);
    assert!(!oracle.should_poll(1149));
    assert!(oracle.should_poll(1150));
}

#[test]
fn sole_oracle_halts_and_serves() {
    let mut o = oracle(0);
    assert_eq!(o.initialize(&[1u8; 32]), Err(BettingPlatformError::AlreadyInitialized));
    let mut p = price(0, 6000, 4000, 0);
    o.process_price_update(&mut p, 751).unwrap();
    assert_eq!(p.halt_reason, HaltReason::StalePrice);
    assert_eq!(o.total_stale_halts, 1);
    assert_eq!(o.get_price(&p), Err(BettingPlatformError::MarketHalted));
    p.last_update_slot = 700;
    o.process_price_update(&mut p, 751).unwrap();
    assert!(!p.is_halted);
    assert_eq!(p.last_update_slot, 751);
    assert_eq!(o.get_price(&p), Ok(6000));
    o.set_halt_status(&mut p, true, HaltReason::ManualHalt).unwrap();
    assert_eq!(o.halted_markets_count, 1);
    o.set_halt_status(&mut p, false, HaltReason::NoHalt).unwrap();
    o.set_halt_status(&mut p, false, HaltReason::NoHalt).unwrap();
    assert_eq!(o.halted_markets_count, 0);
    o.update_poll_time(42);
    assert_eq!(o.last_poll_slot, 42);
}
