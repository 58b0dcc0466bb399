use betting_platform::cross_validation_system::{
    calculate_deviation, ActionRequired, CrossValidator, Discrepancy, MarketData, ValidationResult, ValidationStatus,
};
use betting_platform::oracle_coordinator::{OracleCoordinator, OracleHealth, OracleSource, ReconciliationAction};
use betting_platform::oracle_pnl_updater::{calculate_aggregate_pnl_stats, AggregatePnLStats, PositionPnl};
use betting_platform::polymarket_api_types::InternalMarketData;
use betting_platform::polymarket_batch_fetcher::{
    BatchFetchState, MarketDiffCalculator, PolymarketBatchFetcher, BATCH_SIZE,
};
use betting_platform::rate_limiter::RateLimiter;
use betting_platform::error::BettingPlatformError;

#[test]
fn test_oracle_health_scoring() {
    let mut health = OracleHealth::new(OracleSource::Polymarket);
    health.record_success(100, 50);
    assert_eq!(health.health_score, 100);
    assert_eq!(health.average_latency_ms, 50);
    health.record_failure();
    health.record_failure();
    health.record_failure();
    assert!(!health.is_available);
    assert!(health.health_score < 100);
}

#[test]
fn test_oracle_switching() {
    let mut coordinator = OracleCoordinator::new();
    let should_switch = coordinator.evaluate_oracle_switch(100).unwrap();
    assert!(!should_switch);
    coordinator.primary_oracle.is_available = false;
    coordinator.primary_oracle.health_score = 10;
    let should_switch = coordinator.evaluate_oracle_switch(100).unwrap();
    assert!(should_switch);
    assert!(coordinator.fallback_active);
}

fn market() -> InternalMarketData {
    InternalMarketData {
        market_id: [1u8; 16],
        yes_price_bps: 6000,
        no_price_bps: 4000,
        volume_24h: 1000000,
        liquidity: 500000,
        last_update_slot: 100,
        market_type: 0,
        status: 0,
        spread_bps: 0,
    }
}

#[test]
fn test_reconciliation() {
    let mut coordinator = OracleCoordinator::new();
    let primary_data = market();
    let mut backup_data = primary_data.clone();
    backup_data.yes_price_bps = 6100;
    let record = coordinator.reconcile_data([1u8; 16], &primary_data, &backup_data, 200).unwrap();
    assert!(matches!(record.action_taken, ReconciliationAction::UsedPrimary));
    assert_eq!(record.difference_bps, 166);
}

#[test]
fn test_price_deviation_calculation() {
    assert_eq!(calculate_deviation(100, 105), 500);
    assert_eq!(calculate_deviation(100, 110), 1000);
    assert_eq!(calculate_deviation(100, 120), 2000);
    assert_eq!(calculate_deviation(0, 100), 10000);
}

#[test]
fn test_validation_result() {
    let mut result = ValidationResult::new([0u8; 16], 100, OracleSource::Polymarket, OracleSource::PythNetwork);
    result.add_discrepancy(Discrepancy::PriceDeviation { primary_price: 100, comparison_price: 103, deviation_bps: 300 });
    assert_eq!(result.confidence_score, 90);
    result.add_discrepancy(Discrepancy::OutcomeMismatch {
        primary_outcomes: vec!["YES".to_string()],
        comparison_outcomes: vec!["NO".to_string()],
    });
    assert_eq!(result.confidence_score, 40);
    result.finalize();
    assert_eq!(result.validation_status, ValidationStatus::Failed);
    assert_eq!(result.action_required, ActionRequired::ManualReview);
}

#[test]
fn test_pnl_stats_calculation() {
    let stats = AggregatePnLStats {
        total_unrealized_pnl: 1_000_000_000,
        profitable_positions: 60,
        losing_positions: 40,
        total_notional: 100_000_000_000,
        average_pnl_pct: 100,
    };
    assert_eq!(stats.profitable_positions + stats.losing_positions, 100);
    assert_eq!(stats.average_pnl_pct, 100);
}

#[test]
fn aggregate_pnl_over_positions() {
    let positions = [
        PositionPnl { is_closed: false, unrealized_pnl: 3_000, notional: 100_000 },
        PositionPnl { is_closed: false, unrealized_pnl: -1_000, notional: 50_000 },
        PositionPnl { is_closed: true, unrealized_pnl: 9_999, notional: 1 },
        PositionPnl { is_closed: false, unrealized_pnl: 0, notional: 50_000 },
    ];
    let stats = calculate_aggregate_pnl_stats(&positions).unwrap();
    assert_eq!(stats.total_unrealized_pnl, 2_000);
    assert_eq!(stats.profitable_positions, 1);
    assert_eq!(stats.losing_positions, 1);
    assert_eq!(stats.total_notional, 200_000);
    assert_eq!(stats.average_pnl_pct, 100);
    let losing = [PositionPnl { is_closed: false, unrealized_pnl: -7, notional: 3 }];
    assert_eq!(calculate_aggregate_pnl_stats(&losing).unwrap().average_pnl_pct, -23333);
}

#[test]
fn test_batch_state() {
    let mut state = BatchFetchState::new();
    assert_eq!(state.get_next_offset(), BATCH_SIZE);
    assert!(!state.is_paused);
    state.on_successful_fetch(1000, 100);
    assert_eq!(state.last_successful_batch, 1);
    assert_eq!(state.total_markets_processed, 1000);
    state.on_rate_limit_error(200);
    assert_eq!(state.current_retry_count, 1);
    assert_eq!(state.pause_until_timestamp, 210);
}

#[test]
fn backoff_doubles_then_pauses() {
    let mut state = BatchFetchState::new();
    state.on_rate_limit_error(0);
    assert_eq!(state.current_backoff_seconds, 20);
    state.on_rate_limit_error(100);
    assert_eq!(state.pause_until_timestamp, 120);
    state.on_rate_limit_error(200);
    assert!(state.is_paused);
    assert_eq!(state.pause_until_timestamp, 500);
    assert!(!state.should_fetch_next(499));
    state.reset();
    assert!(!state.is_paused);
    assert_eq!(state.current_retry_count, 0);
}

#[test]
fn test_diff_calculator() {
    let old = market();
    let mut new = old.clone();
    new.yes_price_bps = 6500;
    let diff = MarketDiffCalculator::calculate_diff(&old, &new).unwrap();
    assert!(diff.price_changed);
    assert_eq!(diff.yes_price_delta, 500);
    assert!(MarketDiffCalculator::calculate_diff(&old, &old).is_none());
}

#[test]
fn batch_fetcher_url_and_errors() {
    let mut fetcher = PolymarketBatchFetcher::new();
    assert_eq!(fetcher.get_batch_url(3000), "https://api.polymarket.com/markets?limit=1000&offset=3000");
    assert_eq!(fetcher.handle_error("RATE_LIMITED", 50), Err(BettingPlatformError::RateLimitExceeded));
    assert_eq!(fetcher.state.current_retry_count, 1);
    assert_eq!(fetcher.handle_error("NOT_FOUND", 50), Err(BettingPlatformError::ApiError));
    assert!(!fetcher.is_complete());
}

#[test]
fn test_rate_limiter() {
    let mut limiter = RateLimiter::new();
    for _ in 0..RateLimiter::MARKET_LIMIT {
        assert!(limiter.check_market_limit(1_000).is_ok());
    }
    assert!(limiter.check_market_limit(1_000).is_err());
}

#[test]
fn rate_limit_window_slides() {
    let mut limiter = RateLimiter::new();
    for _ in 0..RateLimiter::MARKET_LIMIT {
        assert!(limiter.check_market_limit(1_000).is_ok());
    }
    assert_eq!(limiter.check_market_limit(1_010), Err(BettingPlatformError::RateLimitExceeded));
    assert!(limiter.check_market_limit(1_011).is_ok());
    assert_eq!(limiter.get_usage(1_011), (1, 0));
}

#[test]
fn cross_validator_flags_price_gap() {
    let mut validator = CrossValidator::new();
    let primary = MarketData {
        market_id: [0u8; 16],
        source: OracleSource::Polymarket,
        outcome_prices: vec![("YES".to_string(), 6000)],
        total_volume: 100000,
        status: "ACTIVE".to_string(),
        last_update: 100,
    };
    let comparison = MarketData {
        market_id: [0u8; 16],
        source: OracleSource::PythNetwork,
        outcome_prices: vec![("YES".to_string(), 6400)],
        total_volume: 95000,
        status: "ACTIVE".to_string(),
        last_update: 100,
    };
    let result = validator.validate_market(&primary, &comparison, 100).unwrap();
    assert_eq!(result.discrepancies.len(), 1);
    assert_eq!(result.validation_status, ValidationStatus::PassedWithWarnings);
    assert_eq!(validator.total_validations, 1);
}

#[test]
fn test_cross_validator() {
    let mut validator = CrossValidator::new();

    let primary = MarketData {
        market_id: [0u8; 16],
        source: OracleSource::Polymarket,
        outcome_prices: vec![("YES".to_string(), 6000)],
        total_volume: 100000,
        status: "ACTIVE".to_string(),
        last_update: 100,
    };

    let comparison = MarketData {
        market_id: [0u8; 16],
        source: OracleSource::PythNetwork,
        outcome_prices: vec![("YES".to_string(), 6300)],
        total_volume: 95000,
        status: "ACTIVE".to_string(),
        last_update: 100,
    };

    let result = validator.validate_market(&primary, &comparison, 100).unwrap();

    assert_eq!(result.discrepancies.len(), 1); // Price deviation
    assert_eq!(result.validation_status, ValidationStatus::PassedWithWarnings);
}

#[test]
fn cross_validator_ignores_gap_under_five_percent() {
    let mut validator = CrossValidator::new();
    let primary = MarketData {
        market_id: [0u8; 16],
        source: OracleSource::Polymarket,
        outcome_prices: vec![("YES".to_string(), 6000)],
        total_volume: 100000,
        status: "ACTIVE".to_string(),
        last_update: 100,
    };
    let comparison = MarketData {
        market_id: [0u8; 16],
        source: OracleSource::PythNetwork,
        outcome_prices: vec![("YES".to_string(), 6299)],
        total_volume: 95000,
        status: "ACTIVE".to_string(),
        last_update: 100,
    };
    let result = validator.validate_market(&primary, &comparison, 100).unwrap();
    assert_eq!(result.discrepancies.len(), 0);
    assert_eq!(result.validation_status, ValidationStatus::Passed);
}

fn market_data(yes: u64) -> InternalMarketData {
    InternalMarketData {
        market_id: [3u8; 16],
        yes_price_bps: yes,
        no_price_bps: 10_000 - yes,
        volume_24h: 1,
        liquidity: 2,
        last_update_slot: 3,
        market_type: 0,
        status: 0,
        spread_bps: 0,
    }
}

#[test]
fn market_data_from_healthy_primary() {
    let mut c = OracleCoordinator::new();
    let r = c.get_market_data([3u8; 16], Ok((market_data(6000), true)), 10).unwrap();
    assert_eq!(r.0.yes_price_bps, 6000);
    assert_eq!(r.1, OracleSource::Polymarket);
    assert!(r.2);
    assert_eq!(c.primary_oracle.average_latency_ms, 50);
    assert_eq!(c.primary_oracle.last_success_timestamp, 10);
    // a failed fetch is passed on and counted
    let e = c.get_market_data([3u8; 16], Err(BettingPlatformError::ApiError), 11);
    assert_eq!(e.map(|x| x.1), Err(BettingPlatformError::ApiError));
    assert_eq!(c.primary_oracle.consecutive_failures, 1);
}

#[test]
fn market_data_fails_over_to_pyth_then_cache() {
    let mut c = OracleCoordinator::new();
    c.primary_oracle.is_available = false;
    c.backup_oracles[1].health_score = 50;
    c.backup_oracles[2].health_score = 50;
    let r = c.get_market_data([3u8; 16], Ok((market_data(6000), false)), 1_000).unwrap();
    assert_eq!(r.1, OracleSource::Pyth);
    assert_eq!(r.0.yes_price_bps, 5000);
    assert_eq!(r.0.market_id, [3u8; 16]);
    assert!(c.fallback_active);
    assert_eq!(c.fallback_start_timestamp, 1_000);
    assert_eq!(c.backup_oracles[0].average_latency_ms, 30);
    // past the backup limit the cache serves the fetched data
    let r = c.get_market_data([3u8; 16], Ok((market_data(6100), true)), 2_801).unwrap();
    assert_eq!(r.1, OracleSource::InternalCache);
    assert_eq!(r.0.yes_price_bps, 6100);
    assert_eq!(c.active_source, OracleSource::InternalCache);
}

#[test]
fn market_data_without_healthy_source() {
    let mut c = OracleCoordinator::new();
    c.primary_oracle.is_available = false;
    for b in c.backup_oracles.iter_mut() {
        b.is_available = false;
    }
    assert_eq!(
        c.get_market_data([3u8; 16], Ok((market_data(6000), false)), 5).map(|x| x.1),
        Err(BettingPlatformError::NoHealthyOracles)
    );
}
