use betting_platform::coordinator::{GlobalConfig, MarketUpdate, SystemCoordinator, SystemStatus};
use betting_platform::error::BettingPlatformError;
use betting_platform::health_monitor::{
    ComponentHealth, HealthStatus, PerformanceMetrics as HealthMetrics, SystemHealthMonitor,
};
use betting_platform::money_making_optimizer::{
    AutoCompoundEngine, ExecutionResult, MarketData, MoneyMakingOptimizer, ProfitStrategy, ProfitTracker,
    QuickProfitScanner, RiskLevel, TradeDirection, UserStats,
};

fn blank_config() -> GlobalConfig {
    GlobalConfig {
        admin: [0u8; 32],
        epoch: 0,
        coverage: 0,
        total_markets: 0,
        total_verses: 0,
        mmt_supply: 0,
        season_allocation: 0,
        status: SystemStatus::Initializing,
        last_update_slot: 0,
        vault_balance: 0,
        total_open_interest: 0,
        total_fees_collected: 0,
        total_liquidations: 0,
        max_leverage: 0,
        halt_state: false,
        halt_reason: 0,
        polymarket_connected: false,
        websocket_connected: false,
    }
}

fn blank_coordinator() -> SystemCoordinator {
    SystemCoordinator {
        global_config: blank_config(),
        amm_engine_pubkey: [0u8; 32],
        routing_engine_pubkey: [0u8; 32],
        queue_processor_pubkey: [0u8; 32],
        keeper_registry_pubkey: [0u8; 32],
        health_monitor_pubkey: [0u8; 32],
        correlation_calc_pubkey: [0u8; 32],
        bootstrap_complete: false,
        system_initialized: false,
        last_health_check: 0,
    }
}

#[test]
fn coordinator_bootstrap_activates_with_leverage() {
    let mut c = blank_coordinator();
    c.initialize(&[1u8; 32], &[2u8; 32], &[3u8; 32], &[4u8; 32], &[5u8; 32], &[6u8; 32], &[7u8; 32], 42).unwrap();
    assert_eq!(c.global_config.status, SystemStatus::Initializing);
    assert_eq!(c.global_config.epoch, 1);
    assert_eq!(c.last_health_check, 42);
    assert_eq!(c.bootstrap_system(5, 50), Err(BettingPlatformError::InsufficientAccounts));
    c.bootstrap_system(6, 50).unwrap();
    assert_eq!(c.global_config.status, SystemStatus::Bootstrapping);
    assert!(!c.bootstrap_complete);
    c.global_config.vault_balance = 2_000_000_000;
    c.global_config.total_open_interest = 1_000_000_000;
    c.bootstrap_system(6, 60).unwrap();
    assert!(c.bootstrap_complete);
    assert_eq!(c.global_config.coverage, 20000);
    assert_eq!(c.global_config.max_leverage, 10);
    assert_eq!(c.global_config.status, SystemStatus::Active);
    assert_eq!(c.bootstrap_system(6, 70), Err(BettingPlatformError::BootstrapAlreadyComplete));
}

#[test]
fn coordinator_completion_without_interest_has_high_coverage() {
    let mut c = blank_coordinator();
    c.complete_bootstrap().unwrap();
    assert_eq!(c.global_config.coverage, 1_000_000);
    assert_eq!(c.global_config.max_leverage, 10);
    let mut d = blank_coordinator();
    d.global_config.vault_balance = 1;
    d.global_config.total_open_interest = 2;
    d.complete_bootstrap().unwrap();
    assert_eq!(d.global_config.coverage, 5000);
    assert_eq!(d.global_config.max_leverage, 0);
}

#[test]
fn coordinator_batches_and_health() {
    let mut c = blank_coordinator();
    let u = MarketUpdate { market_id: [9u8; 32], yes_price: 1, no_price: 1, volume_24h: 0, liquidity: 0, timestamp: 0 };
    assert_eq!(c.process_market_batch(&[u], 5), Err(BettingPlatformError::SystemNotInitialized));
    c.system_initialized = true;
    let batch = vec![u; 60];
    c.process_market_batch(&batch, 5).unwrap();
    assert_eq!(c.global_config.total_markets, 50);
    c.process_market_batch(&batch[..3], 6).unwrap();
    assert_eq!(c.global_config.total_markets, 53);
    assert_eq!(c.global_config.last_update_slot, 6);
    c.global_config.status = SystemStatus::Degraded;
    c.health_check(99).unwrap();
    assert_eq!(c.global_config.status, SystemStatus::Active);
    assert_eq!(c.last_health_check, 99);
}

#[test]
fn coordinator_emergency_shutdown_needs_admin() {
    let mut c = blank_coordinator();
    c.global_config.admin = [1u8; 32];
    assert_eq!(c.emergency_shutdown(&[1u8; 32], false), Err(BettingPlatformError::MissingRequiredSignature));
    assert_eq!(c.emergency_shutdown(&[2u8; 32], true), Err(BettingPlatformError::UnauthorizedAdmin));
    assert!(!c.global_config.halt_state);
    c.emergency_shutdown(&[1u8; 32], true).unwrap();
    assert!(c.global_config.halt_state);
    assert_eq!(c.global_config.status, SystemStatus::Halted);
}

fn component() -> ComponentHealth {
    ComponentHealth { component_name: [0u8; 32], status: HealthStatus::Failed, last_check: 0, error_count: 0, latency_ms: 0, throughput: 0 }
}

fn monitor() -> SystemHealthMonitor {
    SystemHealthMonitor {
        overall_status: SystemStatus::Halted,
        polymarket_health: component(),
        websocket_health: component(),
        amm_health: component(),
        queue_health: component(),
        keeper_health: component(),
        vault_health: component(),
        last_full_check: 0,
        consecutive_failures: 0,
        auto_recovery_enabled: false,
        performance_metrics: HealthMetrics { trades_per_second: 0, average_latency_ms: 0, success_rate_bps: 0, compute_units_used: 0, last_reset_slot: 0 },
    }
}

#[test]
fn health_monitor_initialize_and_summary() {
    let mut m = monitor();
    m.initialize(7).unwrap();
    assert_eq!(&m.polymarket_health.component_name[..10], b"polymarket");
    assert_eq!(m.polymarket_health.component_name[10], 0);
    assert_eq!(&m.queue_health.component_name[..14], b"priority_queue");
    let s = m.get_health_summary();
    assert_eq!(s.healthy_components, 6);
    assert_eq!(s.total_components, 6);
    assert_eq!(s.uptime_percent, 10000);
    assert_eq!(s.performance_score, 7000);
}

#[test]
fn health_monitor_timeouts_degrade_and_recover() {
    let mut m = monitor();
    m.initialize(0).unwrap();
    m.amm_health.throughput = 50;
    m.run_health_check(100).unwrap();
    assert_eq!(m.overall_status, SystemStatus::Active);
    assert_eq!(m.polymarket_health.last_check, 100);
    assert_eq!(m.websocket_health.status, HealthStatus::Healthy);
    m.run_health_check(1000).unwrap();
    assert_eq!(m.overall_status, SystemStatus::Degraded);
    assert_eq!(m.polymarket_health.status, HealthStatus::Failed);
    assert_eq!(m.polymarket_health.error_count, 1);
    assert_eq!(m.websocket_health.status, HealthStatus::Degraded);
    assert_eq!(m.consecutive_failures, 1);
    m.run_health_check(2000).unwrap();
    m.run_health_check(3000).unwrap();
    assert_eq!(m.consecutive_failures, 3);
    m.run_health_check(4000).unwrap();
    // the fourth failure in a row triggers recovery
    assert_eq!(m.consecutive_failures, 0);
    assert_eq!(m.polymarket_health.error_count, 0);
    assert_eq!(m.last_full_check, 4000);
}

#[test]
fn health_monitor_metrics_and_reports() {
    let mut m = monitor();
    m.initialize(0).unwrap();
    m.update_performance_metrics(10, 200, false, 5).unwrap();
    assert_eq!(m.performance_metrics.trades_per_second, 5);
    assert_eq!(m.performance_metrics.average_latency_ms, 100);
    assert_eq!(m.performance_metrics.success_rate_bps, 9900);
    assert_eq!(m.performance_metrics.compute_units_used, 5);
    m.update_performance_metrics(0, 0, true, 0).unwrap();
    assert_eq!(m.performance_metrics.success_rate_bps, 9901);
    m.update_component_health(&[2, 1, 0x10, 0x01, 0, 0], 77).unwrap();
    assert_eq!(m.amm_health.status, HealthStatus::Degraded);
    assert_eq!(m.amm_health.latency_ms, 0x110);
    assert_eq!(m.amm_health.last_check, 77);
    assert_eq!(m.update_component_health(&[6, 0, 0, 0, 0, 0], 1), Err(BettingPlatformError::InvalidComponent));
    assert_eq!(m.update_component_health(&[1, 4, 0, 0, 0, 0], 1), Err(BettingPlatformError::InvalidHealthStatus));
    m.consecutive_failures = 3;
    assert_eq!(m.get_health_summary().uptime_percent, 7000);
}

fn market(yes: u64, no: u64) -> MarketData {
    MarketData { market_id: [4u8; 32], yes_price: yes, no_price: no, volume_24h: 0, liquidity: 0, volatility_bps: 2000, expiry_slot: 500_000, odds: 20000 }
}

#[test]
fn optimizer_analyzes_opportunity_exactly() {
    let o = MoneyMakingOptimizer::new();
    let opp = o.analyze_opportunity(&market(6000, 4000), 1_000_000, 0, 100_000).unwrap();
    assert!(opp.should_trade);
    assert_eq!(opp.direction, TradeDirection::No);
    assert_eq!(opp.position_size, 100_000);
    assert_eq!(opp.leverage, 9601);
    assert_eq!(opp.expected_profit, 10010);
    assert_eq!(opp.confidence_score, 7400);
    assert_eq!(opp.time_to_expiry, 400_000);
    let none = o.analyze_opportunity(&market(4000, 6000), 1_000_000, 0, 100_000).unwrap();
    assert!(!none.should_trade);
    assert_eq!(none.expected_profit, 0);
    assert!(matches!(o.analyze_opportunity(&market(6000, 4000), 1, 20, 0), Err(BettingPlatformError::TooManyPositions)));
}

#[test]
fn optimizer_tracks_strategy_results() {
    let mut o = MoneyMakingOptimizer::new();
    o.initialize(0).unwrap();
    let opp = o.analyze_opportunity(&market(6000, 4000), 1_000_000, 0, 0).unwrap();
    let win = ExecutionResult { profit: 200_000_000, fees_saved: 3, execution_time: 0, slippage_bps: 0 };
    o.execute_strategy(&opp, &win, 10_000).unwrap();
    assert_eq!(o.winning_positions, 1);
    assert_eq!(o.current_streak, 1);
    assert_eq!(o.best_streak, 1);
    assert_eq!(o.compound_earnings, 200_000_000);
    let loss = ExecutionResult { profit: 0, fees_saved: 1, execution_time: 0, slippage_bps: 0 };
    o.execute_strategy(&opp, &loss, 10_001).unwrap();
    assert_eq!(o.current_streak, 0);
    assert_eq!(o.best_streak, 1);
    assert_eq!(o.average_profit_per_trade, 100_000_000);
    assert_eq!(o.total_fees_saved, 4);
    assert_eq!(o.last_update_slot, 10_001);
}

#[test]
fn optimizer_recommendations_and_volume_edge() {
    let o = MoneyMakingOptimizer::new();
    let stats = UserStats { total_trades: 10, winning_trades: 7, total_profit: 5, win_rate: 7000, average_leverage: 1 };
    let r = o.get_recommendations(&stats);
    assert_eq!(r.risk_level, RiskLevel::High);
    assert_eq!(r.suggested_leverage, 30000);
    assert_eq!(r.strategies, vec![ProfitStrategy::MomentumTrading, ProfitStrategy::ArbOpportunities]);
    assert_eq!(r.take_profit_levels, vec![2000, 5000, 10000]);
    let low = o.get_recommendations(&UserStats { win_rate: 3000, ..stats });
    assert_eq!(low.risk_level, RiskLevel::Low);
    assert_eq!(low.suggested_leverage, 5000);
    // $10k daily volume at 1% edge is $100
    assert_eq!(o.calculate_daily_volume_edge(10_000_000_000, 100).unwrap(), 100_000_000);
}

#[test]
fn profit_tracker_and_compounding() {
    let mut t = ProfitTracker { daily_profit: 0, weekly_profit: 0, monthly_profit: 0, all_time_profit: 0, current_positions_pnl: 0, fees_saved_today: 0, best_trade_today: 0, worst_trade_today: 0 };
    t.update_daily(50, 2);
    t.update_daily(-30, 1);
    assert_eq!(t.daily_profit, 20);
    assert_eq!(t.best_trade_today, 50);
    assert_eq!(t.worst_trade_today, -30);
    assert_eq!(t.fees_saved_today, 3);
    t.reset_daily();
    assert_eq!(t.daily_profit, 0);
    assert_eq!(t.worst_trade_today, 0);
    let mut e = AutoCompoundEngine { enabled: true, min_compound_amount: 100, compound_percentage: 5000, last_compound_slot: 0, total_compounded: 0 };
    assert_eq!(e.process_compound(99, 5).unwrap(), 0);
    assert_eq!(e.process_compound(1000, 6).unwrap(), 500);
    assert_eq!(e.total_compounded, 500);
    assert_eq!(e.last_compound_slot, 6);
}

#[test]
fn scanner_prefers_priority_and_sorts_by_profit() {
    let mut a = market(6000, 4000);
    a.market_id = [1u8; 32];
    let mut b = market(6000, 4000);
    b.market_id = [2u8; 32];
    b.volume_24h = 50_000_000_000; // higher model probability, larger edge
    let mut c = market(4000, 6000);
    c.market_id = [3u8; 32];
    let scanner = QuickProfitScanner { scan_interval: 0, min_profit_bps: 0, max_scan_markets: 2, priority_markets: vec![[3u8; 32], [2u8; 32]] };
    // priority markets c and b are scanned; c has no edge
    let found = scanner.scan_markets(&[a, b, c], 1_000_000, 0);
    assert_eq!(found.len(), 1);
    assert_eq!(found[0].market_id, [2u8; 32]);
    let all = QuickProfitScanner { max_scan_markets: 10, priority_markets: vec![], ..scanner };
    let found = all.scan_markets(&[a, b, c], 1_000_000, 0);
    assert_eq!(found.len(), 2);
    assert_eq!(found[0].market_id, [2u8; 32]);
    assert!(found[0].expected_profit >= found[1].expected_profit);
}
