use betting_platform::automated_market_ops::{
    AutomatedMarketOps, AutomatedRiskManager, HedgeType, InventoryManager, InventoryPosition, MarketInfo,
    PerformanceTracker, RebalanceDirection, VaultState,
};
use betting_platform::error::BettingPlatformError;

fn ops() -> AutomatedMarketOps {
    let mut o = AutomatedMarketOps {
        operations_enabled: false,
        market_making_active: false,
        auto_rebalance_active: false,
        hedge_management_active: false,
        total_markets_managed: 9,
        total_rebalances: 9,
        total_hedges_placed: 9,
        last_operation_slot: 9,
        operation_interval: 9,
    };
    o.initialize().unwrap();
    o
}

fn market(id: u8, exposure: i64, liquidity_ratio: u64) -> MarketInfo {
    MarketInfo { market_id: [id; 32], bid_price: 4000, ask_price: 6000, net_exposure: exposure, liquidity_ratio, volume_24h: 50_000_000, volatility_bps: 20 }
}

#[test]
fn market_ops_round_produces_actions() {
    let mut o = ops();
    assert!(!o.is_operation_due(149));
    assert!(o.is_operation_due(150));
    let vault = VaultState { total_value: 1_000_000, available_liquidity: 10_000_000_000, total_exposure: 0, risk_utilization: 0 };
    let markets = [market(1, 900_000, 1000), market(2, -50_000, 5000)];
    let res = o.execute_operations(&markets, &vault, 150).unwrap();
    // market making only for the thin market: mid 5000, quotes at -/+0.15%
    assert_eq!(res.market_making_actions.len(), 1);
    let mm = &res.market_making_actions[0];
    assert_eq!(mm.market_id, [1u8; 32]);
    assert_eq!(mm.bid_price, 4992);
    assert_eq!(mm.ask_price, 5007);
    // 1e9 cap * 50 * 80 / 10000 = 4e8
    assert_eq!(mm.size, 400_000_000);
    // only the first carries more than 10% of the total exposure (950k)
    assert_eq!(res.rebalance_actions.len(), 1);
    let rb = &res.rebalance_actions[0];
    assert_eq!(rb.current_exposure, 900_000);
    assert_eq!(rb.target_exposure, 100_000);
    assert_eq!(rb.amount_to_rebalance, 800_000);
    assert_eq!(rb.direction, RebalanceDirection::ReduceLong);
    // 90% of the vault needs a hedge of 80%
    assert_eq!(res.hedge_actions.len(), 1);
    assert_eq!(res.hedge_actions[0].hedge_amount, 720_000);
    assert_eq!(res.hedge_actions[0].hedge_type, HedgeType::Short);
    assert_eq!(o.total_rebalances, 1);
    assert_eq!(o.total_hedges_placed, 1);
    assert_eq!(o.last_operation_slot, 150);
    // not due again right away
    let again = o.execute_operations(&markets, &vault, 200).unwrap();
    assert!(again.rebalance_actions.is_empty());
    assert_eq!(o.last_operation_slot, 150);
}

#[test]
fn market_ops_parameters_and_stop() {
    let mut o = ops();
    let mut data = vec![0u8];
    data.extend_from_slice(&300u64.to_le_bytes());
    o.update_parameter(&data).unwrap();
    assert_eq!(o.operation_interval, 300);
    o.update_parameter(&[2, 0]).unwrap();
    assert!(!o.auto_rebalance_active);
    assert_eq!(o.update_parameter(&[7, 0]), Err(BettingPlatformError::InvalidInstructionData));
    o.emergency_stop();
    assert!(!o.operations_enabled && !o.market_making_active && !o.hedge_management_active);
    let res = o.execute_operations(&[], &VaultState { total_value: 0, available_liquidity: 0, total_exposure: 0, risk_utilization: 0 }, 10_000).unwrap();
    assert!(res.market_making_actions.is_empty());
}

#[test]
fn inventory_risk_and_performance_helpers() {
    let inv = InventoryManager { target_inventory_ratio: 5000, max_inventory_value: 1_000_000, inventory_positions: vec![], rebalance_threshold_bps: 500 };
    let pos = |v: u64| InventoryPosition { market_id: [0u8; 32], position_size: 0, average_price: 0, current_value: v, unrealized_pnl: 0 };
    assert!(!inv.needs_rebalancing(&pos(540_000)));
    assert!(inv.needs_rebalancing(&pos(600_000)));
    assert_eq!(inv.calculate_rebalance(&pos(600_000)), -100_000);
    assert_eq!(inv.calculate_rebalance(&pos(450_000)), 50_000);
    let risk = AutomatedRiskManager { max_daily_loss: 1000, max_position_size: 500, max_market_exposure: 2000, current_daily_pnl: -1000, risk_limits_active: true };
    assert!(risk.check_risk_limits(500, 1500));
    assert!(!risk.check_risk_limits(501, 0));
    assert!(!risk.check_risk_limits(100, 1950));
    assert!(!AutomatedRiskManager { current_daily_pnl: -1001, ..risk }.check_risk_limits(1, 0));
    let mut perf = PerformanceTracker { total_operations: 0, successful_operations: 0, total_pnl: 0, best_performing_market: None, worst_performing_market: None, average_spread_captured_bps: 0 };
    assert_eq!(perf.success_rate(), 0);
    perf.update_metrics(true, 10, &[1u8; 32]);
    perf.update_metrics(false, -3, &[1u8; 32]);
    perf.update_metrics(true, 5, &[1u8; 32]);
    assert_eq!(perf.total_pnl, 12);
    assert_eq!(perf.success_rate(), 6666);
}
