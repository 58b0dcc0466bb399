use betting_platform::error::BettingPlatformError;
use betting_platform::partial_liquidation::{
    KeeperIncentiveCalculator, LiquidationQueue, PartialLiquidationEngine, Position,
};

fn engine() -> PartialLiquidationEngine {
    let mut e = PartialLiquidationEngine {
        total_liquidations_processed: 7,
        total_value_liquidated: 7,
        active_liquidations: 7,
        keeper_rewards_paid: 7,
        partial_liquidation_enabled: false,
        emergency_liquidation_mode: true,
        last_liquidation_slot: 7,
        liquidation_queue_size: 7,
    };
    e.initialize().unwrap();
    e
}

fn position() -> Position {
    Position {
        user: [1u8; 32],
        market: [2u8; 32],
        size: 1_000_000_000,
        collateral: 5_000_000,
        entry_price: 10000,
        mark_price: 10000,
        maintenance_margin_ratio: 1000,
        last_update_slot: 0,
        coverage: 1u128 << 63,
        margin: 100_000,
    }
}

#[test]
fn initialize_resets_engine() {
    let e = engine();
    assert_eq!(e.total_liquidations_processed, 0);
    assert!(e.partial_liquidation_enabled);
    assert!(!e.emergency_liquidation_mode);
    assert_eq!(e.last_liquidation_slot, 0);
}

#[test]
fn health_factor_cases() {
    let e = engine();
    let p = position();
    assert_eq!(e.calculate_health_factor(&p, false), 10000);
    // margin ratio 1 over threshold 2 (coverage 0.5)
    assert_eq!(e.calculate_health_factor(&p, true), 5000);
    let mut empty = p;
    empty.size = 0;
    assert_eq!(e.calculate_health_factor(&empty, true), 1_000_000);
}

#[test]
fn unhealthy_and_partial_amounts() {
    let e = engine();
    let p = position();
    assert_eq!(e.calculate_unhealthy_amount(&p, true), 545_454_546);
    assert_eq!(e.calculate_unhealthy_amount(&p, false), 0);
    assert_eq!(e.calculate_partial_amount(&p, 1_000_000_000, 5000, true), 272_727_273);
    // small amounts close up to the minimum
    assert_eq!(e.calculate_partial_amount(&p, 1, 5000, true), 100_000_000);
}

#[test]
fn partial_amount_accepts_any_factor() {
    let e = engine();
    let p = position();
    // 150%: 1.5 times the unhealthy amount, still within the position
    let expected = (545_454_546u128 * 15_000 / 10_000) as u64;
    assert_eq!(e.calculate_partial_amount(&p, u64::MAX, 15_000, true), expected.min(p.size));
    // the largest factor: the 128-bit quotient is cut to 64 bits
    let cut = (545_454_546u128 * u64::MAX as u128 / 10_000) as u64;
    let amount = cut.min(p.size);
    let expected = if amount < 100_000_000 { p.size.min(100_000_000) } else { amount };
    assert_eq!(e.calculate_partial_amount(&p, u64::MAX, u64::MAX, true), expected);
}

#[test]
fn liquidation_refusals() {
    let mut e = engine();
    let mut p = position();
    assert_eq!(
        e.process_liquidation(&mut p, 1_000_000_000, &[0u8; 32], false, false, 5).unwrap_err(),
        BettingPlatformError::PositionHealthy
    );
    assert_eq!(
        e.process_liquidation(&mut p, 1, &[0u8; 32], true, false, 5).unwrap_err(),
        BettingPlatformError::LiquidationTooSmall
    );
    e.partial_liquidation_enabled = false;
    assert_eq!(
        e.process_liquidation(&mut p, 1_000_000_000, &[0u8; 32], true, false, 5).unwrap_err(),
        BettingPlatformError::PartialLiquidationDisabled
    );
    assert_eq!(p.size, 1_000_000_000);
}

#[test]
fn liquidation_closes_half_of_unhealthy_part() {
    let mut e = engine();
    let mut p = position();
    let r = e.process_liquidation(&mut p, 1_000_000_000, &[0u8; 32], true, false, 42).unwrap();
    assert_eq!(r.liquidated_amount, 272_727_273);
    assert_eq!(r.keeper_reward, 13_636_363);
    assert_eq!(r.remaining_position, 727_272_727);
    assert_eq!(r.new_health_factor, 10000);
    assert!(!r.is_fully_liquidated);
    assert_eq!(p.size, 727_272_727);
    assert_eq!(p.collateral, 3_636_364);
    assert_eq!(e.total_liquidations_processed, 1);
    assert_eq!(e.total_value_liquidated, 272_727_273);
    assert_eq!(e.keeper_rewards_paid, 13_636_363);
    assert_eq!(e.last_liquidation_slot, 42);
}

#[test]
fn remaining_collateral_is_proportional() {
    assert_eq!(PartialLiquidationEngine::calculate_remaining_collateral(1000, 25, 100), 750);
    assert_eq!(PartialLiquidationEngine::calculate_remaining_collateral(1000, 25, 0), 1000);
}

#[test]
fn keeper_reward_formula() {
    let k = KeeperIncentiveCalculator { base_reward_bps: 500, gas_compensation: 5000, priority_multiplier: 10000 };
    assert_eq!(k.calculate_reward(1_000_000_000, 50, 1000), 50_000_000 + 25_000_000 + 1000);
    assert_eq!(k.calculate_reward(1_000_000_000, 0, 9000), 50_000_000 + 5000);
}

#[test]
fn queue_orders_by_priority_and_batches() {
    let mut q = LiquidationQueue { positions: Vec::new(), total_liquidatable_value: 0, last_scan_slot: 0, scan_in_progress: false };
    let p = position();
    q.add_candidate(&[1u8; 32], &p, 9000, 10).unwrap();
    q.add_candidate(&[2u8; 32], &p, 5000, 20).unwrap();
    q.add_candidate(&[3u8; 32], &p, 9000, 30).unwrap();
    q.add_candidate(&[4u8; 32], &p, 12000, 40).unwrap();
    assert_eq!(q.total_liquidatable_value, 100);
    let order: Vec<u8> = q.positions.iter().map(|c| c.position_pubkey[0]).collect();
    assert_eq!(order, vec![2, 1, 3, 4]);
    assert_eq!(q.positions[0].priority_score, 5000);
    assert_eq!(q.positions[3].priority_score, 0);
    let batch = q.get_next_batch(2);
    assert_eq!(batch.len(), 2);
    assert_eq!(batch[0].position_pubkey[0], 2);
    assert_eq!(q.positions.len(), 2);
    assert_eq!(q.total_liquidatable_value, 70);
    let rest = q.get_next_batch(10);
    assert_eq!(rest.len(), 2);
    assert_eq!(q.total_liquidatable_value, 0);
}

#[test]
fn queue_keeps_at_most_one_hundred() {
    let mut q = LiquidationQueue { positions: Vec::new(), total_liquidatable_value: 0, last_scan_slot: 0, scan_in_progress: false };
    let p = position();
    for i in 0..105u64 {
        q.add_candidate(&[0u8; 32], &p, 10000 - i, 1).unwrap();
    }
    assert_eq!(q.positions.len(), 100);
    assert_eq!(q.positions[0].priority_score, 104);
    assert_eq!(q.positions[99].priority_score, 5);
}
