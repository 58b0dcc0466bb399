use betting_platform::minimum_viable_vault::{
    calculate_max_leverage, determine_viability_state, encode_features_bitmap, initialize_viability_tracker,
    is_feature_enabled, update_enabled_features, EnabledFeatures, VaultFeature, VaultViabilityState,
    VaultViabilityTracker, MINIMUM_VIABLE_VAULT_SIZE,
};

fn tracker() -> VaultViabilityTracker {
    VaultViabilityTracker {
        state: VaultViabilityState::Bootstrap,
        current_balance: 0,
        minimum_required: MINIMUM_VIABLE_VAULT_SIZE,
        viability_reached_at: None,
        degradation_count: 0,
        last_check_slot: 0,
        enabled_features: EnabledFeatures::default(),
    }
}

#[test]
fn test_viability_state_determination() {
    let mut tracker = tracker();
    assert_eq!(determine_viability_state(0, &tracker, true), VaultViabilityState::Bootstrap);
    assert_eq!(determine_viability_state(9_000_000_000, &tracker, true), VaultViabilityState::NearingViability);
    assert_eq!(determine_viability_state(10_000_000_000, &tracker, true), VaultViabilityState::MinimumViable);
    tracker.viability_reached_at = Some(1234567890);
    assert_eq!(determine_viability_state(8_000_000_000, &tracker, false), VaultViabilityState::Degraded);
    assert_eq!(determine_viability_state(25_000_000_000, &tracker, false), VaultViabilityState::FullyOperational);
}

#[test]
fn minimum_viable_vault_test_leverage_calculation() {
    assert_eq!(calculate_max_leverage(500_000_000), 0);
    assert_eq!(calculate_max_leverage(1_000_000_000), 1);
    assert_eq!(calculate_max_leverage(5_500_000_000), 5);
    assert_eq!(calculate_max_leverage(10_000_000_000), 10);
    assert_eq!(calculate_max_leverage(20_000_000_000), 10);
}

#[test]
fn test_feature_enablement() {
    let mut tracker = tracker();
    update_enabled_features(&mut tracker, 500_000_000);
    assert!(!tracker.enabled_features.trading_enabled);
    assert_eq!(tracker.enabled_features.max_leverage, 0);
    tracker.state = VaultViabilityState::MinimumViable;
    update_enabled_features(&mut tracker, 10_000_000_000);
    assert!(tracker.enabled_features.trading_enabled);
    assert!(tracker.enabled_features.leverage_enabled);
    assert!(tracker.enabled_features.liquidations_enabled);
    assert!(!tracker.enabled_features.chain_positions_enabled);
    tracker.state = VaultViabilityState::FullyOperational;
    update_enabled_features(&mut tracker, 20_000_000_000);
    assert!(tracker.enabled_features.trading_enabled);
    assert!(tracker.enabled_features.chain_positions_enabled);
    assert!(tracker.enabled_features.advanced_orders_enabled);
    assert_eq!(tracker.enabled_features.max_leverage, 10);
    assert_eq!(is_feature_enabled(&tracker, VaultFeature::ChainPositions), Ok(true));
}

#[test]
fn fresh_tracker_enables_nothing() {
    let t = initialize_viability_tracker();
    assert_eq!(t.state, VaultViabilityState::Bootstrap);
    assert_eq!(encode_features_bitmap(&t.enabled_features), 0);
    assert_eq!(is_feature_enabled(&t, VaultFeature::Trading), Ok(false));
}
