use betting_platform::anomaly_detection_system::{
    ActivityType, AlertManager, AnomalySeverity, UserActivityStats, VolumeStatistics,
};

#[test]
fn volume_statistics_average_and_window() {
    let mut stats = VolumeStatistics::new();
    assert_eq!(stats.get_average(), 0);
    stats.add_volume(100, 1);
    stats.add_volume(300, 2);
    assert_eq!(stats.get_average(), 200);
    for i in 0..100 {
        stats.add_volume(10, 3 + i);
    }
    assert_eq!(stats.volumes.len(), VolumeStatistics::MAX_SAMPLES);
    assert_eq!(stats.get_average(), 10);
}

#[test]
fn trades_per_minute() {
    let mut stats = UserActivityStats::new();
    stats.add_activity(ActivityType::Trade, 0);
    stats.add_activity(ActivityType::Deposit, 70);
    stats.add_activity(ActivityType::Trade, 80);
    stats.add_activity(ActivityType::Trade, 100);
    assert_eq!(stats.trade_count, 3);
    assert_eq!(stats.get_trades_per_minute(100), 2);
    assert_eq!(stats.last_activity, 100);
}

#[test]
fn alerts_fire_at_thresholds() {
    let mut alerts = AlertManager::new();
    assert!(alerts.process_anomaly_severity(AnomalySeverity::Critical, 5));
    assert_eq!(alerts.last_alert_time[3], Some(5));
    assert!(!alerts.process_anomaly_severity(AnomalySeverity::High, 6));
    assert!(alerts.process_anomaly_severity(AnomalySeverity::High, 7));
    assert_eq!(alerts.alert_counts[2], 0);
    assert!(AnomalySeverity::High >= AnomalySeverity::Medium);
}

#[test]
fn volume_total_is_sum_of_kept_samples() {
    let mut stats = VolumeStatistics::new();
    for i in 1..=150u64 {
        stats.add_volume(i * 10, i as i64);
        let sum: u64 = stats.volumes.iter().map(|(v, _)| *v).sum();
        assert_eq!(stats.total_volume, sum);
    }
    // samples 51..=150 are kept: mean 100.5 * 10 = 1005
    assert_eq!(stats.get_average(), 1005);
}
