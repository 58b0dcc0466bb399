use betting_platform::e2e_test_framework::{
    E2ETestFramework, TestHarness, TestResults, TestStatus, TestType,
};

fn framework(t: TestType) -> E2ETestFramework {
    let mut f = E2ETestFramework {
        test_id: 0,
        test_type: t,
        test_status: TestStatus::Aborted,
        start_slot: 0,
        end_slot: None,
        test_users: Vec::new(),
        test_markets: Vec::new(),
        test_results: TestResults::default(),
        assertions_passed: 0,
        assertions_failed: 0,
    };
    f.initialize(7, t, 100).unwrap();
    f.setup_test_environment().unwrap();
    f
}

#[test]
fn setup_creates_users_and_markets() {
    let f = framework(TestType::BasicTrading);
    assert_eq!(f.test_users.len(), 100);
    assert_eq!(f.test_markets.len(), 10);
    assert_eq!(f.test_users[0].balance, 1_000_000_000_000);
    assert_eq!(f.test_markets[3].yes_price, 5000);
    assert_eq!(f.test_status, TestStatus::Running);
    assert_ne!(f.test_users[0].pubkey, f.test_users[1].pubkey);
}

#[test]
fn basic_trading_scenario() {
    let mut f = framework(TestType::BasicTrading);
    f.run_test_scenario(0).unwrap();
    assert_eq!(f.test_users[9].trades_executed, 1);
    assert_eq!(f.test_users[10].trades_executed, 0);
    assert_eq!(f.test_markets[0].volume, 10_000_000_000);
    assert_eq!(f.test_markets[5].yes_price, 6000);
    assert_eq!(f.test_results.trades_processed, 10);
    let report = f.complete_test(150).unwrap();
    assert_eq!(report.status, TestStatus::Passed);
    assert_eq!(report.duration_slots, 50);
}

#[test]
fn stress_scenario_depends_on_elapsed_time() {
    let mut fast = framework(TestType::StressTest);
    fast.run_test_scenario(0).unwrap();
    assert_eq!(fast.test_results.peak_tps, 1000);
    assert_eq!(fast.test_users[0].trades_executed, 10);
    assert_eq!(fast.test_markets[0].trades, 100);
    let mut slow = framework(TestType::StressTest);
    assert!(slow.run_test_scenario(2).is_err());
    assert_eq!(slow.test_results.peak_tps, 500);
    assert_eq!(slow.assertions_failed, 1);
    assert_eq!(slow.complete_test(100).unwrap().status, TestStatus::Failed);
}

#[test]
fn liquidation_scenario() {
    let mut f = framework(TestType::LiquidationScenario);
    f.run_test_scenario(0).unwrap();
    assert_eq!(f.test_results.liquidations_processed, 5);
    assert_eq!(f.test_users[4].pnl, -5_000_000_000);
    assert_eq!(f.test_users[4].positions.len(), 1);
    assert_eq!(f.test_users[5].pnl, 0);
    assert_eq!(f.test_markets[0].yes_price, 4400);
}

#[test]
fn journey_manipulation_recovery() {
    let mut j = framework(TestType::FullUserJourney);
    j.run_test_scenario(0).unwrap();
    assert_eq!(j.test_users[0].balance, 1_000_000_000_000 - 100_000_000 + 400_000_000);
    assert_eq!(j.test_results.full_journeys_completed, 1);
    let mut m = framework(TestType::MarketManipulation);
    m.run_test_scenario(0).unwrap();
    assert_eq!(m.assertions_passed, 2);
    assert_eq!(m.test_results.security_events_detected, 2);
    let mut r = framework(TestType::SystemRecovery);
    r.run_test_scenario(0).unwrap();
    assert!(r.test_results.recovery_successful);
    assert_eq!(r.test_status, TestStatus::Running);
}

#[test]
fn suite_runs_every_scenario() {
    let mut h = TestHarness {
        test_suite_id: 1000,
        tests_to_run: vec![
            TestType::BasicTrading,
            TestType::StressTest,
            TestType::LiquidationScenario,
            TestType::MarketManipulation,
            TestType::SystemRecovery,
            TestType::FullUserJourney,
        ],
        tests_completed: Vec::new(),
        suite_start_time: 0,
        suite_end_time: None,
    };
    let report = h.run_test_suite(500, 1_700_000_000).unwrap();
    assert_eq!(report.total_tests, 6);
    assert_eq!(report.passed_tests, 6);
    assert_eq!(report.failed_tests, 0);
    assert_eq!(report.total_assertions, 5);
    assert_eq!(report.passed_assertions, 5);
    assert_eq!(report.duration_seconds, 0);
    assert_eq!(report.test_reports[5].test_id, 1005);
    assert_eq!(h.suite_end_time, Some(1_700_000_000));
}
