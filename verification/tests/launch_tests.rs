use betting_platform::deployment_verifier::{
    CheckStatus as DeployCheckStatus, ConfigurationHashes, DeploymentStatus, DeploymentVerifier, IssueType,
    PerformanceMetrics,
};
use betting_platform::error::BettingPlatformError;
use betting_platform::launch_checklist::{
    CheckStatus, GoNoGo, GoNoGoDecision, LaunchChecklist, LaunchMetrics, LaunchPhase, LaunchStatus, RollbackPlan,
};

fn blank_checklist() -> LaunchChecklist {
    LaunchChecklist {
        launch_id: 0,
        launch_status: LaunchStatus::PreLaunch,
        current_phase: LaunchPhase::Preparation,
        checklist_items: Vec::new(),
        automated_checks: Vec::new(),
        manual_confirmations: Vec::new(),
        go_no_go_decision: GoNoGoDecision::default(),
        launch_metrics: LaunchMetrics::default(),
        rollback_plan: RollbackPlan::default(),
        start_time: 0,
        completion_time: None,
    }
}

#[test]
fn checklist_initializes_from_template() {
    let mut c = blank_checklist();
    c.initialize(42, 1_000).unwrap();
    assert_eq!(c.launch_id, 42);
    assert_eq!(c.checklist_items.len(), 25);
    assert_eq!(c.checklist_items[0].description, "Verify all Solana accounts initialized");
    assert!(c.checklist_items.iter().all(|i| i.status == CheckStatus::Pending));
    assert_eq!(c.start_time, 1_000);
}

#[test]
fn first_run_passes_automated_preparation_checks() {
    let mut c = blank_checklist();
    c.initialize(1, 0).unwrap();
    let report = c.execute_checklist(500).unwrap();
    assert_eq!(c.automated_checks.len(), 4);
    assert_eq!(c.automated_checks[0].details, "Check completed successfully");
    assert_eq!(c.current_phase, LaunchPhase::Testing);
    assert_eq!(report.current_phase, LaunchPhase::Testing);
    assert_eq!(report.overall_progress, 16);
    assert_eq!(report.phase_progress, 0);
    assert_eq!(report.pending_items.len(), 6);
    assert_eq!(report.critical_items.len(), 5);
    assert_eq!(report.next_actions.len(), 6);
    assert_eq!(report.next_actions[0], "Complete: All unit tests passing");
    assert_eq!(report.next_actions[5], "Run full test suite");
    assert_eq!(report.estimated_completion, 500 + 21 * 300);
    assert_eq!(report.go_no_go_decision.decision, GoNoGo::ConditionalGo);
    assert_eq!(report.go_no_go_decision.score, 1428);
}

#[test]
fn manual_confirmations_decide_manual_items() {
    let mut c = blank_checklist();
    c.initialize(1, 0).unwrap();
    c.add_manual_confirmation("Confirm program deployed to mainnet".to_string(), true, [1u8; 32], 5).unwrap();
    c.add_manual_confirmation("Security audit completed and passed".to_string(), false, [1u8; 32], 6).unwrap();
    c.validate_manual_confirmations().unwrap();
    assert_eq!(c.checklist_items[1].status, CheckStatus::Completed);
    assert_eq!(c.checklist_items[2].status, CheckStatus::Failed);
    c.update_go_no_go_decision(9).unwrap();
    assert_eq!(c.go_no_go_decision.decision, GoNoGo::NoGo);
    assert_eq!(c.go_no_go_decision.critical_failures, 1);
}

#[test]
fn advancing_past_the_last_phase_completes() {
    let mut c = blank_checklist();
    c.current_phase = LaunchPhase::PostLaunch;
    c.advance_phase(77).unwrap();
    assert_eq!(c.launch_status, LaunchStatus::Completed);
    assert_eq!(c.completion_time, Some(77));
    assert_eq!(c.execute_rollback(), Err(BettingPlatformError::InvalidInput));
    c.launch_status = LaunchStatus::Failed;
    assert_eq!(c.execute_rollback(), Ok(()));
    assert_eq!(c.launch_status, LaunchStatus::RolledBack);
}

fn blank_verifier() -> DeploymentVerifier {
    DeploymentVerifier {
        verification_id: 0,
        deployment_status: DeploymentStatus::PreDeployment,
        checks_performed: Vec::new(),
        critical_issues: Vec::new(),
        warnings: Vec::new(),
        readiness_score: 0,
        last_verification_slot: 0,
        security_attestations: Vec::new(),
        performance_metrics: PerformanceMetrics::default(),
        configuration_hashes: ConfigurationHashes::default(),
    }
}

#[test]
fn deployment_verification_without_audit() {
    let mut v = blank_verifier();
    v.initialize(9, 10).unwrap();
    let report = v.verify_deployment(20, 1_234).unwrap();
    assert_eq!(report.total_checks, 12);
    assert_eq!(report.passed_checks, 9);
    assert_eq!(report.critical_issues.len(), 4);
    assert_eq!(report.critical_issues[0].issue_type, IssueType::AuthorityNotBurned);
    assert_eq!(report.readiness_score, 4450);
    assert_eq!(report.deployment_status, DeploymentStatus::PreDeployment);
    assert_eq!(report.timestamp, 1_234);
    assert_eq!(report.recommendations.len(), 6);
    assert_eq!(report.recommendations[0], "CRITICAL: Upgrade authority still active - Burn upgrade authority before production");
    assert!(!report.deployment_checklist.pre_deployment[0].completed);
    assert!(report.deployment_checklist.pre_deployment[1].completed);
    assert_eq!(v.deployment_status, DeploymentStatus::NotReady);
    assert_eq!(v.last_verification_slot, 20);
    assert_eq!(v.checks_performed[4].details, "✓ Vault balance sufficient: $150000\n✓ Treasury properly separated\n");
    assert_eq!(v.checks_performed[1].status, DeployCheckStatus::Passed);
}
