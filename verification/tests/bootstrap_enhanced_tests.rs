use betting_platform::bootstrap_enhanced::{
    BootstrapHaltReason, EnhancedBootstrapCoordinator, BOOTSTRAP_MMT_ALLOCATION,
};
use betting_platform::error::BettingPlatformError;

fn key(b: u8) -> [u8; 32] {
    [b; 32]
}

#[test]
fn test_zero_vault_initialization() {
    let mut bootstrap = EnhancedBootstrapCoordinator::default();
    bootstrap.initialize(&key(1), 1000).unwrap();

    assert_eq!(bootstrap.vault, 0);
    assert_eq!(bootstrap.coverage_ratio, 0);
    assert_eq!(bootstrap.mmt_pool_remaining, BOOTSTRAP_MMT_ALLOCATION);
    assert!(!bootstrap.bootstrap_complete);
}

#[test]
fn test_coverage_calculation() {
    let mut bootstrap = EnhancedBootstrapCoordinator::default();
    bootstrap.vault = 5_000_000_000;
    bootstrap.total_oi = 10_000_000_000;

    bootstrap.update_coverage_ratio().unwrap();

    assert_eq!(bootstrap.coverage_ratio, 10000);
}

#[test]
fn test_mmt_distribution() {
    let mut bootstrap = EnhancedBootstrapCoordinator::default();
    bootstrap.initialize(&key(1), 1000).unwrap();

    let depositor = key(2);
    let mmt_reward = bootstrap.process_deposit(&depositor, 1_000_000_000, 1000).unwrap();

    assert!(mmt_reward > 0);
    assert_eq!(bootstrap.mmt_distributed, mmt_reward);
    assert_eq!(bootstrap.early_lp_addresses.len(), 1);
}

#[test]
fn enhanced_first_deposit_reward_is_exact() {
    let mut b = EnhancedBootstrapCoordinator::default();
    b.initialize(&key(1), 0).unwrap();
    // vault after the deposit is $1k: 1.5x bonus; 2M MMT * (1k / 100k) / 10 * 1.5
    let r = b.process_deposit(&key(2), 1_000_000_000, 0).unwrap();
    assert_eq!(r, 3_000_000_000);
    assert_eq!(b.mmt_pool_remaining + b.mmt_distributed, BOOTSTRAP_MMT_ALLOCATION);
    // a deposit leaving the vault under $1k gets the 2x bonus
    let mut c = EnhancedBootstrapCoordinator::default();
    c.initialize(&key(1), 0).unwrap();
    let r2 = c.process_deposit(&key(3), 500_000_000, 0).unwrap();
    assert_eq!(r2, 2_000_000_000);
}

#[test]
fn enhanced_repeat_depositor_is_listed_once() {
    let mut b = EnhancedBootstrapCoordinator::default();
    b.initialize(&key(1), 0).unwrap();
    b.process_deposit(&key(2), 1_000_000, 0).unwrap();
    b.process_deposit(&key(3), 2_000_000, 0).unwrap();
    b.process_deposit(&key(2), 5_000_000, 0).unwrap();
    assert_eq!(b.early_lp_addresses.len(), 2);
    assert_eq!(b.lp_shares, vec![6_000_000, 2_000_000]);
    assert_eq!(b.vault, 8_000_000);
}

#[test]
fn enhanced_deposit_completes_bootstrap_at_minimum() {
    let mut b = EnhancedBootstrapCoordinator::default();
    b.initialize(&key(1), 0).unwrap();
    b.process_deposit(&key(2), 100_000_000_000, 0).unwrap();
    assert!(b.bootstrap_complete);
}

#[test]
fn enhanced_deposit_overflow_is_refused() {
    let mut b = EnhancedBootstrapCoordinator::default();
    b.vault = u64::MAX;
    assert_eq!(b.process_deposit(&key(2), 1, 0), Err(BettingPlatformError::MathOverflow));
    assert_eq!(b.vault, u64::MAX);
    assert!(b.early_lp_addresses.is_empty());
}

#[test]
fn enhanced_coverage_without_open_interest_is_zero() {
    let mut b = EnhancedBootstrapCoordinator::default();
    b.vault = 7;
    b.update_coverage_ratio().unwrap();
    assert_eq!(b.coverage_ratio, 0);
    b.total_oi = 1;
    b.update_coverage_ratio().unwrap();
    assert_eq!(b.coverage_ratio, 0);
    b.vault = u64::MAX;
    b.total_oi = 10;
    assert_eq!(b.update_coverage_ratio(), Err(BettingPlatformError::MathOverflow));
}

#[test]
fn test_vampire_attack_detection() {
    let mut bootstrap = EnhancedBootstrapCoordinator::default();
    bootstrap.vault = 10_000_000_000; // $10k
    bootstrap.total_oi = 15_000_000_000; // $15k OI
    bootstrap.update_coverage_ratio().unwrap();

    // Try to withdraw $6k (would drop coverage below 0.5)
    let is_attack = bootstrap.check_vampire_attack(6_000_000_000, 1000).unwrap();
    assert!(is_attack);
    assert!(bootstrap.is_halted);
    assert_eq!(bootstrap.halt_reason, BootstrapHaltReason::LowCoverage);
}

#[test]
fn enhanced_vampire_check_flags_large_withdrawal_without_halt() {
    let mut b = EnhancedBootstrapCoordinator::default();
    b.vault = 10_000_000_000;
    b.total_oi = 10_000_000_000;
    // 7k left against 10k open interest stays above half, but 30% of the vault is too large
    assert_eq!(b.check_vampire_attack(3_000_000_000, 1000), Ok(true));
    assert!(!b.is_halted);
    assert_eq!(b.halt_reason, BootstrapHaltReason::NoHalt);
}

#[test]
fn enhanced_vampire_check_halt_boundary() {
    let mut b = EnhancedBootstrapCoordinator::default();
    b.vault = 10_000;
    b.total_oi = 10_000;
    // 5000 left: exactly half, no low-coverage halt (but 50% is too large)
    assert_eq!(b.check_vampire_attack(5_000, 0), Ok(true));
    assert!(!b.is_halted);
    // 4999 left: under half, halts
    assert_eq!(b.check_vampire_attack(5_001, 0), Ok(true));
    assert!(b.is_halted);
    assert_eq!(b.halt_reason, BootstrapHaltReason::LowCoverage);
}

#[test]
fn enhanced_vampire_check_halts_on_fourth_withdrawal_in_window() {
    let mut b = EnhancedBootstrapCoordinator::default();
    b.vault = 10_000_000_000;
    assert_eq!(b.check_vampire_attack(100, 1000), Ok(false));
    assert_eq!(b.check_vampire_attack(100, 1010), Ok(false));
    assert_eq!(b.check_vampire_attack(100, 1020), Ok(false));
    assert_eq!(b.check_vampire_attack(100, 1030), Ok(true));
    assert!(b.is_halted);
    assert_eq!(b.halt_reason, BootstrapHaltReason::VampireAttack);
    // a new window starts the count again
    let mut c = EnhancedBootstrapCoordinator::default();
    c.vault = 10_000_000_000;
    c.withdrawal_count_current_window = 3;
    c.withdrawal_window_start = 0;
    assert_eq!(c.check_vampire_attack(100, 151), Ok(false));
    assert_eq!(c.withdrawal_count_current_window, 1);
    assert_eq!(c.withdrawal_window_start, 151);
}

#[test]
fn enhanced_vampire_check_refuses_overdraw() {
    let mut b = EnhancedBootstrapCoordinator::default();
    b.vault = 10;
    assert_eq!(b.check_vampire_attack(11, 0), Err(BettingPlatformError::InsufficientFunds));
}

#[test]
fn enhanced_withdrawal_refused_on_attack_and_applied_otherwise() {
    let mut b = EnhancedBootstrapCoordinator::default();
    b.vault = 10_000_000_000;
    assert_eq!(b.process_withdrawal(5_000_000_000, 1000), Err(BettingPlatformError::VampireAttackDetected));
    assert_eq!(b.vault, 10_000_000_000);
    assert_eq!(b.process_withdrawal(1_000_000_000, 1000), Ok(()));
    assert_eq!(b.vault, 9_000_000_000);
    assert_eq!(b.consecutive_low_coverage, 0);
}

#[test]
fn enhanced_withdrawal_clears_low_coverage_streak() {
    let mut b = EnhancedBootstrapCoordinator::default();
    b.vault = 10_000_000_000;
    b.total_oi = 15_000_000_000;
    b.consecutive_low_coverage = 2;
    // 9.9k / (0.5 * 15k) = 1.32: the withdrawal passes and the streak ends
    assert_eq!(b.process_withdrawal(100_000_000, 0), Ok(()));
    assert_eq!(b.coverage_ratio, 13200);
    assert_eq!(b.consecutive_low_coverage, 0);
    assert!(!b.is_halted);
}

#[test]
fn enhanced_max_leverage_and_status() {
    let mut b = EnhancedBootstrapCoordinator::default();
    b.vault = 500_000_000;
    assert_eq!(b.calculate_max_leverage(), 0);
    b.vault = 3_500_000_000;
    assert_eq!(b.calculate_max_leverage(), 3);
    b.vault = 50_000_000_000;
    assert_eq!(b.calculate_max_leverage(), 10);
    b.coverage_ratio = 5000;
    assert_eq!(b.calculate_max_leverage(), 5);
    let st = b.get_status();
    assert_eq!(st.progress_percentage, 50);
    assert_eq!(st.max_leverage, 5);
    assert_eq!(st.early_lp_count, 0);
}

#[test]
fn enhanced_deposit_timing_edge_by_vault() {
    let mut b = EnhancedBootstrapCoordinator::default();
    assert_eq!(b.get_deposit_timing_edge(), "Maximum edge: 2x MMT multiplier + first mover advantage");
    b.vault = 1_000_000_000;
    assert_eq!(b.get_deposit_timing_edge(), "High edge: 1.5x MMT multiplier");
    b.vault = 5_000_000_000;
    assert_eq!(b.get_deposit_timing_edge(), "Good edge: Standard MMT + leverage unlock soon");
    b.vault = 10_000_000_000;
    assert_eq!(b.get_deposit_timing_edge(), "Normal returns: Bootstrap complete, standard APY");
}
