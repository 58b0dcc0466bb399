use betting_platform::bootstrap_coordinator::BootstrapCoordinator;
use betting_platform::bootstrap_deposit_handler::{
    apply_bootstrap_deposit, check_associated_token_account, parse_bootstrap_deposit_instruction,
    validate_bootstrap_deposit, ASSOCIATED_TOKEN_PROGRAM_ID, TOKEN_PROGRAM_ID, USDC_MINT,
};
use betting_platform::bootstrap_mmt_integration::{
    bootstrap_reward_fits, calculate_bootstrap_mmt_rewards, check_treasury_address, immediate_reward_bps,
    plan_bootstrap_mmt_reward, verify_liquidity_provider_eligibility, MIN_DEPOSIT_AMOUNT, MMT_TREASURY_SEED,
};
use betting_platform::bootstrap_ux_notifications::{
    build_notifications, calculate_risk_level, determine_phase_status, format_notification_display,
    get_bootstrap_ui_state, get_milestone_progress, BootstrapNotificationType, BootstrapPhaseStatus, RiskLevel,
};
use betting_platform::bootstrap_vault_initialization::{
    calculate_available_leverage, check_bootstrap_vault_address, check_vault_initialization,
    initial_bootstrap_vault_state, BootstrapVaultState, COLLATERAL_VAULT_SEED,
};
use betting_platform::error::BettingPlatformError;
use betting_platform::minimum_viable_vault::initialize_viability_tracker;
use betting_platform::vampire_attack_protection::VampireAttackDetector;
use solana_program::pubkey::Pubkey;

fn coordinator() -> BootstrapCoordinator {
    BootstrapCoordinator {
        vault_balance: 5_000_000_000,
        total_deposits: 5_000_000_000,
        unique_depositors: 10,
        current_milestone: 2,
        bootstrap_start_slot: 0,
        bootstrap_complete: false,
        coverage_ratio: 10000,
        max_leverage_available: 5,
        total_mmt_distributed: 1_000_000_000,
        early_depositor_bonus_active: true,
        incentive_pool: 9_000_000_000_000,
        halted: false,
        total_incentive_pool: 10_000_000_000_000,
        is_active: true,
        current_vault_balance: 5_000_000_000,
    }
}

#[test]
fn test_mmt_reward_calculation() {
    let reward = calculate_bootstrap_mmt_rewards(1_000_000_000, 0, 0, 0, 10_000_000_000_000).unwrap();
    assert_eq!(reward, 4_200_000_000);
}

#[test]
fn test_eligibility_check() {
    let depositor = [7u8; 32];
    let mut bootstrap = coordinator();
    assert!(verify_liquidity_provider_eligibility(&depositor, 1_000_000_000, &bootstrap).unwrap());
    assert!(!verify_liquidity_provider_eligibility(&depositor, 100_000, &bootstrap).unwrap());
    bootstrap.bootstrap_complete = true;
    assert!(!verify_liquidity_provider_eligibility(&depositor, 1_000_000_000, &bootstrap).unwrap());
}

#[test]
fn test_deposit_validation() {
    assert!(MIN_DEPOSIT_AMOUNT == 1_000_000);
    assert_eq!(Pubkey::new_from_array(USDC_MINT).to_string(), "EPjFWdd5AufqSSqeM2qN1xzybapC8G4wEGGkZwyTDt1v");
}

#[test]
fn deposit_checks_in_order() {
    let bootstrap = coordinator();
    let vault = initial_bootstrap_vault_state([1u8; 32], 0, 0);
    let depositor = [9u8; 32];
    assert_eq!(
        validate_bootstrap_deposit(&depositor, 500_000, &USDC_MINT, &bootstrap, &vault),
        Err(BettingPlatformError::DepositTooSmall)
    );
    assert_eq!(
        validate_bootstrap_deposit(&depositor, 2_000_000, &[0u8; 32], &bootstrap, &vault),
        Err(BettingPlatformError::InvalidMint)
    );
    let mut halted = bootstrap;
    halted.coverage_ratio = 1000;
    assert_eq!(
        validate_bootstrap_deposit(&depositor, 2_000_000, &USDC_MINT, &halted, &vault),
        Err(BettingPlatformError::IneligibleForRewards)
    );
    // $1000 by the first depositor at milestone 2: 2000 MMT * 1.5 * 1.2.
    assert_eq!(validate_bootstrap_deposit(&depositor, 1_000_000_000, &USDC_MINT, &bootstrap, &vault), Ok(3_600_000_000));
}

#[test]
fn deposit_updates_coordinator_and_vault() {
    let mut bootstrap = BootstrapCoordinator::default();
    bootstrap.incentive_pool = 10_000_000_000_000;
    let mut vault = initial_bootstrap_vault_state([1u8; 32], 5, 6);
    let res = apply_bootstrap_deposit(&mut bootstrap, &mut vault, &[2u8; 32], 2_000_000_000, 4_000_000, true, 77).unwrap();
    assert_eq!(bootstrap.vault_balance, 2_000_000_000);
    assert_eq!(bootstrap.unique_depositors, 1);
    assert_eq!(vault.total_deposits, 2_000_000_000);
    assert_eq!(vault.depositor_count, 1);
    assert_eq!(vault.total_mmt_distributed, 4_000_000);
    assert_eq!(vault.coverage_ratio, 2000);
    assert_eq!(vault.last_update, 77);
    assert_eq!(res.current_progress_percent, 20);
}

#[test]
fn refused_deposit_changes_nothing() {
    let mut bootstrap = BootstrapCoordinator::default();
    let mut vault = BootstrapVaultState::default();
    vault.minimum_viable_size = 10_000_000_000;
    let before = (bootstrap.vault_balance, vault.total_deposits);
    let r = apply_bootstrap_deposit(&mut bootstrap, &mut vault, &[2u8; 32], 2_000_000, 0, true, 1);
    assert_eq!(r.unwrap_err(), BettingPlatformError::BootstrapNotActive);
    assert_eq!((bootstrap.vault_balance, vault.total_deposits), before);
}

#[test]
fn deposit_instruction_parsing() {
    let mut data = vec![0u8];
    data.extend_from_slice(&1_234_567u64.to_le_bytes());
    assert_eq!(parse_bootstrap_deposit_instruction(&data), Ok(1_234_567));
    assert_eq!(parse_bootstrap_deposit_instruction(&data[..8]), Err(BettingPlatformError::InvalidInstructionData));
    data[0] = 1;
    assert_eq!(parse_bootstrap_deposit_instruction(&data), Err(BettingPlatformError::InvalidInstructionData));
}

#[test]
fn bootstrap_vault_initialization_test_leverage_calculation() {
    assert_eq!(calculate_available_leverage(0), 0);
    assert_eq!(calculate_available_leverage(500_000_000), 0);
    assert_eq!(calculate_available_leverage(1_000_000_000), 1);
    assert_eq!(calculate_available_leverage(5_000_000_000), 5);
    assert_eq!(calculate_available_leverage(10_000_000_000), 10);
    assert_eq!(calculate_available_leverage(20_000_000_000), 10);
}

#[test]
fn test_coverage_ratio_calculation() {
    let mut vault = BootstrapVaultState {
        total_deposits: 5_000_000_000,
        total_borrowed: 0,
        depositor_count: 10,
        last_update: 0,
        is_bootstrap_phase: true,
        bootstrap_start_slot: 0,
        bootstrap_coordinator: [0u8; 32],
        minimum_viable_size: 10_000_000_000,
        coverage_ratio: 0,
        is_accepting_deposits: true,
        bootstrap_complete: false,
        total_mmt_distributed: 0,
    };
    vault.coverage_ratio = (vault.total_deposits * 10000) / vault.minimum_viable_size;
    assert_eq!(vault.coverage_ratio, 5000);
    assert!(vault.coverage_ratio <= 5000);
}

#[test]
fn vault_initialization_checks() {
    let c = BootstrapCoordinator::default();
    assert_eq!(check_vault_initialization(false, true, 0, &c), Err(BettingPlatformError::MissingRequiredSignature));
    assert_eq!(check_vault_initialization(true, false, 0, &c), Err(BettingPlatformError::InvalidSeeds));
    assert_eq!(check_vault_initialization(true, true, 10, &c), Err(BettingPlatformError::AccountAlreadyInitialized));
    let mut done = c;
    done.bootstrap_complete = true;
    assert_eq!(check_vault_initialization(true, true, 0, &done), Err(BettingPlatformError::BootstrapAlreadyComplete));
    assert_eq!(check_vault_initialization(true, true, 0, &c), Ok(()));
}

#[test]
fn test_phase_status_determination() {
    let mut coordinator = BootstrapCoordinator::default();
    let mut vault = BootstrapVaultState::default();
    vault.is_bootstrap_phase = true;
    assert_eq!(determine_phase_status(&coordinator, &vault, 50), BootstrapPhaseStatus::Active);
    assert_eq!(determine_phase_status(&coordinator, &vault, 92), BootstrapPhaseStatus::NearingCompletion);
    vault.bootstrap_complete = true;
    assert_eq!(determine_phase_status(&coordinator, &vault, 100), BootstrapPhaseStatus::Complete);
    coordinator.halted = true;
    assert_eq!(determine_phase_status(&coordinator, &vault, 50), BootstrapPhaseStatus::Halted);
}

#[test]
fn test_risk_level_calculation() {
    let mut detector = VampireAttackDetector::new();
    assert_eq!(calculate_risk_level(8000, &detector), RiskLevel::Low);
    assert_eq!(calculate_risk_level(6000, &detector), RiskLevel::Medium);
    assert_eq!(calculate_risk_level(4000, &detector), RiskLevel::High);
    detector.attack_detected_slot = Some(1000);
    assert_eq!(calculate_risk_level(8000, &detector), RiskLevel::Critical);
}

#[test]
fn test_milestone_progress() {
    let milestones = get_milestone_progress(5_500_000_000);
    assert_eq!(milestones[0].1, true);
    assert_eq!(milestones[1].1, true);
    assert_eq!(milestones[2].1, true);
    assert_eq!(milestones[3].1, false);
    assert_eq!(milestones[4].1, false);
    assert_eq!(milestones[5].1, false);
    assert_eq!(milestones[2].0, "$5k - 5x Leverage");
}

#[test]
fn notifications_for_an_early_bootstrap() {
    let mut coordinator = BootstrapCoordinator::default();
    coordinator.total_incentive_pool = 10_000_000_000;
    let vault = initial_bootstrap_vault_state([1u8; 32], 0, 0);
    let tracker = initialize_viability_tracker();
    let detector = VampireAttackDetector::new();
    let notes = build_notifications(&coordinator, &vault, &tracker, &detector, 0, 1_000);
    assert_eq!(notes.len(), 3);
    assert_eq!(notes[0].title, "Bootstrap Phase Active");
    assert_eq!(notes[0].message, "Help us reach $10k to unlock full platform features! Current: $0.00k");
    assert_eq!(notes[1].message, "10000 MMT remaining for early depositors!");
    assert_eq!(notes[2].notification_type, BootstrapNotificationType::Warning);
    assert_eq!(notes[2].message, "Coverage ratio at 0.0. Platform features may be restricted.");
    assert_eq!(format_notification_display(&notes[2]), "⚠\u{fe0f} Low Coverage Warning - Coverage ratio at 0.0. Platform features may be restricted.");
}

#[test]
fn banner_state_near_completion() {
    let coordinator = BootstrapCoordinator::default();
    let mut vault = initial_bootstrap_vault_state([1u8; 32], 0, 0);
    vault.total_deposits = 9_500_000_000;
    vault.depositor_count = 5;
    vault.coverage_ratio = 9500;
    let tracker = initialize_viability_tracker();
    let mut detector = VampireAttackDetector::new();
    detector.recovery_allowed_slot = Some(50);
    let banner = get_bootstrap_ui_state(&coordinator, &vault, &tracker, &detector, 10_000, 40);
    assert_eq!(banner.progress_percentage, 95);
    assert_eq!(banner.phase_status, BootstrapPhaseStatus::NearingCompletion);
    assert_eq!(banner.notifications[0].message, "Only $0.50k to go! Platform will be fully operational soon.");
    // 0.5k remaining at an average deposit of 1.9k: no whole deposit needed.
    assert_eq!(banner.estimated_time_remaining, Some(0));
    assert!(!banner.features_enabled.withdrawals_enabled);
    assert_eq!(banner.security_status.risk_level, RiskLevel::Low);
}

#[test]
fn deposit_errors_do_not_depend_on_reward_size() {
    let bootstrap = coordinator();
    let vault = initial_bootstrap_vault_state([1u8; 32], 0, 0);
    let depositor = [9u8; 32];
    // An amount whose reward would overflow is still answered by the mint check.
    assert!(!bootstrap_reward_fits(u64::MAX, 0, 0));
    assert_eq!(
        validate_bootstrap_deposit(&depositor, u64::MAX, &[0u8; 32], &bootstrap, &vault),
        Err(BettingPlatformError::InvalidMint)
    );
    let mut done = bootstrap;
    done.bootstrap_complete = true;
    assert_eq!(
        validate_bootstrap_deposit(&depositor, u64::MAX, &USDC_MINT, &done, &vault),
        Err(BettingPlatformError::IneligibleForRewards)
    );
    // The bound follows the actual multipliers: 1.0 x 1.0 fits where 1.5 x 1.4 does not.
    let amount = 600_000_000_000_000u64;
    assert!(!bootstrap_reward_fits(amount, 0, 0));
    assert!(bootstrap_reward_fits(amount, 200, 9));
    assert_eq!(calculate_bootstrap_mmt_rewards(amount, 0, 200, 9, u64::MAX), Ok(1_200_000_000_000_000));
}

#[test]
fn mmt_reward_plan_splits_immediate_and_vested() {
    // Under $1k everything is paid at once.
    assert_eq!(plan_bootstrap_mmt_reward(false, 0, 50, 10, 100, 5, 10_000, 1_000), Ok((1_000, 0, 1_005)));
    // At half the target: 100% - 25% = 75% now, the rest vests.
    assert_eq!(immediate_reward_bps(5_000_000_000), 7500);
    assert_eq!(plan_bootstrap_mmt_reward(false, 5_000_000_000, 50, 10, 100, 0, 10_000, 1_000), Ok((750, 250, 1_000)));
    // At the target: half now.
    assert_eq!(plan_bootstrap_mmt_reward(false, 10_000_000_000, 50, 10, 100, 0, 10_000, 1_001), Ok((500, 501, 1_001)));
}

#[test]
fn mmt_reward_plan_refusals() {
    assert_eq!(
        plan_bootstrap_mmt_reward(true, 0, 50, 10, 100, 0, 10_000, 1_000),
        Err(BettingPlatformError::BootstrapAlreadyComplete)
    );
    assert_eq!(plan_bootstrap_mmt_reward(false, 0, 9, 10, 100, 0, 10_000, 1_000), Err(BettingPlatformError::InvalidArgument));
    assert_eq!(plan_bootstrap_mmt_reward(false, 0, 100, 10, 100, 0, 10_000, 1_000), Err(BettingPlatformError::InvalidArgument));
    assert_eq!(
        plan_bootstrap_mmt_reward(false, 0, 50, 10, 100, u64::MAX, u64::MAX, 1),
        Err(BettingPlatformError::ArithmeticOverflow)
    );
    assert_eq!(
        plan_bootstrap_mmt_reward(false, 0, 50, 10, 100, 9_500, 10_000, 501),
        Err(BettingPlatformError::InsufficientFunds)
    );
    assert_eq!(plan_bootstrap_mmt_reward(false, 0, 50, 10, 100, 9_500, 10_000, 500), Ok((500, 0, 10_000)));
}

#[test]
fn treasury_and_vault_addresses_are_program_addresses() {
    let program = Pubkey::new_from_array([7u8; 32]);
    let (treasury, bump) = Pubkey::find_program_address(&[&MMT_TREASURY_SEED], &program);
    assert_eq!(check_treasury_address(&program.to_bytes(), &treasury.to_bytes()), Ok(bump));
    assert_eq!(check_treasury_address(&program.to_bytes(), &[3u8; 32]), Err(BettingPlatformError::InvalidSeeds));
    let (vault, vbump) = Pubkey::find_program_address(&[&COLLATERAL_VAULT_SEED], &program);
    assert_eq!(check_bootstrap_vault_address(&program.to_bytes(), &vault.to_bytes()), Ok(vbump));
    assert_eq!(check_bootstrap_vault_address(&program.to_bytes(), &treasury.to_bytes()), Err(BettingPlatformError::InvalidSeeds));
}

#[test]
fn associated_token_account_check() {
    assert_eq!(Pubkey::new_from_array(TOKEN_PROGRAM_ID), spl_token::id());
    assert_eq!(
        Pubkey::new_from_array(ASSOCIATED_TOKEN_PROGRAM_ID).to_string(),
        "ATokenGPvbdGVxr1b2hvZbsiqW5xWH25efTNsLJA8knL"
    );
    let wallet = [4u8; 32];
    let (ata, _) = Pubkey::find_program_address(
        &[&wallet, spl_token::id().as_ref(), &USDC_MINT],
        &Pubkey::new_from_array(ASSOCIATED_TOKEN_PROGRAM_ID),
    );
    assert_eq!(check_associated_token_account(&wallet, &USDC_MINT, &ata.to_bytes()), Ok(()));
    assert_eq!(
        check_associated_token_account(&wallet, &USDC_MINT, &wallet),
        Err(BettingPlatformError::InvalidAccountData)
    );
}
