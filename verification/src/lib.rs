//! Integration layer of the betting platform: oracle handling, request
//! security, bootstrap coordination, vault viability and deployment checks.
use vstd::prelude::*;

pub mod anomaly_detection_system;
pub mod automated_market_ops;
pub mod api_key_manager;
pub mod bootstrap_coordinator;
pub mod bootstrap_deposit_handler;
pub mod bootstrap_enhanced;
pub mod bootstrap_mmt_integration;
pub mod bootstrap_ux_notifications;
pub mod bootstrap_vault_initialization;
pub mod bytes;
pub mod chainlink_oracle;
pub mod constants;
pub mod coordinator;
pub mod crypto;
pub mod cross_validation_system;
pub mod data_normalizer;
pub mod e2e_test_framework;
pub mod deployment_verifier;
pub mod dispute_evidence_system;
pub mod error;
pub mod events;
pub mod health_monitor;
pub mod immutability_verifier;
pub mod launch_checklist;
pub mod median_oracle;
pub mod minimum_viable_vault;
pub mod money_making_optimizer;
pub mod oracle_coordinator;
pub mod oracle_pnl_updater;
pub mod partial_liquidation;
pub mod polymarket_api_types;
pub mod polymarket_batch_fetcher;
pub mod polymarket_dispute_handler;
pub mod polymarket_fallback_manager;
pub mod polymarket_oracle;
pub mod polymarket_sole_oracle;
pub mod pyth_oracle;
pub mod quantum_collapse_handler;
pub mod rand;
pub mod rate_limiter;
pub mod request_security;
pub mod text;
pub mod vampire_attack_protection;

verus! {

} // verus!
