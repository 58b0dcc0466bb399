//! Events of the integration layer.
use vstd::prelude::*;

verus! {

/// The system coordinator was initialised.
#[derive(Clone, Copy, Debug)]
pub struct CoordinatorInitializedEvent {
    pub admin: [u8; 32],
    pub components: u32,
}

/// Bootstrap progress towards the target vault.
#[derive(Clone, Copy, Debug)]
pub struct BootstrapProgressEvent {
    pub vault_balance: u64,
    pub target: u64,
    pub progress_pct: u64,
}

/// The bootstrap phase started.
#[derive(Clone, Copy, Debug)]
pub struct BootstrapStartedEvent {
    pub target_vault: u64,
    pub incentive_pool: u64,
}

/// A deposit during the bootstrap phase.
#[derive(Clone, Copy, Debug)]
pub struct BootstrapDepositEvent {
    pub depositor: [u8; 32],
    pub amount: u64,
    pub vault_balance: u64,
    pub mmt_earned: u64,
}

/// The bootstrap phase completed.
#[derive(Clone, Copy, Debug)]
pub struct BootstrapCompleteEvent {
    pub coverage: u64,
    pub max_leverage: u64,
}

/// The bootstrap phase completed, with totals.
#[derive(Clone, Copy, Debug)]
pub struct BootstrapCompleteDetailedEvent {
    pub final_vault: u64,
    pub total_depositors: u32,
    pub duration_slots: u64,
    pub mmt_distributed: u64,
}

/// A system health check ran.
#[derive(Clone, Copy, Debug)]
pub struct SystemHealthCheckEvent {
    pub status: u8,
    pub components_healthy: u8,
    pub slot: u64,
}

/// The health of a component changed.
#[derive(Clone, Copy, Debug)]
pub struct ComponentHealthUpdateEvent {
    pub component_name: [u8; 32],
    pub status: u8,
    pub latency_ms: u64,
    pub throughput: u64,
}

/// An emergency shutdown.
#[derive(Clone, Debug)]
pub struct EmergencyShutdownEvent {
    pub reason: String,
    pub admin: [u8; 32],
    pub slot: u64,
}

/// A batch of markets was processed.
#[derive(Clone, Copy, Debug)]
pub struct MarketBatchProcessedEvent {
    pub batch_size: u32,
    pub total_markets: u64,
    pub slot: u64,
}

/// The vault balance changed.
#[derive(Clone, Copy, Debug)]
pub struct VaultBalanceUpdatedEvent {
    pub old_balance: u64,
    pub new_balance: u64,
    pub change: i64,
}

/// An automatic recovery was triggered.
#[derive(Clone, Copy, Debug)]
pub struct AutoRecoveryTriggeredEvent {
    pub component: [u8; 32],
    pub recovery_action: u8,
    pub slot: u64,
}

/// A bootstrap milestone was reached.
#[derive(Clone, Copy, Debug)]
pub struct MilestoneReachedEvent {
    pub milestone: u32,
    pub vault_balance: u64,
}

/// A referral reward was paid.
#[derive(Clone, Copy, Debug)]
pub struct ReferralRewardEvent {
    pub referrer: [u8; 32],
    pub referred: [u8; 32],
    pub reward: u64,
}

/// A health check completed.
#[derive(Clone, Copy, Debug)]
pub struct HealthCheckCompleteEvent {
    pub status: u8,
    pub components_healthy: u8,
    pub slot: u64,
}

} // verus!
