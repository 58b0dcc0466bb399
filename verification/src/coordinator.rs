//! System coordinator: bootstraps the platform, activates it once the vault
//! is seeded, takes batches of market updates and tracks system health.
use vstd::prelude::*;
use crate::bytes::bytes_eq;
use crate::error::BettingPlatformError;

verus! {

/// Coverage at which leverage is enabled (1.0).
pub const BOOTSTRAP_COVERAGE_TARGET: u64 = 10000;
/// Vault balance that completes the bootstrap ($1k).
pub const BOOTSTRAP_SEED_AMOUNT: u64 = 1_000_000_000;
/// Leverage enabled once coverage reaches 1.0.
pub const MIN_LEVERAGE_MULTIPLIER: u64 = 10;
/// Market updates taken from one batch.
pub const MARKET_BATCH_SIZE: usize = 50;
pub const MAX_BATCH_SIZE: usize = 100;
/// Slots between health checks (about 60 seconds).
pub const HEALTH_CHECK_INTERVAL: u64 = 150;
/// Compute units of one batch.
pub const MAX_GAS_PER_BATCH: u64 = 1_400_000;
/// Coverage reported when there is no open interest.
pub const COVERAGE_WITHOUT_INTEREST: u64 = 1_000_000;
/// Component accounts the bootstrap needs.
pub const REQUIRED_COMPONENT_ACCOUNTS: usize = 6;

/// System status.
#[derive(Clone, Copy, Debug, PartialEq, Eq, Structural)]
pub enum SystemStatus {
    Initializing,
    Bootstrapping,
    Active,
    Degraded,
    Critical,
    Halted,
}

/// Global configuration kept by the coordinator.
#[derive(Clone, Copy, Debug)]
pub struct GlobalConfig {
    pub admin: [u8; 32],
    pub epoch: u64,
    /// Coverage in basis points (10000 = 1.0).
    pub coverage: u64,
    pub total_markets: u64,
    pub total_verses: u64,
    pub mmt_supply: u64,
    pub season_allocation: u64,
    pub status: SystemStatus,
    pub last_update_slot: u64,
    pub vault_balance: u64,
    pub total_open_interest: u64,
    pub total_fees_collected: u64,
    pub total_liquidations: u64,
    pub max_leverage: u64,
    pub halt_state: bool,
    pub halt_reason: u8,
    pub polymarket_connected: bool,
    pub websocket_connected: bool,
}

/// Coordinator of all system components.
#[derive(Clone, Copy, Debug)]
pub struct SystemCoordinator {
    pub global_config: GlobalConfig,
    pub amm_engine_pubkey: [u8; 32],
    pub routing_engine_pubkey: [u8; 32],
    pub queue_processor_pubkey: [u8; 32],
    pub keeper_registry_pubkey: [u8; 32],
    pub health_monitor_pubkey: [u8; 32],
    pub correlation_calc_pubkey: [u8; 32],
    pub bootstrap_complete: bool,
    pub system_initialized: bool,
    pub last_health_check: u64,
}

/// One market's update.
#[derive(Clone, Copy, Debug)]
pub struct MarketUpdate {
    pub market_id: [u8; 32],
    pub yes_price: u64,
    pub no_price: u64,
    pub volume_24h: u64,
    pub liquidity: u64,
    pub timestamp: i64,
}

/// Coverage in basis points: `vault * 10000 / open_interest`, kept to 64
/// bits, and `COVERAGE_WITHOUT_INTEREST` without open interest.
pub open spec fn spec_system_coverage(vault: u64, oi: u64) -> u64 {
    if oi == 0 { COVERAGE_WITHOUT_INTEREST } else { ((vault * 10000) / (oi as int)) as u64 }
}

/// The coordinator after the bootstrap completes.
pub open spec fn spec_completed(c: SystemCoordinator) -> SystemCoordinator {
    if c.bootstrap_complete {
        c
    } else {
        let cov = spec_system_coverage(c.global_config.vault_balance, c.global_config.total_open_interest);
        SystemCoordinator {
            global_config: GlobalConfig {
                coverage: cov,
                max_leverage: if cov >= 10000 { MIN_LEVERAGE_MULTIPLIER } else { c.global_config.max_leverage },
                status: SystemStatus::Active,
                ..c.global_config
            },
            bootstrap_complete: true,
            ..c
        }
    }
}

impl SystemCoordinator {
    pub const SIZE: usize = 32 + 32 + 32 + 32 + 32 + 32 + 32 + 1 + 1 + 8;

    /// Records the component accounts and a fresh configuration with `admin`.
    pub fn initialize(
        &mut self,
        admin: &[u8; 32],
        amm_engine: &[u8; 32],
        routing_engine: &[u8; 32],
        queue_processor: &[u8; 32],
        keeper_registry: &[u8; 32],
        health_monitor: &[u8; 32],
        correlation_calc: &[u8; 32],
        current_slot: u64,
    ) -> (r: Result<(), BettingPlatformError>)
        ensures
            r is Ok,
            final(self).amm_engine_pubkey == *amm_engine,
            final(self).routing_engine_pubkey == *routing_engine,
            final(self).queue_processor_pubkey == *queue_processor,
            final(self).keeper_registry_pubkey == *keeper_registry,
            final(self).health_monitor_pubkey == *health_monitor,
            final(self).correlation_calc_pubkey == *correlation_calc,
            final(self).global_config == (GlobalConfig {
                admin: *admin,
                epoch: 1,
                coverage: 0,
                total_markets: 0,
                total_verses: 0,
                mmt_supply: 1_000_000_000_000_000,
                season_allocation: 10_000_000_000_000,
                status: SystemStatus::Initializing,
                last_update_slot: current_slot,
                vault_balance: 0,
                total_open_interest: 0,
                total_fees_collected: 0,
                total_liquidations: 0,
                max_leverage: 0,
                halt_state: false,
                halt_reason: 0,
                polymarket_connected: false,
                websocket_connected: false,
            }),
            final(self).system_initialized,
            !final(self).bootstrap_complete,
            final(self).last_health_check == current_slot,
    {
        self.amm_engine_pubkey = *amm_engine;
        self.routing_engine_pubkey = *routing_engine;
        self.queue_processor_pubkey = *queue_processor;
        self.keeper_registry_pubkey = *keeper_registry;
        self.health_monitor_pubkey = *health_monitor;
        self.correlation_calc_pubkey = *correlation_calc;
        self.global_config = GlobalConfig {
            admin: *admin,
            epoch: 1,
            coverage: 0,
            total_markets: 0,
            total_verses: 0,
            mmt_supply: 1_000_000_000_000_000,
            season_allocation: 10_000_000_000_000,
            status: SystemStatus::Initializing,
            last_update_slot: current_slot,
            vault_balance: 0,
            total_open_interest: 0,
            total_fees_collected: 0,
            total_liquidations: 0,
            max_leverage: 0,
            halt_state: false,
            halt_reason: 0,
            polymarket_connected: false,
            websocket_connected: false,
        };
        self.system_initialized = true;
        self.bootstrap_complete = false;
        self.last_health_check = current_slot;
        Ok(())
    }

    /// The bootstrap needs all component accounts.
    fn verify_components_ready(&self, num_accounts: usize) -> (r: Result<(), BettingPlatformError>)
        ensures
            r is Ok <==> num_accounts >= REQUIRED_COMPONENT_ACCOUNTS,
            r matches Err(e) ==> e == BettingPlatformError::InsufficientAccounts,
    {
        if num_accounts < REQUIRED_COMPONENT_ACCOUNTS {
            return Err(BettingPlatformError::InsufficientAccounts);
        }
        Ok(())
    }

    /// Starts the bootstrap with `num_accounts` component accounts at
    /// `current_slot`, completing it at once when the vault is already
    /// seeded.
    pub fn bootstrap_system(&mut self, num_accounts: usize, current_slot: u64) -> (r: Result<(), BettingPlatformError>)
        ensures
            old(self).bootstrap_complete ==> r == Err::<(), BettingPlatformError>(BettingPlatformError::BootstrapAlreadyComplete)
                && *final(self) == *old(self),
            !old(self).bootstrap_complete && num_accounts < REQUIRED_COMPONENT_ACCOUNTS ==> r == Err::<(), BettingPlatformError>(
                BettingPlatformError::InsufficientAccounts) && *final(self) == *old(self),
            !old(self).bootstrap_complete && num_accounts >= REQUIRED_COMPONENT_ACCOUNTS ==> r is Ok && ({
                let started = SystemCoordinator {
                    global_config: GlobalConfig {
                        status: SystemStatus::Bootstrapping,
                        last_update_slot: current_slot,
                        ..old(self).global_config
                    },
                    ..*old(self)
                };
                *final(self) == if started.global_config.vault_balance >= BOOTSTRAP_SEED_AMOUNT {
                    spec_completed(started)
                } else {
                    started
                }
            }),
    {
        if self.bootstrap_complete {
            return Err(BettingPlatformError::BootstrapAlreadyComplete);
        }
        match self.verify_components_ready(num_accounts) {
            Ok(()) => {},
            Err(e) => return Err(e),
        }
        self.global_config.status = SystemStatus::Bootstrapping;
        self.global_config.last_update_slot = current_slot;
        if self.global_config.vault_balance >= BOOTSTRAP_SEED_AMOUNT {
            match self.complete_bootstrap() {
                Ok(()) => {},
                Err(e) => return Err(e),
            }
        }
        Ok(())
    }

    /// Activates the system, enabling 10x leverage when coverage is at least
    /// 1.0; does nothing once the bootstrap is complete.
    pub fn complete_bootstrap(&mut self) -> (r: Result<(), BettingPlatformError>)
        ensures
            r is Ok,
            *final(self) == spec_completed(*old(self)),
    {
        if self.bootstrap_complete {
            return Ok(());
        }
        let coverage = self.calculate_coverage();
        self.global_config.coverage = coverage;
        if coverage >= 10000 {
            self.global_config.max_leverage = MIN_LEVERAGE_MULTIPLIER;
        }
        self.global_config.status = SystemStatus::Active;
        self.bootstrap_complete = true;
        Ok(())
    }

    /// Takes up to `MARKET_BATCH_SIZE` updates of a batch.
    pub fn process_market_batch(&mut self, market_updates: &[MarketUpdate], current_slot: u64) -> (r: Result<(), BettingPlatformError>)
        requires
            old(self).system_initialized ==> old(self).global_config.total_markets + (if market_updates@.len()
                < MARKET_BATCH_SIZE { market_updates@.len() as int } else { MARKET_BATCH_SIZE as int }) <= u64::MAX,
        ensures
            !old(self).system_initialized ==> r == Err::<(), BettingPlatformError>(BettingPlatformError::SystemNotInitialized)
                && *final(self) == *old(self),
            old(self).system_initialized ==> r is Ok && *final(self) == (SystemCoordinator {
                global_config: GlobalConfig {
                    total_markets: (old(self).global_config.total_markets + (if market_updates@.len() < MARKET_BATCH_SIZE {
                        market_updates@.len() as int
                    } else {
                        MARKET_BATCH_SIZE as int
                    })) as u64,
                    last_update_slot: current_slot,
                    ..old(self).global_config
                },
                ..*old(self)
            }),
    {
        if !self.system_initialized {
            return Err(BettingPlatformError::SystemNotInitialized);
        }
        let mut processed: usize = 0;
        while processed < market_updates.len() && processed < MARKET_BATCH_SIZE
            invariant
                processed <= market_updates@.len(),
                processed <= MARKET_BATCH_SIZE,
            decreases MARKET_BATCH_SIZE - processed,
        {
            Self::update_market_data(&market_updates[processed]);
            processed = processed + 1;
        }
        self.global_config.total_markets = self.global_config.total_markets + processed as u64;
        self.global_config.last_update_slot = current_slot;
        Ok(())
    }

    /// Runs the component checks: a failed check degrades the system, and a
    /// passing round restores a degraded one.
    pub fn health_check(&mut self, current_slot: u64) -> (r: Result<(), BettingPlatformError>)
        ensures
            r is Ok,
            final(self).global_config.status == (if old(self).global_config.status == SystemStatus::Degraded {
                SystemStatus::Active
            } else {
                old(self).global_config.status
            }),
            *final(self) == (SystemCoordinator {
                global_config: GlobalConfig { status: final(self).global_config.status, ..old(self).global_config },
                last_health_check: current_slot,
                ..*old(self)
            }),
    {
        let all_healthy = self.check_amm_health() && self.check_routing_health() && self.check_queue_health()
            && self.check_keeper_health();
        if !all_healthy {
            self.global_config.status = SystemStatus::Degraded;
        } else if self.global_config.status == SystemStatus::Degraded {
            self.global_config.status = SystemStatus::Active;
        }
        self.last_health_check = current_slot;
        Ok(())
    }

    /// Halts the system on the admin's signed request.
    pub fn emergency_shutdown(&mut self, caller: &[u8; 32], caller_signed: bool) -> (r: Result<(), BettingPlatformError>)
        ensures
            !caller_signed ==> r == Err::<(), BettingPlatformError>(BettingPlatformError::MissingRequiredSignature)
                && *final(self) == *old(self),
            caller_signed && caller@ != old(self).global_config.admin@ ==> r == Err::<(), BettingPlatformError>(
                BettingPlatformError::UnauthorizedAdmin) && *final(self) == *old(self),
            caller_signed && caller@ == old(self).global_config.admin@ ==> r is Ok && *final(self) == (SystemCoordinator {
                global_config: GlobalConfig { status: SystemStatus::Halted, halt_state: true, ..old(self).global_config },
                ..*old(self)
            }),
    {
        if !caller_signed {
            return Err(BettingPlatformError::MissingRequiredSignature);
        }
        if !bytes_eq(caller, &self.global_config.admin) {
            return Err(BettingPlatformError::UnauthorizedAdmin);
        }
        self.global_config.status = SystemStatus::Halted;
        self.global_config.halt_state = true;
        Ok(())
    }

    /// Coverage of the vault over the open interest.
    fn calculate_coverage(&self) -> (r: u64)
        ensures
            r == spec_system_coverage(self.global_config.vault_balance, self.global_config.total_open_interest),
    {
        if self.global_config.total_open_interest == 0 {
            return COVERAGE_WITHOUT_INTEREST;
        }
        let raw: u128 = (self.global_config.vault_balance as u128 * 10000) / self.global_config.total_open_interest as u128;
        raw as u64
    }

    /// Market updates are applied by the market modules; the coordinator
    /// only counts them.
    fn update_market_data(_update: &MarketUpdate) {
    }

    /// The AMM engine reports healthy.
    fn check_amm_health(&self) -> (r: bool)
        ensures
            r,
    {
        true
    }

    /// The routing engine reports healthy.
    fn check_routing_health(&self) -> (r: bool)
        ensures
            r,
    {
        true
    }

    /// The priority queue reports healthy.
    fn check_queue_health(&self) -> (r: bool)
        ensures
            r,
    {
        true
    }

    /// The keeper network reports healthy.
    fn check_keeper_health(&self) -> (r: bool)
        ensures
            r,
    {
        true
    }
}

/// Completing the bootstrap twice is the same as once; it leaves the
/// bootstrap complete and the vault untouched.
pub proof fn lemma_completed_is_idempotent(c: SystemCoordinator)
    ensures
        spec_completed(spec_completed(c)) == spec_completed(c),
        spec_completed(c).bootstrap_complete,
        spec_completed(c).global_config.vault_balance == c.global_config.vault_balance,
{
}

} // verus!
