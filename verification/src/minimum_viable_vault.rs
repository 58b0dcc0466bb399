//! Vault viability: the vault's balance decides its state (bootstrap,
//! nearing viability, minimum viable, fully operational, degraded) and the
//! features that are enabled.
use vstd::prelude::*;
use crate::bootstrap_coordinator::BootstrapCoordinator;
use crate::error::BettingPlatformError;

verus! {

/// Minimum viable vault size ($10k, 6 decimals).
pub const MINIMUM_VIABLE_VAULT_SIZE: u64 = 10_000_000_000;
/// Balance that unlocks any leverage ($1k).
pub const LEVERAGE_UNLOCK_THRESHOLD: u64 = 1_000_000_000;
/// Maximum leverage.
pub const MAX_LEVERAGE: u8 = 10;
/// Slots between viability checks.
pub const VIABILITY_CHECK_INTERVAL_SLOTS: u64 = 150;

/// Vault viability states.
#[derive(Clone, Copy, Debug, PartialEq, Eq, Structural)]
pub enum VaultViabilityState {
    Bootstrap,
    NearingViability,
    MinimumViable,
    FullyOperational,
    Degraded,
}

/// Features that can be enabled based on vault size.
#[derive(Clone, Copy, Debug, PartialEq, Eq, Structural)]
pub struct EnabledFeatures {
    pub trading_enabled: bool,
    pub leverage_enabled: bool,
    pub max_leverage: u8,
    pub liquidations_enabled: bool,
    pub chain_positions_enabled: bool,
    pub advanced_orders_enabled: bool,
    pub fee_distribution_enabled: bool,
}

impl Default for EnabledFeatures {
    fn default() -> (r: Self)
        ensures
            r == spec_no_features(),
    {
        EnabledFeatures {
            trading_enabled: false,
            leverage_enabled: false,
            max_leverage: 0,
            liquidations_enabled: false,
            chain_positions_enabled: false,
            advanced_orders_enabled: false,
            fee_distribution_enabled: false,
        }
    }
}

/// Every feature off.
pub open spec fn spec_no_features() -> EnabledFeatures {
    EnabledFeatures {
        trading_enabled: false,
        leverage_enabled: false,
        max_leverage: 0,
        liquidations_enabled: false,
        chain_positions_enabled: false,
        advanced_orders_enabled: false,
        fee_distribution_enabled: false,
    }
}

/// Vault viability tracker.
#[derive(Clone, Copy, Debug)]
pub struct VaultViabilityTracker {
    pub state: VaultViabilityState,
    pub current_balance: u64,
    pub minimum_required: u64,
    /// Time the minimum was first reached.
    pub viability_reached_at: Option<i64>,
    pub degradation_count: u32,
    pub last_check_slot: u64,
    pub enabled_features: EnabledFeatures,
}

/// Features that can be checked.
#[derive(Clone, Copy, Debug)]
pub enum VaultFeature {
    Trading,
    Leverage,
    Liquidations,
    ChainPositions,
    AdvancedOrders,
    FeeDistribution,
}

/// The state a balance puts the vault in: before first viability by the
/// 90% and 100% marks; after it, degraded under the minimum, fully
/// operational from twice the minimum.
pub open spec fn spec_viability_state(balance: u64, was_viable: bool) -> VaultViabilityState {
    let minimum = MINIMUM_VIABLE_VAULT_SIZE;
    let ninety = minimum * 9 / 10;
    if !was_viable {
        if balance < ninety { VaultViabilityState::Bootstrap }
        else if balance < minimum { VaultViabilityState::NearingViability }
        else { VaultViabilityState::MinimumViable }
    } else {
        if balance < minimum { VaultViabilityState::Degraded }
        else if balance < minimum * 2 { VaultViabilityState::MinimumViable }
        else { VaultViabilityState::FullyOperational }
    }
}

/// Determines the viability state for a balance.
pub fn determine_viability_state(balance: u64, tracker: &VaultViabilityTracker, is_bootstrap: bool) -> (r: VaultViabilityState)
    ensures
        r == spec_viability_state(balance, tracker.viability_reached_at is Some),
{
    let minimum = MINIMUM_VIABLE_VAULT_SIZE;
    let ninety_percent = (minimum * 9) / 10;
    if tracker.viability_reached_at.is_none() {
        if balance < ninety_percent {
            VaultViabilityState::Bootstrap
        } else if balance < minimum {
            VaultViabilityState::NearingViability
        } else {
            VaultViabilityState::MinimumViable
        }
    } else {
        if balance < minimum {
            VaultViabilityState::Degraded
        } else if balance < minimum * 2 {
            VaultViabilityState::MinimumViable
        } else {
            VaultViabilityState::FullyOperational
        }
    }
}

/// Maximum leverage for a balance: 0 under $1k, then from 1x rising
/// linearly to 10x at $10k, 10x from $10k.
pub open spec fn spec_max_leverage(balance: u64) -> u8 {
    if balance < LEVERAGE_UNLOCK_THRESHOLD {
        0
    } else if balance < MINIMUM_VIABLE_VAULT_SIZE {
        let lev = 1 + (balance - LEVERAGE_UNLOCK_THRESHOLD) * 9 / ((MINIMUM_VIABLE_VAULT_SIZE - LEVERAGE_UNLOCK_THRESHOLD) as int);
        (if lev < 10 { lev } else { 10 }) as u8
    } else {
        MAX_LEVERAGE
    }
}

/// Maximum leverage available at a vault balance.
pub fn calculate_max_leverage(balance: u64) -> (r: u8)
    ensures
        r == spec_max_leverage(balance),
        r <= MAX_LEVERAGE,
{
    if balance < LEVERAGE_UNLOCK_THRESHOLD {
        0
    } else if balance < MINIMUM_VIABLE_VAULT_SIZE {
        let progress = balance - LEVERAGE_UNLOCK_THRESHOLD;
        let range = MINIMUM_VIABLE_VAULT_SIZE - LEVERAGE_UNLOCK_THRESHOLD;
        let leverage = 1 + (progress * 9) / range;
        (if leverage < 10 { leverage } else { 10 }) as u8
    } else {
        MAX_LEVERAGE
    }
}

/// The features enabled in a state at a balance.
pub open spec fn spec_features(state: VaultViabilityState, balance: u64) -> EnabledFeatures {
    match state {
        VaultViabilityState::Bootstrap => spec_no_features(),
        VaultViabilityState::NearingViability => EnabledFeatures {
            trading_enabled: balance >= LEVERAGE_UNLOCK_THRESHOLD,
            ..spec_no_features()
        },
        VaultViabilityState::MinimumViable => EnabledFeatures {
            trading_enabled: true,
            leverage_enabled: true,
            max_leverage: spec_max_leverage(balance),
            liquidations_enabled: true,
            chain_positions_enabled: false,
            advanced_orders_enabled: false,
            fee_distribution_enabled: true,
        },
        VaultViabilityState::FullyOperational => EnabledFeatures {
            trading_enabled: true,
            leverage_enabled: true,
            max_leverage: MAX_LEVERAGE,
            liquidations_enabled: true,
            chain_positions_enabled: true,
            advanced_orders_enabled: true,
            fee_distribution_enabled: true,
        },
        VaultViabilityState::Degraded => EnabledFeatures {
            trading_enabled: true,
            leverage_enabled: false,
            max_leverage: 0,
            liquidations_enabled: true,
            chain_positions_enabled: false,
            advanced_orders_enabled: false,
            fee_distribution_enabled: true,
        },
    }
}

/// Sets the enabled features from the tracker's state and the balance.
pub fn update_enabled_features(tracker: &mut VaultViabilityTracker, balance: u64)
    ensures
        *final(tracker) == (VaultViabilityTracker { enabled_features: spec_features(old(tracker).state, balance), ..*old(tracker) }),
{
    let features = match tracker.state {
        VaultViabilityState::Bootstrap => EnabledFeatures::default(),
        VaultViabilityState::NearingViability => EnabledFeatures {
            trading_enabled: balance >= LEVERAGE_UNLOCK_THRESHOLD,
            leverage_enabled: false,
            max_leverage: 0,
            liquidations_enabled: false,
            chain_positions_enabled: false,
            advanced_orders_enabled: false,
            fee_distribution_enabled: false,
        },
        VaultViabilityState::MinimumViable => EnabledFeatures {
            trading_enabled: true,
            leverage_enabled: true,
            max_leverage: calculate_max_leverage(balance),
            liquidations_enabled: true,
            chain_positions_enabled: false,
            advanced_orders_enabled: false,
            fee_distribution_enabled: true,
        },
        VaultViabilityState::FullyOperational => EnabledFeatures {
            trading_enabled: true,
            leverage_enabled: true,
            max_leverage: MAX_LEVERAGE,
            liquidations_enabled: true,
            chain_positions_enabled: true,
            advanced_orders_enabled: true,
            fee_distribution_enabled: true,
        },
        VaultViabilityState::Degraded => EnabledFeatures {
            trading_enabled: true,
            leverage_enabled: false,
            max_leverage: 0,
            liquidations_enabled: true,
            chain_positions_enabled: false,
            advanced_orders_enabled: false,
            fee_distribution_enabled: true,
        },
    };
    tracker.enabled_features = features;
}

/// Events a state transition announces.
#[derive(Clone, Copy, Debug, PartialEq, Eq, Structural)]
pub enum ViabilityEvent {
    /// The minimum was reached for the first time.
    ViabilityReached { balance: u64, timestamp: i64, bootstrap_duration_slots: u64 },
    /// The vault fell below the minimum.
    Degraded { balance: u64, minimum_required: u64, degradation_count: u32, timestamp: i64 },
    /// The vault recovered from degradation.
    Recovered { balance: u64, timestamp: i64 },
    /// The vault passed 90% of the minimum.
    NearingViability { balance: u64, target: u64, percent_complete: u64 },
}

/// The effect of a transition: the tracker, the bootstrap coordinator and
/// the event to announce.
pub open spec fn spec_transition(
    from: VaultViabilityState,
    to: VaultViabilityState,
    t: VaultViabilityTracker,
    b: BootstrapCoordinator,
    balance: u64,
    timestamp: i64,
    current_slot: u64,
) -> (VaultViabilityTracker, BootstrapCoordinator, Option<ViabilityEvent>) {
    let t1 = VaultViabilityTracker { state: to, ..t };
    match (from, to) {
        (VaultViabilityState::Bootstrap, VaultViabilityState::MinimumViable)
        | (VaultViabilityState::NearingViability, VaultViabilityState::MinimumViable) => (
            VaultViabilityTracker { viability_reached_at: Some(timestamp), ..t1 },
            BootstrapCoordinator { bootstrap_complete: true, ..b },
            Some(ViabilityEvent::ViabilityReached {
                balance,
                timestamp,
                bootstrap_duration_slots: (current_slot - b.bootstrap_start_slot) as u64,
            }),
        ),
        (VaultViabilityState::MinimumViable, VaultViabilityState::Degraded)
        | (VaultViabilityState::FullyOperational, VaultViabilityState::Degraded) => (
            VaultViabilityTracker { degradation_count: (t.degradation_count + 1) as u32, ..t1 },
            b,
            Some(ViabilityEvent::Degraded {
                balance,
                minimum_required: MINIMUM_VIABLE_VAULT_SIZE,
                degradation_count: (t.degradation_count + 1) as u32,
                timestamp,
            }),
        ),
        (VaultViabilityState::Degraded, VaultViabilityState::MinimumViable)
        | (VaultViabilityState::Degraded, VaultViabilityState::FullyOperational) => (
            t1,
            b,
            Some(ViabilityEvent::Recovered { balance, timestamp }),
        ),
        (VaultViabilityState::Bootstrap, VaultViabilityState::NearingViability) => (
            t1,
            b,
            Some(ViabilityEvent::NearingViability {
                balance,
                target: MINIMUM_VIABLE_VAULT_SIZE,
                percent_complete: (balance * 100 / (MINIMUM_VIABLE_VAULT_SIZE as int)) as u64,
            }),
        ),
        _ => (t1, b, None),
    }
}

/// Moves the tracker to the new state and applies the transition's
/// effects: the first viability completes the bootstrap, a degradation is
/// counted. Returns the event to announce.
pub fn handle_state_transition(
    from: &VaultViabilityState,
    to: &VaultViabilityState,
    tracker: &mut VaultViabilityTracker,
    bootstrap: &mut BootstrapCoordinator,
    balance: u64,
    timestamp: i64,
    current_slot: u64,
) -> (r: Result<Option<ViabilityEvent>, BettingPlatformError>)
    requires
        (*from == VaultViabilityState::Bootstrap || *from == VaultViabilityState::NearingViability)
            && *to == VaultViabilityState::MinimumViable ==> current_slot >= old(bootstrap).bootstrap_start_slot,
        (*from == VaultViabilityState::MinimumViable || *from == VaultViabilityState::FullyOperational)
            && *to == VaultViabilityState::Degraded ==> old(tracker).degradation_count < u32::MAX,
        *from == VaultViabilityState::Bootstrap && *to == VaultViabilityState::NearingViability ==> balance * 100 <= u64::MAX,
    ensures
        r is Ok,
        (*final(tracker), *final(bootstrap), r.unwrap()) == spec_transition(
            *from, *to, *old(tracker), *old(bootstrap), balance, timestamp, current_slot,
        ),
{
    tracker.state = *to;
    match (from, to) {
        (VaultViabilityState::Bootstrap, VaultViabilityState::MinimumViable)
        | (VaultViabilityState::NearingViability, VaultViabilityState::MinimumViable) => {
            tracker.viability_reached_at = Some(timestamp);
            bootstrap.bootstrap_complete = true;
            Ok(Some(ViabilityEvent::ViabilityReached {
                balance,
                timestamp,
                bootstrap_duration_slots: current_slot - bootstrap.bootstrap_start_slot,
            }))
        },
        (VaultViabilityState::MinimumViable, VaultViabilityState::Degraded)
        | (VaultViabilityState::FullyOperational, VaultViabilityState::Degraded) => {
            tracker.degradation_count = tracker.degradation_count + 1;
            Ok(Some(ViabilityEvent::Degraded {
                balance,
                minimum_required: MINIMUM_VIABLE_VAULT_SIZE,
                degradation_count: tracker.degradation_count,
                timestamp,
            }))
        },
        (VaultViabilityState::Degraded, VaultViabilityState::MinimumViable)
        | (VaultViabilityState::Degraded, VaultViabilityState::FullyOperational) => {
            Ok(Some(ViabilityEvent::Recovered { balance, timestamp }))
        },
        (VaultViabilityState::Bootstrap, VaultViabilityState::NearingViability) => {
            Ok(Some(ViabilityEvent::NearingViability {
                balance,
                target: MINIMUM_VIABLE_VAULT_SIZE,
                percent_complete: (balance * 100) / MINIMUM_VIABLE_VAULT_SIZE,
            }))
        },
        _ => Ok(None),
    }
}

/// Bitmap of the enabled features: trading, leverage, liquidations, chain
/// positions, advanced orders, fee distribution in bits 0 to 5.
pub open spec fn spec_features_bitmap(f: EnabledFeatures) -> u8 {
    ((if f.trading_enabled { 1int } else { 0 }) + (if f.leverage_enabled { 2int } else { 0 })
        + (if f.liquidations_enabled { 4int } else { 0 }) + (if f.chain_positions_enabled { 8int } else { 0 })
        + (if f.advanced_orders_enabled { 16int } else { 0 }) + (if f.fee_distribution_enabled { 32int } else { 0 })) as u8
}

/// Encodes the enabled features as a bitmap.
pub fn encode_features_bitmap(features: &EnabledFeatures) -> (r: u8)
    ensures
        r == spec_features_bitmap(*features),
{
    let mut bitmap: u8 = 0;
    if features.trading_enabled { bitmap = bitmap + 1; }
    if features.leverage_enabled { bitmap = bitmap + 2; }
    if features.liquidations_enabled { bitmap = bitmap + 4; }
    if features.chain_positions_enabled { bitmap = bitmap + 8; }
    if features.advanced_orders_enabled { bitmap = bitmap + 16; }
    if features.fee_distribution_enabled { bitmap = bitmap + 32; }
    bitmap
}

/// A tracker in the bootstrap state with nothing enabled.
pub fn initialize_viability_tracker() -> (r: VaultViabilityTracker)
    ensures
        r == (VaultViabilityTracker {
            state: VaultViabilityState::Bootstrap,
            current_balance: 0,
            minimum_required: MINIMUM_VIABLE_VAULT_SIZE,
            viability_reached_at: None,
            degradation_count: 0,
            last_check_slot: 0,
            enabled_features: spec_no_features(),
        }),
{
    VaultViabilityTracker {
        state: VaultViabilityState::Bootstrap,
        current_balance: 0,
        minimum_required: MINIMUM_VIABLE_VAULT_SIZE,
        viability_reached_at: None,
        degradation_count: 0,
        last_check_slot: 0,
        enabled_features: EnabledFeatures::default(),
    }
}

/// Whether a feature is enabled in the tracker.
pub fn is_feature_enabled(tracker: &VaultViabilityTracker, feature: VaultFeature) -> (r: Result<bool, BettingPlatformError>)
    ensures
        r == Ok::<bool, BettingPlatformError>(match feature {
            VaultFeature::Trading => tracker.enabled_features.trading_enabled,
            VaultFeature::Leverage => tracker.enabled_features.leverage_enabled,
            VaultFeature::Liquidations => tracker.enabled_features.liquidations_enabled,
            VaultFeature::ChainPositions => tracker.enabled_features.chain_positions_enabled,
            VaultFeature::AdvancedOrders => tracker.enabled_features.advanced_orders_enabled,
            VaultFeature::FeeDistribution => tracker.enabled_features.fee_distribution_enabled,
        }),
{
    let enabled = match feature {
        VaultFeature::Trading => tracker.enabled_features.trading_enabled,
        VaultFeature::Leverage => tracker.enabled_features.leverage_enabled,
        VaultFeature::Liquidations => tracker.enabled_features.liquidations_enabled,
        VaultFeature::ChainPositions => tracker.enabled_features.chain_positions_enabled,
        VaultFeature::AdvancedOrders => tracker.enabled_features.advanced_orders_enabled,
        VaultFeature::FeeDistribution => tracker.enabled_features.fee_distribution_enabled,
    };
    Ok(enabled)
}

/// What a viability check announces.
#[derive(Clone, Copy, Debug)]
pub struct ViabilityCheckOutcome {
    /// The transition event, when the state changed and it has one.
    pub transition_event: Option<ViabilityEvent>,
    pub state: VaultViabilityState,
    pub current_balance: u64,
    pub minimum_required: u64,
    pub enabled_features_bitmap: u8,
    pub timestamp: i64,
}

/// Runs a viability check at `current_slot`: nothing happens (and `None`
/// is returned) before the check interval has passed; otherwise the tracker
/// records the balance, moves to the state the balance gives (applying the
/// transition's effects) and enables the state's features.
pub fn check_vault_viability(
    tracker: &mut VaultViabilityTracker,
    bootstrap: &mut BootstrapCoordinator,
    vault_total_deposits: u64,
    is_bootstrap_phase: bool,
    current_slot: u64,
    timestamp: i64,
) -> (r: Result<Option<ViabilityCheckOutcome>, BettingPlatformError>)
    requires
        old(tracker).last_check_slot + VIABILITY_CHECK_INTERVAL_SLOTS <= u64::MAX,
        current_slot >= old(bootstrap).bootstrap_start_slot,
        old(tracker).degradation_count < u32::MAX,
    ensures
        r is Ok,
        current_slot < old(tracker).last_check_slot + VIABILITY_CHECK_INTERVAL_SLOTS ==> {
            &&& r == Ok::<Option<ViabilityCheckOutcome>, BettingPlatformError>(None)
            &&& *final(tracker) == *old(tracker)
            &&& *final(bootstrap) == *old(bootstrap)
        },
        current_slot >= old(tracker).last_check_slot + VIABILITY_CHECK_INTERVAL_SLOTS ==> {
            let t0 = VaultViabilityTracker { current_balance: vault_total_deposits, last_check_slot: current_slot, ..*old(tracker) };
            let to = spec_viability_state(vault_total_deposits, t0.viability_reached_at is Some);
            let (t1, b1, ev) = if old(tracker).state != to {
                spec_transition(old(tracker).state, to, t0, *old(bootstrap), vault_total_deposits, timestamp, current_slot)
            } else {
                (t0, *old(bootstrap), None)
            };
            let features = spec_features(t1.state, vault_total_deposits);
            &&& *final(tracker) == (VaultViabilityTracker { enabled_features: features, ..t1 })
            &&& *final(bootstrap) == b1
            &&& r matches Ok(Some(o)) && o == (ViabilityCheckOutcome {
                transition_event: ev,
                state: to,
                current_balance: vault_total_deposits,
                minimum_required: MINIMUM_VIABLE_VAULT_SIZE,
                enabled_features_bitmap: spec_features_bitmap(features),
                timestamp,
            })
        },
{
    if current_slot < tracker.last_check_slot + VIABILITY_CHECK_INTERVAL_SLOTS {
        return Ok(None);
    }
    tracker.current_balance = vault_total_deposits;
    tracker.last_check_slot = current_slot;
    let previous_state = tracker.state;
    let new_state = determine_viability_state(vault_total_deposits, tracker, is_bootstrap_phase);
    let mut event: Option<ViabilityEvent> = None;
    if previous_state != new_state {
        assert(vault_total_deposits * 100 <= u64::MAX || new_state != VaultViabilityState::NearingViability);
        event = handle_state_transition(
            &previous_state,
            &new_state,
            tracker,
            bootstrap,
            vault_total_deposits,
            timestamp,
            current_slot,
        )?;
    }
    update_enabled_features(tracker, vault_total_deposits);
    Ok(Some(ViabilityCheckOutcome {
        transition_event: event,
        state: new_state,
        current_balance: vault_total_deposits,
        minimum_required: MINIMUM_VIABLE_VAULT_SIZE,
        enabled_features_bitmap: encode_features_bitmap(&tracker.enabled_features),
        timestamp,
    }))
}

/// Once the vault has been viable it never returns to the bootstrap or
/// nearing-viability states, whatever its balance.
pub proof fn lemma_viable_never_bootstrap(balance: u64)
    ensures
        spec_viability_state(balance, true) != VaultViabilityState::Bootstrap,
        spec_viability_state(balance, true) != VaultViabilityState::NearingViability,
{
}

/// Maximum leverage never decreases as the balance grows and stays within
/// 0..=10.
pub proof fn lemma_max_leverage_monotone(a: u64, b: u64)
    requires
        a <= b,
    ensures
        spec_max_leverage(a) <= spec_max_leverage(b),
        spec_max_leverage(b) <= MAX_LEVERAGE,
{
    if LEVERAGE_UNLOCK_THRESHOLD <= a && b < MINIMUM_VIABLE_VAULT_SIZE {
        assert((a - LEVERAGE_UNLOCK_THRESHOLD) * 9 <= (b - LEVERAGE_UNLOCK_THRESHOLD) * 9);
        vstd::arithmetic::div_mod::lemma_div_is_ordered(
            (a - LEVERAGE_UNLOCK_THRESHOLD) * 9,
            (b - LEVERAGE_UNLOCK_THRESHOLD) * 9,
            9_000_000_000,
        );
    }
    if LEVERAGE_UNLOCK_THRESHOLD <= b && b < MINIMUM_VIABLE_VAULT_SIZE {
        vstd::arithmetic::div_mod::lemma_div_is_ordered(
            (b - LEVERAGE_UNLOCK_THRESHOLD) * 9,
            81_000_000_000int,
            9_000_000_000,
        );
    }
}

} // verus!
