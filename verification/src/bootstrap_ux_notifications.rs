//! What the user interface shows during the bootstrap phase: the phase
//! status, progress, notifications, feature availability and risk level.
use vstd::prelude::*;
use crate::bootstrap_coordinator::BootstrapCoordinator;
use crate::bootstrap_vault_initialization::BootstrapVaultState;
use crate::minimum_viable_vault::{VaultViabilityState, VaultViabilityTracker};
use crate::text::{
    push_decimal, push_fixed1, push_fixed2, f64_fixed_div, spec_decimal, spec_f64_fixed, spec_fixed1, spec_fixed2,
};
use crate::vampire_attack_protection::VampireAttackDetector;

verus! {

/// Kinds of notification.
#[derive(Clone, Copy, Debug, PartialEq, Eq, Structural)]
pub enum BootstrapNotificationType {
    Info,
    Success,
    Warning,
    Alert,
    Critical,
}

/// Phase of the bootstrap as shown to users.
#[derive(Clone, Copy, Debug, PartialEq, Eq, Structural)]
pub enum BootstrapPhaseStatus {
    NotStarted,
    Active,
    NearingCompletion,
    Complete,
    Halted,
}

/// Risk level indicator.
#[derive(Clone, Copy, Debug, PartialEq, Eq, Structural)]
pub enum RiskLevel {
    Low,
    Medium,
    High,
    Critical,
}

/// One notification.
#[derive(Clone, Debug)]
pub struct BootstrapNotification {
    pub notification_type: BootstrapNotificationType,
    pub title: String,
    pub message: String,
    pub action_required: bool,
    pub timestamp: i64,
    pub expires_at: Option<i64>,
}

/// Feature availability.
#[derive(Clone, Copy, Debug)]
pub struct FeatureStatus {
    pub deposits_enabled: bool,
    pub trading_enabled: bool,
    pub leverage_available: u8,
    pub liquidations_enabled: bool,
    pub chains_enabled: bool,
    pub withdrawals_enabled: bool,
}

/// Security status.
#[derive(Clone, Copy, Debug)]
pub struct SecurityStatus {
    pub coverage_ratio: u64,
    pub vampire_protection_active: bool,
    pub recent_attacks: u32,
    pub risk_level: RiskLevel,
}

/// Everything the bootstrap banner displays.
#[derive(Clone, Debug)]
pub struct BootstrapBannerState {
    pub phase_status: BootstrapPhaseStatus,
    /// Progress towards the minimum viable vault, in percent.
    pub progress_percentage: u64,
    pub current_balance: u64,
    pub target_balance: u64,
    /// Estimated slots until the target is reached.
    pub estimated_time_remaining: Option<u64>,
    pub depositor_count: u32,
    pub mmt_distributed: u64,
    pub mmt_remaining: u64,
    pub notifications: Vec<BootstrapNotification>,
    pub features_enabled: FeatureStatus,
    pub security_status: SecurityStatus,
}

/// The content of a notification, with its texts as character sequences.
pub ghost struct NotificationModel {
    pub notification_type: BootstrapNotificationType,
    pub title: Seq<char>,
    pub message: Seq<char>,
    pub action_required: bool,
    pub timestamp: i64,
    pub expires_at: Option<i64>,
}

/// The content of a notification.
pub open spec fn spec_notification_model(n: BootstrapNotification) -> NotificationModel {
    NotificationModel {
        notification_type: n.notification_type,
        title: n.title@,
        message: n.message@,
        action_required: n.action_required,
        timestamp: n.timestamp,
        expires_at: n.expires_at,
    }
}

/// The contents of a list of notifications.
pub open spec fn spec_models(v: Seq<BootstrapNotification>) -> Seq<NotificationModel> {
    v.map_values(|n: BootstrapNotification| spec_notification_model(n))
}

/// A notification that needs no action.
pub open spec fn spec_note(
    ty: BootstrapNotificationType,
    title: Seq<char>,
    message: Seq<char>,
    ts: i64,
    expires_at: Option<i64>,
) -> NotificationModel {
    NotificationModel { notification_type: ty, title, message, action_required: false, timestamp: ts, expires_at }
}

/// Progress towards the minimum viable size, in percent (0 when no size is set).
pub open spec fn spec_progress(v: BootstrapVaultState) -> int {
    if v.minimum_viable_size > 0 { (v.total_deposits * 100) / (v.minimum_viable_size as int) } else { 0 }
}

/// The phase shown for a coordinator and vault at a given progress.
pub open spec fn spec_phase_status(
    c: BootstrapCoordinator,
    v: BootstrapVaultState,
    progress: u64,
) -> BootstrapPhaseStatus {
    if c.halted {
        BootstrapPhaseStatus::Halted
    } else if v.bootstrap_complete {
        BootstrapPhaseStatus::Complete
    } else if progress >= 90 {
        BootstrapPhaseStatus::NearingCompletion
    } else if v.is_bootstrap_phase {
        BootstrapPhaseStatus::Active
    } else {
        BootstrapPhaseStatus::NotStarted
    }
}

/// Text of the notification that the bootstrap is under way.
pub open spec fn spec_active_message(total: u64) -> Seq<char> {
    "Help us reach $10k to unlock full platform features! Current: $"@
        + spec_fixed2(spec_f64_fixed(total as nat, 1_000_000_000, 100)) + "k"@
}

/// Text of the notification that the target is close.
pub open spec fn spec_almost_message(remaining: u64) -> Seq<char> {
    "Only $"@ + spec_fixed2(spec_f64_fixed(remaining as nat, 1_000_000_000, 100))
        + "k to go! Platform will be fully operational soon."@
}

/// Text of the notification of MMT still to be earned.
pub open spec fn spec_mmt_message(remaining_mmt: u64) -> Seq<char> {
    spec_decimal(remaining_mmt as nat / 1_000_000) + " MMT remaining for early depositors!"@
}

/// Text of the low-coverage warning.
pub open spec fn spec_coverage_message(coverage_ratio: u64) -> Seq<char> {
    "Coverage ratio at "@ + spec_fixed1(spec_f64_fixed(coverage_ratio as nat, 10000, 10))
        + ". Platform features may be restricted."@
}

/// The notification about the bootstrap phase, if any.
pub open spec fn spec_phase_notes(v: BootstrapVaultState, progress: u64, ts: i64) -> Seq<NotificationModel> {
    if v.is_bootstrap_phase && !v.bootstrap_complete {
        if progress < 50 {
            seq![spec_note(BootstrapNotificationType::Info, "Bootstrap Phase Active"@,
                spec_active_message(v.total_deposits), ts, None)]
        } else if progress >= 90 {
            seq![spec_note(BootstrapNotificationType::Success, "Almost There!"@,
                spec_almost_message((v.minimum_viable_size - v.total_deposits) as u64), ts, None)]
        } else {
            Seq::empty()
        }
    } else {
        Seq::empty()
    }
}

/// The notification about remaining MMT rewards, if any.
pub open spec fn spec_mmt_notes(c: BootstrapCoordinator, v: BootstrapVaultState, ts: i64) -> Seq<NotificationModel> {
    if c.total_incentive_pool > v.total_mmt_distributed {
        seq![spec_note(BootstrapNotificationType::Success, "MMT Rewards Available"@,
            spec_mmt_message((c.total_incentive_pool - v.total_mmt_distributed) as u64), ts, None)]
    } else {
        Seq::empty()
    }
}

/// The security alert, if an attack was detected.
pub open spec fn spec_attack_notes(d: VampireAttackDetector, ts: i64) -> Seq<NotificationModel> {
    if d.attack_detected_slot is Some {
        seq![spec_note(BootstrapNotificationType::Critical, "Security Alert"@,
            "Vampire attack detected. Withdrawals temporarily restricted."@, ts,
            if d.recovery_allowed_slot is Some { Some((ts + 1200) as i64) } else { None })]
    } else {
        Seq::empty()
    }
}

/// The low-coverage warning, if coverage is below 0.7.
pub open spec fn spec_coverage_notes(v: BootstrapVaultState, ts: i64) -> Seq<NotificationModel> {
    if v.coverage_ratio < 7000 {
        seq![spec_note(BootstrapNotificationType::Warning, "Low Coverage Warning"@,
            spec_coverage_message(v.coverage_ratio), ts, None)]
    } else {
        Seq::empty()
    }
}

/// The notification about the viability state, if any.
pub open spec fn spec_feature_notes(state: VaultViabilityState, ts: i64) -> Seq<NotificationModel> {
    match state {
        VaultViabilityState::NearingViability => seq![spec_note(BootstrapNotificationType::Info,
            "Trading Unlocked Soon"@, "Basic trading features will be available once we reach $10k"@, ts, None)],
        VaultViabilityState::MinimumViable => seq![spec_note(BootstrapNotificationType::Success,
            "Platform Operational!"@, "Trading, leverage, and liquidations are now enabled."@, ts,
            Some((ts + 3600) as i64))],
        VaultViabilityState::FullyOperational => seq![spec_note(BootstrapNotificationType::Success,
            "All Features Unlocked!"@, "Chain positions and advanced features are now available."@, ts,
            Some((ts + 3600) as i64))],
        VaultViabilityState::Degraded => seq![NotificationModel {
            notification_type: BootstrapNotificationType::Alert,
            title: "Vault Degraded"@,
            message: "Vault has fallen below minimum. Only position closing allowed."@,
            action_required: true,
            timestamp: ts,
            expires_at: None,
        }],
        VaultViabilityState::Bootstrap => Seq::empty(),
    }
}

/// All notifications, in display order.
pub open spec fn spec_notifications(
    c: BootstrapCoordinator,
    v: BootstrapVaultState,
    t: VaultViabilityTracker,
    d: VampireAttackDetector,
    progress: u64,
    ts: i64,
) -> Seq<NotificationModel> {
    spec_phase_notes(v, progress, ts) + spec_mmt_notes(c, v, ts) + spec_attack_notes(d, ts)
        + spec_coverage_notes(v, ts) + spec_feature_notes(t.state, ts)
}

/// The inputs on which the notifications can be built: the amount still
/// missing is only shown when the target is not exceeded, and expiry times
/// fit the timestamp type.
pub open spec fn spec_notifications_defined(
    v: BootstrapVaultState,
    t: VaultViabilityTracker,
    d: VampireAttackDetector,
    progress: u64,
    ts: i64,
) -> bool {
    &&& (v.is_bootstrap_phase && !v.bootstrap_complete && progress >= 90) ==> v.total_deposits
        <= v.minimum_viable_size
    &&& (d.attack_detected_slot is Some && d.recovery_allowed_slot is Some) ==> ts + 1200 <= i64::MAX
    &&& (t.state == VaultViabilityState::MinimumViable || t.state == VaultViabilityState::FullyOperational)
        ==> ts + 3600 <= i64::MAX
}

/// The risk level for a coverage ratio and detector state.
pub open spec fn spec_risk_level(coverage_ratio: u64, d: VampireAttackDetector) -> RiskLevel {
    if d.attack_detected_slot is Some {
        RiskLevel::Critical
    } else if coverage_ratio < 5000 {
        RiskLevel::High
    } else if coverage_ratio < 7000 {
        RiskLevel::Medium
    } else {
        RiskLevel::Low
    }
}

/// Average deposit used for the completion estimate ($1k when nobody has deposited).
pub open spec fn spec_average_deposit(v: BootstrapVaultState) -> int {
    if v.depositor_count > 0 { (v.total_deposits as int) / (v.depositor_count as int) } else { 1_000_000_000 }
}

/// Estimated slots until the target: one deposit of the average size per
/// hundred slots; none once the target is reached.
pub open spec fn spec_completion_estimate(v: BootstrapVaultState) -> Option<int> {
    if v.bootstrap_complete || v.total_deposits >= v.minimum_viable_size {
        None
    } else {
        Some(((v.minimum_viable_size - v.total_deposits) / spec_average_deposit(v)) * 100)
    }
}

/// The inputs on which the estimate can be computed: a nonzero average and
/// a result that fits in 64 bits.
pub open spec fn spec_estimate_defined(v: BootstrapVaultState) -> bool {
    !(v.bootstrap_complete || v.total_deposits >= v.minimum_viable_size) ==> {
        &&& spec_average_deposit(v) > 0
        &&& ((v.minimum_viable_size - v.total_deposits) / spec_average_deposit(v)) * 100 <= u64::MAX
    }
}

/// Determines the phase status.
pub fn determine_phase_status(
    coordinator: &BootstrapCoordinator,
    vault: &BootstrapVaultState,
    progress_percentage: u64,
) -> (r: BootstrapPhaseStatus)
    ensures
        r == spec_phase_status(*coordinator, *vault, progress_percentage),
{
    if coordinator.halted {
        BootstrapPhaseStatus::Halted
    } else if vault.bootstrap_complete {
        BootstrapPhaseStatus::Complete
    } else if progress_percentage >= 90 {
        BootstrapPhaseStatus::NearingCompletion
    } else if vault.is_bootstrap_phase {
        BootstrapPhaseStatus::Active
    } else {
        BootstrapPhaseStatus::NotStarted
    }
}

fn make_note(
    ty: BootstrapNotificationType,
    title: &str,
    message: String,
    action_required: bool,
    ts: i64,
    expires_at: Option<i64>,
) -> (r: BootstrapNotification)
    ensures
        spec_notification_model(r) == (NotificationModel {
            notification_type: ty,
            title: title@,
            message: message@,
            action_required,
            timestamp: ts,
            expires_at,
        }),
{
    BootstrapNotification {
        notification_type: ty,
        title: String::from_str(title),
        message,
        action_required,
        timestamp: ts,
        expires_at,
    }
}

fn push_note(list: &mut Vec<BootstrapNotification>, n: BootstrapNotification)
    ensures
        spec_models(final(list)@) == spec_models(old(list)@).push(spec_notification_model(n)),
{
    let ghost m = spec_notification_model(n);
    list.push(n);
    assert(spec_models(list@) =~= spec_models(old(list)@).push(m));
}

fn active_message(total: u64) -> (r: String)
    ensures
        r@ == spec_active_message(total),
{
    let mut s = String::from_str("Help us reach $10k to unlock full platform features! Current: $");
    push_fixed2(&mut s, f64_fixed_div(total, 1_000_000_000, 100));
    s.append("k");
    s
}

fn almost_message(remaining: u64) -> (r: String)
    ensures
        r@ == spec_almost_message(remaining),
{
    let mut s = String::from_str("Only $");
    push_fixed2(&mut s, f64_fixed_div(remaining, 1_000_000_000, 100));
    s.append("k to go! Platform will be fully operational soon.");
    s
}

fn mmt_message(remaining_mmt: u64) -> (r: String)
    ensures
        r@ == spec_mmt_message(remaining_mmt),
{
    let mut s = String::new();
    push_decimal(&mut s, remaining_mmt / 1_000_000);
    s.append(" MMT remaining for early depositors!");
    assert(s@ =~= spec_mmt_message(remaining_mmt));
    s
}

fn coverage_message(coverage_ratio: u64) -> (r: String)
    ensures
        r@ == spec_coverage_message(coverage_ratio),
{
    let mut s = String::from_str("Coverage ratio at ");
    push_fixed1(&mut s, f64_fixed_div(coverage_ratio, 10000, 10));
    s.append(". Platform features may be restricted.");
    s
}

/// Builds the notifications for the current state, in display order: the
/// bootstrap phase, remaining MMT rewards, a detected attack, low coverage,
/// and the viability state.
pub fn build_notifications(
    coordinator: &BootstrapCoordinator,
    vault: &BootstrapVaultState,
    tracker: &VaultViabilityTracker,
    detector: &VampireAttackDetector,
    progress_percentage: u64,
    current_timestamp: i64,
) -> (r: Vec<BootstrapNotification>)
    requires
        spec_notifications_defined(*vault, *tracker, *detector, progress_percentage, current_timestamp),
    ensures
        spec_models(r@) == spec_notifications(*coordinator, *vault, *tracker, *detector,
            progress_percentage, current_timestamp),
{
    let ts = current_timestamp;
    let mut notifications: Vec<BootstrapNotification> = Vec::new();
    assert(spec_models(notifications@) =~= Seq::<NotificationModel>::empty());

    if vault.is_bootstrap_phase && !vault.bootstrap_complete {
        if progress_percentage < 50 {
            let n = make_note(BootstrapNotificationType::Info, "Bootstrap Phase Active",
                active_message(vault.total_deposits), false, ts, None);
            push_note(&mut notifications, n);
        } else if progress_percentage >= 90 {
            let n = make_note(BootstrapNotificationType::Success, "Almost There!",
                almost_message(vault.minimum_viable_size - vault.total_deposits), false, ts, None);
            push_note(&mut notifications, n);
        }
    }
    let ghost p1 = spec_phase_notes(*vault, progress_percentage, ts);
    assert(spec_models(notifications@) =~= p1);

    if coordinator.total_incentive_pool > vault.total_mmt_distributed {
        let remaining_mmt = coordinator.total_incentive_pool - vault.total_mmt_distributed;
        let n = make_note(BootstrapNotificationType::Success, "MMT Rewards Available",
            mmt_message(remaining_mmt), false, ts, None);
        push_note(&mut notifications, n);
    }
    let ghost p2 = p1 + spec_mmt_notes(*coordinator, *vault, ts);
    assert(spec_models(notifications@) =~= p2);

    if detector.attack_detected_slot.is_some() {
        let expires = if detector.recovery_allowed_slot.is_some() { Some(ts + 1200) } else { None };
        let n = make_note(BootstrapNotificationType::Critical, "Security Alert",
            String::from_str("Vampire attack detected. Withdrawals temporarily restricted."), false, ts,
            expires);
        push_note(&mut notifications, n);
    }
    let ghost p3 = p2 + spec_attack_notes(*detector, ts);
    assert(spec_models(notifications@) =~= p3);

    if vault.coverage_ratio < 7000 {
        let n = make_note(BootstrapNotificationType::Warning, "Low Coverage Warning",
            coverage_message(vault.coverage_ratio), false, ts, None);
        push_note(&mut notifications, n);
    }
    let ghost p4 = p3 + spec_coverage_notes(*vault, ts);
    assert(spec_models(notifications@) =~= p4);

    match tracker.state {
        VaultViabilityState::NearingViability => {
            let n = make_note(BootstrapNotificationType::Info, "Trading Unlocked Soon",
                String::from_str("Basic trading features will be available once we reach $10k"), false, ts,
                None);
            push_note(&mut notifications, n);
        },
        VaultViabilityState::MinimumViable => {
            let n = make_note(BootstrapNotificationType::Success, "Platform Operational!",
                String::from_str("Trading, leverage, and liquidations are now enabled."), false, ts,
                Some(ts + 3600));
            push_note(&mut notifications, n);
        },
        VaultViabilityState::FullyOperational => {
            let n = make_note(BootstrapNotificationType::Success, "All Features Unlocked!",
                String::from_str("Chain positions and advanced features are now available."), false, ts,
                Some(ts + 3600));
            push_note(&mut notifications, n);
        },
        VaultViabilityState::Degraded => {
            let n = make_note(BootstrapNotificationType::Alert, "Vault Degraded",
                String::from_str("Vault has fallen below minimum. Only position closing allowed."), true, ts,
                None);
            push_note(&mut notifications, n);
        },
        VaultViabilityState::Bootstrap => {},
    }
    assert(spec_models(notifications@) =~= p4 + spec_feature_notes(tracker.state, ts));
    notifications
}

/// Grades the risk from the coverage ratio and the detector.
pub fn calculate_risk_level(coverage_ratio: u64, detector: &VampireAttackDetector) -> (r: RiskLevel)
    ensures
        r == spec_risk_level(coverage_ratio, *detector),
{
    if detector.attack_detected_slot.is_some() {
        RiskLevel::Critical
    } else if coverage_ratio < 5000 {
        RiskLevel::High
    } else if coverage_ratio < 7000 {
        RiskLevel::Medium
    } else {
        RiskLevel::Low
    }
}

/// Estimates the slots until the target is reached.
pub fn estimate_completion_time(
    vault: &BootstrapVaultState,
    coordinator: &BootstrapCoordinator,
) -> (r: Option<u64>)
    requires
        spec_estimate_defined(*vault),
    ensures
        match spec_completion_estimate(*vault) {
            None => r is None,
            Some(e) => r == Some(e as u64),
        },
{
    if vault.bootstrap_complete || vault.total_deposits >= vault.minimum_viable_size {
        return None;
    }
    let remaining_amount = vault.minimum_viable_size - vault.total_deposits;
    let average_deposit = if vault.depositor_count > 0 {
        vault.total_deposits / (vault.depositor_count as u64)
    } else {
        1_000_000_000
    };
    let deposits_needed = remaining_amount / average_deposit;
    Some(deposits_needed * 100)
}

/// The icon shown before a notification of each kind.
pub open spec fn spec_icon(ty: BootstrapNotificationType) -> Seq<char> {
    match ty {
        BootstrapNotificationType::Info => "ℹ️"@,
        BootstrapNotificationType::Success => "✅"@,
        BootstrapNotificationType::Warning => "⚠️"@,
        BootstrapNotificationType::Alert => "🚨"@,
        BootstrapNotificationType::Critical => "🛑"@,
    }
}

fn icon(ty: BootstrapNotificationType) -> (r: &'static str)
    ensures
        r@ == spec_icon(ty),
{
    match ty {
        BootstrapNotificationType::Info => "ℹ️",
        BootstrapNotificationType::Success => "✅",
        BootstrapNotificationType::Warning => "⚠️",
        BootstrapNotificationType::Alert => "🚨",
        BootstrapNotificationType::Critical => "🛑",
    }
}

/// Renders a notification as `icon title - message`.
pub fn format_notification_display(notification: &BootstrapNotification) -> (r: String)
    ensures
        r@ == spec_icon(notification.notification_type) + " "@ + notification.title@ + " - "@
            + notification.message@,
{
    let mut s = String::from_str(icon(notification.notification_type));
    s.append(" ");
    s.append(notification.title.as_str());
    s.append(" - ");
    s.append(notification.message.as_str());
    s
}

/// The milestones, each with its label and the balance that reaches it.
pub open spec fn spec_milestones() -> Seq<(Seq<char>, u64)> {
    seq![
        ("$1k - Basic Trading"@, 1_000_000_000u64),
        ("$2.5k - 2.5x Leverage"@, 2_500_000_000u64),
        ("$5k - 5x Leverage"@, 5_000_000_000u64),
        ("$7.5k - 7.5x Leverage"@, 7_500_000_000u64),
        ("$10k - Full Platform"@, 10_000_000_000u64),
        ("$20k - Chain Positions"@, 20_000_000_000u64),
    ]
}

fn milestone(label: &str, reached: bool) -> (r: (String, bool))
    ensures
        r.0@ == label@,
        r.1 == reached,
{
    (String::from_str(label), reached)
}

/// Lists the milestones with whether the balance has reached each one.
pub fn get_milestone_progress(current_balance: u64) -> (r: Vec<(String, bool)>)
    ensures
        r.len() == spec_milestones().len(),
        forall|i: int|
            0 <= i < r.len() ==> r@[i].0@ == spec_milestones()[i].0 && r@[i].1 == (current_balance
                >= spec_milestones()[i].1),
{
    let mut r: Vec<(String, bool)> = Vec::new();
    r.push(milestone("$1k - Basic Trading", current_balance >= 1_000_000_000));
    r.push(milestone("$2.5k - 2.5x Leverage", current_balance >= 2_500_000_000));
    r.push(milestone("$5k - 5x Leverage", current_balance >= 5_000_000_000));
    r.push(milestone("$7.5k - 7.5x Leverage", current_balance >= 7_500_000_000));
    r.push(milestone("$10k - Full Platform", current_balance >= 10_000_000_000));
    r.push(milestone("$20k - Chain Positions", current_balance >= 20_000_000_000));
    r
}

/// The inputs on which the banner can be computed: progress fits in 64
/// bits, and the notifications and estimate are defined.
pub open spec fn spec_ui_state_defined(
    c: BootstrapCoordinator,
    v: BootstrapVaultState,
    t: VaultViabilityTracker,
    d: VampireAttackDetector,
    ts: i64,
) -> bool {
    &&& v.minimum_viable_size > 0 ==> v.total_deposits * 100 <= u64::MAX
    &&& spec_notifications_defined(v, t, d, spec_progress(v) as u64, ts)
    &&& spec_estimate_defined(v)
}

/// Computes the banner from the coordinator, vault, viability tracker and
/// attack detector at the given time and slot.
pub fn get_bootstrap_ui_state(
    coordinator: &BootstrapCoordinator,
    vault: &BootstrapVaultState,
    tracker: &VaultViabilityTracker,
    detector: &VampireAttackDetector,
    current_timestamp: i64,
    current_slot: u64,
) -> (r: BootstrapBannerState)
    requires
        spec_ui_state_defined(*coordinator, *vault, *tracker, *detector, current_timestamp),
    ensures
        r.progress_percentage == spec_progress(*vault),
        r.phase_status == spec_phase_status(*coordinator, *vault, r.progress_percentage),
        r.current_balance == vault.total_deposits,
        r.target_balance == vault.minimum_viable_size,
        match spec_completion_estimate(*vault) {
            None => r.estimated_time_remaining is None,
            Some(e) => r.estimated_time_remaining == Some(e as u64),
        },
        r.depositor_count == vault.depositor_count,
        r.mmt_distributed == vault.total_mmt_distributed,
        r.mmt_remaining == (if coordinator.total_incentive_pool > vault.total_mmt_distributed {
            coordinator.total_incentive_pool - vault.total_mmt_distributed
        } else {
            0
        }),
        spec_models(r.notifications@) == spec_notifications(*coordinator, *vault, *tracker, *detector,
            r.progress_percentage, current_timestamp),
        r.features_enabled.deposits_enabled == (vault.is_accepting_deposits && !coordinator.halted),
        r.features_enabled.trading_enabled == tracker.enabled_features.trading_enabled,
        r.features_enabled.leverage_available == tracker.enabled_features.max_leverage,
        r.features_enabled.liquidations_enabled == tracker.enabled_features.liquidations_enabled,
        r.features_enabled.chains_enabled == tracker.enabled_features.chain_positions_enabled,
        r.features_enabled.withdrawals_enabled == match detector.recovery_allowed_slot {
            None => true,
            Some(slot) => current_slot >= slot,
        },
        r.security_status.coverage_ratio == vault.coverage_ratio,
        r.security_status.vampire_protection_active == detector.protection_active,
        r.security_status.recent_attacks == detector.total_attacks_prevented,
        r.security_status.risk_level == spec_risk_level(vault.coverage_ratio, *detector),
{
    let progress_percentage = if vault.minimum_viable_size > 0 {
        (vault.total_deposits * 100) / vault.minimum_viable_size
    } else {
        0
    };
    let phase_status = determine_phase_status(coordinator, vault, progress_percentage);
    let notifications = build_notifications(coordinator, vault, tracker, detector, progress_percentage,
        current_timestamp);
    let withdrawals_enabled = match detector.recovery_allowed_slot {
        None => true,
        Some(slot) => current_slot >= slot,
    };
    let features_enabled = FeatureStatus {
        deposits_enabled: vault.is_accepting_deposits && !coordinator.halted,
        trading_enabled: tracker.enabled_features.trading_enabled,
        leverage_available: tracker.enabled_features.max_leverage,
        liquidations_enabled: tracker.enabled_features.liquidations_enabled,
        chains_enabled: tracker.enabled_features.chain_positions_enabled,
        withdrawals_enabled,
    };
    let coverage_ratio = vault.coverage_ratio;
    let risk_level = calculate_risk_level(coverage_ratio, detector);
    let security_status = SecurityStatus {
        coverage_ratio,
        vampire_protection_active: detector.protection_active,
        recent_attacks: detector.total_attacks_prevented,
        risk_level,
    };
    let estimated_time_remaining = estimate_completion_time(vault, coordinator);
    BootstrapBannerState {
        phase_status,
        progress_percentage,
        current_balance: vault.total_deposits,
        target_balance: vault.minimum_viable_size,
        estimated_time_remaining,
        depositor_count: vault.depositor_count,
        mmt_distributed: vault.total_mmt_distributed,
        mmt_remaining: coordinator.total_incentive_pool.saturating_sub(vault.total_mmt_distributed),
        notifications,
        features_enabled,
        security_status,
    }
}

} // verus!
