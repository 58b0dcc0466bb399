//! Launch checklist: the items to check before and after launch, phase by
//! phase, automated checks, manual confirmations, the go/no-go decision and
//! the launch report.
use vstd::prelude::*;
use crate::error::BettingPlatformError;
use crate::text::str_contains;

verus! {

/// Number of launch phases.
pub const LAUNCH_PHASES: u8 = 5;
/// Number of critical checks planned.
pub const CRITICAL_CHECKS: u32 = 25;
/// Warnings tolerated.
pub const WARNING_THRESHOLD: u32 = 5;
/// Score (basis points) needed for a go.
pub const MINIMUM_GO_SCORE: u16 = 9000;
/// Rollback window in slots.
pub const ROLLBACK_WINDOW: u64 = 7200;

/// Status of the launch.
#[derive(Clone, Copy, Debug, PartialEq, Eq, Structural)]
pub enum LaunchStatus {
    PreLaunch,
    InProgress,
    Completed,
    Failed,
    RolledBack,
}

/// Launch phases, in order.
#[derive(Clone, Copy, Debug, PartialEq, Eq, Structural)]
pub enum LaunchPhase {
    Preparation,
    Testing,
    FinalConfig,
    Launch,
    PostLaunch,
}

/// Check categories.
#[derive(Clone, Copy, Debug, PartialEq, Eq, Structural)]
pub enum CheckCategory {
    Infrastructure,
    Security,
    Configuration,
    Oracle,
    Testing,
    Performance,
    Authority,
    Vault,
    Keeper,
    Monitoring,
    Documentation,
    System,
    Markets,
    Communication,
}

/// Status of a checklist item.
#[derive(Clone, Copy, Debug, PartialEq, Eq, Structural)]
pub enum CheckStatus {
    Pending,
    Completed,
    Failed,
    Warning,
    Skipped,
}

/// Result of an automated check.
#[derive(Clone, Copy, Debug, PartialEq, Eq, Structural)]
pub enum CheckResult {
    Pass,
    Fail,
    Warning,
}

/// The go/no-go choice.
#[derive(Clone, Copy, Debug, PartialEq, Eq, Structural)]
pub enum GoNoGo {
    Go,
    NoGo,
    ConditionalGo,
}

impl Default for GoNoGo {
    fn default() -> (r: Self)
        ensures
            r == GoNoGo::NoGo,
    {
        GoNoGo::NoGo
    }
}

/// One item of the checklist.
#[derive(Clone, Debug)]
pub struct ChecklistItem {
    pub phase: LaunchPhase,
    pub category: CheckCategory,
    pub description: String,
    pub is_critical: bool,
    pub status: CheckStatus,
    pub automated: bool,
}

impl ChecklistItem {
    pub const SIZE: usize = 1 + 1 + 100 + 1 + 1 + 1;
}

/// Record of an automated check.
#[derive(Clone, Debug)]
pub struct AutomatedCheck {
    pub item_description: String,
    pub check_time: i64,
    pub result: CheckResult,
    pub details: String,
}

impl AutomatedCheck {
    pub const SIZE: usize = 100 + 8 + 1 + 200;
}

/// A manual confirmation of an item.
#[derive(Clone, Debug)]
pub struct ManualConfirmation {
    pub item_description: String,
    pub confirmed: bool,
    pub approver: [u8; 32],
    pub confirmation_time: i64,
}

impl ManualConfirmation {
    pub const SIZE: usize = 100 + 1 + 32 + 8;
}

/// The go/no-go decision.
#[derive(Clone, Debug)]
pub struct GoNoGoDecision {
    pub decision: GoNoGo,
    pub score: u16,
    pub critical_failures: u32,
    pub warnings: u32,
    pub decision_time: i64,
    pub approvers: Vec<[u8; 32]>,
}

impl GoNoGoDecision {
    pub const SIZE: usize = 1 + 2 + 4 + 4 + 8 + 4 + 32 * 5;
}

impl Default for GoNoGoDecision {
    fn default() -> (r: Self)
        ensures
            r.decision == GoNoGo::NoGo,
            r.score == 0,
            r.critical_failures == 0,
            r.warnings == 0,
            r.decision_time == 0,
            r.approvers@.len() == 0,
    {
        GoNoGoDecision {
            decision: GoNoGo::NoGo,
            score: 0,
            critical_failures: 0,
            warnings: 0,
            decision_time: 0,
            approvers: Vec::new(),
        }
    }
}

/// Launch metrics.
#[derive(Clone, Copy, Debug, PartialEq, Eq, Structural)]
pub struct LaunchMetrics {
    pub checks_completed: u32,
    pub checks_failed: u32,
    pub warnings_count: u32,
    pub time_elapsed: u64,
    pub phases_completed: u8,
}

impl LaunchMetrics {
    pub const SIZE: usize = 4 + 4 + 4 + 8 + 1;
}

impl Default for LaunchMetrics {
    fn default() -> (r: Self)
        ensures
            r == (LaunchMetrics {
                checks_completed: 0,
                checks_failed: 0,
                warnings_count: 0,
                time_elapsed: 0,
                phases_completed: 0,
            }),
    {
        LaunchMetrics { checks_completed: 0, checks_failed: 0, warnings_count: 0, time_elapsed: 0, phases_completed: 0 }
    }
}

/// A step of the rollback plan.
#[derive(Clone, Debug)]
pub struct RollbackStep {
    pub step_description: String,
    pub is_automated: bool,
    pub estimated_time: u64,
}

impl RollbackStep {
    pub const SIZE: usize = 100 + 1 + 8;
}

/// The rollback plan.
#[derive(Clone, Debug)]
pub struct RollbackPlan {
    pub rollback_steps: Vec<RollbackStep>,
    pub estimated_rollback_time: u64,
    pub rollback_authority: Option<[u8; 32]>,
}

impl RollbackPlan {
    pub const SIZE: usize = 4 + 10 * RollbackStep::SIZE + 8 + 33;

    /// Carries out the rollback steps; none can fail.
    pub fn execute(&self) -> (r: Result<(), BettingPlatformError>)
        ensures
            r is Ok,
    {
        Ok(())
    }
}

impl Default for RollbackPlan {
    fn default() -> (r: Self)
        ensures
            r.rollback_steps@.len() == 0,
            r.estimated_rollback_time == 0,
            r.rollback_authority is None,
    {
        RollbackPlan { rollback_steps: Vec::new(), estimated_rollback_time: 0, rollback_authority: None }
    }
}

/// The report of a checklist run.
#[derive(Clone, Debug)]
pub struct LaunchReport {
    pub launch_id: u128,
    pub current_phase: LaunchPhase,
    pub launch_status: LaunchStatus,
    pub overall_progress: u16,
    pub phase_progress: u16,
    pub critical_items: Vec<ChecklistItem>,
    pub pending_items: Vec<ChecklistItem>,
    pub failed_items: Vec<ChecklistItem>,
    pub warnings: Vec<ChecklistItem>,
    pub go_no_go_decision: GoNoGoDecision,
    pub estimated_completion: i64,
    pub next_actions: Vec<String>,
}

/// The launch checklist and its progress.
#[derive(Clone, Debug)]
pub struct LaunchChecklist {
    pub launch_id: u128,
    pub launch_status: LaunchStatus,
    pub current_phase: LaunchPhase,
    pub checklist_items: Vec<ChecklistItem>,
    pub automated_checks: Vec<AutomatedCheck>,
    pub manual_confirmations: Vec<ManualConfirmation>,
    pub go_no_go_decision: GoNoGoDecision,
    pub launch_metrics: LaunchMetrics,
    pub rollback_plan: RollbackPlan,
    pub start_time: i64,
    pub completion_time: Option<i64>,
}

/// A checklist item with its description as characters.
pub ghost struct ItemModel {
    pub phase: LaunchPhase,
    pub category: CheckCategory,
    pub description: Seq<char>,
    pub is_critical: bool,
    pub status: CheckStatus,
    pub automated: bool,
}

/// The content of an item.
pub open spec fn spec_item(i: ChecklistItem) -> ItemModel {
    ItemModel {
        phase: i.phase,
        category: i.category,
        description: i.description@,
        is_critical: i.is_critical,
        status: i.status,
        automated: i.automated,
    }
}

/// The contents of a list of items.
pub open spec fn spec_items(v: Seq<ChecklistItem>) -> Seq<ItemModel> {
    v.map_values(|i: ChecklistItem| spec_item(i))
}

/// A pending item of the template.
pub open spec fn spec_template_item(
    phase: LaunchPhase,
    category: CheckCategory,
    description: Seq<char>,
    is_critical: bool,
    automated: bool,
) -> ItemModel {
    ItemModel { phase, category, description, is_critical, status: CheckStatus::Pending, automated }
}

/// The checklist every launch starts from, phase by phase.
pub open spec fn spec_checklist_template() -> Seq<ItemModel> {
    seq![
        spec_template_item(LaunchPhase::Preparation, CheckCategory::Infrastructure,
            "Verify all Solana accounts initialized"@, true, true),
        spec_template_item(LaunchPhase::Preparation, CheckCategory::Infrastructure,
            "Confirm program deployed to mainnet"@, true, false),
        spec_template_item(LaunchPhase::Preparation, CheckCategory::Security,
            "Security audit completed and passed"@, true, false),
        spec_template_item(LaunchPhase::Preparation, CheckCategory::Configuration,
            "Circuit breakers configured and tested"@, true, true),
        spec_template_item(LaunchPhase::Preparation, CheckCategory::Oracle,
            "Polymarket oracle connection verified"@, true, true),
        spec_template_item(LaunchPhase::Preparation, CheckCategory::Oracle, "Fallback oracle configured"@,
            false, true),
        spec_template_item(LaunchPhase::Testing, CheckCategory::Testing, "All unit tests passing"@, true, true),
        spec_template_item(LaunchPhase::Testing, CheckCategory::Testing, "Integration tests complete"@, true,
            true),
        spec_template_item(LaunchPhase::Testing, CheckCategory::Testing,
            "Stress tests passed at 2x expected load"@, true, true),
        spec_template_item(LaunchPhase::Testing, CheckCategory::Testing, "E2E user journey tests complete"@,
            true, true),
        spec_template_item(LaunchPhase::Testing, CheckCategory::Performance,
            "TPS meets minimum requirements (1000+)"@, true, true),
        spec_template_item(LaunchPhase::Testing, CheckCategory::Performance, "Latency under 100ms p99"@, false,
            true),
        spec_template_item(LaunchPhase::FinalConfig, CheckCategory::Authority,
            "Multisig authorities configured"@, true, false),
        spec_template_item(LaunchPhase::FinalConfig, CheckCategory::Authority,
            "Upgrade authority to be burned"@, true, false),
        spec_template_item(LaunchPhase::FinalConfig, CheckCategory::Vault,
            "Vault funded with minimum balance"@, true, true),
        spec_template_item(LaunchPhase::FinalConfig, CheckCategory::Keeper, "Minimum 3 keepers registered"@,
            true, true),
        spec_template_item(LaunchPhase::FinalConfig, CheckCategory::Monitoring,
            "Monitoring and alerting configured"@, true, false),
        spec_template_item(LaunchPhase::FinalConfig, CheckCategory::Documentation,
            "User documentation published"@, false, false),
        spec_template_item(LaunchPhase::Launch, CheckCategory::System, "System state set to active"@, true,
            true),
        spec_template_item(LaunchPhase::Launch, CheckCategory::Markets, "Initial markets created"@, true,
            false),
        spec_template_item(LaunchPhase::Launch, CheckCategory::Authority, "Upgrade authority burned"@, true,
            true),
        spec_template_item(LaunchPhase::Launch, CheckCategory::Communication,
            "Launch announcement published"@, false, false),
        spec_template_item(LaunchPhase::PostLaunch, CheckCategory::Monitoring, "24-hour monitoring active"@,
            true, false),
        spec_template_item(LaunchPhase::PostLaunch, CheckCategory::Performance,
            "Performance metrics within bounds"@, true, true),
        spec_template_item(LaunchPhase::PostLaunch, CheckCategory::System,
            "No critical incidents in first 24h"@, true, true),
    ]
}

fn push_template_item(
    v: &mut Vec<ChecklistItem>,
    phase: LaunchPhase,
    category: CheckCategory,
    description: &str,
    is_critical: bool,
    automated: bool,
)
    ensures
        spec_items(final(v)@) == spec_items(old(v)@).push(
            spec_template_item(phase, category, description@, is_critical, automated),
        ),
{
    let item = ChecklistItem {
        phase,
        category,
        description: String::from_str(description),
        is_critical,
        status: CheckStatus::Pending,
        automated,
    };
    v.push(item);
    assert(spec_items(v@) =~= spec_items(old(v)@).push(
        spec_template_item(phase, category, description@, is_critical, automated),
    ));
}

/// Which items a query selects.
#[derive(Clone, Copy, Debug, PartialEq, Eq, Structural)]
pub enum ItemFilter {
    InPhase(LaunchPhase),
    CompletedInPhase(LaunchPhase),
    AutomatedPendingInPhase(LaunchPhase),
    CriticalInPhase(LaunchPhase),
    PendingInPhase(LaunchPhase),
    Completed,
    Critical,
    CriticalCompleted,
    CriticalFailed,
    Failed,
    Warning,
    Pending,
}

/// Whether a filter selects an item.
pub open spec fn spec_selects(f: ItemFilter, m: ItemModel) -> bool {
    match f {
        ItemFilter::InPhase(p) => m.phase == p,
        ItemFilter::CompletedInPhase(p) => m.phase == p && m.status == CheckStatus::Completed,
        ItemFilter::AutomatedPendingInPhase(p) => m.phase == p && m.automated && m.status
            == CheckStatus::Pending,
        ItemFilter::CriticalInPhase(p) => m.is_critical && m.phase == p,
        ItemFilter::PendingInPhase(p) => m.status == CheckStatus::Pending && m.phase == p,
        ItemFilter::Completed => m.status == CheckStatus::Completed,
        ItemFilter::Critical => m.is_critical,
        ItemFilter::CriticalCompleted => m.is_critical && m.status == CheckStatus::Completed,
        ItemFilter::CriticalFailed => m.is_critical && m.status == CheckStatus::Failed,
        ItemFilter::Failed => m.status == CheckStatus::Failed,
        ItemFilter::Warning => m.status == CheckStatus::Warning,
        ItemFilter::Pending => m.status == CheckStatus::Pending,
    }
}

/// The items a filter selects, in order.
pub open spec fn spec_select(s: Seq<ItemModel>, f: ItemFilter) -> Seq<ItemModel>
    decreases s.len(),
{
    if s.len() == 0 {
        Seq::empty()
    } else if spec_selects(f, s.last()) {
        spec_select(s.drop_last(), f).push(s.last())
    } else {
        spec_select(s.drop_last(), f)
    }
}

/// How many items a filter selects.
pub open spec fn spec_count(s: Seq<ItemModel>, f: ItemFilter) -> nat {
    spec_select(s, f).len()
}

proof fn lemma_select_step(s: Seq<ItemModel>, f: ItemFilter, i: int)
    requires
        0 <= i < s.len(),
    ensures
        spec_select(s.take(i + 1), f) == (if spec_selects(f, s[i]) {
            spec_select(s.take(i), f).push(s[i])
        } else {
            spec_select(s.take(i), f)
        }),
{
    assert(s.take(i + 1).drop_last() =~= s.take(i));
}

proof fn lemma_select_len(s: Seq<ItemModel>, f: ItemFilter)
    ensures
        spec_select(s, f).len() <= s.len(),
    decreases s.len(),
{
    if s.len() > 0 {
        lemma_select_len(s.drop_last(), f);
    }
}

fn item_selected(f: ItemFilter, item: &ChecklistItem) -> (r: bool)
    ensures
        r == spec_selects(f, spec_item(*item)),
{
    match f {
        ItemFilter::InPhase(p) => item.phase == p,
        ItemFilter::CompletedInPhase(p) => item.phase == p && item.status == CheckStatus::Completed,
        ItemFilter::AutomatedPendingInPhase(p) => item.phase == p && item.automated && item.status
            == CheckStatus::Pending,
        ItemFilter::CriticalInPhase(p) => item.is_critical && item.phase == p,
        ItemFilter::PendingInPhase(p) => item.status == CheckStatus::Pending && item.phase == p,
        ItemFilter::Completed => item.status == CheckStatus::Completed,
        ItemFilter::Critical => item.is_critical,
        ItemFilter::CriticalCompleted => item.is_critical && item.status == CheckStatus::Completed,
        ItemFilter::CriticalFailed => item.is_critical && item.status == CheckStatus::Failed,
        ItemFilter::Failed => item.status == CheckStatus::Failed,
        ItemFilter::Warning => item.status == CheckStatus::Warning,
        ItemFilter::Pending => item.status == CheckStatus::Pending,
    }
}

/// Copies an item.
pub fn clone_item(item: &ChecklistItem) -> (r: ChecklistItem)
    ensures
        spec_item(r) == spec_item(*item),
{
    ChecklistItem {
        phase: item.phase,
        category: item.category,
        description: item.description.clone(),
        is_critical: item.is_critical,
        status: item.status,
        automated: item.automated,
    }
}

/// Counts the items a filter selects.
pub fn count_items(items: &Vec<ChecklistItem>, f: ItemFilter) -> (r: usize)
    ensures
        r == spec_count(spec_items(items@), f),
{
    let ghost s = spec_items(items@);
    let mut n: usize = 0;
    let mut i: usize = 0;
    while i < items.len()
        invariant
            i <= items@.len(),
            s == spec_items(items@),
            n == spec_select(s.take(i as int), f).len(),
            n <= i,
        decreases items@.len() - i,
    {
        proof {
            lemma_select_step(s, f, i as int);
        }
        if item_selected(f, &items[i]) {
            n = n + 1;
        }
        i = i + 1;
    }
    assert(s.take(items@.len() as int) =~= s);
    n
}

/// The items a filter selects, in order.
pub fn filter_items(items: &Vec<ChecklistItem>, f: ItemFilter) -> (r: Vec<ChecklistItem>)
    ensures
        spec_items(r@) == spec_select(spec_items(items@), f),
{
    let ghost s = spec_items(items@);
    let mut out: Vec<ChecklistItem> = Vec::new();
    let mut i: usize = 0;
    while i < items.len()
        invariant
            i <= items@.len(),
            s == spec_items(items@),
            spec_items(out@) == spec_select(s.take(i as int), f),
        decreases items@.len() - i,
    {
        proof {
            lemma_select_step(s, f, i as int);
        }
        if item_selected(f, &items[i]) {
            let c = clone_item(&items[i]);
            let ghost prev = out@;
            out.push(c);
            assert(spec_items(out@) =~= spec_items(prev).push(s[i as int]));
        }
        i = i + 1;
    }
    assert(s.take(items@.len() as int) =~= s);
    out
}

impl LaunchChecklist {
    pub const SIZE: usize = 16 + 1 + 1 + 4 + 100 * ChecklistItem::SIZE + 4 + 50 * AutomatedCheck::SIZE + 4 + 20
        * ManualConfirmation::SIZE + GoNoGoDecision::SIZE + LaunchMetrics::SIZE + RollbackPlan::SIZE + 8 + 9;

    /// The checklist every launch starts from: all items pending.
    pub fn generate_checklist_items(&self) -> (r: Vec<ChecklistItem>)
        ensures
            spec_items(r@) == spec_checklist_template(),
    {
        let mut v: Vec<ChecklistItem> = Vec::new();
        assert(spec_items(v@) =~= Seq::<ItemModel>::empty());
        push_template_item(&mut v, LaunchPhase::Preparation, CheckCategory::Infrastructure,
            "Verify all Solana accounts initialized", true, true);
        push_template_item(&mut v, LaunchPhase::Preparation, CheckCategory::Infrastructure,
            "Confirm program deployed to mainnet", true, false);
        push_template_item(&mut v, LaunchPhase::Preparation, CheckCategory::Security,
            "Security audit completed and passed", true, false);
        push_template_item(&mut v, LaunchPhase::Preparation, CheckCategory::Configuration,
            "Circuit breakers configured and tested", true, true);
        push_template_item(&mut v, LaunchPhase::Preparation, CheckCategory::Oracle,
            "Polymarket oracle connection verified", true, true);
        push_template_item(&mut v, LaunchPhase::Preparation, CheckCategory::Oracle, "Fallback oracle configured",
            false, true);
        push_template_item(&mut v, LaunchPhase::Testing, CheckCategory::Testing, "All unit tests passing", true,
            true);
        push_template_item(&mut v, LaunchPhase::Testing, CheckCategory::Testing, "Integration tests complete",
            true, true);
        push_template_item(&mut v, LaunchPhase::Testing, CheckCategory::Testing,
            "Stress tests passed at 2x expected load", true, true);
        push_template_item(&mut v, LaunchPhase::Testing, CheckCategory::Testing,
            "E2E user journey tests complete", true, true);
        push_template_item(&mut v, LaunchPhase::Testing, CheckCategory::Performance,
            "TPS meets minimum requirements (1000+)", true, true);
        push_template_item(&mut v, LaunchPhase::Testing, CheckCategory::Performance, "Latency under 100ms p99",
            false, true);
        push_template_item(&mut v, LaunchPhase::FinalConfig, CheckCategory::Authority,
            "Multisig authorities configured", true, false);
        push_template_item(&mut v, LaunchPhase::FinalConfig, CheckCategory::Authority,
            "Upgrade authority to be burned", true, false);
        push_template_item(&mut v, LaunchPhase::FinalConfig, CheckCategory::Vault,
            "Vault funded with minimum balance", true, true);
        push_template_item(&mut v, LaunchPhase::FinalConfig, CheckCategory::Keeper,
            "Minimum 3 keepers registered", true, true);
        push_template_item(&mut v, LaunchPhase::FinalConfig, CheckCategory::Monitoring,
            "Monitoring and alerting configured", true, false);
        push_template_item(&mut v, LaunchPhase::FinalConfig, CheckCategory::Documentation,
            "User documentation published", false, false);
        push_template_item(&mut v, LaunchPhase::Launch, CheckCategory::System, "System state set to active",
            true, true);
        push_template_item(&mut v, LaunchPhase::Launch, CheckCategory::Markets, "Initial markets created", true,
            false);
        push_template_item(&mut v, LaunchPhase::Launch, CheckCategory::Authority, "Upgrade authority burned",
            true, true);
        push_template_item(&mut v, LaunchPhase::Launch, CheckCategory::Communication,
            "Launch announcement published", false, false);
        push_template_item(&mut v, LaunchPhase::PostLaunch, CheckCategory::Monitoring,
            "24-hour monitoring active", true, false);
        push_template_item(&mut v, LaunchPhase::PostLaunch, CheckCategory::Performance,
            "Performance metrics within bounds", true, true);
        push_template_item(&mut v, LaunchPhase::PostLaunch, CheckCategory::System,
            "No critical incidents in first 24h", true, true);
        v
    }
}


/// An automated check record with its texts as characters.
pub ghost struct CheckModel {
    pub item_description: Seq<char>,
    pub check_time: i64,
    pub result: CheckResult,
    pub details: Seq<char>,
}

/// The content of an automated check record.
pub open spec fn spec_check(c: AutomatedCheck) -> CheckModel {
    CheckModel { item_description: c.item_description@, check_time: c.check_time, result: c.result, details: c.details@ }
}

/// The contents of a list of automated check records.
pub open spec fn spec_checks(v: Seq<AutomatedCheck>) -> Seq<CheckModel> {
    v.map_values(|c: AutomatedCheck| spec_check(c))
}

/// The record of a passed automated check of an item.
pub open spec fn spec_auto_record(m: ItemModel, time: i64) -> CheckModel {
    CheckModel {
        item_description: m.description,
        check_time: time,
        result: CheckResult::Pass,
        details: "Check completed successfully"@,
    }
}

/// An item after the automated checks of a phase: the pending automated
/// items of the phase pass.
pub open spec fn spec_auto_status(m: ItemModel, phase: LaunchPhase) -> ItemModel {
    if spec_selects(ItemFilter::AutomatedPendingInPhase(phase), m) {
        ItemModel { status: CheckStatus::Completed, ..m }
    } else {
        m
    }
}

/// The items after the automated checks of a phase.
pub open spec fn spec_after_auto(s: Seq<ItemModel>, phase: LaunchPhase) -> Seq<ItemModel> {
    s.map_values(|m: ItemModel| spec_auto_status(m, phase))
}

/// The records the automated checks of a phase add.
pub open spec fn spec_auto_records(s: Seq<ItemModel>, phase: LaunchPhase, time: i64) -> Seq<CheckModel> {
    spec_select(s, ItemFilter::AutomatedPendingInPhase(phase)).map_values(|m: ItemModel| spec_auto_record(m, time))
}

/// A manual confirmation with its description as characters.
pub ghost struct ConfirmationModel {
    pub item_description: Seq<char>,
    pub confirmed: bool,
}

/// The content of a confirmation as the checklist reads it.
pub open spec fn spec_confirmations(v: Seq<ManualConfirmation>) -> Seq<ConfirmationModel> {
    v.map_values(|c: ManualConfirmation| ConfirmationModel { item_description: c.item_description@, confirmed: c.confirmed })
}

/// Whether confirmation `j` is the first one for description `d`.
pub open spec fn spec_first_confirmation(cs: Seq<ConfirmationModel>, d: Seq<char>, j: int) -> bool {
    &&& 0 <= j < cs.len()
    &&& cs[j].item_description == d
    &&& forall|k: int| 0 <= k < j ==> #[trigger] cs[k].item_description != d
}

/// The first confirmation given for description `d`, if any.
pub open spec fn spec_confirmation_for(cs: Seq<ConfirmationModel>, d: Seq<char>) -> Option<bool> {
    if exists|j: int| 0 <= j < cs.len() && #[trigger] cs[j].item_description == d {
        Some(cs[choose|j: int| spec_first_confirmation(cs, d, j)].confirmed)
    } else {
        None
    }
}

/// An item after manual confirmations: a pending manual item of the phase
/// with a confirmation completes, or fails (warns, when not critical) if
/// the confirmation was negative.
pub open spec fn spec_manual_status(m: ItemModel, phase: LaunchPhase, cs: Seq<ConfirmationModel>) -> ItemModel {
    if m.phase == phase && !m.automated && m.status == CheckStatus::Pending {
        match spec_confirmation_for(cs, m.description) {
            Some(confirmed) => ItemModel {
                status: if confirmed {
                    CheckStatus::Completed
                } else if m.is_critical {
                    CheckStatus::Failed
                } else {
                    CheckStatus::Warning
                },
                ..m
            },
            None => m,
        }
    } else {
        m
    }
}

/// The items after manual confirmations.
pub open spec fn spec_after_manual(s: Seq<ItemModel>, phase: LaunchPhase, cs: Seq<ConfirmationModel>) -> Seq<ItemModel> {
    s.map_values(|m: ItemModel| spec_manual_status(m, phase, cs))
}

/// Completion of a phase in basis points (all of it when the phase has no items).
pub open spec fn spec_phase_completion(s: Seq<ItemModel>, phase: LaunchPhase) -> int {
    let n = spec_count(s, ItemFilter::InPhase(phase));
    if n == 0 {
        10000
    } else {
        (spec_count(s, ItemFilter::CompletedInPhase(phase)) * 10000) as int / (n as int)
    }
}

/// Completed items in percent of all items.
pub open spec fn spec_overall_progress(s: Seq<ItemModel>) -> int {
    if s.len() == 0 {
        0
    } else {
        (spec_count(s, ItemFilter::Completed) * 100) as int / (s.len() as int)
    }
}

/// Completed critical items in basis points of all critical items.
pub open spec fn spec_go_score(s: Seq<ItemModel>) -> int {
    let n = spec_count(s, ItemFilter::Critical);
    if n == 0 {
        10000
    } else {
        (spec_count(s, ItemFilter::CriticalCompleted) * 10000) as int / (n as int)
    }
}

/// The decision: no-go on any failed critical item, go at the minimum
/// score, conditional go below it.
pub open spec fn spec_go_decision(s: Seq<ItemModel>) -> GoNoGo {
    if spec_count(s, ItemFilter::CriticalFailed) > 0 {
        GoNoGo::NoGo
    } else if spec_go_score(s) >= MINIMUM_GO_SCORE {
        GoNoGo::Go
    } else {
        GoNoGo::ConditionalGo
    }
}

/// The decision taken on the items at `time`.
pub open spec fn spec_decision_is(d: GoNoGoDecision, s: Seq<ItemModel>, time: i64) -> bool {
    &&& d.decision == spec_go_decision(s)
    &&& d.score == spec_go_score(s)
    &&& d.critical_failures == spec_count(s, ItemFilter::CriticalFailed)
    &&& d.warnings == spec_count(s, ItemFilter::Warning)
    &&& d.decision_time == time
    &&& d.approvers@.len() == 0
}

/// The phase after `p`; the last phase stays.
pub open spec fn spec_next_phase(p: LaunchPhase) -> LaunchPhase {
    match p {
        LaunchPhase::Preparation => LaunchPhase::Testing,
        LaunchPhase::Testing => LaunchPhase::FinalConfig,
        LaunchPhase::FinalConfig => LaunchPhase::Launch,
        LaunchPhase::Launch => LaunchPhase::PostLaunch,
        LaunchPhase::PostLaunch => LaunchPhase::PostLaunch,
    }
}

/// The standing action of each phase.
pub open spec fn spec_phase_action(p: LaunchPhase) -> Seq<char> {
    match p {
        LaunchPhase::Preparation => "Complete all infrastructure setup"@,
        LaunchPhase::Testing => "Run full test suite"@,
        LaunchPhase::FinalConfig => "Configure production parameters"@,
        LaunchPhase::Launch => "Execute launch sequence"@,
        LaunchPhase::PostLaunch => "Monitor system performance"@,
    }
}

/// The next actions: complete each pending critical item of the phase, then
/// the phase's standing action.
pub open spec fn spec_next_actions(s: Seq<ItemModel>, phase: LaunchPhase) -> Seq<Seq<char>> {
    spec_select(spec_select(s, ItemFilter::PendingInPhase(phase)), ItemFilter::Critical).map_values(
        |m: ItemModel| "Complete: "@ + m.description,
    ).push(spec_phase_action(phase))
}

/// The texts of a list of strings.
pub open spec fn spec_strings(v: Seq<String>) -> Seq<Seq<char>> {
    v.map_values(|s: String| s@)
}

/// The counts the checklist's arithmetic needs to stay in range: 16-bit
/// percentages and basis points, 32-bit counters, and a completion time
/// that fits.
pub open spec fn spec_counts_fit(s: Seq<ItemModel>, phase: LaunchPhase, time: i64) -> bool {
    &&& s.len() <= u16::MAX
    &&& spec_count(s, ItemFilter::Completed) * 100 <= u16::MAX
    &&& spec_count(s, ItemFilter::CompletedInPhase(phase)) * 10000 <= u16::MAX
    &&& spec_count(s, ItemFilter::CriticalCompleted) * 10000 <= u16::MAX
    &&& spec_count(s, ItemFilter::Pending) * 300 <= i64::MAX
    &&& time + spec_count(s, ItemFilter::Pending) * 300 <= i64::MAX
}

fn clone_decision(d: &GoNoGoDecision) -> (r: GoNoGoDecision)
    ensures
        r.decision == d.decision,
        r.score == d.score,
        r.critical_failures == d.critical_failures,
        r.warnings == d.warnings,
        r.decision_time == d.decision_time,
        r.approvers@ == d.approvers@,
{
    let mut approvers: Vec<[u8; 32]> = Vec::new();
    let mut i: usize = 0;
    while i < d.approvers.len()
        invariant
            i <= d.approvers@.len(),
            approvers@ == d.approvers@.take(i as int),
        decreases d.approvers@.len() - i,
    {
        approvers.push(d.approvers[i]);
        i = i + 1;
        assert(approvers@ =~= d.approvers@.take(i as int));
    }
    assert(d.approvers@.take(d.approvers@.len() as int) =~= d.approvers@);
    GoNoGoDecision {
        decision: d.decision,
        score: d.score,
        critical_failures: d.critical_failures,
        warnings: d.warnings,
        decision_time: d.decision_time,
        approvers,
    }
}

proof fn lemma_count_monotone(s: Seq<ItemModel>, f: ItemFilter, g: ItemFilter)
    requires
        forall|m: ItemModel| spec_selects(g, m) ==> spec_selects(f, m),
    ensures
        spec_count(s, g) <= spec_count(s, f),
    decreases s.len(),
{
    if s.len() > 0 {
        lemma_count_monotone(s.drop_last(), f, g);
    }
}

impl LaunchChecklist {
    fn verify_accounts_initialized(&self) -> (r: Result<bool, BettingPlatformError>)
        ensures
            r == Ok::<bool, BettingPlatformError>(true),
    {
        Ok(true)
    }

    fn verify_polymarket_connection(&self) -> (r: Result<bool, BettingPlatformError>)
        ensures
            r == Ok::<bool, BettingPlatformError>(true),
    {
        Ok(true)
    }

    fn verify_test_results(&self, test_name: &str) -> (r: Result<bool, BettingPlatformError>)
        ensures
            r == Ok::<bool, BettingPlatformError>(true),
    {
        Ok(true)
    }

    fn verify_performance_metrics(&self, metric: &str) -> (r: Result<bool, BettingPlatformError>)
        ensures
            r == Ok::<bool, BettingPlatformError>(true),
    {
        Ok(true)
    }

    fn verify_vault_balance(&self) -> (r: Result<bool, BettingPlatformError>)
        ensures
            r == Ok::<bool, BettingPlatformError>(true),
    {
        Ok(true)
    }

    fn verify_keeper_count(&self) -> (r: Result<bool, BettingPlatformError>)
        ensures
            r == Ok::<bool, BettingPlatformError>(true),
    {
        Ok(true)
    }

    fn get_check_details(&self, item: &ChecklistItem) -> (r: Result<String, BettingPlatformError>)
        ensures
            r matches Ok(s) && s@ == "Check completed successfully"@,
    {
        Ok(String::from_str("Check completed successfully"))
    }

    /// Runs the automated check of an item by its category. Every probe
    /// this checklist has succeeds, so every check passes.
    pub fn perform_automated_check(&self, item: &ChecklistItem) -> (r: Result<CheckResult, BettingPlatformError>)
        ensures
            r == Ok::<CheckResult, BettingPlatformError>(CheckResult::Pass),
    {
        match item.category {
            CheckCategory::Infrastructure => {
                if str_contains(item.description.as_str(), "accounts initialized") {
                    let ok = match self.verify_accounts_initialized() {
                        Ok(b) => b,
                        Err(e) => return Err(e),
                    };
                    Ok(if ok { CheckResult::Pass } else { CheckResult::Fail })
                } else {
                    Ok(CheckResult::Pass)
                }
            },
            CheckCategory::Oracle => {
                if str_contains(item.description.as_str(), "Polymarket") {
                    let ok = match self.verify_polymarket_connection() {
                        Ok(b) => b,
                        Err(e) => return Err(e),
                    };
                    Ok(if ok { CheckResult::Pass } else { CheckResult::Fail })
                } else {
                    Ok(CheckResult::Pass)
                }
            },
            CheckCategory::Testing => {
                let ok = match self.verify_test_results(item.description.as_str()) {
                    Ok(b) => b,
                    Err(e) => return Err(e),
                };
                Ok(if ok { CheckResult::Pass } else { CheckResult::Fail })
            },
            CheckCategory::Performance => {
                let ok = match self.verify_performance_metrics(item.description.as_str()) {
                    Ok(b) => b,
                    Err(e) => return Err(e),
                };
                Ok(if ok { CheckResult::Pass } else { CheckResult::Fail })
            },
            CheckCategory::Vault => {
                let ok = match self.verify_vault_balance() {
                    Ok(b) => b,
                    Err(e) => return Err(e),
                };
                Ok(if ok { CheckResult::Pass } else { CheckResult::Fail })
            },
            CheckCategory::Keeper => {
                let ok = match self.verify_keeper_count() {
                    Ok(b) => b,
                    Err(e) => return Err(e),
                };
                Ok(if ok { CheckResult::Pass } else { CheckResult::Fail })
            },
            _ => Ok(CheckResult::Pass),
        }
    }

    /// Runs the automated checks of the current phase's pending automated
    /// items at `current_time`, recording each and marking the item
    /// completed (failed or warning when a check does not pass).
    pub fn run_automated_checks(&mut self, current_time: i64) -> (r: Result<(), BettingPlatformError>)
        ensures
            r is Ok,
            spec_items(final(self).checklist_items@) == spec_after_auto(
                spec_items(old(self).checklist_items@),
                old(self).current_phase,
            ),
            spec_checks(final(self).automated_checks@) == spec_checks(old(self).automated_checks@)
                + spec_auto_records(spec_items(old(self).checklist_items@), old(self).current_phase, current_time),
            final(self).current_phase == old(self).current_phase,
            final(self).launch_status == old(self).launch_status,
            final(self).manual_confirmations@ == old(self).manual_confirmations@,
            final(self).completion_time == old(self).completion_time,
            final(self).launch_id == old(self).launch_id,
    {
        let phase = self.current_phase;
        let f = ItemFilter::AutomatedPendingInPhase(phase);
        let mut items: Vec<ChecklistItem> = Vec::new();
        std::mem::swap(&mut items, &mut self.checklist_items);
        let ghost orig = spec_items(items@);
        let ghost checks0 = spec_checks(self.automated_checks@);
        let mut i: usize = 0;
        while i < items.len()
            invariant
                i <= items@.len(),
                items@.len() == orig.len(),
                self.current_phase == phase,
                f == ItemFilter::AutomatedPendingInPhase(phase),
                forall|j: int| 0 <= j < i ==> #[trigger] spec_item(items@[j]) == spec_auto_status(orig[j], phase),
                forall|j: int| i <= j < items@.len() ==> #[trigger] spec_item(items@[j]) == orig[j],
                spec_checks(self.automated_checks@) == checks0 + spec_select(orig.take(i as int), f).map_values(
                    |m: ItemModel| spec_auto_record(m, current_time),
                ),
                self.launch_status == old(self).launch_status,
                self.manual_confirmations@ == old(self).manual_confirmations@,
                self.completion_time == old(self).completion_time,
                self.launch_id == old(self).launch_id,
            decreases items@.len() - i,
        {
            proof {
                lemma_select_step(orig, f, i as int);
            }
            if item_selected(f, &items[i]) {
                let item = clone_item(&items[i]);
                let check_result = match self.perform_automated_check(&item) {
                    Ok(c) => c,
                    Err(e) => return Err(e),
                };
                let details = match self.get_check_details(&item) {
                    Ok(d) => d,
                    Err(e) => return Err(e),
                };
                let ghost prev = self.automated_checks@;
                self.automated_checks.push(AutomatedCheck {
                    item_description: item.description.clone(),
                    check_time: current_time,
                    result: check_result,
                    details,
                });
                assert(spec_checks(self.automated_checks@) =~= spec_checks(prev).push(
                    spec_auto_record(orig[i as int], current_time),
                ));
                let new_status = if check_result == CheckResult::Pass {
                    CheckStatus::Completed
                } else if item.is_critical {
                    CheckStatus::Failed
                } else {
                    CheckStatus::Warning
                };
                let updated = ChecklistItem { status: new_status, ..item };
                items.set(i, updated);
            }
            proof {
                assert(spec_select(orig.take(i as int + 1), f).map_values(|m: ItemModel| spec_auto_record(m, current_time))
                    =~= if spec_selects(f, orig[i as int]) {
                        spec_select(orig.take(i as int), f).map_values(|m: ItemModel| spec_auto_record(m, current_time)).push(
                            spec_auto_record(orig[i as int], current_time))
                    } else {
                        spec_select(orig.take(i as int), f).map_values(|m: ItemModel| spec_auto_record(m, current_time))
                    });
            }
            i = i + 1;
        }
        assert(orig.take(orig.len() as int) =~= orig);
        assert(spec_items(items@) =~= spec_after_auto(orig, phase));
        std::mem::swap(&mut items, &mut self.checklist_items);
        Ok(())
    }
}


fn find_confirmation(confs: &Vec<ManualConfirmation>, description: &String) -> (r: Option<bool>)
    ensures
        r == spec_confirmation_for(spec_confirmations(confs@), description@),
{
    let ghost cs = spec_confirmations(confs@);
    let mut j: usize = 0;
    while j < confs.len()
        invariant
            j <= confs@.len(),
            cs == spec_confirmations(confs@),
            forall|k: int| 0 <= k < j ==> #[trigger] cs[k].item_description != description@,
        decreases confs@.len() - j,
    {
        if confs[j].item_description == *description {
            proof {
                assert(spec_first_confirmation(cs, description@, j as int));
                let w = choose|w: int| spec_first_confirmation(cs, description@, w);
                if w < j {
                    assert(cs[w].item_description != description@);
                } else if w > j {
                    assert(cs[j as int].item_description != description@);
                }
            }
            return Some(confs[j].confirmed);
        }
        j = j + 1;
    }
    None
}

impl LaunchChecklist {
    /// Applies the manual confirmations to the current phase's pending
    /// manual items: the first confirmation given for an item decides it.
    pub fn validate_manual_confirmations(&mut self) -> (r: Result<(), BettingPlatformError>)
        ensures
            r is Ok,
            spec_items(final(self).checklist_items@) == spec_after_manual(
                spec_items(old(self).checklist_items@),
                old(self).current_phase,
                spec_confirmations(old(self).manual_confirmations@),
            ),
            final(self).current_phase == old(self).current_phase,
            final(self).launch_status == old(self).launch_status,
            final(self).manual_confirmations@ == old(self).manual_confirmations@,
            spec_checks(final(self).automated_checks@) == spec_checks(old(self).automated_checks@),
            final(self).completion_time == old(self).completion_time,
            final(self).launch_id == old(self).launch_id,
    {
        let phase = self.current_phase;
        let ghost cs = spec_confirmations(self.manual_confirmations@);
        let mut items: Vec<ChecklistItem> = Vec::new();
        std::mem::swap(&mut items, &mut self.checklist_items);
        let ghost orig = spec_items(items@);
        let mut i: usize = 0;
        while i < items.len()
            invariant
                i <= items@.len(),
                items@.len() == orig.len(),
                self.current_phase == phase,
                cs == spec_confirmations(self.manual_confirmations@),
                forall|j: int| 0 <= j < i ==> #[trigger] spec_item(items@[j]) == spec_manual_status(orig[j], phase, cs),
                forall|j: int| i <= j < items@.len() ==> #[trigger] spec_item(items@[j]) == orig[j],
                self.launch_status == old(self).launch_status,
                self.manual_confirmations@ == old(self).manual_confirmations@,
                self.automated_checks@ == old(self).automated_checks@,
                self.completion_time == old(self).completion_time,
                self.launch_id == old(self).launch_id,
            decreases items@.len() - i,
        {
            if items[i].phase == phase && !items[i].automated && items[i].status == CheckStatus::Pending {
                match find_confirmation(&self.manual_confirmations, &items[i].description) {
                    Some(confirmed) => {
                        let item = clone_item(&items[i]);
                        let new_status = if confirmed {
                            CheckStatus::Completed
                        } else if item.is_critical {
                            CheckStatus::Failed
                        } else {
                            CheckStatus::Warning
                        };
                        let updated = ChecklistItem { status: new_status, ..item };
                        items.set(i, updated);
                    },
                    None => {},
                }
            }
            i = i + 1;
        }
        assert(spec_items(items@) =~= spec_after_manual(orig, phase, cs));
        std::mem::swap(&mut items, &mut self.checklist_items);
        Ok(())
    }

    /// Completion of the current phase in basis points.
    pub fn calculate_phase_completion(&self) -> (r: Result<u16, BettingPlatformError>)
        requires
            spec_items(self.checklist_items@).len() <= u16::MAX,
            spec_count(spec_items(self.checklist_items@), ItemFilter::CompletedInPhase(self.current_phase)) * 10000
                <= u16::MAX,
        ensures
            r matches Ok(v) && v == spec_phase_completion(spec_items(self.checklist_items@), self.current_phase),
    {
        let ghost s = spec_items(self.checklist_items@);
        let phase = self.current_phase;
        let n = count_items(&self.checklist_items, ItemFilter::InPhase(phase));
        proof {
            lemma_select_len(s, ItemFilter::InPhase(phase));
        }
        if n == 0 {
            return Ok(10000);
        }
        let completed = count_items(&self.checklist_items, ItemFilter::CompletedInPhase(phase)) as u16;
        Ok((completed * 10000) / (n as u16))
    }

    /// Completed items in percent of all items.
    pub fn calculate_overall_progress(&self) -> (r: u16)
        requires
            self.checklist_items@.len() <= u16::MAX,
            spec_count(spec_items(self.checklist_items@), ItemFilter::Completed) * 100 <= u16::MAX,
        ensures
            r == spec_overall_progress(spec_items(self.checklist_items@)),
    {
        let total_items = self.checklist_items.len() as u16;
        let completed_items = count_items(&self.checklist_items, ItemFilter::Completed) as u16;
        if total_items == 0 {
            0
        } else {
            (completed_items * 100) / total_items
        }
    }

    /// Moves to the next phase at `current_time`; leaving the last phase
    /// completes the launch.
    pub fn advance_phase(&mut self, current_time: i64) -> (r: Result<(), BettingPlatformError>)
        ensures
            r is Ok,
            final(self).current_phase == spec_next_phase(old(self).current_phase),
            final(self).launch_status == (if old(self).current_phase == LaunchPhase::PostLaunch {
                LaunchStatus::Completed
            } else {
                old(self).launch_status
            }),
            final(self).completion_time == (if old(self).current_phase == LaunchPhase::PostLaunch {
                Some(current_time)
            } else {
                old(self).completion_time
            }),
            final(self).checklist_items@ == old(self).checklist_items@,
            final(self).automated_checks@ == old(self).automated_checks@,
            final(self).manual_confirmations@ == old(self).manual_confirmations@,
            final(self).launch_id == old(self).launch_id,
    {
        self.current_phase = match self.current_phase {
            LaunchPhase::Preparation => LaunchPhase::Testing,
            LaunchPhase::Testing => LaunchPhase::FinalConfig,
            LaunchPhase::FinalConfig => LaunchPhase::Launch,
            LaunchPhase::Launch => LaunchPhase::PostLaunch,
            LaunchPhase::PostLaunch => {
                self.launch_status = LaunchStatus::Completed;
                self.completion_time = Some(current_time);
                LaunchPhase::PostLaunch
            },
        };
        Ok(())
    }

    /// Completed critical items in basis points of all critical items.
    pub fn calculate_go_score(&self) -> (r: Result<u16, BettingPlatformError>)
        requires
            self.checklist_items@.len() <= u16::MAX,
            spec_count(spec_items(self.checklist_items@), ItemFilter::CriticalCompleted) * 10000 <= u16::MAX,
        ensures
            r matches Ok(v) && v == spec_go_score(spec_items(self.checklist_items@)),
    {
        let ghost s = spec_items(self.checklist_items@);
        proof {
            lemma_select_len(s, ItemFilter::Critical);
        }
        let total_critical = count_items(&self.checklist_items, ItemFilter::Critical) as u16;
        let completed_critical = count_items(&self.checklist_items, ItemFilter::CriticalCompleted) as u16;
        if total_critical == 0 {
            Ok(10000)
        } else {
            Ok((completed_critical * 10000) / total_critical)
        }
    }

    /// Takes the go/no-go decision at `current_time`.
    pub fn update_go_no_go_decision(&mut self, current_time: i64) -> (r: Result<(), BettingPlatformError>)
        requires
            old(self).checklist_items@.len() <= u16::MAX,
            spec_count(spec_items(old(self).checklist_items@), ItemFilter::CriticalCompleted) * 10000 <= u16::MAX,
        ensures
            r is Ok,
            spec_decision_is(final(self).go_no_go_decision, spec_items(old(self).checklist_items@), current_time),
            final(self).checklist_items@ == old(self).checklist_items@,
            final(self).automated_checks@ == old(self).automated_checks@,
            final(self).manual_confirmations@ == old(self).manual_confirmations@,
            final(self).current_phase == old(self).current_phase,
            final(self).launch_status == old(self).launch_status,
            final(self).completion_time == old(self).completion_time,
            final(self).launch_id == old(self).launch_id,
    {
        let ghost s = spec_items(self.checklist_items@);
        proof {
            lemma_select_len(s, ItemFilter::CriticalFailed);
            lemma_select_len(s, ItemFilter::Warning);
        }
        let critical_failures = count_items(&self.checklist_items, ItemFilter::CriticalFailed) as u32;
        let warnings = count_items(&self.checklist_items, ItemFilter::Warning) as u32;
        let score = match self.calculate_go_score() {
            Ok(v) => v,
            Err(e) => return Err(e),
        };
        self.go_no_go_decision = GoNoGoDecision {
            decision: if critical_failures > 0 {
                GoNoGo::NoGo
            } else if score >= MINIMUM_GO_SCORE {
                GoNoGo::Go
            } else {
                GoNoGo::ConditionalGo
            },
            score,
            critical_failures,
            warnings,
            decision_time: current_time,
            approvers: Vec::new(),
        };
        Ok(())
    }

    /// The critical items of the current phase.
    pub fn get_critical_items(&self) -> (r: Vec<ChecklistItem>)
        ensures
            spec_items(r@) == spec_select(spec_items(self.checklist_items@), ItemFilter::CriticalInPhase(self.current_phase)),
    {
        filter_items(&self.checklist_items, ItemFilter::CriticalInPhase(self.current_phase))
    }

    /// The pending items of the current phase.
    pub fn get_pending_items(&self) -> (r: Vec<ChecklistItem>)
        ensures
            spec_items(r@) == spec_select(spec_items(self.checklist_items@), ItemFilter::PendingInPhase(self.current_phase)),
    {
        filter_items(&self.checklist_items, ItemFilter::PendingInPhase(self.current_phase))
    }

    /// The failed items.
    pub fn get_failed_items(&self) -> (r: Vec<ChecklistItem>)
        ensures
            spec_items(r@) == spec_select(spec_items(self.checklist_items@), ItemFilter::Failed),
    {
        filter_items(&self.checklist_items, ItemFilter::Failed)
    }

    /// The items with warnings.
    pub fn get_warnings(&self) -> (r: Vec<ChecklistItem>)
        ensures
            spec_items(r@) == spec_select(spec_items(self.checklist_items@), ItemFilter::Warning),
    {
        filter_items(&self.checklist_items, ItemFilter::Warning)
    }

    /// Estimated completion: five minutes per pending item after `current_time`.
    pub fn estimate_completion_time(&self, current_time: i64) -> (r: Result<i64, BettingPlatformError>)
        requires
            spec_count(spec_items(self.checklist_items@), ItemFilter::Pending) * 300 <= i64::MAX,
            current_time + spec_count(spec_items(self.checklist_items@), ItemFilter::Pending) * 300 <= i64::MAX,
        ensures
            r matches Ok(t) && t == current_time + spec_count(spec_items(self.checklist_items@), ItemFilter::Pending)
                * 300,
    {
        let ghost s = spec_items(self.checklist_items@);
        let n = count_items(&self.checklist_items, ItemFilter::Pending);
        let remaining_items = n as i64;
        let avg_time_per_item: i64 = 300;
        let estimated_seconds = remaining_items * avg_time_per_item;
        Ok(current_time + estimated_seconds)
    }

    /// What to do next: complete each pending critical item of the phase,
    /// then the phase's standing action.
    pub fn get_next_actions(&self) -> (r: Vec<String>)
        ensures
            spec_strings(r@) == spec_next_actions(spec_items(self.checklist_items@), self.current_phase),
    {
        let pending = self.get_pending_items();
        let ghost ps = spec_items(pending@);
        let mut actions: Vec<String> = Vec::new();
        let mut i: usize = 0;
        while i < pending.len()
            invariant
                i <= pending@.len(),
                ps == spec_items(pending@),
                spec_strings(actions@) == spec_select(ps.take(i as int), ItemFilter::Critical).map_values(
                    |m: ItemModel| "Complete: "@ + m.description,
                ),
            decreases pending@.len() - i,
        {
            proof {
                lemma_select_step(ps, ItemFilter::Critical, i as int);
            }
            if pending[i].is_critical {
                let mut line = String::from_str("Complete: ");
                line.append(pending[i].description.as_str());
                let ghost prev = actions@;
                actions.push(line);
                assert(spec_strings(actions@) =~= spec_strings(prev).push("Complete: "@ + ps[i as int].description));
            }
            assert(spec_select(ps.take(i as int + 1), ItemFilter::Critical).map_values(|m: ItemModel| "Complete: "@ + m.description)
                =~= if spec_selects(ItemFilter::Critical, ps[i as int]) {
                    spec_select(ps.take(i as int), ItemFilter::Critical).map_values(|m: ItemModel| "Complete: "@ + m.description).push(
                        "Complete: "@ + ps[i as int].description)
                } else {
                    spec_select(ps.take(i as int), ItemFilter::Critical).map_values(|m: ItemModel| "Complete: "@ + m.description)
                });
            i = i + 1;
        }
        assert(ps.take(ps.len() as int) =~= ps);
        let phase_action = match self.current_phase {
            LaunchPhase::Preparation => String::from_str("Complete all infrastructure setup"),
            LaunchPhase::Testing => String::from_str("Run full test suite"),
            LaunchPhase::FinalConfig => String::from_str("Configure production parameters"),
            LaunchPhase::Launch => String::from_str("Execute launch sequence"),
            LaunchPhase::PostLaunch => String::from_str("Monitor system performance"),
        };
        let ghost prev = actions@;
        actions.push(phase_action);
        assert(spec_strings(actions@) =~= spec_strings(prev).push(spec_phase_action(self.current_phase)));
        actions
    }

    /// Records a manual confirmation by `approver` at `current_time`.
    pub fn add_manual_confirmation(
        &mut self,
        item_description: String,
        confirmed: bool,
        approver: [u8; 32],
        current_time: i64,
    ) -> (r: Result<(), BettingPlatformError>)
        ensures
            r is Ok,
            final(self).manual_confirmations@.len() == old(self).manual_confirmations@.len() + 1,
            final(self).manual_confirmations@.take(old(self).manual_confirmations@.len() as int)
                == old(self).manual_confirmations@,
            final(self).manual_confirmations@.last().item_description@ == item_description@,
            final(self).manual_confirmations@.last().confirmed == confirmed,
            final(self).manual_confirmations@.last().approver == approver,
            final(self).manual_confirmations@.last().confirmation_time == current_time,
            final(self).checklist_items@ == old(self).checklist_items@,
            final(self).current_phase == old(self).current_phase,
            final(self).launch_status == old(self).launch_status,
    {
        self.manual_confirmations.push(ManualConfirmation {
            item_description,
            confirmed,
            approver,
            confirmation_time: current_time,
        });
        assert(self.manual_confirmations@.take(old(self).manual_confirmations@.len() as int)
            =~= old(self).manual_confirmations@);
        Ok(())
    }

    /// Rolls a failed launch back; refused unless the launch failed.
    pub fn execute_rollback(&mut self) -> (r: Result<(), BettingPlatformError>)
        ensures
            old(self).launch_status != LaunchStatus::Failed ==> r == Err::<(), BettingPlatformError>(
                BettingPlatformError::InvalidInput) && final(self).launch_status == old(self).launch_status,
            old(self).launch_status == LaunchStatus::Failed ==> r is Ok && final(self).launch_status
                == LaunchStatus::RolledBack,
            final(self).checklist_items@ == old(self).checklist_items@,
            final(self).current_phase == old(self).current_phase,
    {
        if self.launch_status != LaunchStatus::Failed {
            return Err(BettingPlatformError::InvalidInput);
        }
        match self.rollback_plan.execute() {
            Ok(()) => {},
            Err(e) => return Err(e),
        }
        self.launch_status = LaunchStatus::RolledBack;
        Ok(())
    }

    /// Starts launch `launch_id` at `current_time`: the template checklist,
    /// no checks or confirmations yet, and a no-go decision.
    pub fn initialize(&mut self, launch_id: u128, current_time: i64) -> (r: Result<(), BettingPlatformError>)
        ensures
            r is Ok,
            final(self).launch_id == launch_id,
            final(self).launch_status == LaunchStatus::PreLaunch,
            final(self).current_phase == LaunchPhase::Preparation,
            spec_items(final(self).checklist_items@) == spec_checklist_template(),
            final(self).automated_checks@.len() == 0,
            final(self).manual_confirmations@.len() == 0,
            final(self).go_no_go_decision.decision == GoNoGo::NoGo,
            final(self).go_no_go_decision.score == 0,
            final(self).start_time == current_time,
            final(self).completion_time is None,
    {
        self.launch_id = launch_id;
        self.launch_status = LaunchStatus::PreLaunch;
        self.current_phase = LaunchPhase::Preparation;
        self.checklist_items = self.generate_checklist_items();
        self.automated_checks = Vec::new();
        self.manual_confirmations = Vec::new();
        self.go_no_go_decision = GoNoGoDecision::default();
        self.launch_metrics = LaunchMetrics::default();
        self.rollback_plan = RollbackPlan::default();
        self.start_time = current_time;
        self.completion_time = None;
        Ok(())
    }
}


/// The report of a checklist in state `c` at `time`.
pub open spec fn spec_report_is(rep: LaunchReport, c: LaunchChecklist, time: i64) -> bool {
    let s = spec_items(c.checklist_items@);
    &&& rep.launch_id == c.launch_id
    &&& rep.current_phase == c.current_phase
    &&& rep.launch_status == c.launch_status
    &&& rep.overall_progress == spec_overall_progress(s)
    &&& rep.phase_progress == spec_phase_completion(s, c.current_phase) / 100
    &&& spec_items(rep.critical_items@) == spec_select(s, ItemFilter::CriticalInPhase(c.current_phase))
    &&& spec_items(rep.pending_items@) == spec_select(s, ItemFilter::PendingInPhase(c.current_phase))
    &&& spec_items(rep.failed_items@) == spec_select(s, ItemFilter::Failed)
    &&& spec_items(rep.warnings@) == spec_select(s, ItemFilter::Warning)
    &&& rep.go_no_go_decision.decision == c.go_no_go_decision.decision
    &&& rep.go_no_go_decision.score == c.go_no_go_decision.score
    &&& rep.go_no_go_decision.critical_failures == c.go_no_go_decision.critical_failures
    &&& rep.go_no_go_decision.warnings == c.go_no_go_decision.warnings
    &&& rep.go_no_go_decision.decision_time == c.go_no_go_decision.decision_time
    &&& rep.go_no_go_decision.approvers@ == c.go_no_go_decision.approvers@
    &&& rep.estimated_completion == time + spec_count(s, ItemFilter::Pending) * 300
    &&& spec_strings(rep.next_actions@) == spec_next_actions(s, c.current_phase)
}

/// The items after a run's automated checks and manual confirmations.
pub open spec fn spec_checked_items(c: LaunchChecklist) -> Seq<ItemModel> {
    spec_after_manual(
        spec_after_auto(spec_items(c.checklist_items@), c.current_phase),
        c.current_phase,
        spec_confirmations(c.manual_confirmations@),
    )
}

/// The phase after a run: the next one once the current phase reaches the
/// completion threshold.
pub open spec fn spec_run_phase(c: LaunchChecklist) -> LaunchPhase {
    if spec_phase_completion(spec_checked_items(c), c.current_phase) >= 100 {
        spec_next_phase(c.current_phase)
    } else {
        c.current_phase
    }
}

impl LaunchChecklist {
    /// The report of the checklist at `current_time`.
    pub fn generate_launch_report(&self, current_time: i64) -> (r: Result<LaunchReport, BettingPlatformError>)
        requires
            spec_counts_fit(spec_items(self.checklist_items@), self.current_phase, current_time),
        ensures
            r matches Ok(rep) && spec_report_is(rep, *self, current_time),
    {
        let phase_completion = match self.calculate_phase_completion() {
            Ok(v) => v,
            Err(e) => return Err(e),
        };
        let estimated_completion = match self.estimate_completion_time(current_time) {
            Ok(v) => v,
            Err(e) => return Err(e),
        };
        Ok(LaunchReport {
            launch_id: self.launch_id,
            current_phase: self.current_phase,
            launch_status: self.launch_status,
            overall_progress: self.calculate_overall_progress(),
            phase_progress: phase_completion / 100,
            critical_items: self.get_critical_items(),
            pending_items: self.get_pending_items(),
            failed_items: self.get_failed_items(),
            warnings: self.get_warnings(),
            go_no_go_decision: clone_decision(&self.go_no_go_decision),
            estimated_completion,
            next_actions: self.get_next_actions(),
        })
    }

    /// Runs the checklist at `current_time`: automated checks of the
    /// current phase, then manual confirmations; the phase advances once
    /// its completion reaches the threshold; then the go/no-go decision is
    /// taken and the report produced.
    pub fn execute_checklist(&mut self, current_time: i64) -> (r: Result<LaunchReport, BettingPlatformError>)
        requires
            spec_counts_fit(spec_checked_items(*old(self)), old(self).current_phase, current_time),
            spec_counts_fit(spec_checked_items(*old(self)), spec_run_phase(*old(self)), current_time),
        ensures
            spec_items(final(self).checklist_items@) == spec_checked_items(*old(self)),
            spec_checks(final(self).automated_checks@) == spec_checks(old(self).automated_checks@)
                + spec_auto_records(spec_items(old(self).checklist_items@), old(self).current_phase, current_time),
            final(self).current_phase == spec_run_phase(*old(self)),
            final(self).launch_status == (if old(self).current_phase == LaunchPhase::PostLaunch
                && spec_phase_completion(spec_checked_items(*old(self)), old(self).current_phase) >= 100 {
                LaunchStatus::Completed
            } else {
                old(self).launch_status
            }),
            final(self).completion_time == (if old(self).current_phase == LaunchPhase::PostLaunch
                && spec_phase_completion(spec_checked_items(*old(self)), old(self).current_phase) >= 100 {
                Some(current_time)
            } else {
                old(self).completion_time
            }),
            final(self).launch_id == old(self).launch_id,
            spec_decision_is(final(self).go_no_go_decision, spec_checked_items(*old(self)), current_time),
            r matches Ok(rep) && spec_report_is(rep, *final(self), current_time),
    {
        let ghost items2 = spec_checked_items(*old(self));
        match self.run_automated_checks(current_time) {
            Ok(()) => {},
            Err(e) => return Err(e),
        }
        match self.validate_manual_confirmations() {
            Ok(()) => {},
            Err(e) => return Err(e),
        }
        assert(spec_items(self.checklist_items@) == items2);
        proof {
            lemma_select_len(items2, ItemFilter::InPhase(self.current_phase));
        }
        let phase_completion = match self.calculate_phase_completion() {
            Ok(v) => v,
            Err(e) => return Err(e),
        };
        if phase_completion >= 100 {
            match self.advance_phase(current_time) {
                Ok(()) => {},
                Err(e) => return Err(e),
            }
        }
        match self.update_go_no_go_decision(current_time) {
            Ok(()) => {},
            Err(e) => return Err(e),
        }
        self.generate_launch_report(current_time)
    }
}

} // verus!
