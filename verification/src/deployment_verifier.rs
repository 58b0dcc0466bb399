//! Deployment verification: a fixed series of checks of configuration,
//! accounts, authorities, oracles, vault, keepers, markets, circuit
//! breakers, immutability, performance, audits and tests, each recording
//! its result, critical issues and warnings; then a readiness score, a
//! status and a report.
use vstd::prelude::*;
use crate::error::BettingPlatformError;
use crate::text::{push_decimal, spec_decimal};

verus! {

/// Minimum vault balance ($100k).
pub const MIN_VAULT_BALANCE: u64 = 100_000_000_000;
/// Minimum number of keepers.
pub const MIN_KEEPERS: u32 = 3;
/// Minimum oracle sources (primary and fallback).
pub const MIN_ORACLE_SOURCES: u32 = 2;
/// Oldest deployment accepted, in slots.
pub const MAX_DEPLOYMENT_AGE: u64 = 864_000;
/// Whether the program must be immutable.
pub const REQUIRED_IMMUTABILITY: bool = true;
/// Minimum liquidity per market ($10k).
pub const MIN_LIQUIDITY_PER_MARKET: u64 = 10_000_000_000;
/// Longest acceptable downtime, in slots.
pub const MAX_ACCEPTABLE_DOWNTIME: u64 = 3600;
/// Minimum test coverage (basis points).
pub const MIN_TEST_COVERAGE: u16 = 9000;
/// Whether a security audit is required.
pub const REQUIRED_SECURITY_AUDIT: bool = true;

/// Deployment status.
#[derive(Clone, Copy, Debug, PartialEq, Eq, Structural)]
pub enum DeploymentStatus {
    PreDeployment,
    ReadyForProduction,
    ConditionallyReady,
    NotReady,
    Deployed,
}

/// Kinds of check.
#[derive(Clone, Copy, Debug, PartialEq, Eq, Structural)]
pub enum CheckType {
    SystemConfiguration,
    AccountStructure,
    AuthorityConfiguration,
    OracleConfiguration,
    VaultStatus,
    KeeperNetwork,
    MarketConfiguration,
    CircuitBreakers,
    Immutability,
    PerformanceRequirements,
    SecurityAudit,
    IntegrationTests,
}

/// Result of a check.
#[derive(Clone, Copy, Debug, PartialEq, Eq, Structural)]
pub enum CheckStatus {
    Pending,
    Passed,
    Failed,
    Warning,
}

/// Kinds of critical issue.
#[derive(Clone, Copy, Debug, PartialEq, Eq, Structural)]
pub enum IssueType {
    InvalidProgramId,
    WrongNetwork,
    MissingAccounts,
    AuthorityNotBurned,
    NoOracle,
    TreasuryNotSeparated,
    InsufficientKeepers,
    MissingCircuitBreakers,
    NotImmutable,
    AccountsNotImmutable,
    UnresolvedAuditFindings,
    NoSecurityAudit,
    FailingTests,
}

/// Kinds of warning.
#[derive(Clone, Copy, Debug, PartialEq, Eq, Structural)]
pub enum WarningType {
    RentExemption,
    SingleAuthority,
    NoFallbackOracle,
    NoWebSocket,
    LowVaultBalance,
    PoorKeeperPerformance,
    LowLiquidity,
    InvalidFees,
    LowTPS,
    HighLatency,
    LowTestCoverage,
    StressTestFailure,
}

/// Severity of an issue.
#[derive(Clone, Copy, Debug, PartialEq, Eq, Structural)]
pub enum Severity {
    Low,
    Medium,
    High,
    Critical,
}

/// Impact of a warning.
#[derive(Clone, Copy, Debug, PartialEq, Eq, Structural)]
pub enum Impact {
    Low,
    Medium,
    High,
}

/// A performed check.
#[derive(Clone, Debug)]
pub struct VerificationCheck {
    pub check_type: CheckType,
    pub status: CheckStatus,
    pub details: String,
}

impl VerificationCheck {
    pub const SIZE: usize = 1 + 1 + 200;
}

/// A critical issue found.
#[derive(Clone, Debug)]
pub struct CriticalIssue {
    pub issue_type: IssueType,
    pub description: String,
    pub severity: Severity,
    pub resolution: String,
}

impl CriticalIssue {
    pub const SIZE: usize = 1 + 100 + 1 + 100;
}

/// A warning raised.
#[derive(Clone, Debug)]
pub struct Warning {
    pub warning_type: WarningType,
    pub description: String,
    pub impact: Impact,
    pub recommendation: String,
}

impl Warning {
    pub const SIZE: usize = 1 + 100 + 1 + 100;
}

/// A security audit attestation.
#[derive(Clone, Debug)]
pub struct SecurityAttestation {
    pub auditor: String,
    pub audit_date: i64,
    pub audit_hash: [u8; 32],
    pub findings_resolved: bool,
}

impl SecurityAttestation {
    pub const SIZE: usize = 50 + 8 + 32 + 1;
}

/// Measured performance.
#[derive(Clone, Copy, Debug, PartialEq, Eq, Structural)]
pub struct PerformanceMetrics {
    pub average_tps: u32,
    pub peak_tps: u32,
    pub average_latency_ms: u32,
    pub p99_latency_ms: u32,
    pub uptime_percentage: u16,
}

impl PerformanceMetrics {
    pub const SIZE: usize = 4 + 4 + 4 + 4 + 2;
}

impl Default for PerformanceMetrics {
    fn default() -> (r: Self)
        ensures
            r == (PerformanceMetrics {
                average_tps: 0,
                peak_tps: 0,
                average_latency_ms: 0,
                p99_latency_ms: 0,
                uptime_percentage: 0,
            }),
    {
        PerformanceMetrics { average_tps: 0, peak_tps: 0, average_latency_ms: 0, p99_latency_ms: 0, uptime_percentage: 0 }
    }
}

/// Hashes of the deployed configuration.
#[derive(Clone, Copy, Debug)]
pub struct ConfigurationHashes {
    pub program_hash: [u8; 32],
    pub global_state_hash: [u8; 32],
    pub oracle_config_hash: [u8; 32],
    pub circuit_breaker_hash: [u8; 32],
}

impl ConfigurationHashes {
    pub const SIZE: usize = 32 * 4;
}

impl Default for ConfigurationHashes {
    fn default() -> (r: Self)
        ensures
            r.program_hash@ == Seq::new(32, |i: int| 0u8),
            r.global_state_hash@ == Seq::new(32, |i: int| 0u8),
            r.oracle_config_hash@ == Seq::new(32, |i: int| 0u8),
            r.circuit_breaker_hash@ == Seq::new(32, |i: int| 0u8),
    {
        let z = [0u8; 32];
        assert(z@ =~= Seq::new(32, |i: int| 0u8));
        ConfigurationHashes { program_hash: z, global_state_hash: z, oracle_config_hash: z, circuit_breaker_hash: z }
    }
}

/// An item of the deployment checklist.
#[derive(Clone, Debug)]
pub struct ChecklistItem {
    pub task: String,
    pub completed: bool,
    pub required: bool,
}

/// The deployment checklist, by stage.
#[derive(Clone, Debug)]
pub struct DeploymentChecklist {
    pub pre_deployment: Vec<ChecklistItem>,
    pub deployment: Vec<ChecklistItem>,
    pub post_deployment: Vec<ChecklistItem>,
}

/// The report of a verification.
#[derive(Clone, Debug)]
pub struct VerificationReport {
    pub verification_id: u128,
    pub timestamp: i64,
    pub deployment_status: DeploymentStatus,
    pub readiness_score: u16,
    pub total_checks: u32,
    pub passed_checks: u32,
    pub critical_issues: Vec<CriticalIssue>,
    pub warnings: Vec<Warning>,
    pub security_attestations: Vec<SecurityAttestation>,
    pub performance_summary: PerformanceMetrics,
    pub recommendations: Vec<String>,
    pub deployment_checklist: DeploymentChecklist,
}

/// The deployment verifier and its findings.
#[derive(Clone, Debug)]
pub struct DeploymentVerifier {
    pub verification_id: u128,
    pub deployment_status: DeploymentStatus,
    pub checks_performed: Vec<VerificationCheck>,
    pub critical_issues: Vec<CriticalIssue>,
    pub warnings: Vec<Warning>,
    /// Out of 10000.
    pub readiness_score: u16,
    pub last_verification_slot: u64,
    pub security_attestations: Vec<SecurityAttestation>,
    pub performance_metrics: PerformanceMetrics,
    pub configuration_hashes: ConfigurationHashes,
}

/// A check with its details as characters.
pub ghost struct CheckModel {
    pub check_type: CheckType,
    pub status: CheckStatus,
    pub details: Seq<char>,
}

/// An issue with its texts as characters.
pub ghost struct IssueModel {
    pub issue_type: IssueType,
    pub description: Seq<char>,
    pub severity: Severity,
    pub resolution: Seq<char>,
}

/// A warning with its texts as characters.
pub ghost struct WarningModel {
    pub warning_type: WarningType,
    pub description: Seq<char>,
    pub impact: Impact,
    pub recommendation: Seq<char>,
}

/// The findings of a verifier.
pub ghost struct Findings {
    pub checks: Seq<CheckModel>,
    pub issues: Seq<IssueModel>,
    pub warnings: Seq<WarningModel>,
}

pub open spec fn spec_check(c: VerificationCheck) -> CheckModel {
    CheckModel { check_type: c.check_type, status: c.status, details: c.details@ }
}

pub open spec fn spec_issue(i: CriticalIssue) -> IssueModel {
    IssueModel { issue_type: i.issue_type, description: i.description@, severity: i.severity, resolution: i.resolution@ }
}

pub open spec fn spec_warning(w: Warning) -> WarningModel {
    WarningModel { warning_type: w.warning_type, description: w.description@, impact: w.impact, recommendation: w.recommendation@ }
}

pub open spec fn spec_checks(v: Seq<VerificationCheck>) -> Seq<CheckModel> {
    v.map_values(|c: VerificationCheck| spec_check(c))
}

pub open spec fn spec_issues(v: Seq<CriticalIssue>) -> Seq<IssueModel> {
    v.map_values(|i: CriticalIssue| spec_issue(i))
}

pub open spec fn spec_warnings(v: Seq<Warning>) -> Seq<WarningModel> {
    v.map_values(|w: Warning| spec_warning(w))
}

/// The findings recorded in a verifier.
pub open spec fn spec_findings(v: DeploymentVerifier) -> Findings {
    Findings {
        checks: spec_checks(v.checks_performed@),
        issues: spec_issues(v.critical_issues@),
        warnings: spec_warnings(v.warnings@),
    }
}

/// An issue.
pub open spec fn spec_new_issue(t: IssueType, d: Seq<char>, s: Severity, r: Seq<char>) -> IssueModel {
    IssueModel { issue_type: t, description: d, severity: s, resolution: r }
}

/// A warning.
pub open spec fn spec_new_warning(t: WarningType, d: Seq<char>, i: Impact, r: Seq<char>) -> WarningModel {
    WarningModel { warning_type: t, description: d, impact: i, recommendation: r }
}

/// The verifier's settings and results other than its findings are the same.
pub open spec fn spec_same_settings(a: DeploymentVerifier, b: DeploymentVerifier) -> bool {
    &&& a.security_attestations@ == b.security_attestations@
    &&& a.performance_metrics == b.performance_metrics
    &&& a.verification_id == b.verification_id
    &&& a.deployment_status == b.deployment_status
    &&& a.readiness_score == b.readiness_score
    &&& a.last_verification_slot == b.last_verification_slot
    &&& a.configuration_hashes == b.configuration_hashes
}

/// Whether an issue of type `t` has been recorded.
pub open spec fn spec_has_issue(issues: Seq<IssueModel>, t: IssueType) -> bool {
    exists|k: int| 0 <= k < issues.len() && #[trigger] issues[k].issue_type == t
}

/// Findings with one more check.
pub open spec fn spec_with_check(f: Findings, c: CheckModel) -> Findings {
    Findings { checks: f.checks.push(c), ..f }
}

/// Findings with one more issue.
pub open spec fn spec_with_issue(f: Findings, i: IssueModel) -> Findings {
    Findings { issues: f.issues.push(i), ..f }
}

/// Findings with one more warning.
pub open spec fn spec_with_warning(f: Findings, w: WarningModel) -> Findings {
    Findings { warnings: f.warnings.push(w), ..f }
}

fn make_issue(t: IssueType, description: &str, s: Severity, resolution: &str) -> (r: CriticalIssue)
    ensures
        spec_issue(r) == spec_new_issue(t, description@, s, resolution@),
{
    CriticalIssue {
        issue_type: t,
        description: String::from_str(description),
        severity: s,
        resolution: String::from_str(resolution),
    }
}

fn make_warning(t: WarningType, description: String, i: Impact, recommendation: String) -> (r: Warning)
    ensures
        spec_warning(r) == spec_new_warning(t, description@, i, recommendation@),
{
    Warning { warning_type: t, description, impact: i, recommendation }
}

fn text(s: &str) -> (r: String)
    ensures
        r@ == s@,
{
    String::from_str(s)
}

/// `prefix`, a decimal number, then `suffix`.
pub open spec fn spec_numbered(prefix: Seq<char>, n: nat, suffix: Seq<char>) -> Seq<char> {
    prefix + spec_decimal(n) + suffix
}

fn numbered(prefix: &str, n: u64, suffix: &str) -> (r: String)
    ensures
        r@ == spec_numbered(prefix@, n as nat, suffix@),
{
    let mut s = String::from_str(prefix);
    push_decimal(&mut s, n);
    s.append(suffix);
    s
}

fn has_issue(issues: &Vec<CriticalIssue>, t: IssueType) -> (r: bool)
    ensures
        r == spec_has_issue(spec_issues(issues@), t),
{
    let ghost s = spec_issues(issues@);
    let mut k: usize = 0;
    while k < issues.len()
        invariant
            k <= issues@.len(),
            s == spec_issues(issues@),
            forall|j: int| 0 <= j < k ==> #[trigger] s[j].issue_type != t,
        decreases issues@.len() - k,
    {
        if issues[k].issue_type == t {
            assert(s[k as int].issue_type == t);
            return true;
        }
        k = k + 1;
    }
    false
}

impl DeploymentVerifier {
    fn push_issue(&mut self, i: CriticalIssue)
        ensures
            spec_findings(*final(self)) == spec_with_issue(spec_findings(*old(self)), spec_issue(i)),
            spec_same_settings(*final(self), *old(self)),
    {
        let ghost m = spec_issue(i);
        self.critical_issues.push(i);
        assert(spec_issues(self.critical_issues@) =~= spec_issues(old(self).critical_issues@).push(m));
    }

    fn push_warning(&mut self, w: Warning)
        ensures
            spec_findings(*final(self)) == spec_with_warning(spec_findings(*old(self)), spec_warning(w)),
            spec_same_settings(*final(self), *old(self)),
    {
        let ghost m = spec_warning(w);
        self.warnings.push(w);
        assert(spec_warnings(self.warnings@) =~= spec_warnings(old(self).warnings@).push(m));
    }

    fn push_check(&mut self, c: VerificationCheck)
        ensures
            spec_findings(*final(self)) == spec_with_check(spec_findings(*old(self)), spec_check(c)),
            spec_same_settings(*final(self), *old(self)),
    {
        let ghost m = spec_check(c);
        self.checks_performed.push(c);
        assert(spec_checks(self.checks_performed@) =~= spec_checks(old(self).checks_performed@).push(m));
    }
}


// What the verifier's probes of the live system report.
pub open spec fn spec_program_id_ok() -> bool { true }
pub open spec fn spec_network_ok() -> bool { true }
pub open spec fn spec_rent_exempt() -> bool { true }
pub open spec fn spec_pda_exists() -> bool { true }
pub open spec fn spec_multisig_ok() -> bool { true }
pub open spec fn spec_authority_burned() -> bool { false }
pub open spec fn spec_primary_oracle_ok() -> bool { true }
pub open spec fn spec_fallback_oracle_ok() -> bool { true }
pub open spec fn spec_websocket_ok() -> bool { true }
pub open spec fn spec_vault_balance() -> u64 { 150_000_000_000 }
pub open spec fn spec_treasury_separated() -> bool { true }
pub open spec fn spec_keeper_count() -> u32 { 5 }
pub open spec fn spec_keeper_performance_ok() -> bool { true }
pub open spec fn spec_low_liquidity_markets() -> nat { 0 }
pub open spec fn spec_fees_ok() -> bool { true }
pub open spec fn spec_breaker_ok() -> bool { true }
pub open spec fn spec_program_immutable() -> bool { false }
pub open spec fn spec_accounts_immutable() -> bool { false }
pub open spec fn spec_tps_capability() -> u32 { 1200 }
pub open spec fn spec_average_latency() -> u32 { 75 }
pub open spec fn spec_critical_findings() -> u32 { 0 }
pub open spec fn spec_test_coverage() -> u16 { 9200 }
pub open spec fn spec_e2e_passed() -> bool { true }
pub open spec fn spec_stress_passed() -> bool { true }

/// `t` when `b`, nothing otherwise.
pub open spec fn spec_when(b: bool, t: Seq<char>) -> Seq<char> {
    if b { t } else { Seq::empty() }
}

/// The system configuration check.
pub open spec fn spec_system_configuration_step(f: Findings) -> Findings {
    let f1 = if spec_program_id_ok() { f } else {
        spec_with_issue(f, spec_new_issue(IssueType::InvalidProgramId, "Program ID mismatch detected"@,
            Severity::Critical, "Redeploy with correct program ID"@))
    };
    let f2 = if spec_network_ok() { f1 } else {
        spec_with_issue(f1, spec_new_issue(IssueType::WrongNetwork, "Not on mainnet-beta"@, Severity::Critical,
            "Deploy to mainnet-beta"@))
    };
    let f3 = if spec_rent_exempt() { f2 } else {
        spec_with_warning(f2, spec_new_warning(WarningType::RentExemption, "Some accounts not rent exempt"@,
            Impact::Medium, "Top up accounts to be rent exempt"@))
    };
    let details = spec_when(spec_program_id_ok(), "✓ Program ID verified\n"@) + spec_when(spec_network_ok(),
        "✓ Network configuration correct\n"@) + spec_when(spec_rent_exempt(), "✓ All accounts rent exempt\n"@);
    spec_with_check(f3, CheckModel {
        check_type: CheckType::SystemConfiguration,
        status: if f3.issues.len() == 0 { CheckStatus::Passed } else { CheckStatus::Failed },
        details,
    })
}

/// The account structure check: every required program address exists.
pub open spec fn spec_account_structure_step(f: Findings) -> Findings {
    spec_with_check(f, CheckModel {
        check_type: CheckType::AccountStructure,
        status: CheckStatus::Passed,
        details: "✓ All required PDAs exist\n"@,
    })
}

/// The authority check.
pub open spec fn spec_authorities_step(f: Findings) -> Findings {
    let f1 = if spec_multisig_ok() { f } else {
        spec_with_warning(f, spec_new_warning(WarningType::SingleAuthority, "Single authority detected"@,
            Impact::High, "Configure multisig for critical operations"@))
    };
    let f2 = if !REQUIRED_IMMUTABILITY || spec_authority_burned() { f1 } else {
        spec_with_issue(f1, spec_new_issue(IssueType::AuthorityNotBurned, "Upgrade authority still active"@,
            Severity::Critical, "Burn upgrade authority before production"@))
    };
    let details = spec_when(spec_multisig_ok(), "✓ Multisig properly configured\n"@) + spec_when(
        REQUIRED_IMMUTABILITY && spec_authority_burned(), "✓ Authority properly burned\n"@);
    spec_with_check(f2, CheckModel {
        check_type: CheckType::AuthorityConfiguration,
        status: if spec_has_issue(f2.issues, IssueType::AuthorityNotBurned) { CheckStatus::Failed } else {
            CheckStatus::Passed
        },
        details,
    })
}

/// The oracle check.
pub open spec fn spec_oracle_step(f: Findings) -> Findings {
    let f1 = if spec_primary_oracle_ok() { f } else {
        spec_with_issue(f, spec_new_issue(IssueType::NoOracle, "Primary oracle not configured"@, Severity::Critical,
            "Configure Polymarket oracle connection"@))
    };
    let f2 = if spec_fallback_oracle_ok() { f1 } else {
        spec_with_warning(f1, spec_new_warning(WarningType::NoFallbackOracle, "No fallback oracle configured"@,
            Impact::High, "Configure fallback oracle for resilience"@))
    };
    let f3 = if spec_websocket_ok() { f2 } else {
        spec_with_warning(f2, spec_new_warning(WarningType::NoWebSocket, "WebSocket not connected"@,
            Impact::Medium, "Enable WebSocket for real-time updates"@))
    };
    let details = spec_when(spec_primary_oracle_ok(), "✓ Primary oracle (Polymarket) configured\n"@) + spec_when(
        spec_fallback_oracle_ok(), "✓ Fallback oracle configured\n"@) + spec_when(spec_websocket_ok(),
        "✓ WebSocket connection active\n"@);
    spec_with_check(f3, CheckModel {
        check_type: CheckType::OracleConfiguration,
        status: if spec_has_issue(f3.issues, IssueType::NoOracle) { CheckStatus::Failed } else { CheckStatus::Passed },
        details,
    })
}

/// The vault check.
pub open spec fn spec_vault_step(f: Findings) -> Findings {
    let b = spec_vault_balance();
    let ok = b >= MIN_VAULT_BALANCE;
    let f1 = if ok { f } else {
        spec_with_warning(f, spec_new_warning(WarningType::LowVaultBalance,
            spec_numbered("Vault balance $"@, (b / 1_000_000) as nat, " below minimum"@), Impact::Medium,
            spec_numbered("Add at least $"@, ((MIN_VAULT_BALANCE - b) / 1_000_000) as nat, " to vault"@)))
    };
    let f2 = if spec_treasury_separated() { f1 } else {
        spec_with_issue(f1, spec_new_issue(IssueType::TreasuryNotSeparated,
            "Treasury and vault not properly separated"@, Severity::High, "Separate treasury from operational vault"@))
    };
    let details = spec_when(ok, spec_numbered("✓ Vault balance sufficient: $"@, (b / 1_000_000) as nat, "\n"@))
        + spec_when(spec_treasury_separated(), "✓ Treasury properly separated\n"@);
    spec_with_check(f2, CheckModel { check_type: CheckType::VaultStatus, status: CheckStatus::Passed, details })
}

/// The keeper check.
pub open spec fn spec_keeper_step(f: Findings) -> Findings {
    let k = spec_keeper_count();
    let ok = k >= MIN_KEEPERS;
    let f1 = if ok { f } else {
        spec_with_issue(f, spec_new_issue(IssueType::InsufficientKeepers,
            spec_numbered("Only "@, k as nat, " keepers active (minimum 3)"@), Severity::High,
            "Register additional keepers"@))
    };
    let f2 = if spec_keeper_performance_ok() { f1 } else {
        spec_with_warning(f1, spec_new_warning(WarningType::PoorKeeperPerformance, "Some keepers underperforming"@,
            Impact::Medium, "Review and optimize keeper configuration"@))
    };
    let details = spec_when(ok, spec_numbered("✓ "@, k as nat, " active keepers registered\n"@)) + spec_when(
        spec_keeper_performance_ok(), "✓ Keeper performance acceptable\n"@);
    spec_with_check(f2, CheckModel {
        check_type: CheckType::KeeperNetwork,
        status: if ok { CheckStatus::Passed } else { CheckStatus::Failed },
        details,
    })
}

/// The market configuration check.
pub open spec fn spec_market_step(f: Findings) -> Findings {
    let n = spec_low_liquidity_markets();
    let f1 = if n == 0 { f } else {
        spec_with_warning(f, spec_new_warning(WarningType::LowLiquidity,
            spec_numbered(Seq::empty(), n, " markets below minimum liquidity"@), Impact::Medium,
            "Add liquidity to underserved markets"@))
    };
    let f2 = if spec_fees_ok() { f1 } else {
        spec_with_warning(f1, spec_new_warning(WarningType::InvalidFees, "Fee configuration needs adjustment"@,
            Impact::Low, "Review and optimize fee structure"@))
    };
    let details = spec_when(n == 0, "✓ All markets have sufficient liquidity\n"@) + spec_when(spec_fees_ok(),
        "✓ Fee structure properly configured\n"@);
    spec_with_check(f2, CheckModel { check_type: CheckType::MarketConfiguration, status: CheckStatus::Passed, details })
}

/// The circuit breaker check: all five breakers configured.
pub open spec fn spec_breakers_step(f: Findings) -> Findings {
    spec_with_check(f, CheckModel {
        check_type: CheckType::CircuitBreakers,
        status: CheckStatus::Passed,
        details: "✓ Price Deviation breaker configured\n"@ + "✓ Volume Spike breaker configured\n"@
            + "✓ Liquidity Drain breaker configured\n"@ + "✓ Oracle Failure breaker configured\n"@
            + "✓ System Overload breaker configured\n"@,
    })
}

/// The immutability check.
pub open spec fn spec_immutability_step(f: Findings) -> Findings {
    let f1 = if spec_program_immutable() { f } else {
        spec_with_issue(f, spec_new_issue(IssueType::NotImmutable, "Program not immutable"@, Severity::Critical,
            "Make program immutable before production"@))
    };
    let f2 = if spec_accounts_immutable() { f1 } else {
        spec_with_issue(f1, spec_new_issue(IssueType::AccountsNotImmutable, "Some critical accounts still mutable"@,
            Severity::High, "Lock all critical accounts"@))
    };
    let details = spec_when(spec_program_immutable(), "✓ Program marked immutable\n"@) + spec_when(
        spec_accounts_immutable(), "✓ Critical accounts immutable\n"@);
    spec_with_check(f2, CheckModel {
        check_type: CheckType::Immutability,
        status: if spec_has_issue(f2.issues, IssueType::NotImmutable) || spec_has_issue(f2.issues,
            IssueType::AccountsNotImmutable) {
            CheckStatus::Failed
        } else {
            CheckStatus::Passed
        },
        details,
    })
}

/// The performance check.
pub open spec fn spec_performance_step(f: Findings) -> Findings {
    let t = spec_tps_capability();
    let l = spec_average_latency();
    let f1 = if t >= 1000 { f } else {
        spec_with_warning(f, spec_new_warning(WarningType::LowTPS, spec_numbered("TPS capability "@, t as nat,
            " below target"@), Impact::Medium, "Optimize transaction processing"@))
    };
    let f2 = if l < 100 { f1 } else {
        spec_with_warning(f1, spec_new_warning(WarningType::HighLatency, spec_numbered("Average latency "@, l as nat,
            "ms too high"@), Impact::Medium, "Optimize critical paths"@))
    };
    let details = spec_when(t >= 1000, spec_numbered("✓ TPS capability: "@, t as nat, " (exceeds minimum)\n"@))
        + spec_when(l < 100, spec_numbered("✓ Average latency: "@, l as nat, "ms\n"@));
    spec_with_check(f2, CheckModel { check_type: CheckType::PerformanceRequirements, status: CheckStatus::Passed, details })
}

/// The security audit check, with `attestations` audits on record.
pub open spec fn spec_security_step(f: Findings, attestations: nat) -> Findings {
    if attestations > 0 {
        let c = spec_critical_findings();
        let f1 = if c > 0 {
            spec_with_issue(f, spec_new_issue(IssueType::UnresolvedAuditFindings, spec_numbered(Seq::empty(),
                c as nat, " critical audit findings unresolved"@), Severity::Critical,
                "Resolve all critical findings before deployment"@))
        } else {
            f
        };
        spec_with_check(f1, CheckModel {
            check_type: CheckType::SecurityAudit,
            status: if c > 0 { CheckStatus::Failed } else { CheckStatus::Passed },
            details: spec_numbered("✓ "@, attestations, " security audits completed\n"@),
        })
    } else {
        let f1 = spec_with_issue(f, spec_new_issue(IssueType::NoSecurityAudit, "No security audit performed"@,
            Severity::Critical, "Complete security audit before production"@));
        spec_with_check(f1, CheckModel { check_type: CheckType::SecurityAudit, status: CheckStatus::Failed, details: Seq::empty() })
    }
}

/// The integration test check.
pub open spec fn spec_tests_step(f: Findings) -> Findings {
    let c = spec_test_coverage();
    let f1 = if c >= MIN_TEST_COVERAGE { f } else {
        spec_with_warning(f, spec_new_warning(WarningType::LowTestCoverage, spec_numbered("Test coverage "@,
            (c / 100) as nat, "% below minimum"@), Impact::High, "Increase test coverage to at least 90%"@))
    };
    let f2 = if spec_e2e_passed() { f1 } else {
        spec_with_issue(f1, spec_new_issue(IssueType::FailingTests, "Some E2E tests failing"@, Severity::High,
            "Fix all failing tests"@))
    };
    let f3 = if spec_stress_passed() { f2 } else {
        spec_with_warning(f2, spec_new_warning(WarningType::StressTestFailure, "Some stress tests failed"@,
            Impact::Medium, "Review and optimize for stress scenarios"@))
    };
    let details = spec_when(c >= MIN_TEST_COVERAGE, spec_numbered("✓ Test coverage: "@, (c / 100) as nat, "%\n"@))
        + spec_when(spec_e2e_passed(), "✓ All E2E tests passed\n"@) + spec_when(spec_stress_passed(),
        "✓ Stress tests passed\n"@);
    spec_with_check(f3, CheckModel {
        check_type: CheckType::IntegrationTests,
        status: if spec_has_issue(f3.issues, IssueType::FailingTests) { CheckStatus::Failed } else { CheckStatus::Passed },
        details,
    })
}


impl DeploymentVerifier {
    fn verify_program_id(&self) -> (r: Result<bool, BettingPlatformError>)
        ensures
            r == Ok::<bool, BettingPlatformError>(spec_program_id_ok()),
    {
        Ok(true)
    }

    fn verify_network(&self) -> (r: Result<bool, BettingPlatformError>)
        ensures
            r == Ok::<bool, BettingPlatformError>(spec_network_ok()),
    {
        Ok(true)
    }

    fn verify_rent_exemption(&self) -> (r: Result<bool, BettingPlatformError>)
        ensures
            r == Ok::<bool, BettingPlatformError>(spec_rent_exempt()),
    {
        Ok(true)
    }

    fn verify_multisig_setup(&self) -> (r: Result<bool, BettingPlatformError>)
        ensures
            r == Ok::<bool, BettingPlatformError>(spec_multisig_ok()),
    {
        Ok(true)
    }

    fn verify_authority_burned(&self) -> (r: Result<bool, BettingPlatformError>)
        ensures
            r == Ok::<bool, BettingPlatformError>(spec_authority_burned()),
    {
        Ok(false)
    }

    fn verify_primary_oracle(&self) -> (r: Result<bool, BettingPlatformError>)
        ensures
            r == Ok::<bool, BettingPlatformError>(spec_primary_oracle_ok()),
    {
        Ok(true)
    }

    fn verify_fallback_oracle(&self) -> (r: Result<bool, BettingPlatformError>)
        ensures
            r == Ok::<bool, BettingPlatformError>(spec_fallback_oracle_ok()),
    {
        Ok(true)
    }

    fn verify_websocket_connection(&self) -> (r: Result<bool, BettingPlatformError>)
        ensures
            r == Ok::<bool, BettingPlatformError>(spec_websocket_ok()),
    {
        Ok(true)
    }

    fn get_vault_balance(&self) -> (r: Result<u64, BettingPlatformError>)
        ensures
            r == Ok::<u64, BettingPlatformError>(spec_vault_balance()),
    {
        Ok(150_000_000_000)
    }

    fn verify_treasury_separation(&self) -> (r: Result<bool, BettingPlatformError>)
        ensures
            r == Ok::<bool, BettingPlatformError>(spec_treasury_separated()),
    {
        Ok(true)
    }

    fn get_active_keeper_count(&self) -> (r: Result<u32, BettingPlatformError>)
        ensures
            r == Ok::<u32, BettingPlatformError>(spec_keeper_count()),
    {
        Ok(5)
    }

    fn verify_keeper_performance(&self) -> (r: Result<bool, BettingPlatformError>)
        ensures
            r == Ok::<bool, BettingPlatformError>(spec_keeper_performance_ok()),
    {
        Ok(true)
    }

    fn verify_fee_configuration(&self) -> (r: Result<bool, BettingPlatformError>)
        ensures
            r == Ok::<bool, BettingPlatformError>(spec_fees_ok()),
    {
        Ok(true)
    }

    fn verify_price_deviation_breaker(&self) -> (r: Result<bool, BettingPlatformError>)
        ensures
            r == Ok::<bool, BettingPlatformError>(spec_breaker_ok()),
    {
        Ok(true)
    }

    fn verify_volume_spike_breaker(&self) -> (r: Result<bool, BettingPlatformError>)
        ensures
            r == Ok::<bool, BettingPlatformError>(spec_breaker_ok()),
    {
        Ok(true)
    }

    fn verify_liquidity_drain_breaker(&self) -> (r: Result<bool, BettingPlatformError>)
        ensures
            r == Ok::<bool, BettingPlatformError>(spec_breaker_ok()),
    {
        Ok(true)
    }

    fn verify_oracle_failure_breaker(&self) -> (r: Result<bool, BettingPlatformError>)
        ensures
            r == Ok::<bool, BettingPlatformError>(spec_breaker_ok()),
    {
        Ok(true)
    }

    fn verify_system_overload_breaker(&self) -> (r: Result<bool, BettingPlatformError>)
        ensures
            r == Ok::<bool, BettingPlatformError>(spec_breaker_ok()),
    {
        Ok(true)
    }

    fn verify_program_immutable(&self) -> (r: Result<bool, BettingPlatformError>)
        ensures
            r == Ok::<bool, BettingPlatformError>(spec_program_immutable()),
    {
        Ok(false)
    }

    fn verify_critical_accounts_immutable(&self) -> (r: Result<bool, BettingPlatformError>)
        ensures
            r == Ok::<bool, BettingPlatformError>(spec_accounts_immutable()),
    {
        Ok(false)
    }

    fn measure_tps_capability(&self) -> (r: Result<u32, BettingPlatformError>)
        ensures
            r == Ok::<u32, BettingPlatformError>(spec_tps_capability()),
    {
        Ok(1200)
    }

    fn measure_average_latency(&self) -> (r: Result<u32, BettingPlatformError>)
        ensures
            r == Ok::<u32, BettingPlatformError>(spec_average_latency()),
    {
        Ok(75)
    }

    fn calculate_test_coverage(&self) -> (r: Result<u16, BettingPlatformError>)
        ensures
            r == Ok::<u16, BettingPlatformError>(spec_test_coverage()),
    {
        Ok(9200)
    }

    fn verify_e2e_tests_passed(&self) -> (r: Result<bool, BettingPlatformError>)
        ensures
            r == Ok::<bool, BettingPlatformError>(spec_e2e_passed()),
    {
        Ok(true)
    }

    fn verify_stress_tests_passed(&self) -> (r: Result<bool, BettingPlatformError>)
        ensures
            r == Ok::<bool, BettingPlatformError>(spec_stress_passed()),
    {
        Ok(true)
    }

    fn verify_pda_exists(&self, seed: &[u8]) -> (r: Result<bool, BettingPlatformError>)
        ensures
            r == Ok::<bool, BettingPlatformError>(spec_pda_exists()),
    {
        Ok(true)
    }

    fn check_market_liquidity(&self) -> (r: Result<Vec<[u8; 32]>, BettingPlatformError>)
        ensures
            r matches Ok(v) && v@.len() == spec_low_liquidity_markets(),
    {
        Ok(Vec::new())
    }

    fn count_critical_findings(&self) -> (r: u32)
        ensures
            r == spec_critical_findings(),
    {
        0
    }
}


impl DeploymentVerifier {
    /// Checks program id, network and rent exemption.
    pub fn verify_system_configuration(&mut self) -> (r: Result<(), BettingPlatformError>)
        ensures
            r is Ok,
            spec_findings(*final(self)) == spec_system_configuration_step(spec_findings(*old(self))),
            spec_same_settings(*final(self), *old(self)),
    {
        let mut details = String::new();
        let ok = match self.verify_program_id() { Ok(b) => b, Err(e) => return Err(e) };
        if ok {
            details.append("✓ Program ID verified\n");
        } else {
            self.push_issue(make_issue(IssueType::InvalidProgramId, "Program ID mismatch detected", Severity::Critical,
                "Redeploy with correct program ID"));
        }
        let ok = match self.verify_network() { Ok(b) => b, Err(e) => return Err(e) };
        if ok {
            details.append("✓ Network configuration correct\n");
        } else {
            self.push_issue(make_issue(IssueType::WrongNetwork, "Not on mainnet-beta", Severity::Critical,
                "Deploy to mainnet-beta"));
        }
        let ok = match self.verify_rent_exemption() { Ok(b) => b, Err(e) => return Err(e) };
        if ok {
            details.append("✓ All accounts rent exempt\n");
        } else {
            self.push_warning(make_warning(WarningType::RentExemption, text("Some accounts not rent exempt"),
                Impact::Medium, text("Top up accounts to be rent exempt")));
        }
        let status = if self.critical_issues.len() == 0 { CheckStatus::Passed } else { CheckStatus::Failed };
        assert(details@ =~= spec_when(spec_program_id_ok(), "✓ Program ID verified\n"@) + spec_when(spec_network_ok(),
            "✓ Network configuration correct\n"@) + spec_when(spec_rent_exempt(), "✓ All accounts rent exempt\n"@));
        self.push_check(VerificationCheck { check_type: CheckType::SystemConfiguration, status, details });
        Ok(())
    }

    /// Checks that the required program addresses exist.
    pub fn verify_account_structure(&mut self) -> (r: Result<(), BettingPlatformError>)
        ensures
            r is Ok,
            spec_findings(*final(self)) == spec_account_structure_step(spec_findings(*old(self))),
            spec_same_settings(*final(self), *old(self)),
    {
        let names: [&str; 6] = ["global_state", "vault", "treasury", "oracle_config", "keeper_registry", "circuit_breaker"];
        let mut missing: Vec<&str> = Vec::new();
        let mut k: usize = 0;
        while k < 6
            invariant
                k <= 6,
                missing@.len() == 0,
            decreases 6 - k,
        {
            let seed = names[k].as_bytes();
            let exists = match self.verify_pda_exists(seed) { Ok(b) => b, Err(e) => return Err(e) };
            if !exists {
                missing.push(names[k]);
            }
            k = k + 1;
        }
        let mut details = String::new();
        let status;
        if missing.len() == 0 {
            details.append("✓ All required PDAs exist\n");
            status = CheckStatus::Passed;
        } else {
            details.append("✗ Missing PDAs: [");
            let mut j: usize = 0;
            while j < missing.len()
                decreases missing@.len() - j,
            {
                if j > 0 {
                    details.append(", ");
                }
                details.append("\"");
                details.append(missing[j]);
                details.append("\"");
                j = j + 1;
            }
            details.append("]\n");
            status = CheckStatus::Failed;
            let mut description = String::from_str("Missing ");
            push_decimal(&mut description, missing.len() as u64);
            description.append(" required PDAs");
            self.critical_issues.push(CriticalIssue {
                issue_type: IssueType::MissingAccounts,
                description,
                severity: Severity::Critical,
                resolution: String::from_str("Initialize all required accounts"),
            });
        }
        self.push_check(VerificationCheck { check_type: CheckType::AccountStructure, status, details });
        Ok(())
    }

    /// Checks multisig and the burned upgrade authority.
    pub fn verify_authorities(&mut self) -> (r: Result<(), BettingPlatformError>)
        ensures
            r is Ok,
            spec_findings(*final(self)) == spec_authorities_step(spec_findings(*old(self))),
            spec_same_settings(*final(self), *old(self)),
    {
        let mut details = String::new();
        let ok = match self.verify_multisig_setup() { Ok(b) => b, Err(e) => return Err(e) };
        if ok {
            details.append("✓ Multisig properly configured\n");
        } else {
            self.push_warning(make_warning(WarningType::SingleAuthority, text("Single authority detected"), Impact::High,
                text("Configure multisig for critical operations")));
        }
        if REQUIRED_IMMUTABILITY {
            let burned = match self.verify_authority_burned() { Ok(b) => b, Err(e) => return Err(e) };
            if burned {
                details.append("✓ Authority properly burned\n");
            } else {
                self.push_issue(make_issue(IssueType::AuthorityNotBurned, "Upgrade authority still active",
                    Severity::Critical, "Burn upgrade authority before production"));
            }
        }
        let status = if has_issue(&self.critical_issues, IssueType::AuthorityNotBurned) {
            CheckStatus::Failed
        } else {
            CheckStatus::Passed
        };
        assert(details@ =~= spec_when(spec_multisig_ok(), "✓ Multisig properly configured\n"@) + spec_when(
            REQUIRED_IMMUTABILITY && spec_authority_burned(), "✓ Authority properly burned\n"@));
        self.push_check(VerificationCheck { check_type: CheckType::AuthorityConfiguration, status, details });
        Ok(())
    }

    /// Checks the primary and fallback oracles and the WebSocket.
    pub fn verify_oracle_setup(&mut self) -> (r: Result<(), BettingPlatformError>)
        ensures
            r is Ok,
            spec_findings(*final(self)) == spec_oracle_step(spec_findings(*old(self))),
            spec_same_settings(*final(self), *old(self)),
    {
        let mut details = String::new();
        let ok = match self.verify_primary_oracle() { Ok(b) => b, Err(e) => return Err(e) };
        if ok {
            details.append("✓ Primary oracle (Polymarket) configured\n");
        } else {
            self.push_issue(make_issue(IssueType::NoOracle, "Primary oracle not configured", Severity::Critical,
                "Configure Polymarket oracle connection"));
        }
        let ok = match self.verify_fallback_oracle() { Ok(b) => b, Err(e) => return Err(e) };
        if ok {
            details.append("✓ Fallback oracle configured\n");
        } else {
            self.push_warning(make_warning(WarningType::NoFallbackOracle, text("No fallback oracle configured"),
                Impact::High, text("Configure fallback oracle for resilience")));
        }
        let ok = match self.verify_websocket_connection() { Ok(b) => b, Err(e) => return Err(e) };
        if ok {
            details.append("✓ WebSocket connection active\n");
        } else {
            self.push_warning(make_warning(WarningType::NoWebSocket, text("WebSocket not connected"), Impact::Medium,
                text("Enable WebSocket for real-time updates")));
        }
        let status = if has_issue(&self.critical_issues, IssueType::NoOracle) {
            CheckStatus::Failed
        } else {
            CheckStatus::Passed
        };
        assert(details@ =~= spec_when(spec_primary_oracle_ok(), "✓ Primary oracle (Polymarket) configured\n"@)
            + spec_when(spec_fallback_oracle_ok(), "✓ Fallback oracle configured\n"@) + spec_when(spec_websocket_ok(),
            "✓ WebSocket connection active\n"@));
        self.push_check(VerificationCheck { check_type: CheckType::OracleConfiguration, status, details });
        Ok(())
    }

    /// Checks the vault balance and treasury separation.
    pub fn verify_vault_status(&mut self) -> (r: Result<(), BettingPlatformError>)
        ensures
            r is Ok,
            spec_findings(*final(self)) == spec_vault_step(spec_findings(*old(self))),
            spec_same_settings(*final(self), *old(self)),
    {
        let mut details = String::new();
        let vault_balance = match self.get_vault_balance() { Ok(b) => b, Err(e) => return Err(e) };
        if vault_balance >= MIN_VAULT_BALANCE {
            let line = numbered("✓ Vault balance sufficient: $", vault_balance / 1_000_000, "\n");
            details.append(line.as_str());
        } else {
            self.push_warning(make_warning(WarningType::LowVaultBalance,
                numbered("Vault balance $", vault_balance / 1_000_000, " below minimum"), Impact::Medium,
                numbered("Add at least $", (MIN_VAULT_BALANCE - vault_balance) / 1_000_000, " to vault")));
        }
        let ok = match self.verify_treasury_separation() { Ok(b) => b, Err(e) => return Err(e) };
        if ok {
            details.append("✓ Treasury properly separated\n");
        } else {
            self.push_issue(make_issue(IssueType::TreasuryNotSeparated, "Treasury and vault not properly separated",
                Severity::High, "Separate treasury from operational vault"));
        }
        assert(details@ =~= spec_when(spec_vault_balance() >= MIN_VAULT_BALANCE, spec_numbered(
            "✓ Vault balance sufficient: $"@, (spec_vault_balance() / 1_000_000) as nat, "\n"@)) + spec_when(
            spec_treasury_separated(), "✓ Treasury properly separated\n"@));
        self.push_check(VerificationCheck { check_type: CheckType::VaultStatus, status: CheckStatus::Passed, details });
        Ok(())
    }

    /// Checks the keeper count and performance.
    pub fn verify_keeper_network(&mut self) -> (r: Result<(), BettingPlatformError>)
        ensures
            r is Ok,
            spec_findings(*final(self)) == spec_keeper_step(spec_findings(*old(self))),
            spec_same_settings(*final(self), *old(self)),
    {
        let mut details = String::new();
        let keeper_count = match self.get_active_keeper_count() { Ok(b) => b, Err(e) => return Err(e) };
        if keeper_count >= MIN_KEEPERS {
            let line = numbered("✓ ", keeper_count as u64, " active keepers registered\n");
            details.append(line.as_str());
        } else {
            let d = numbered("Only ", keeper_count as u64, " keepers active (minimum 3)");
            self.push_issue(CriticalIssue {
                issue_type: IssueType::InsufficientKeepers,
                description: d,
                severity: Severity::High,
                resolution: text("Register additional keepers"),
            });
        }
        let ok = match self.verify_keeper_performance() { Ok(b) => b, Err(e) => return Err(e) };
        if ok {
            details.append("✓ Keeper performance acceptable\n");
        } else {
            self.push_warning(make_warning(WarningType::PoorKeeperPerformance, text("Some keepers underperforming"),
                Impact::Medium, text("Review and optimize keeper configuration")));
        }
        let status = if keeper_count >= MIN_KEEPERS { CheckStatus::Passed } else { CheckStatus::Failed };
        assert(details@ =~= spec_when(spec_keeper_count() >= MIN_KEEPERS, spec_numbered("✓ "@,
            spec_keeper_count() as nat, " active keepers registered\n"@)) + spec_when(spec_keeper_performance_ok(),
            "✓ Keeper performance acceptable\n"@));
        self.push_check(VerificationCheck { check_type: CheckType::KeeperNetwork, status, details });
        Ok(())
    }

    /// Checks market liquidity and fees.
    pub fn verify_market_configuration(&mut self) -> (r: Result<(), BettingPlatformError>)
        ensures
            r is Ok,
            spec_findings(*final(self)) == spec_market_step(spec_findings(*old(self))),
            spec_same_settings(*final(self), *old(self)),
    {
        let mut details = String::new();
        let low = match self.check_market_liquidity() { Ok(v) => v, Err(e) => return Err(e) };
        if low.len() == 0 {
            details.append("✓ All markets have sufficient liquidity\n");
        } else {
            self.push_warning(make_warning(WarningType::LowLiquidity,
                numbered("", low.len() as u64, " markets below minimum liquidity"), Impact::Medium,
                text("Add liquidity to underserved markets")));
        }
        let ok = match self.verify_fee_configuration() { Ok(b) => b, Err(e) => return Err(e) };
        if ok {
            details.append("✓ Fee structure properly configured\n");
        } else {
            self.push_warning(make_warning(WarningType::InvalidFees, text("Fee configuration needs adjustment"),
                Impact::Low, text("Review and optimize fee structure")));
        }
        assert(details@ =~= spec_when(spec_low_liquidity_markets() == 0, "✓ All markets have sufficient liquidity\n"@)
            + spec_when(spec_fees_ok(), "✓ Fee structure properly configured\n"@));
        self.push_check(VerificationCheck { check_type: CheckType::MarketConfiguration, status: CheckStatus::Passed, details });
        Ok(())
    }
}


impl DeploymentVerifier {
    /// Checks that every circuit breaker is configured.
    pub fn verify_circuit_breakers(&mut self) -> (r: Result<(), BettingPlatformError>)
        ensures
            r is Ok,
            spec_findings(*final(self)) == spec_breakers_step(spec_findings(*old(self))),
            spec_same_settings(*final(self), *old(self)),
    {
        let names: [&str; 5] = ["Price Deviation", "Volume Spike", "Liquidity Drain", "Oracle Failure", "System Overload"];
        let b0 = match self.verify_price_deviation_breaker() { Ok(b) => b, Err(e) => return Err(e) };
        let b1 = match self.verify_volume_spike_breaker() { Ok(b) => b, Err(e) => return Err(e) };
        let b2 = match self.verify_liquidity_drain_breaker() { Ok(b) => b, Err(e) => return Err(e) };
        let b3 = match self.verify_oracle_failure_breaker() { Ok(b) => b, Err(e) => return Err(e) };
        let b4 = match self.verify_system_overload_breaker() { Ok(b) => b, Err(e) => return Err(e) };
        let configured: [bool; 5] = [b0, b1, b2, b3, b4];
        let mut details = String::new();
        let mut all_configured = true;
        let mut k: usize = 0;
        proof {
            reveal_strlit("Price Deviation");
            reveal_strlit("Volume Spike");
            reveal_strlit("Liquidity Drain");
            reveal_strlit("Oracle Failure");
            reveal_strlit("System Overload");
            reveal_strlit("✓ ");
            reveal_strlit(" breaker configured\n");
            reveal_strlit("✓ Price Deviation breaker configured\n");
            reveal_strlit("✓ Volume Spike breaker configured\n");
            reveal_strlit("✓ Liquidity Drain breaker configured\n");
            reveal_strlit("✓ Oracle Failure breaker configured\n");
            reveal_strlit("✓ System Overload breaker configured\n");
        }
        let ghost lines: Seq<Seq<char>> = seq![
            "✓ Price Deviation breaker configured\n"@,
            "✓ Volume Spike breaker configured\n"@,
            "✓ Liquidity Drain breaker configured\n"@,
            "✓ Oracle Failure breaker configured\n"@,
            "✓ System Overload breaker configured\n"@,
        ];
        assert(names@[0]@ =~= "Price Deviation"@);
        while k < 5
            invariant
                k <= 5,
                names@ == seq!["Price Deviation", "Volume Spike", "Liquidity Drain", "Oracle Failure", "System Overload"],
                configured@ == seq![true, true, true, true, true],
                all_configured,
                lines == seq![
                    "✓ Price Deviation breaker configured\n"@,
                    "✓ Volume Spike breaker configured\n"@,
                    "✓ Liquidity Drain breaker configured\n"@,
                    "✓ Oracle Failure breaker configured\n"@,
                    "✓ System Overload breaker configured\n"@,
                ],
                forall|j: int| 0 <= j < 5 ==> #[trigger] lines[j] == "✓ "@ + names@[j]@ + " breaker configured\n"@,
                details@ == lines.take(k as int).fold_left(Seq::<char>::empty(), |acc: Seq<char>, l: Seq<char>| acc + l),
                spec_findings(*self) == spec_findings(*old(self)),
                spec_same_settings(*self, *old(self)),
            decreases 5 - k,
        {
            if configured[k] {
                details.append("✓ ");
                details.append(names[k]);
                details.append(" breaker configured\n");
            } else {
                details.append("✗ ");
                details.append(names[k]);
                details.append(" breaker missing\n");
                all_configured = false;
            }
            proof {
                let t = lines.take(k as int + 1);
                assert(t.drop_last() =~= lines.take(k as int));
                assert(details@ =~= lines.take(k as int).fold_left(Seq::<char>::empty(), |acc: Seq<char>, l: Seq<char>| acc + l) + lines[k as int]);
            }
            k = k + 1;
        }
        proof {
            assert(lines.take(5) =~= lines);
            reveal_with_fuel(Seq::fold_left, 6);
        }
        if !all_configured {
            self.push_issue(make_issue(IssueType::MissingCircuitBreakers, "Not all circuit breakers configured",
                Severity::High, "Configure all circuit breakers"));
        }
        let status = if all_configured { CheckStatus::Passed } else { CheckStatus::Failed };
        self.push_check(VerificationCheck { check_type: CheckType::CircuitBreakers, status, details });
        Ok(())
    }
}


impl DeploymentVerifier {
    /// Checks that the program and critical accounts are immutable.
    pub fn verify_immutability(&mut self) -> (r: Result<(), BettingPlatformError>)
        ensures
            r is Ok,
            spec_findings(*final(self)) == spec_immutability_step(spec_findings(*old(self))),
            spec_same_settings(*final(self), *old(self)),
    {
        let mut details = String::new();
        let status;
        if !REQUIRED_IMMUTABILITY {
            details.append("ℹ Immutability not required for this deployment\n");
            status = CheckStatus::Passed;
        } else {
            let ok = match self.verify_program_immutable() { Ok(b) => b, Err(e) => return Err(e) };
            if ok {
                details.append("✓ Program marked immutable\n");
            } else {
                self.push_issue(make_issue(IssueType::NotImmutable, "Program not immutable", Severity::Critical,
                    "Make program immutable before production"));
            }
            let ok = match self.verify_critical_accounts_immutable() { Ok(b) => b, Err(e) => return Err(e) };
            if ok {
                details.append("✓ Critical accounts immutable\n");
            } else {
                self.push_issue(make_issue(IssueType::AccountsNotImmutable, "Some critical accounts still mutable",
                    Severity::High, "Lock all critical accounts"));
            }
            status = if has_issue(&self.critical_issues, IssueType::NotImmutable) || has_issue(
                &self.critical_issues,
                IssueType::AccountsNotImmutable,
            ) {
                CheckStatus::Failed
            } else {
                CheckStatus::Passed
            };
        }
        assert(details@ =~= spec_when(spec_program_immutable(), "✓ Program marked immutable\n"@) + spec_when(
            spec_accounts_immutable(), "✓ Critical accounts immutable\n"@));
        self.push_check(VerificationCheck { check_type: CheckType::Immutability, status, details });
        Ok(())
    }

    /// Checks transaction throughput and latency.
    pub fn verify_performance(&mut self) -> (r: Result<(), BettingPlatformError>)
        ensures
            r is Ok,
            spec_findings(*final(self)) == spec_performance_step(spec_findings(*old(self))),
            spec_same_settings(*final(self), *old(self)),
    {
        let mut details = String::new();
        let tps = match self.measure_tps_capability() { Ok(b) => b, Err(e) => return Err(e) };
        if tps >= 1000 {
            let line = numbered("✓ TPS capability: ", tps as u64, " (exceeds minimum)\n");
            details.append(line.as_str());
        } else {
            self.push_warning(make_warning(WarningType::LowTPS, numbered("TPS capability ", tps as u64, " below target"),
                Impact::Medium, text("Optimize transaction processing")));
        }
        let latency = match self.measure_average_latency() { Ok(b) => b, Err(e) => return Err(e) };
        if latency < 100 {
            let line = numbered("✓ Average latency: ", latency as u64, "ms\n");
            details.append(line.as_str());
        } else {
            self.push_warning(make_warning(WarningType::HighLatency, numbered("Average latency ", latency as u64,
                "ms too high"), Impact::Medium, text("Optimize critical paths")));
        }
        assert(details@ =~= spec_when(spec_tps_capability() >= 1000, spec_numbered("✓ TPS capability: "@,
            spec_tps_capability() as nat, " (exceeds minimum)\n"@)) + spec_when(spec_average_latency() < 100,
            spec_numbered("✓ Average latency: "@, spec_average_latency() as nat, "ms\n"@)));
        self.push_check(VerificationCheck {
            check_type: CheckType::PerformanceRequirements,
            status: CheckStatus::Passed,
            details,
        });
        Ok(())
    }

    /// Checks that security audits are on record with no critical findings.
    pub fn verify_security_audit(&mut self) -> (r: Result<(), BettingPlatformError>)
        ensures
            r is Ok,
            spec_findings(*final(self)) == spec_security_step(spec_findings(*old(self)),
                old(self).security_attestations@.len()),
            spec_same_settings(*final(self), *old(self)),
    {
        let mut details = String::new();
        let status;
        if !REQUIRED_SECURITY_AUDIT {
            details.append("ℹ Security audit not required\n");
            status = CheckStatus::Passed;
        } else if self.security_attestations.len() > 0 {
            let line = numbered("✓ ", self.security_attestations.len() as u64, " security audits completed\n");
            details.append(line.as_str());
            let critical_findings = self.count_critical_findings();
            if critical_findings > 0 {
                let d = numbered("", critical_findings as u64, " critical audit findings unresolved");
                self.push_issue(CriticalIssue {
                    issue_type: IssueType::UnresolvedAuditFindings,
                    description: d,
                    severity: Severity::Critical,
                    resolution: text("Resolve all critical findings before deployment"),
                });
                status = CheckStatus::Failed;
            } else {
                status = CheckStatus::Passed;
            }
            assert(details@ =~= spec_numbered("✓ "@, old(self).security_attestations@.len(),
                " security audits completed\n"@));
        } else {
            self.push_issue(make_issue(IssueType::NoSecurityAudit, "No security audit performed", Severity::Critical,
                "Complete security audit before production"));
            status = CheckStatus::Failed;
            assert(details@ =~= Seq::<char>::empty());
        }
        self.push_check(VerificationCheck { check_type: CheckType::SecurityAudit, status, details });
        Ok(())
    }

    /// Checks test coverage, end-to-end and stress tests.
    pub fn verify_integration_tests(&mut self) -> (r: Result<(), BettingPlatformError>)
        ensures
            r is Ok,
            spec_findings(*final(self)) == spec_tests_step(spec_findings(*old(self))),
            spec_same_settings(*final(self), *old(self)),
    {
        let mut details = String::new();
        let coverage = match self.calculate_test_coverage() { Ok(b) => b, Err(e) => return Err(e) };
        if coverage >= MIN_TEST_COVERAGE {
            let line = numbered("✓ Test coverage: ", (coverage / 100) as u64, "%\n");
            details.append(line.as_str());
        } else {
            self.push_warning(make_warning(WarningType::LowTestCoverage, numbered("Test coverage ",
                (coverage / 100) as u64, "% below minimum"), Impact::High, text("Increase test coverage to at least 90%")));
        }
        let ok = match self.verify_e2e_tests_passed() { Ok(b) => b, Err(e) => return Err(e) };
        if ok {
            details.append("✓ All E2E tests passed\n");
        } else {
            self.push_issue(make_issue(IssueType::FailingTests, "Some E2E tests failing", Severity::High,
                "Fix all failing tests"));
        }
        let ok = match self.verify_stress_tests_passed() { Ok(b) => b, Err(e) => return Err(e) };
        if ok {
            details.append("✓ Stress tests passed\n");
        } else {
            self.push_warning(make_warning(WarningType::StressTestFailure, text("Some stress tests failed"),
                Impact::Medium, text("Review and optimize for stress scenarios")));
        }
        let status = if has_issue(&self.critical_issues, IssueType::FailingTests) {
            CheckStatus::Failed
        } else {
            CheckStatus::Passed
        };
        assert(details@ =~= spec_when(spec_test_coverage() >= MIN_TEST_COVERAGE, spec_numbered("✓ Test coverage: "@,
            (spec_test_coverage() / 100) as nat, "%\n"@)) + spec_when(spec_e2e_passed(), "✓ All E2E tests passed\n"@)
            + spec_when(spec_stress_passed(), "✓ Stress tests passed\n"@));
        self.push_check(VerificationCheck { check_type: CheckType::IntegrationTests, status, details });
        Ok(())
    }
}


/// Number of passed checks.
pub open spec fn spec_passed(cs: Seq<CheckModel>) -> nat
    decreases cs.len(),
{
    if cs.len() == 0 {
        0
    } else {
        spec_passed(cs.drop_last()) + if cs.last().status == CheckStatus::Passed { 1nat } else { 0nat }
    }
}

proof fn lemma_passed_le(cs: Seq<CheckModel>)
    ensures
        spec_passed(cs) <= cs.len(),
    decreases cs.len(),
{
    if cs.len() > 0 {
        lemma_passed_le(cs.drop_last());
    }
}

/// Saturating 16-bit subtraction.
pub open spec fn spec_sat_sub16(a: int, b: int) -> int {
    if a >= b { a - b } else { 0 }
}

/// Readiness score: passed checks weigh 7000, less 200 per critical issue
/// (up to ten) and 50 per warning (up to twenty), plus 500 (capped at
/// 10000) when audits are on record. Counts are 16-bit, as computed.
pub open spec fn spec_readiness(f: Findings, attestations: nat) -> int {
    let total = f.checks.len() as u16;
    let passed = spec_passed(f.checks) as u16;
    let check_score: int = if total > 0 { (passed * 7000) as int / (total as int) } else { 0 };
    let ic = f.issues.len() as u16;
    let wc = f.warnings.len() as u16;
    let cp: int = (if ic < 10 { ic as int } else { 10 }) * 200;
    let wp: int = (if wc < 20 { wc as int } else { 20 }) * 50;
    let score = spec_sat_sub16(spec_sat_sub16(check_score, cp), wp);
    if attestations > 0 {
        if score + 500 < 10000 { score + 500 } else { 10000 }
    } else {
        score
    }
}

/// Whether the readiness arithmetic stays within 16 bits.
pub open spec fn spec_readiness_defined(f: Findings) -> bool {
    (spec_passed(f.checks) as u16) * 7000 <= u16::MAX
}

/// Status from the critical issues and score.
pub open spec fn spec_status(issues: nat, score: int) -> DeploymentStatus {
    if issues == 0 && score >= 9500 {
        DeploymentStatus::ReadyForProduction
    } else if issues == 0 && score >= 8000 {
        DeploymentStatus::ConditionallyReady
    } else {
        DeploymentStatus::NotReady
    }
}

/// The warnings of high impact, in order.
pub open spec fn spec_high_warnings(ws: Seq<WarningModel>) -> Seq<WarningModel>
    decreases ws.len(),
{
    if ws.len() == 0 {
        Seq::empty()
    } else if ws.last().impact == Impact::High {
        spec_high_warnings(ws.drop_last()).push(ws.last())
    } else {
        spec_high_warnings(ws.drop_last())
    }
}

/// The recommendations: each critical issue, each high-impact warning,
/// then throughput and audit advice when they apply.
pub open spec fn spec_recommendations(f: Findings, average_tps: u32, attestations: nat) -> Seq<Seq<char>> {
    f.issues.map_values(|i: IssueModel| "CRITICAL: "@ + i.description + " - "@ + i.resolution)
        + spec_high_warnings(f.warnings).map_values(|w: WarningModel| "HIGH: "@ + w.description + " - "@ + w.recommendation)
        + (if average_tps < 1000 { seq!["Optimize transaction processing for higher TPS"@] } else { Seq::empty() })
        + (if attestations == 0 && REQUIRED_SECURITY_AUDIT {
            seq!["Complete security audit before production deployment"@]
        } else {
            Seq::empty()
        })
}

/// A checklist item with the given task, completion and requirement.
pub open spec fn spec_item_is(i: ChecklistItem, task: Seq<char>, completed: bool, required: bool) -> bool {
    i.task@ == task && i.completed == completed && i.required == required
}

/// The deployment checklist: audit, tests and multisig before; deploy,
/// initialise and configure oracles; then burn the authority, verify the
/// breakers and monitor.
pub open spec fn spec_checklist_is(c: DeploymentChecklist, f: Findings, attestations: nat) -> bool {
    &&& c.pre_deployment@.len() == 3
    &&& spec_item_is(c.pre_deployment@[0], "Complete security audit"@, attestations > 0, REQUIRED_SECURITY_AUDIT)
    &&& spec_item_is(c.pre_deployment@[1], "Verify all tests pass"@, !spec_has_issue(f.issues, IssueType::FailingTests), true)
    &&& spec_item_is(c.pre_deployment@[2], "Configure multisig"@, spec_multisig_ok(), true)
    &&& c.deployment@.len() == 3
    &&& spec_item_is(c.deployment@[0], "Deploy program to mainnet"@, false, true)
    &&& spec_item_is(c.deployment@[1], "Initialize all accounts"@, false, true)
    &&& spec_item_is(c.deployment@[2], "Configure oracle connections"@, false, true)
    &&& c.post_deployment@.len() == 3
    &&& spec_item_is(c.post_deployment@[0], "Burn upgrade authority"@, false, REQUIRED_IMMUTABILITY)
    &&& spec_item_is(c.post_deployment@[1], "Verify circuit breakers"@, false, true)
    &&& spec_item_is(c.post_deployment@[2], "Monitor initial transactions"@, false, true)
}

fn item(task: &str, completed: bool, required: bool) -> (r: ChecklistItem)
    ensures
        spec_item_is(r, task@, completed, required),
{
    ChecklistItem { task: String::from_str(task), completed, required }
}

fn clone_issue(i: &CriticalIssue) -> (r: CriticalIssue)
    ensures
        spec_issue(r) == spec_issue(*i),
{
    CriticalIssue {
        issue_type: i.issue_type,
        description: i.description.clone(),
        severity: i.severity,
        resolution: i.resolution.clone(),
    }
}

fn clone_warning(w: &Warning) -> (r: Warning)
    ensures
        spec_warning(r) == spec_warning(*w),
{
    Warning {
        warning_type: w.warning_type,
        description: w.description.clone(),
        impact: w.impact,
        recommendation: w.recommendation.clone(),
    }
}

/// An attestation with its auditor as characters.
pub ghost struct AttestationModel {
    pub auditor: Seq<char>,
    pub audit_date: i64,
    pub audit_hash: Seq<u8>,
    pub findings_resolved: bool,
}

pub open spec fn spec_attestations(v: Seq<SecurityAttestation>) -> Seq<AttestationModel> {
    v.map_values(|a: SecurityAttestation| AttestationModel {
        auditor: a.auditor@,
        audit_date: a.audit_date,
        audit_hash: a.audit_hash@,
        findings_resolved: a.findings_resolved,
    })
}

fn clone_issues(v: &Vec<CriticalIssue>) -> (r: Vec<CriticalIssue>)
    ensures
        spec_issues(r@) == spec_issues(v@),
{
    let mut out: Vec<CriticalIssue> = Vec::new();
    let mut k: usize = 0;
    while k < v.len()
        invariant
            k <= v@.len(),
            spec_issues(out@) == spec_issues(v@.take(k as int)),
        decreases v@.len() - k,
    {
        let ghost prev = out@;
        let c = clone_issue(&v[k]);
        out.push(c);
        assert(v@.take(k as int + 1) =~= v@.take(k as int).push(v@[k as int]));
        assert(spec_issues(out@) =~= spec_issues(prev).push(spec_issue(c)));
        assert(spec_issues(v@.take(k as int + 1)) =~= spec_issues(v@.take(k as int)).push(spec_issue(v@[k as int])));
        k = k + 1;
    }
    assert(v@.take(v@.len() as int) =~= v@);
    out
}

fn clone_warnings(v: &Vec<Warning>) -> (r: Vec<Warning>)
    ensures
        spec_warnings(r@) == spec_warnings(v@),
{
    let mut out: Vec<Warning> = Vec::new();
    let mut k: usize = 0;
    while k < v.len()
        invariant
            k <= v@.len(),
            spec_warnings(out@) == spec_warnings(v@.take(k as int)),
        decreases v@.len() - k,
    {
        let ghost prev = out@;
        let c = clone_warning(&v[k]);
        out.push(c);
        assert(v@.take(k as int + 1) =~= v@.take(k as int).push(v@[k as int]));
        assert(spec_warnings(out@) =~= spec_warnings(prev).push(spec_warning(c)));
        assert(spec_warnings(v@.take(k as int + 1)) =~= spec_warnings(v@.take(k as int)).push(spec_warning(v@[k as int])));
        k = k + 1;
    }
    assert(v@.take(v@.len() as int) =~= v@);
    out
}

fn clone_attestations(v: &Vec<SecurityAttestation>) -> (r: Vec<SecurityAttestation>)
    ensures
        spec_attestations(r@) == spec_attestations(v@),
{
    let mut out: Vec<SecurityAttestation> = Vec::new();
    let mut k: usize = 0;
    while k < v.len()
        invariant
            k <= v@.len(),
            spec_attestations(out@) == spec_attestations(v@.take(k as int)),
        decreases v@.len() - k,
    {
        let a = &v[k];
        let ghost prev = out@;
        let c = SecurityAttestation {
            auditor: a.auditor.clone(),
            audit_date: a.audit_date,
            audit_hash: a.audit_hash,
            findings_resolved: a.findings_resolved,
        };
        out.push(c);
        assert(v@.take(k as int + 1) =~= v@.take(k as int).push(v@[k as int]));
        assert(spec_attestations(out@) =~= spec_attestations(prev).push(spec_attestations(seq![c])[0]));
        assert(spec_attestations(v@.take(k as int + 1)) =~= spec_attestations(v@.take(k as int)).push(
            spec_attestations(seq![v@[k as int]])[0]));
        k = k + 1;
    }
    assert(v@.take(v@.len() as int) =~= v@);
    out
}

fn count_passed(v: &Vec<VerificationCheck>) -> (r: usize)
    ensures
        r == spec_passed(spec_checks(v@)),
{
    let ghost cs = spec_checks(v@);
    let mut n: usize = 0;
    let mut k: usize = 0;
    while k < v.len()
        invariant
            k <= v@.len(),
            cs == spec_checks(v@),
            n == spec_passed(cs.take(k as int)),
            n <= k,
        decreases v@.len() - k,
    {
        assert(cs.take(k as int + 1).drop_last() =~= cs.take(k as int));
        if v[k].status == CheckStatus::Passed {
            n = n + 1;
        }
        k = k + 1;
    }
    assert(cs.take(v@.len() as int) =~= cs);
    n
}

/// The report of a verifier in state `v` at `timestamp`.
pub open spec fn spec_report_is(r: VerificationReport, v: DeploymentVerifier, timestamp: i64) -> bool {
    let f = spec_findings(v);
    &&& r.verification_id == v.verification_id
    &&& r.timestamp == timestamp
    &&& r.deployment_status == v.deployment_status
    &&& r.readiness_score == v.readiness_score
    &&& r.total_checks == v.checks_performed@.len() as u32
    &&& r.passed_checks == spec_passed(f.checks) as u32
    &&& spec_issues(r.critical_issues@) == f.issues
    &&& spec_warnings(r.warnings@) == f.warnings
    &&& spec_attestations(r.security_attestations@) == spec_attestations(v.security_attestations@)
    &&& r.performance_summary == v.performance_metrics
    &&& r.recommendations@.map_values(|s: String| s@) == spec_recommendations(f, v.performance_metrics.average_tps,
        v.security_attestations@.len())
    &&& spec_checklist_is(r.deployment_checklist, f, v.security_attestations@.len())
}

/// All twelve checks, in order, from `f`.
pub open spec fn spec_all_checks(f: Findings, attestations: nat) -> Findings {
    spec_tests_step(spec_security_step(spec_performance_step(spec_immutability_step(spec_breakers_step(
        spec_market_step(spec_keeper_step(spec_vault_step(spec_oracle_step(spec_authorities_step(
        spec_account_structure_step(spec_system_configuration_step(f)))))))))), attestations))
}

/// The findings of a full run on a verifier.
pub open spec fn spec_run_findings(v: DeploymentVerifier) -> Findings {
    spec_all_checks(spec_no_findings(), v.security_attestations@.len())
}

/// The readiness score after a full run on a verifier.
pub open spec fn spec_run_score(v: DeploymentVerifier) -> int {
    spec_readiness(spec_run_findings(v), v.security_attestations@.len())
}

/// The state a run reports: its findings and score, with the status and
/// slot from before the run.
pub open spec fn spec_reported_state(after: DeploymentVerifier, before: DeploymentVerifier) -> DeploymentVerifier {
    DeploymentVerifier {
        deployment_status: before.deployment_status,
        last_verification_slot: before.last_verification_slot,
        ..after
    }
}

/// No findings.
pub open spec fn spec_no_findings() -> Findings {
    Findings { checks: Seq::empty(), issues: Seq::empty(), warnings: Seq::empty() }
}

impl DeploymentVerifier {
    /// Computes the readiness score from the findings and audits.
    pub fn calculate_readiness_score(&mut self) -> (r: Result<(), BettingPlatformError>)
        requires
            spec_readiness_defined(spec_findings(*old(self))),
        ensures
            r is Ok,
            final(self).readiness_score == spec_readiness(spec_findings(*old(self)), old(self).security_attestations@.len()),
            spec_findings(*final(self)) == spec_findings(*old(self)),
            final(self).security_attestations@ == old(self).security_attestations@,
            final(self).performance_metrics == old(self).performance_metrics,
            final(self).verification_id == old(self).verification_id,
            final(self).deployment_status == old(self).deployment_status,
            final(self).last_verification_slot == old(self).last_verification_slot,
            final(self).configuration_hashes == old(self).configuration_hashes,
    {
        let total_checks = self.checks_performed.len() as u16;
        let passed_checks = count_passed(&self.checks_performed) as u16;
        let check_score: u16 = if total_checks > 0 { (passed_checks * 7000) / total_checks } else { 0 };
        let ic = self.critical_issues.len() as u16;
        let critical_penalty: u16 = (if ic < 10 { ic } else { 10 }) * 200;
        let wc = self.warnings.len() as u16;
        let warning_penalty: u16 = (if wc < 20 { wc } else { 20 }) * 50;
        self.readiness_score = check_score.saturating_sub(critical_penalty).saturating_sub(warning_penalty);
        if self.security_attestations.len() > 0 {
            let bumped = self.readiness_score + 500;
            self.readiness_score = if bumped < 10000 { bumped } else { 10000 };
        }
        Ok(())
    }

    /// The recommendations drawn from the findings.
    pub fn generate_recommendations(&self) -> (r: Vec<String>)
        ensures
            r@.map_values(|s: String| s@) == spec_recommendations(spec_findings(*self),
                self.performance_metrics.average_tps, self.security_attestations@.len()),
    {
        let ghost f = spec_findings(*self);
        let mut out: Vec<String> = Vec::new();
        let mut k: usize = 0;
        while k < self.critical_issues.len()
            invariant
                k <= self.critical_issues@.len(),
                f == spec_findings(*self),
                out@.map_values(|s: String| s@) == f.issues.take(k as int).map_values(
                    |i: IssueModel| "CRITICAL: "@ + i.description + " - "@ + i.resolution),
            decreases self.critical_issues@.len() - k,
        {
            let issue = &self.critical_issues[k];
            let mut line = String::from_str("CRITICAL: ");
            line.append(issue.description.as_str());
            line.append(" - ");
            line.append(issue.resolution.as_str());
            let ghost prev = out@;
            out.push(line);
            assert(f.issues.take(k as int + 1) =~= f.issues.take(k as int).push(f.issues[k as int]));
            assert(out@.map_values(|s: String| s@) =~= prev.map_values(|s: String| s@).push(line@));
            assert(out@.map_values(|s: String| s@) =~= f.issues.take(k as int + 1).map_values(
                |i: IssueModel| "CRITICAL: "@ + i.description + " - "@ + i.resolution));
            k = k + 1;
        }
        assert(f.issues.take(f.issues.len() as int) =~= f.issues);
        let ghost part1 = out@.map_values(|s: String| s@);
        let mut j: usize = 0;
        while j < self.warnings.len()
            invariant
                j <= self.warnings@.len(),
                f == spec_findings(*self),
                out@.map_values(|s: String| s@) == part1 + spec_high_warnings(f.warnings.take(j as int)).map_values(
                    |w: WarningModel| "HIGH: "@ + w.description + " - "@ + w.recommendation),
            decreases self.warnings@.len() - j,
        {
            assert(f.warnings.take(j as int + 1).drop_last() =~= f.warnings.take(j as int));
            let w = &self.warnings[j];
            assert(f.warnings.take(j as int + 1).last() == f.warnings[j as int]);
            if w.impact == Impact::High {
                let mut line = String::from_str("HIGH: ");
                line.append(w.description.as_str());
                line.append(" - ");
                line.append(w.recommendation.as_str());
                let ghost prev = out@;
                out.push(line);
                assert(out@.map_values(|s: String| s@) =~= prev.map_values(|s: String| s@).push(line@));
            }
            assert(out@.map_values(|s: String| s@) =~= part1 + spec_high_warnings(f.warnings.take(j as int + 1)).map_values(
                |w: WarningModel| "HIGH: "@ + w.description + " - "@ + w.recommendation));
            j = j + 1;
        }
        assert(f.warnings.take(f.warnings.len() as int) =~= f.warnings);
        let ghost part2 = out@.map_values(|s: String| s@);
        if self.performance_metrics.average_tps < 1000 {
            out.push(String::from_str("Optimize transaction processing for higher TPS"));
        }
        let ghost part3 = out@.map_values(|s: String| s@);
        assert(part3 =~= part2 + (if self.performance_metrics.average_tps < 1000 {
            seq!["Optimize transaction processing for higher TPS"@]
        } else {
            Seq::empty()
        }));
        if self.security_attestations.len() == 0 && REQUIRED_SECURITY_AUDIT {
            out.push(String::from_str("Complete security audit before production deployment"));
        }
        assert(out@.map_values(|s: String| s@) =~= part3 + (if self.security_attestations@.len() == 0
            && REQUIRED_SECURITY_AUDIT {
            seq!["Complete security audit before production deployment"@]
        } else {
            Seq::empty()
        }));
        out
    }

    /// The deployment checklist as the findings stand.
    pub fn generate_deployment_checklist(&self) -> (r: DeploymentChecklist)
        ensures
            spec_checklist_is(r, spec_findings(*self), self.security_attestations@.len()),
    {
        let multisig = match self.verify_multisig_setup() {
            Ok(b) => b,
            Err(_) => false,
        };
        let mut pre_deployment: Vec<ChecklistItem> = Vec::new();
        pre_deployment.push(item("Complete security audit", self.security_attestations.len() > 0,
            REQUIRED_SECURITY_AUDIT));
        pre_deployment.push(item("Verify all tests pass", !has_issue(&self.critical_issues, IssueType::FailingTests),
            true));
        pre_deployment.push(item("Configure multisig", multisig, true));
        let mut deployment: Vec<ChecklistItem> = Vec::new();
        deployment.push(item("Deploy program to mainnet", false, true));
        deployment.push(item("Initialize all accounts", false, true));
        deployment.push(item("Configure oracle connections", false, true));
        let mut post_deployment: Vec<ChecklistItem> = Vec::new();
        post_deployment.push(item("Burn upgrade authority", false, REQUIRED_IMMUTABILITY));
        post_deployment.push(item("Verify circuit breakers", false, true));
        post_deployment.push(item("Monitor initial transactions", false, true));
        DeploymentChecklist { pre_deployment, deployment, post_deployment }
    }

    /// The verification report at `timestamp`.
    pub fn generate_verification_report(&self, timestamp: i64) -> (r: Result<VerificationReport, BettingPlatformError>)
        ensures
            r matches Ok(rep) && spec_report_is(rep, *self, timestamp),
    {
        let passed = count_passed(&self.checks_performed);
        proof {
            lemma_passed_le(spec_checks(self.checks_performed@));
        }
        Ok(VerificationReport {
            verification_id: self.verification_id,
            timestamp,
            deployment_status: self.deployment_status,
            readiness_score: self.readiness_score,
            total_checks: self.checks_performed.len() as u32,
            passed_checks: passed as u32,
            critical_issues: clone_issues(&self.critical_issues),
            warnings: clone_warnings(&self.warnings),
            security_attestations: clone_attestations(&self.security_attestations),
            performance_summary: self.performance_metrics,
            recommendations: self.generate_recommendations(),
            deployment_checklist: self.generate_deployment_checklist(),
        })
    }
}


impl DeploymentVerifier {
    pub const SIZE: usize = 16 + 1 + 4 + 100 * VerificationCheck::SIZE + 4 + 20 * CriticalIssue::SIZE + 4 + 50
        * Warning::SIZE + 2 + 8 + 4 + 10 * SecurityAttestation::SIZE + PerformanceMetrics::SIZE
        + ConfigurationHashes::SIZE;

    /// Starts verification `verification_id` at `current_slot` with no
    /// findings.
    pub fn initialize(&mut self, verification_id: u128, current_slot: u64) -> (r: Result<(), BettingPlatformError>)
        ensures
            r is Ok,
            final(self).verification_id == verification_id,
            final(self).deployment_status == DeploymentStatus::PreDeployment,
            spec_findings(*final(self)) == spec_no_findings(),
            final(self).readiness_score == 0,
            final(self).last_verification_slot == current_slot,
            final(self).security_attestations@.len() == 0,
            final(self).performance_metrics == (PerformanceMetrics {
                average_tps: 0,
                peak_tps: 0,
                average_latency_ms: 0,
                p99_latency_ms: 0,
                uptime_percentage: 0,
            }),
    {
        self.verification_id = verification_id;
        self.deployment_status = DeploymentStatus::PreDeployment;
        self.checks_performed = Vec::new();
        self.critical_issues = Vec::new();
        self.warnings = Vec::new();
        self.readiness_score = 0;
        self.last_verification_slot = current_slot;
        self.security_attestations = Vec::new();
        self.performance_metrics = PerformanceMetrics::default();
        self.configuration_hashes = ConfigurationHashes::default();
        assert(spec_checks(self.checks_performed@) =~= Seq::<CheckModel>::empty());
        assert(spec_issues(self.critical_issues@) =~= Seq::<IssueModel>::empty());
        assert(spec_warnings(self.warnings@) =~= Seq::<WarningModel>::empty());
        Ok(())
    }

    /// Runs every check afresh at `current_slot`/`timestamp`, scores the
    /// findings, produces the report (with the status as it stood), then
    /// sets the status: ready with no critical issue and a score of at
    /// least 9500, conditionally ready from 8000, not ready otherwise.
    pub fn verify_deployment(&mut self, current_slot: u64, timestamp: i64) -> (r: Result<
        VerificationReport,
        BettingPlatformError,
    >)
        requires
            spec_readiness_defined(spec_run_findings(*old(self))),
        ensures
            spec_findings(*final(self)) == spec_run_findings(*old(self)),
            final(self).readiness_score == spec_run_score(*old(self)),
            final(self).deployment_status == spec_status(spec_run_findings(*old(self)).issues.len(), spec_run_score(*old(self))),
            final(self).last_verification_slot == current_slot,
            final(self).security_attestations@ == old(self).security_attestations@,
            final(self).performance_metrics == old(self).performance_metrics,
            final(self).verification_id == old(self).verification_id,
            r matches Ok(rep) && spec_report_is(rep, spec_reported_state(*final(self), *old(self)), timestamp),
    {
        self.checks_performed = Vec::new();
        self.critical_issues = Vec::new();
        self.warnings = Vec::new();
        assert(spec_checks(self.checks_performed@) =~= Seq::<CheckModel>::empty());
        assert(spec_issues(self.critical_issues@) =~= Seq::<IssueModel>::empty());
        assert(spec_warnings(self.warnings@) =~= Seq::<WarningModel>::empty());
        match self.verify_system_configuration() { Ok(()) => {}, Err(e) => return Err(e) }
        match self.verify_account_structure() { Ok(()) => {}, Err(e) => return Err(e) }
        match self.verify_authorities() { Ok(()) => {}, Err(e) => return Err(e) }
        match self.verify_oracle_setup() { Ok(()) => {}, Err(e) => return Err(e) }
        match self.verify_vault_status() { Ok(()) => {}, Err(e) => return Err(e) }
        match self.verify_keeper_network() { Ok(()) => {}, Err(e) => return Err(e) }
        match self.verify_market_configuration() { Ok(()) => {}, Err(e) => return Err(e) }
        match self.verify_circuit_breakers() { Ok(()) => {}, Err(e) => return Err(e) }
        match self.verify_immutability() { Ok(()) => {}, Err(e) => return Err(e) }
        match self.verify_performance() { Ok(()) => {}, Err(e) => return Err(e) }
        match self.verify_security_audit() { Ok(()) => {}, Err(e) => return Err(e) }
        match self.verify_integration_tests() { Ok(()) => {}, Err(e) => return Err(e) }
        match self.calculate_readiness_score() { Ok(()) => {}, Err(e) => return Err(e) }
        let report = match self.generate_verification_report(timestamp) { Ok(rep) => rep, Err(e) => return Err(e) };
        self.deployment_status = if self.critical_issues.len() == 0 && self.readiness_score >= 9500 {
            DeploymentStatus::ReadyForProduction
        } else if self.critical_issues.len() == 0 && self.readiness_score >= 8000 {
            DeploymentStatus::ConditionallyReady
        } else {
            DeploymentStatus::NotReady
        };
        self.last_verification_slot = current_slot;
        Ok(report)
    }
}

} // verus!
