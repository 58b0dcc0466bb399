//! Cross-validation of market data between oracle sources: discrepancies
//! are detected, graded, turned into a confidence score and a status, and
//! source reliability is tracked.
use std::collections::VecDeque;
use vstd::prelude::*;
use vstd::string::StringExecFns;
use crate::error::BettingPlatformError;
use crate::oracle_coordinator::OracleSource;
use crate::text::{push_decimal, spec_decimal};

verus! {

/// Price deviation at or above which prices disagree (5%).
pub const PRICE_DEVIATION_THRESHOLD_BPS: u64 = 500;
/// Volume deviation above which volumes disagree (10%).
pub const VOLUME_DEVIATION_THRESHOLD_BPS: u64 = 1000;
/// Timestamp drift above which updates disagree (5 minutes).
pub const TIMESTAMP_DRIFT_SECONDS: i64 = 300;
/// Confidence below which a result needs manual review.
pub const CONFIDENCE_THRESHOLD: u64 = 80;

/// Discrepancy severity.
#[derive(Clone, Copy, Debug, PartialEq, Eq, Structural)]
pub enum Severity {
    Low,
    Medium,
    High,
    Critical,
}

/// Validation status.
#[derive(Clone, Copy, Debug, PartialEq, Eq, Structural)]
pub enum ValidationStatus {
    Pending,
    Passed,
    PassedWithWarnings,
    Failed,
    Skipped,
}

/// Action required.
#[derive(Clone, Copy, Debug, PartialEq, Eq, Structural)]
pub enum ActionRequired {
    NoAction,
    LogOnly,
    Alert,
    ManualReview,
    HaltTrading,
}

/// Discrepancy types.
#[derive(Clone, Debug)]
pub enum Discrepancy {
    PriceDeviation { primary_price: u64, comparison_price: u64, deviation_bps: u64 },
    VolumeDeviation { primary_volume: u64, comparison_volume: u64, deviation_bps: u64 },
    OutcomeMismatch { primary_outcomes: Vec<String>, comparison_outcomes: Vec<String> },
    TimestampDrift { primary_timestamp: i64, comparison_timestamp: i64, drift_seconds: i64 },
    StatusMismatch { primary_status: String, comparison_status: String },
    MissingData { source: OracleSource, field: String },
}

/// The content of a discrepancy, with text as character sequences.
pub ghost enum DiscrepancyModel {
    PriceDeviation { primary_price: u64, comparison_price: u64, deviation_bps: u64 },
    VolumeDeviation { primary_volume: u64, comparison_volume: u64, deviation_bps: u64 },
    OutcomeMismatch { primary_outcomes: Seq<Seq<char>>, comparison_outcomes: Seq<Seq<char>> },
    TimestampDrift { primary_timestamp: i64, comparison_timestamp: i64, drift_seconds: i64 },
    StatusMismatch { primary_status: Seq<char>, comparison_status: Seq<char> },
    MissingData { source: OracleSource, field: Seq<char> },
}

/// The texts of a list of strings.
pub open spec fn spec_texts(v: Seq<String>) -> Seq<Seq<char>> {
    v.map_values(|s: String| s@)
}

/// The content of a discrepancy.
pub open spec fn spec_model(d: Discrepancy) -> DiscrepancyModel {
    match d {
        Discrepancy::PriceDeviation { primary_price, comparison_price, deviation_bps } =>
            DiscrepancyModel::PriceDeviation { primary_price, comparison_price, deviation_bps },
        Discrepancy::VolumeDeviation { primary_volume, comparison_volume, deviation_bps } =>
            DiscrepancyModel::VolumeDeviation { primary_volume, comparison_volume, deviation_bps },
        Discrepancy::OutcomeMismatch { primary_outcomes, comparison_outcomes } =>
            DiscrepancyModel::OutcomeMismatch {
                primary_outcomes: spec_texts(primary_outcomes@),
                comparison_outcomes: spec_texts(comparison_outcomes@),
            },
        Discrepancy::TimestampDrift { primary_timestamp, comparison_timestamp, drift_seconds } =>
            DiscrepancyModel::TimestampDrift { primary_timestamp, comparison_timestamp, drift_seconds },
        Discrepancy::StatusMismatch { primary_status, comparison_status } =>
            DiscrepancyModel::StatusMismatch { primary_status: primary_status@, comparison_status: comparison_status@ },
        Discrepancy::MissingData { source, field } => DiscrepancyModel::MissingData { source, field: field@ },
    }
}

/// The severity of a discrepancy's content.
pub open spec fn spec_model_severity(d: DiscrepancyModel) -> Severity {
    match d {
        DiscrepancyModel::PriceDeviation { deviation_bps, .. } => {
            if deviation_bps > 2000 { Severity::Critical } else if deviation_bps > 1000 { Severity::High }
            else if deviation_bps > 500 { Severity::Medium } else { Severity::Low }
        },
        DiscrepancyModel::OutcomeMismatch { .. } => Severity::Critical,
        DiscrepancyModel::StatusMismatch { .. } => Severity::High,
        DiscrepancyModel::VolumeDeviation { deviation_bps, .. } => {
            if deviation_bps > 5000 { Severity::High } else if deviation_bps > 2000 { Severity::Medium } else { Severity::Low }
        },
        DiscrepancyModel::TimestampDrift { drift_seconds, .. } => {
            if drift_seconds > 3600 { Severity::High } else if drift_seconds > 600 { Severity::Medium } else { Severity::Low }
        },
        DiscrepancyModel::MissingData { .. } => Severity::Medium,
    }
}

/// The severity of a discrepancy.
pub open spec fn spec_severity(d: Discrepancy) -> Severity {
    spec_model_severity(spec_model(d))
}

impl Discrepancy {
    /// Grades the discrepancy.
    pub fn severity(&self) -> (r: Severity)
        ensures
            r == spec_severity(*self),
    {
        match self {
            Discrepancy::PriceDeviation { deviation_bps, .. } => {
                if *deviation_bps > 2000 { Severity::Critical } else if *deviation_bps > 1000 { Severity::High }
                else if *deviation_bps > 500 { Severity::Medium } else { Severity::Low }
            },
            Discrepancy::OutcomeMismatch { .. } => Severity::Critical,
            Discrepancy::StatusMismatch { .. } => Severity::High,
            Discrepancy::VolumeDeviation { deviation_bps, .. } => {
                if *deviation_bps > 5000 { Severity::High } else if *deviation_bps > 2000 { Severity::Medium } else { Severity::Low }
            },
            Discrepancy::TimestampDrift { drift_seconds, .. } => {
                if *drift_seconds > 3600 { Severity::High } else if *drift_seconds > 600 { Severity::Medium } else { Severity::Low }
            },
            Discrepancy::MissingData { .. } => Severity::Medium,
        }
    }
}

/// Confidence lost for a discrepancy of the given severity.
pub open spec fn spec_confidence_penalty(s: Severity) -> u64 {
    match s {
        Severity::Critical => 50,
        Severity::High => 30,
        Severity::Medium => 20,
        Severity::Low => 10,
    }
}

/// Saturating subtraction.
pub open spec fn spec_sat_sub(a: u64, b: u64) -> u64 {
    if a >= b { (a - b) as u64 } else { 0 }
}

/// Confidence left from `start` after the discrepancies, in order.
pub open spec fn spec_confidence_after(start: u64, ds: Seq<Discrepancy>) -> u64
    decreases ds.len(),
{
    if ds.len() == 0 {
        start
    } else {
        spec_sat_sub(spec_confidence_after(start, ds.drop_last()), spec_confidence_penalty(spec_severity(ds.last())))
    }
}

/// Cross-validation result.
#[derive(Clone, Debug)]
pub struct ValidationResult {
    pub market_id: [u8; 16],
    pub timestamp: i64,
    pub primary_source: OracleSource,
    pub comparison_source: OracleSource,
    pub validation_status: ValidationStatus,
    pub discrepancies: Vec<Discrepancy>,
    pub confidence_score: u64,
    pub action_required: ActionRequired,
}

/// The status of a result with the given discrepancies and confidence.
pub open spec fn spec_final_status(n: nat, confidence: u64) -> ValidationStatus {
    if n == 0 { ValidationStatus::Passed }
    else if confidence < CONFIDENCE_THRESHOLD { ValidationStatus::Failed }
    else { ValidationStatus::PassedWithWarnings }
}

impl ValidationResult {
    pub const SIZE: usize = 512;

    /// A pending result with full confidence and no discrepancies.
    pub fn new(market_id: [u8; 16], timestamp: i64, primary: OracleSource, comparison: OracleSource) -> (r: Self)
        ensures
            r.market_id == market_id,
            r.timestamp == timestamp,
            r.primary_source == primary,
            r.comparison_source == comparison,
            r.validation_status == ValidationStatus::Pending,
            r.discrepancies@.len() == 0,
            r.confidence_score == 100,
            r.action_required == ActionRequired::NoAction,
    {
        ValidationResult {
            market_id,
            timestamp,
            primary_source: primary,
            comparison_source: comparison,
            validation_status: ValidationStatus::Pending,
            discrepancies: Vec::new(),
            confidence_score: 100,
            action_required: ActionRequired::NoAction,
        }
    }

    /// Records a discrepancy: confidence drops by its penalty (not below
    /// zero) and a confidence under the threshold asks for manual review.
    pub fn add_discrepancy(&mut self, discrepancy: Discrepancy)
        ensures
            final(self).discrepancies@ == old(self).discrepancies@.push(discrepancy),
            final(self).confidence_score == spec_sat_sub(
                old(self).confidence_score,
                spec_confidence_penalty(spec_severity(discrepancy)),
            ),
            final(self).action_required == (if final(self).confidence_score < CONFIDENCE_THRESHOLD {
                ActionRequired::ManualReview
            } else {
                old(self).action_required
            }),
            final(self).market_id == old(self).market_id,
            final(self).timestamp == old(self).timestamp,
            final(self).primary_source == old(self).primary_source,
            final(self).comparison_source == old(self).comparison_source,
            final(self).validation_status == old(self).validation_status,
    {
        let penalty: u64 = match discrepancy.severity() {
            Severity::Critical => 50,
            Severity::High => 30,
            Severity::Medium => 20,
            Severity::Low => 10,
        };
        self.discrepancies.push(discrepancy);
        self.confidence_score = if self.confidence_score >= penalty { self.confidence_score - penalty } else { 0 };
        if self.confidence_score < CONFIDENCE_THRESHOLD {
            self.action_required = ActionRequired::ManualReview;
        }
    }

    /// Sets the status: passed without discrepancies, failed under the
    /// confidence threshold, passed with warnings otherwise.
    pub fn finalize(&mut self)
        ensures
            final(self).validation_status == spec_final_status(
                old(self).discrepancies@.len(),
                old(self).confidence_score,
            ),
            final(self).discrepancies == old(self).discrepancies,
            final(self).confidence_score == old(self).confidence_score,
            final(self).action_required == old(self).action_required,
            final(self).market_id == old(self).market_id,
            final(self).timestamp == old(self).timestamp,
            final(self).primary_source == old(self).primary_source,
            final(self).comparison_source == old(self).comparison_source,
    {
        self.validation_status = if self.discrepancies.len() == 0 {
            ValidationStatus::Passed
        } else if self.confidence_score < CONFIDENCE_THRESHOLD {
            ValidationStatus::Failed
        } else {
            ValidationStatus::PassedWithWarnings
        };
    }
}

/// Whether the deviation of two values can be computed without overflow.
pub open spec fn spec_deviation_defined(v1: u64, v2: u64) -> bool {
    v1 == 0 || v2 == 0 || (if v1 >= v2 { v1 - v2 } else { v2 - v1 }) * 10000 <= u64::MAX
}

/// Deviation between two values in basis points of the first; 100% when
/// either is zero.
pub open spec fn spec_deviation(v1: u64, v2: u64) -> u64 {
    if v1 == 0 || v2 == 0 {
        10000
    } else {
        (((if v1 >= v2 { v1 - v2 } else { v2 - v1 }) * 10000) / (v1 as int)) as u64
    }
}

/// Deviation between two values in basis points of the first value;
/// 10000 (100%) when either value is zero.
pub fn calculate_deviation(value1: u64, value2: u64) -> (r: u64)
    requires
        spec_deviation_defined(value1, value2),
    ensures
        r == spec_deviation(value1, value2),
{
    if value1 == 0 || value2 == 0 {
        return 10000;
    }
    let diff = if value1 > value2 { value1 - value2 } else { value2 - value1 };
    (diff * 10000) / value1
}


/// Market data for validation.
#[derive(Clone, Debug)]
pub struct MarketData {
    pub market_id: [u8; 16],
    pub source: OracleSource,
    /// (outcome name, price), one entry per outcome.
    pub outcome_prices: Vec<(String, u64)>,
    pub total_volume: u64,
    pub status: String,
    pub last_update: i64,
}

/// The price listed for an outcome name (first entry with that name).
pub open spec fn spec_lookup_price(cs: Seq<(String, u64)>, name: Seq<char>) -> Option<u64>
    decreases cs.len(),
{
    if cs.len() == 0 {
        None
    } else if cs[0].0@ == name {
        Some(cs[0].1)
    } else {
        spec_lookup_price(cs.drop_first(), name)
    }
}

/// Price discrepancies of the primary's outcomes, in the primary's order.
pub open spec fn spec_price_models(ps: Seq<(String, u64)>, cs: Seq<(String, u64)>) -> Seq<DiscrepancyModel>
    decreases ps.len(),
{
    if ps.len() == 0 {
        Seq::empty()
    } else {
        let e = ps.last();
        spec_price_models(ps.drop_last(), cs) + match spec_lookup_price(cs, e.0@) {
            Some(c) => {
                let d = spec_deviation(e.1, c);
                if d >= PRICE_DEVIATION_THRESHOLD_BPS {
                    seq![DiscrepancyModel::PriceDeviation { primary_price: e.1, comparison_price: c, deviation_bps: d }]
                } else {
                    Seq::empty()
                }
            },
            None => Seq::empty(),
        }
    }
}

/// The outcome names of a price list.
pub open spec fn spec_outcome_names(ps: Seq<(String, u64)>) -> Seq<Seq<char>> {
    ps.map_values(|e: (String, u64)| e.0@)
}

/// Absolute difference of two timestamps.
pub open spec fn spec_drift(a: i64, b: i64) -> int {
    if a >= b { a - b } else { b - a }
}

/// All discrepancies between two reports of a market, in the order they are
/// checked: prices, volume, outcome set, update time, status.
pub open spec fn spec_expected_models(p: MarketData, c: MarketData) -> Seq<DiscrepancyModel> {
    let vd = spec_deviation(p.total_volume, c.total_volume);
    let pn = spec_outcome_names(p.outcome_prices@);
    let cn = spec_outcome_names(c.outcome_prices@);
    let drift = spec_drift(p.last_update, c.last_update);
    spec_price_models(p.outcome_prices@, c.outcome_prices@)
        + (if vd > VOLUME_DEVIATION_THRESHOLD_BPS {
            seq![DiscrepancyModel::VolumeDeviation { primary_volume: p.total_volume, comparison_volume: c.total_volume, deviation_bps: vd }]
        } else { Seq::empty() })
        + (if pn != cn {
            seq![DiscrepancyModel::OutcomeMismatch { primary_outcomes: pn, comparison_outcomes: cn }]
        } else { Seq::empty() })
        + (if drift > TIMESTAMP_DRIFT_SECONDS {
            seq![DiscrepancyModel::TimestampDrift { primary_timestamp: p.last_update, comparison_timestamp: c.last_update, drift_seconds: drift as i64 }]
        } else { Seq::empty() })
        + (if p.status@ != c.status@ {
            seq![DiscrepancyModel::StatusMismatch { primary_status: p.status@, comparison_status: c.status@ }]
        } else { Seq::empty() })
}

/// The two reports can be compared without arithmetic overflow.
pub open spec fn spec_comparable(p: MarketData, c: MarketData) -> bool {
    &&& forall|i: int| 0 <= i < p.outcome_prices@.len() ==>
        (#[trigger] spec_lookup_price(c.outcome_prices@, p.outcome_prices@[i].0@) matches Some(v)
            ==> spec_deviation_defined(p.outcome_prices@[i].1, v))
    &&& spec_deviation_defined(p.total_volume, c.total_volume)
    &&& spec_drift(p.last_update, c.last_update) <= i64::MAX
}

/// Confidence and action agree with the recorded discrepancies.
pub open spec fn spec_consistent(r: ValidationResult) -> bool {
    &&& r.confidence_score == spec_confidence_after(100, r.discrepancies@)
    &&& r.action_required == (if r.confidence_score < CONFIDENCE_THRESHOLD { ActionRequired::ManualReview } else { ActionRequired::NoAction })
}

/// Reliability penalty of a discrepancy of the given severity.
pub open spec fn spec_reliability_penalty(s: Severity) -> u64 {
    match s {
        Severity::Critical => 10,
        Severity::High => 5,
        Severity::Medium => 2,
        Severity::Low => 1,
    }
}

/// Sum of the reliability penalties of the discrepancies.
pub open spec fn spec_penalty_sum(ds: Seq<Discrepancy>) -> nat
    decreases ds.len(),
{
    if ds.len() == 0 { 0 } else { spec_penalty_sum(ds.drop_last()) + (spec_reliability_penalty(spec_severity(ds.last())) as nat) }
}

/// How many of the result's two sources are `src` and not Polymarket.
pub open spec fn spec_applications(src: OracleSource, r: ValidationResult) -> nat {
    (if r.primary_source == src && src != OracleSource::Polymarket { 1nat } else { 0nat })
        + (if r.comparison_source == src && src != OracleSource::Polymarket { 1nat } else { 0nat })
}

/// The reliability of `src` after a result: each discrepancy lowers it by
/// its penalty for each of the result's non-Polymarket sources that is
/// `src` (never below zero, each counting as a validation); a passed result
/// raises the comparison source by one (at most 100).
pub open spec fn spec_updated_reliability(src: OracleSource, rel: SourceReliability, r: ValidationResult) -> SourceReliability {
    let k = spec_applications(src, r);
    let pen = k * spec_penalty_sum(r.discrepancies@);
    let after = SourceReliability {
        current_score: if rel.current_score >= pen { (rel.current_score - pen) as u64 } else { 0 },
        total_validations: (rel.total_validations + k * r.discrepancies@.len()) as u64,
        ..rel
    };
    if r.validation_status == ValidationStatus::Passed && r.comparison_source == src {
        SourceReliability {
            current_score: if after.current_score + 1 > 100 { 100 } else { (after.current_score + 1) as u64 },
            successful_validations: (after.successful_validations + 1) as u64,
            total_validations: (after.total_validations + 1) as u64,
            ..after
        }
    } else {
        after
    }
}

/// Source reliability tracking.
#[derive(Clone, Copy, Debug)]
pub struct SourceReliability {
    pub base_score: u64,
    pub current_score: u64,
    pub total_validations: u64,
    pub successful_validations: u64,
    pub last_update: i64,
}

impl SourceReliability {
    /// A source starting at `base_score`.
    pub fn new(base_score: u64) -> (r: Self)
        ensures
            r == (SourceReliability { base_score, current_score: base_score, total_validations: 0, successful_validations: 0, last_update: 0 }),
    {
        SourceReliability { base_score, current_score: base_score, total_validations: 0, successful_validations: 0, last_update: 0 }
    }

    /// Counts a successful validation, raising the score by `amount`
    /// (at most 100).
    pub fn increase_score(&mut self, amount: u64)
        requires
            old(self).current_score + amount <= u64::MAX,
            old(self).successful_validations < u64::MAX,
            old(self).total_validations < u64::MAX,
        ensures
            final(self).current_score == (if old(self).current_score + amount > 100 { 100 } else { old(self).current_score + amount }),
            final(self).successful_validations == old(self).successful_validations + 1,
            final(self).total_validations == old(self).total_validations + 1,
            final(self).base_score == old(self).base_score,
            final(self).last_update == old(self).last_update,
    {
        let raised = self.current_score + amount;
        self.current_score = if raised > 100 { 100 } else { raised };
        self.successful_validations = self.successful_validations + 1;
        self.total_validations = self.total_validations + 1;
    }

    /// Counts a failed validation, lowering the score by `amount` (not
    /// below zero).
    pub fn decrease_score(&mut self, amount: u64)
        requires
            old(self).total_validations < u64::MAX,
        ensures
            final(self).current_score == spec_sat_sub(old(self).current_score, amount),
            final(self).total_validations == old(self).total_validations + 1,
            final(self).successful_validations == old(self).successful_validations,
            final(self).base_score == old(self).base_score,
            final(self).last_update == old(self).last_update,
    {
        self.current_score = if self.current_score >= amount { self.current_score - amount } else { 0 };
        self.total_validations = self.total_validations + 1;
    }

    /// Successful validations in percent (100 before any validation).
    pub fn get_success_rate(&self) -> (r: u64)
        requires
            self.successful_validations * 100 <= u64::MAX,
        ensures
            r == (if self.total_validations == 0 { 100 } else { (self.successful_validations * 100) as int / (self.total_validations as int) }),
    {
        if self.total_validations == 0 { 100 } else { (self.successful_validations * 100) / self.total_validations }
    }
}

/// Alert thresholds.
#[derive(Clone, Copy)]
pub struct AlertThresholds {
    pub min_confidence: u64,
    pub max_failure_rate: u64,
    pub max_price_deviation: u64,
}

impl Default for AlertThresholds {
    fn default() -> (r: Self)
        ensures
            r.min_confidence == 70,
            r.max_failure_rate == 20,
            r.max_price_deviation == 1000,
    {
        AlertThresholds { min_confidence: 70, max_failure_rate: 20, max_price_deviation: 1000 }
    }
}

/// The reliability table a validator starts with.
pub open spec fn spec_initial_reliability() -> Seq<(OracleSource, SourceReliability)> {
    seq![
        (OracleSource::Polymarket, SourceReliability { base_score: 100, current_score: 100, total_validations: 0, successful_validations: 0, last_update: 0 }),
        (OracleSource::Pyth, SourceReliability { base_score: 90, current_score: 90, total_validations: 0, successful_validations: 0, last_update: 0 }),
        (OracleSource::PythNetwork, SourceReliability { base_score: 90, current_score: 90, total_validations: 0, successful_validations: 0, last_update: 0 }),
        (OracleSource::Chainlink, SourceReliability { base_score: 90, current_score: 90, total_validations: 0, successful_validations: 0, last_update: 0 }),
        (OracleSource::InternalCache, SourceReliability { base_score: 70, current_score: 70, total_validations: 0, successful_validations: 0, last_update: 0 }),
    ]
}

/// The history kept after appending a result: the newest `max` entries.
pub open spec fn spec_history_after(h: Seq<ValidationResult>, r: ValidationResult, max: nat) -> Seq<ValidationResult> {
    let p = h.push(r);
    if p.len() > max { p.subrange(p.len() - max, p.len() as int) } else { p }
}

/// Cross-validation engine.
#[derive(Clone)]
pub struct CrossValidator {
    pub validation_history: VecDeque<ValidationResult>,
    /// (source, reliability), one entry per source.
    pub source_reliability: Vec<(OracleSource, SourceReliability)>,
    pub alert_thresholds: AlertThresholds,
    pub total_validations: u64,
    pub failed_validations: u64,
}

impl CrossValidator {
    pub const SIZE: usize = 32768;
    pub const MAX_HISTORY: usize = 1000;

    /// A validator with no history and the initial reliability table.
    pub fn new() -> (r: Self)
        ensures
            r.validation_history@.len() == 0,
            r.source_reliability@ == spec_initial_reliability(),
            r.alert_thresholds.min_confidence == 70,
            r.alert_thresholds.max_failure_rate == 20,
            r.alert_thresholds.max_price_deviation == 1000,
            r.total_validations == 0,
            r.failed_validations == 0,
    {
        CrossValidator {
            validation_history: VecDeque::new(),
            source_reliability: Self::init_reliability_scores(),
            alert_thresholds: AlertThresholds::default(),
            total_validations: 0,
            failed_validations: 0,
        }
    }

    /// Reliability table: Polymarket 100, Pyth and Chainlink 90, cache 70.
    pub fn init_reliability_scores() -> (r: Vec<(OracleSource, SourceReliability)>)
        ensures
            r@ == spec_initial_reliability(),
    {
        let mut scores: Vec<(OracleSource, SourceReliability)> = Vec::new();
        scores.push((OracleSource::Polymarket, SourceReliability::new(100)));
        scores.push((OracleSource::Pyth, SourceReliability::new(90)));
        scores.push((OracleSource::PythNetwork, SourceReliability::new(90)));
        scores.push((OracleSource::Chainlink, SourceReliability::new(90)));
        scores.push((OracleSource::InternalCache, SourceReliability::new(70)));
        assert(scores@ =~= spec_initial_reliability());
        scores
    }

    /// Compares two reports of a market at `current_timestamp`: records each
    /// discrepancy, grades the result, updates the statistics and source
    /// reliability, and keeps the result in the history.
    pub fn validate_market(
        &mut self,
        primary_data: &MarketData,
        comparison_data: &MarketData,
        current_timestamp: i64,
    ) -> (r: Result<ValidationResult, BettingPlatformError>)
        requires
            spec_comparable(*primary_data, *comparison_data),
            old(self).total_validations < u64::MAX,
            old(self).failed_validations < u64::MAX,
            forall|j: int| 0 <= j < old(self).source_reliability@.len() ==> {
                let rel = #[trigger] old(self).source_reliability@[j].1;
                &&& rel.total_validations + 2 * (primary_data.outcome_prices@.len() + 4) + 1 <= u64::MAX
                &&& rel.successful_validations < u64::MAX
                &&& rel.current_score < u64::MAX
            },
        ensures
            r matches Ok(res) && {
                &&& res.market_id == primary_data.market_id
                &&& res.timestamp == current_timestamp
                &&& res.primary_source == primary_data.source
                &&& res.comparison_source == comparison_data.source
                &&& res.discrepancies@.map_values(|d: Discrepancy| spec_model(d)) == spec_expected_models(*primary_data, *comparison_data)
                &&& spec_consistent(res)
                &&& res.validation_status == spec_final_status(res.discrepancies@.len(), res.confidence_score)
                &&& final(self).total_validations == old(self).total_validations + 1
                &&& final(self).failed_validations == old(self).failed_validations
                    + (if res.validation_status == ValidationStatus::Failed { 1int } else { 0 })
                &&& final(self).source_reliability@ == old(self).source_reliability@.map_values(
                    |e: (OracleSource, SourceReliability)| (e.0, spec_updated_reliability(e.0, e.1, res)),
                )
                &&& spec_histories_equiv(final(self).validation_history@, spec_history_after(old(self).validation_history@, res, 1000))
                &&& final(self).alert_thresholds == old(self).alert_thresholds
            },
    {
        let mut result = ValidationResult::new(
            primary_data.market_id,
            current_timestamp,
            primary_data.source,
            comparison_data.source,
        );
        proof {
            assert(result.discrepancies@.map_values(|d: Discrepancy| spec_model(d)) =~= Seq::<DiscrepancyModel>::empty());
        }
        self.validate_prices(primary_data, comparison_data, &mut result);
        let ghost after_prices = result.discrepancies@;
        self.validate_volumes(primary_data, comparison_data, &mut result);
        self.validate_outcomes(primary_data, comparison_data, &mut result);
        self.validate_timestamps(primary_data, comparison_data, &mut result);
        self.validate_status(primary_data, comparison_data, &mut result);
        proof {
            assert(result.discrepancies@.map_values(|d: Discrepancy| spec_model(d)) =~= spec_expected_models(*primary_data, *comparison_data));
        }
        result.finalize();
        self.total_validations = self.total_validations + 1;
        if result.validation_status == ValidationStatus::Failed {
            self.failed_validations = self.failed_validations + 1;
        }
        proof {
            lemma_discrepancy_count(*primary_data, *comparison_data, result.discrepancies@);
        }
        self.update_reliability(&result);
        let copy = clone_result(&result);
        self.add_to_history(copy);
        proof {
            let a = self.validation_history@;
            let b = spec_history_after(old(self).validation_history@, result, 1000);
            let c = spec_history_after(old(self).validation_history@, copy, 1000);
            assert(a == c);
            assert forall|i: int| 0 <= i < a.len() implies spec_result_equiv(#[trigger] a[i], b[i]) by {
                if i < a.len() - 1 { assert(a[i] == b[i]); }
            }
        }
        Ok(result)
    }

    fn add_one(result: &mut ValidationResult, d: Discrepancy)
        requires
            spec_consistent(*old(result)),
        ensures
            spec_consistent(*final(result)),
            final(result).discrepancies@ == old(result).discrepancies@.push(d),
            final(result).market_id == old(result).market_id,
            final(result).timestamp == old(result).timestamp,
            final(result).primary_source == old(result).primary_source,
            final(result).comparison_source == old(result).comparison_source,
            final(result).validation_status == old(result).validation_status,
    {
        let ghost before = result.discrepancies@;
        result.add_discrepancy(d);
        proof {
            assert(result.discrepancies@.drop_last() =~= before);
        }
    }

    /// Records a price deviation for each outcome of the primary whose price
    /// differs from the comparison's by 5% or more.
    fn validate_prices(&self, primary: &MarketData, comparison: &MarketData, result: &mut ValidationResult)
        requires
            spec_consistent(*old(result)),
            spec_comparable(*primary, *comparison),
        ensures
            spec_consistent(*final(result)),
            final(result).discrepancies@.map_values(|d: Discrepancy| spec_model(d))
                == old(result).discrepancies@.map_values(|d: Discrepancy| spec_model(d))
                + spec_price_models(primary.outcome_prices@, comparison.outcome_prices@),
            final(result).market_id == old(result).market_id,
            final(result).timestamp == old(result).timestamp,
            final(result).primary_source == old(result).primary_source,
            final(result).comparison_source == old(result).comparison_source,
            final(result).validation_status == old(result).validation_status,
    {
        let ghost start = result.discrepancies@.map_values(|d: Discrepancy| spec_model(d));
        let mut i: usize = 0;
        while i < primary.outcome_prices.len()
            invariant
                i <= primary.outcome_prices@.len(),
                spec_consistent(*result),
                spec_comparable(*primary, *comparison),
                result.discrepancies@.map_values(|d: Discrepancy| spec_model(d))
                    == start + spec_price_models(primary.outcome_prices@.subrange(0, i as int), comparison.outcome_prices@),
                result.market_id == old(result).market_id,
                result.timestamp == old(result).timestamp,
                result.primary_source == old(result).primary_source,
                result.comparison_source == old(result).comparison_source,
                result.validation_status == old(result).validation_status,
            decreases primary.outcome_prices@.len() - i,
        {
            let entry = &primary.outcome_prices[i];
            let found = lookup_price(&comparison.outcome_prices, &entry.0);
            let ghost sub = primary.outcome_prices@.subrange(0, i + 1);
            proof {
                assert(sub.drop_last() =~= primary.outcome_prices@.subrange(0, i as int));
                assert(sub.last() == primary.outcome_prices@[i as int]);
            }
            if let Some(c) = found {
                proof {
                    assert(spec_lookup_price(comparison.outcome_prices@, primary.outcome_prices@[i as int].0@) == Some(c));
                }
                let deviation = calculate_deviation(entry.1, c);
                if deviation >= PRICE_DEVIATION_THRESHOLD_BPS {
                    let ghost before = result.discrepancies@;
                    Self::add_one(result, Discrepancy::PriceDeviation { primary_price: entry.1, comparison_price: c, deviation_bps: deviation });
                    proof {
                        assert(result.discrepancies@.map_values(|d: Discrepancy| spec_model(d))
                            =~= before.map_values(|d: Discrepancy| spec_model(d)).push(spec_model(result.discrepancies@.last())));
                    }
                }
            }
            i = i + 1;
            proof {
                assert(result.discrepancies@.map_values(|d: Discrepancy| spec_model(d))
                    =~= start + spec_price_models(primary.outcome_prices@.subrange(0, i as int), comparison.outcome_prices@));
            }
        }
        assert(primary.outcome_prices@.subrange(0, i as int) =~= primary.outcome_prices@);
    }

    /// Records a volume deviation above 10%.
    fn validate_volumes(&self, primary: &MarketData, comparison: &MarketData, result: &mut ValidationResult)
        requires
            spec_consistent(*old(result)),
            spec_deviation_defined(primary.total_volume, comparison.total_volume),
        ensures
            spec_consistent(*final(result)),
            ({
                let vd = spec_deviation(primary.total_volume, comparison.total_volume);
                final(result).discrepancies@.map_values(|d: Discrepancy| spec_model(d))
                    == old(result).discrepancies@.map_values(|d: Discrepancy| spec_model(d)) + (if vd > VOLUME_DEVIATION_THRESHOLD_BPS {
                        seq![DiscrepancyModel::VolumeDeviation { primary_volume: primary.total_volume, comparison_volume: comparison.total_volume, deviation_bps: vd }]
                    } else { Seq::empty() })
            }),
            final(result).market_id == old(result).market_id,
            final(result).timestamp == old(result).timestamp,
            final(result).primary_source == old(result).primary_source,
            final(result).comparison_source == old(result).comparison_source,
            final(result).validation_status == old(result).validation_status,
    {
        let ghost before = result.discrepancies@;
        let deviation = calculate_deviation(primary.total_volume, comparison.total_volume);
        if deviation > VOLUME_DEVIATION_THRESHOLD_BPS {
            Self::add_one(result, Discrepancy::VolumeDeviation {
                primary_volume: primary.total_volume,
                comparison_volume: comparison.total_volume,
                deviation_bps: deviation,
            });
            assert(result.discrepancies@.map_values(|d: Discrepancy| spec_model(d))
                =~= before.map_values(|d: Discrepancy| spec_model(d)).push(spec_model(result.discrepancies@.last())));
        } else {
            assert(result.discrepancies@.map_values(|d: Discrepancy| spec_model(d))
                =~= before.map_values(|d: Discrepancy| spec_model(d)) + Seq::<DiscrepancyModel>::empty());
        }
    }

    /// Records an outcome mismatch when the outcome name lists differ.
    fn validate_outcomes(&self, primary: &MarketData, comparison: &MarketData, result: &mut ValidationResult)
        requires
            spec_consistent(*old(result)),
        ensures
            spec_consistent(*final(result)),
            ({
                let pn = spec_outcome_names(primary.outcome_prices@);
                let cn = spec_outcome_names(comparison.outcome_prices@);
                final(result).discrepancies@.map_values(|d: Discrepancy| spec_model(d))
                    == old(result).discrepancies@.map_values(|d: Discrepancy| spec_model(d)) + (if pn != cn {
                        seq![DiscrepancyModel::OutcomeMismatch { primary_outcomes: pn, comparison_outcomes: cn }]
                    } else { Seq::empty() })
            }),
            final(result).market_id == old(result).market_id,
            final(result).timestamp == old(result).timestamp,
            final(result).primary_source == old(result).primary_source,
            final(result).comparison_source == old(result).comparison_source,
            final(result).validation_status == old(result).validation_status,
    {
        let ghost before = result.discrepancies@;
        let primary_outcomes = outcome_names(&primary.outcome_prices);
        let comparison_outcomes = outcome_names(&comparison.outcome_prices);
        if !same_texts(&primary_outcomes, &comparison_outcomes) {
            Self::add_one(result, Discrepancy::OutcomeMismatch { primary_outcomes, comparison_outcomes });
            assert(result.discrepancies@.map_values(|d: Discrepancy| spec_model(d))
                =~= before.map_values(|d: Discrepancy| spec_model(d)).push(spec_model(result.discrepancies@.last())));
        } else {
            assert(result.discrepancies@.map_values(|d: Discrepancy| spec_model(d))
                =~= before.map_values(|d: Discrepancy| spec_model(d)) + Seq::<DiscrepancyModel>::empty());
        }
    }

    /// Records a timestamp drift above five minutes.
    fn validate_timestamps(&self, primary: &MarketData, comparison: &MarketData, result: &mut ValidationResult)
        requires
            spec_consistent(*old(result)),
            spec_drift(primary.last_update, comparison.last_update) <= i64::MAX,
        ensures
            spec_consistent(*final(result)),
            ({
                let drift = spec_drift(primary.last_update, comparison.last_update);
                final(result).discrepancies@.map_values(|d: Discrepancy| spec_model(d))
                    == old(result).discrepancies@.map_values(|d: Discrepancy| spec_model(d)) + (if drift > TIMESTAMP_DRIFT_SECONDS {
                        seq![DiscrepancyModel::TimestampDrift { primary_timestamp: primary.last_update, comparison_timestamp: comparison.last_update, drift_seconds: drift as i64 }]
                    } else { Seq::empty() })
            }),
            final(result).market_id == old(result).market_id,
            final(result).timestamp == old(result).timestamp,
            final(result).primary_source == old(result).primary_source,
            final(result).comparison_source == old(result).comparison_source,
            final(result).validation_status == old(result).validation_status,
    {
        let ghost before = result.discrepancies@;
        let a = primary.last_update as i128;
        let b = comparison.last_update as i128;
        let drift: i64 = (if a >= b { a - b } else { b - a }) as i64;
        if drift > TIMESTAMP_DRIFT_SECONDS {
            Self::add_one(result, Discrepancy::TimestampDrift {
                primary_timestamp: primary.last_update,
                comparison_timestamp: comparison.last_update,
                drift_seconds: drift,
            });
            assert(result.discrepancies@.map_values(|d: Discrepancy| spec_model(d))
                =~= before.map_values(|d: Discrepancy| spec_model(d)).push(spec_model(result.discrepancies@.last())));
        } else {
            assert(result.discrepancies@.map_values(|d: Discrepancy| spec_model(d))
                =~= before.map_values(|d: Discrepancy| spec_model(d)) + Seq::<DiscrepancyModel>::empty());
        }
    }

    /// Records a status mismatch when the status texts differ.
    fn validate_status(&self, primary: &MarketData, comparison: &MarketData, result: &mut ValidationResult)
        requires
            spec_consistent(*old(result)),
        ensures
            spec_consistent(*final(result)),
            final(result).discrepancies@.map_values(|d: Discrepancy| spec_model(d))
                == old(result).discrepancies@.map_values(|d: Discrepancy| spec_model(d)) + (if primary.status@ != comparison.status@ {
                    seq![DiscrepancyModel::StatusMismatch { primary_status: primary.status@, comparison_status: comparison.status@ }]
                } else { Seq::empty() }),
            final(result).market_id == old(result).market_id,
            final(result).timestamp == old(result).timestamp,
            final(result).primary_source == old(result).primary_source,
            final(result).comparison_source == old(result).comparison_source,
            final(result).validation_status == old(result).validation_status,
    {
        let ghost before = result.discrepancies@;
        if primary.status != comparison.status {
            Self::add_one(result, Discrepancy::StatusMismatch {
                primary_status: primary.status.clone(),
                comparison_status: comparison.status.clone(),
            });
            assert(result.discrepancies@.map_values(|d: Discrepancy| spec_model(d))
                =~= before.map_values(|d: Discrepancy| spec_model(d)).push(spec_model(result.discrepancies@.last())));
        } else {
            assert(result.discrepancies@.map_values(|d: Discrepancy| spec_model(d))
                =~= before.map_values(|d: Discrepancy| spec_model(d)) + Seq::<DiscrepancyModel>::empty());
        }
    }

    /// Lowers the reliability of the non-Polymarket sources of a result for
    /// its discrepancies and raises the comparison source for a pass.
    pub fn update_reliability(&mut self, result: &ValidationResult)
        requires
            forall|j: int| 0 <= j < old(self).source_reliability@.len() ==> {
                let rel = #[trigger] old(self).source_reliability@[j].1;
                &&& rel.total_validations + 2 * result.discrepancies@.len() + 1 <= u64::MAX
                &&& rel.successful_validations < u64::MAX
                &&& rel.current_score < u64::MAX
            },
        ensures
            final(self).source_reliability@ == old(self).source_reliability@.map_values(
                |e: (OracleSource, SourceReliability)| (e.0, spec_updated_reliability(e.0, e.1, *result)),
            ),
            final(self).validation_history == old(self).validation_history,
            final(self).alert_thresholds == old(self).alert_thresholds,
            final(self).total_validations == old(self).total_validations,
            final(self).failed_validations == old(self).failed_validations,
    {
        let mut total_penalty: u128 = 0;
        let mut k: usize = 0;
        while k < result.discrepancies.len()
            invariant
                k <= result.discrepancies@.len(),
                total_penalty == spec_penalty_sum(result.discrepancies@.subrange(0, k as int)),
                total_penalty <= 10 * k,
            decreases result.discrepancies@.len() - k,
        {
            let p: u128 = match result.discrepancies[k].severity() {
                Severity::Critical => 10,
                Severity::High => 5,
                Severity::Medium => 2,
                Severity::Low => 1,
            };
            proof {
                let s = result.discrepancies@.subrange(0, k + 1);
                assert(s.drop_last() =~= result.discrepancies@.subrange(0, k as int));
            }
            total_penalty = total_penalty + p;
            k = k + 1;
        }
        assert(result.discrepancies@.subrange(0, k as int) =~= result.discrepancies@);
        let n = result.discrepancies.len();
        let passed = result.validation_status == ValidationStatus::Passed;
        let mut j: usize = 0;
        while j < self.source_reliability.len()
            invariant
                j <= self.source_reliability@.len(),
                self.source_reliability@.len() == old(self).source_reliability@.len(),
                total_penalty == spec_penalty_sum(result.discrepancies@),
                total_penalty <= 10 * n,
                n == result.discrepancies@.len(),
                passed == (result.validation_status == ValidationStatus::Passed),
                self.validation_history == old(self).validation_history,
                self.alert_thresholds == old(self).alert_thresholds,
                self.total_validations == old(self).total_validations,
                self.failed_validations == old(self).failed_validations,
                forall|m: int| 0 <= m < old(self).source_reliability@.len() ==> {
                    let rel = #[trigger] old(self).source_reliability@[m].1;
                    &&& rel.total_validations + 2 * n + 1 <= u64::MAX
                    &&& rel.successful_validations < u64::MAX
                    &&& rel.current_score < u64::MAX
                },
                forall|m: int| j <= m < self.source_reliability@.len() ==> #[trigger] self.source_reliability@[m] == old(self).source_reliability@[m],
                forall|m: int| 0 <= m < j ==> #[trigger] self.source_reliability@[m] == (
                    old(self).source_reliability@[m].0,
                    spec_updated_reliability(old(self).source_reliability@[m].0, old(self).source_reliability@[m].1, *result),
                ),
            decreases self.source_reliability@.len() - j,
        {
            let (src, rel) = self.source_reliability[j];
            let mut apps: u64 = 0;
            if result.primary_source == src && src != OracleSource::Polymarket {
                apps = apps + 1;
            }
            if result.comparison_source == src && src != OracleSource::Polymarket {
                apps = apps + 1;
            }
            assert(apps as u128 * total_penalty <= 20 * (n as u128)) by (nonlinear_arith)
                requires apps <= 2, total_penalty <= 10 * n;
            assert(apps * n <= 2 * n) by (nonlinear_arith) requires apps <= 2;
            assert(rel == old(self).source_reliability@[j as int].1);
            let pen: u128 = apps as u128 * total_penalty;
            let mut updated = rel;
            updated.current_score = if rel.current_score as u128 >= pen { (rel.current_score as u128 - pen) as u64 } else { 0 };
            updated.total_validations = rel.total_validations + apps * (n as u64);
            if passed && result.comparison_source == src {
                let raised = updated.current_score + 1;
                updated.current_score = if raised > 100 { 100 } else { raised };
                updated.successful_validations = updated.successful_validations + 1;
                updated.total_validations = updated.total_validations + 1;
            }
            self.source_reliability.set(j, (src, updated));
            j = j + 1;
        }
        assert(self.source_reliability@ =~= old(self).source_reliability@.map_values(
            |e: (OracleSource, SourceReliability)| (e.0, spec_updated_reliability(e.0, e.1, *result)),
        ));
    }

    /// Appends a result to the history, keeping the newest 1000.
    pub fn add_to_history(&mut self, result: ValidationResult)
        ensures
            final(self).validation_history@ == spec_history_after(old(self).validation_history@, result, 1000),
            final(self).source_reliability == old(self).source_reliability,
            final(self).alert_thresholds == old(self).alert_thresholds,
            final(self).total_validations == old(self).total_validations,
            final(self).failed_validations == old(self).failed_validations,
    {
        self.validation_history.push_back(result);
        let ghost pushed = self.validation_history@;
        while self.validation_history.len() > Self::MAX_HISTORY
            invariant
                pushed == old(self).validation_history@.push(result),
                self.validation_history@.len() <= pushed.len(),
                self.validation_history@.len() >= 1000 || self.validation_history@.len() == pushed.len(),
                self.validation_history@ == pushed.subrange(pushed.len() - self.validation_history@.len(), pushed.len() as int),
                self.source_reliability == old(self).source_reliability,
                self.alert_thresholds == old(self).alert_thresholds,
                self.total_validations == old(self).total_validations,
                self.failed_validations == old(self).failed_validations,
            decreases self.validation_history@.len(),
        {
            self.validation_history.pop_front();
            assert(self.validation_history@ =~= pushed.subrange(pushed.len() - self.validation_history@.len(), pushed.len() as int));
        }
        assert(self.validation_history@ =~= spec_history_after(old(self).validation_history@, result, 1000));
    }
}

/// Looks up the price of an outcome by name.
fn lookup_price(cs: &Vec<(String, u64)>, name: &String) -> (r: Option<u64>)
    ensures
        r == spec_lookup_price(cs@, name@),
{
    let mut i: usize = 0;
    assert(cs@.subrange(0, cs@.len() as int) =~= cs@);
    while i < cs.len()
        invariant
            i <= cs@.len(),
            spec_lookup_price(cs@, name@) == spec_lookup_price(cs@.subrange(i as int, cs@.len() as int), name@),
        decreases cs@.len() - i,
    {
        let ghost rest = cs@.subrange(i as int, cs@.len() as int);
        assert(rest.drop_first() =~= cs@.subrange(i + 1, cs@.len() as int));
        assert(rest[0] == cs@[i as int]);
        if cs[i].0 == *name {
            return Some(cs[i].1);
        }
        i = i + 1;
    }
    None
}

/// The outcome names of a price list.
fn outcome_names(ps: &Vec<(String, u64)>) -> (r: Vec<String>)
    ensures
        spec_texts(r@) == spec_outcome_names(ps@),
{
    let mut names: Vec<String> = Vec::new();
    let mut i: usize = 0;
    while i < ps.len()
        invariant
            i <= ps@.len(),
            spec_texts(names@) == spec_outcome_names(ps@.subrange(0, i as int)),
        decreases ps@.len() - i,
    {
        let ghost prev = names@;
        let n = ps[i].0.clone();
        names.push(n);
        assert(names@ == prev.push(n));
        assert(spec_texts(names@) =~= spec_texts(prev).push(ps@[i as int].0@));
        i = i + 1;
        assert(spec_outcome_names(ps@.subrange(0, i as int)) =~= spec_outcome_names(ps@.subrange(0, i - 1)).push(ps@[i - 1].0@));
    }
    assert(ps@.subrange(0, i as int) =~= ps@);
    names
}

/// Whether two lists of strings hold the same texts in the same order.
fn same_texts(a: &Vec<String>, b: &Vec<String>) -> (r: bool)
    ensures
        r == (spec_texts(a@) == spec_texts(b@)),
{
    if a.len() != b.len() {
        assert(spec_texts(a@).len() != spec_texts(b@).len());
        return false;
    }
    let mut i: usize = 0;
    while i < a.len()
        invariant
            i <= a@.len(),
            a@.len() == b@.len(),
            forall|j: int| 0 <= j < i ==> a@[j]@ == b@[j]@,
        decreases a@.len() - i,
    {
        if a[i] != b[i] {
            assert(spec_texts(a@)[i as int] != spec_texts(b@)[i as int]);
            return false;
        }
        i = i + 1;
    }
    assert(spec_texts(a@) =~= spec_texts(b@));
    true
}

/// The number of discrepancies of a validation is at most the number of
/// outcomes plus four.
proof fn lemma_discrepancy_count(p: MarketData, c: MarketData, ds: Seq<Discrepancy>)
    requires
        ds.map_values(|d: Discrepancy| spec_model(d)) == spec_expected_models(p, c),
    ensures
        ds.len() <= p.outcome_prices@.len() + 4,
{
    lemma_price_models_len(p.outcome_prices@, c.outcome_prices@);
    assert(ds.len() == ds.map_values(|d: Discrepancy| spec_model(d)).len());
}

proof fn lemma_price_models_len(ps: Seq<(String, u64)>, cs: Seq<(String, u64)>)
    ensures
        spec_price_models(ps, cs).len() <= ps.len(),
    decreases ps.len(),
{
    if ps.len() > 0 {
        lemma_price_models_len(ps.drop_last(), cs);
    }
}


/// Two results agree in every field, discrepancies compared by content.
pub open spec fn spec_result_equiv(a: ValidationResult, b: ValidationResult) -> bool {
    &&& a.market_id == b.market_id
    &&& a.timestamp == b.timestamp
    &&& a.primary_source == b.primary_source
    &&& a.comparison_source == b.comparison_source
    &&& a.validation_status == b.validation_status
    &&& a.confidence_score == b.confidence_score
    &&& a.action_required == b.action_required
    &&& a.discrepancies@.map_values(|d: Discrepancy| spec_model(d)) == b.discrepancies@.map_values(|d: Discrepancy| spec_model(d))
}

/// Two histories agree entry by entry.
pub open spec fn spec_histories_equiv(a: Seq<ValidationResult>, b: Seq<ValidationResult>) -> bool {
    a.len() == b.len() && forall|i: int| 0 <= i < a.len() ==> spec_result_equiv(#[trigger] a[i], b[i])
}

fn clone_texts(v: &Vec<String>) -> (r: Vec<String>)
    ensures
        spec_texts(r@) == spec_texts(v@),
{
    let mut out: Vec<String> = Vec::new();
    let mut i: usize = 0;
    while i < v.len()
        invariant
            i <= v@.len(),
            spec_texts(out@) == spec_texts(v@.subrange(0, i as int)),
        decreases v@.len() - i,
    {
        let ghost prev = out@;
        let t = v[i].clone();
        out.push(t);
        assert(spec_texts(out@) =~= spec_texts(prev).push(v@[i as int]@));
        i = i + 1;
        assert(spec_texts(v@.subrange(0, i as int)) =~= spec_texts(v@.subrange(0, i - 1)).push(v@[i - 1]@));
    }
    assert(v@.subrange(0, i as int) =~= v@);
    out
}

fn clone_discrepancy(d: &Discrepancy) -> (r: Discrepancy)
    ensures
        spec_model(r) == spec_model(*d),
{
    match d {
        Discrepancy::PriceDeviation { primary_price, comparison_price, deviation_bps } =>
            Discrepancy::PriceDeviation { primary_price: *primary_price, comparison_price: *comparison_price, deviation_bps: *deviation_bps },
        Discrepancy::VolumeDeviation { primary_volume, comparison_volume, deviation_bps } =>
            Discrepancy::VolumeDeviation { primary_volume: *primary_volume, comparison_volume: *comparison_volume, deviation_bps: *deviation_bps },
        Discrepancy::OutcomeMismatch { primary_outcomes, comparison_outcomes } =>
            Discrepancy::OutcomeMismatch { primary_outcomes: clone_texts(primary_outcomes), comparison_outcomes: clone_texts(comparison_outcomes) },
        Discrepancy::TimestampDrift { primary_timestamp, comparison_timestamp, drift_seconds } =>
            Discrepancy::TimestampDrift { primary_timestamp: *primary_timestamp, comparison_timestamp: *comparison_timestamp, drift_seconds: *drift_seconds },
        Discrepancy::StatusMismatch { primary_status, comparison_status } =>
            Discrepancy::StatusMismatch { primary_status: primary_status.clone(), comparison_status: comparison_status.clone() },
        Discrepancy::MissingData { source, field } => Discrepancy::MissingData { source: *source, field: field.clone() },
    }
}

/// A copy of a result, equal in content.
pub fn clone_result(r: &ValidationResult) -> (c: ValidationResult)
    ensures
        spec_result_equiv(c, *r),
        c.market_id == r.market_id,
        c.discrepancies@.len() == r.discrepancies@.len(),
{
    let mut ds: Vec<Discrepancy> = Vec::new();
    let mut i: usize = 0;
    while i < r.discrepancies.len()
        invariant
            i <= r.discrepancies@.len(),
            ds@.map_values(|d: Discrepancy| spec_model(d)) == r.discrepancies@.subrange(0, i as int).map_values(|d: Discrepancy| spec_model(d)),
        decreases r.discrepancies@.len() - i,
    {
        let ghost prev = ds@;
        let d = clone_discrepancy(&r.discrepancies[i]);
        ds.push(d);
        assert(ds@.map_values(|d: Discrepancy| spec_model(d)) =~= prev.map_values(|d: Discrepancy| spec_model(d)).push(spec_model(r.discrepancies@[i as int])));
        i = i + 1;
        assert(r.discrepancies@.subrange(0, i as int).map_values(|d: Discrepancy| spec_model(d))
            =~= r.discrepancies@.subrange(0, i - 1).map_values(|d: Discrepancy| spec_model(d)).push(spec_model(r.discrepancies@[i - 1])));
    }
    assert(r.discrepancies@.subrange(0, i as int) =~= r.discrepancies@);
    ValidationResult {
        market_id: r.market_id,
        timestamp: r.timestamp,
        primary_source: r.primary_source,
        comparison_source: r.comparison_source,
        validation_status: r.validation_status,
        discrepancies: ds,
        confidence_score: r.confidence_score,
        action_required: r.action_required,
    }
}


/// Validation report.
#[derive(Clone, Debug)]
pub struct ValidationReport {
    pub timestamp: i64,
    pub time_window: i64,
    pub total_validations: u64,
    pub passed_validations: u64,
    pub failed_validations: u64,
    pub success_rate: u64,
    /// (discrepancy kind, occurrences) for each kind seen, in a fixed kind
    /// order.
    pub discrepancy_counts: Vec<(String, u32)>,
    pub source_reliability: Vec<(OracleSource, SourceReliability)>,
    pub recommendations: Vec<String>,
}

/// Number of price deviations among the results' discrepancies.
pub open spec fn spec_price_deviation_count(vs: Seq<ValidationResult>) -> nat
    decreases vs.len(),
{
    if vs.len() == 0 {
        0
    } else {
        spec_price_deviation_count(vs.drop_last())
            + vs.last().discrepancies@.filter(|d: Discrepancy| d is PriceDeviation).len()
    }
}

/// Number of failed results.
pub open spec fn spec_failed_count(vs: Seq<ValidationResult>) -> nat {
    vs.filter(|v: ValidationResult| v.validation_status == ValidationStatus::Failed).len()
}

/// Number of passed results.
pub open spec fn spec_passed_count(vs: Seq<ValidationResult>) -> nat {
    vs.filter(|v: ValidationResult| v.validation_status == ValidationStatus::Passed).len()
}

/// The debug name of a source.
pub open spec fn spec_source_name(s: OracleSource) -> Seq<char> {
    match s {
        OracleSource::Polymarket => "Polymarket"@,
        OracleSource::Pyth => "Pyth"@,
        OracleSource::PythNetwork => "PythNetwork"@,
        OracleSource::Chainlink => "Chainlink"@,
        OracleSource::InternalCache => "InternalCache"@,
    }
}

/// The advice for each source whose reliability is below 70, in table order.
pub open spec fn spec_reliability_advice(t: Seq<(OracleSource, SourceReliability)>) -> Seq<Seq<char>>
    decreases t.len(),
{
    if t.len() == 0 {
        Seq::empty()
    } else {
        let e = t.last();
        spec_reliability_advice(t.drop_last()) + if e.1.current_score < 70 {
            seq![spec_source_name(e.0) + " reliability below threshold ("@ + spec_decimal(e.1.current_score as nat)
                + "). Consider fallback options."@]
        } else {
            Seq::empty()
        }
    }
}

/// The recommendations for a set of results under a reliability table.
pub open spec fn spec_recommendations(vs: Seq<ValidationResult>, t: Seq<(OracleSource, SourceReliability)>) -> Seq<Seq<char>> {
    let n = vs.len();
    (if 5 * spec_failed_count(vs) > (if n == 0 { 1 } else { n }) {
        seq!["High failure rate detected. Consider reviewing oracle configurations."@]
    } else { Seq::empty() })
        + (if spec_price_deviation_count(vs) > n / 2 {
            seq!["Frequent price deviations detected. Verify price feed accuracy."@]
        } else { Seq::empty() })
        + spec_reliability_advice(t)
}

fn source_name(s: OracleSource) -> (r: &'static str)
    ensures
        r@ == spec_source_name(s),
{
    match s {
        OracleSource::Polymarket => "Polymarket",
        OracleSource::Pyth => "Pyth",
        OracleSource::PythNetwork => "PythNetwork",
        OracleSource::Chainlink => "Chainlink",
        OracleSource::InternalCache => "InternalCache",
    }
}

impl CrossValidator {
    /// Advice derived from a set of results: a failure rate above 20%, price
    /// deviations in more than half of the results, and each source with
    /// reliability below 70.
    pub fn generate_recommendations(&self, validations: &[&ValidationResult]) -> (r: Vec<String>)
        requires
            validations@.len() <= u64::MAX / 5,
            spec_price_deviation_count(validations@.map_values(|v: &ValidationResult| *v)) <= u64::MAX,
        ensures
            spec_texts(r@) == spec_recommendations(validations@.map_values(|v: &ValidationResult| *v), self.source_reliability@),
    {
        let ghost vs = validations@.map_values(|v: &ValidationResult| *v);
        let mut failed: u64 = 0;
        let mut price_deviations: u64 = 0;
        let mut i: usize = 0;
        while i < validations.len()
            invariant
                vs == validations@.map_values(|v: &ValidationResult| *v),
                i <= vs.len(),
                vs.len() <= u64::MAX / 5,
                spec_price_deviation_count(vs) <= u64::MAX,
                failed == spec_failed_count(vs.subrange(0, i as int)),
                price_deviations == spec_price_deviation_count(vs.subrange(0, i as int)),
            decreases vs.len() - i,
        {
            let v = validations[i];
            let ghost sub = vs.subrange(0, i + 1);
            proof {
                assert(sub.drop_last() =~= vs.subrange(0, i as int));
                assert(sub.last() == *v);
                reveal_with_fuel(Seq::filter, 1);
                lemma_filter_len_le(vs.subrange(0, i as int), |v: ValidationResult| v.validation_status == ValidationStatus::Failed);
                lemma_price_count_monotone(vs, i + 1);
            }
            if v.validation_status == ValidationStatus::Failed {
                failed = failed + 1;
            }
            let mut j: usize = 0;
            let ghost ds = v.discrepancies@;
            let mut local: u64 = 0;
            while j < v.discrepancies.len()
                invariant
                    j <= ds.len(),
                    ds == v.discrepancies@,
                    local == ds.subrange(0, j as int).filter(|d: Discrepancy| d is PriceDeviation).len(),
                    price_deviations + ds.filter(|d: Discrepancy| d is PriceDeviation).len() <= u64::MAX,
                decreases ds.len() - j,
            {
                proof {
                    reveal_with_fuel(Seq::filter, 1);
                    assert(ds.subrange(0, j + 1).drop_last() =~= ds.subrange(0, j as int));
                    lemma_filter_prefix_le(ds, j + 1, |d: Discrepancy| d is PriceDeviation);
                }
                if let Discrepancy::PriceDeviation { .. } = &v.discrepancies[j] {
                    local = local + 1;
                }
                j = j + 1;
            }
            assert(ds.subrange(0, j as int) =~= ds);
            price_deviations = price_deviations + local;
            i = i + 1;
        }
        assert(vs.subrange(0, i as int) =~= vs);
        let n = validations.len() as u64;
        let denominator = if n == 0 { 1 } else { n };
        let mut recommendations: Vec<String> = Vec::new();
        if failed * 5 > denominator {
            recommendations.push(String::from_str("High failure rate detected. Consider reviewing oracle configurations."));
        }
        if price_deviations > n / 2 {
            recommendations.push(String::from_str("Frequent price deviations detected. Verify price feed accuracy."));
        }
        let ghost head = spec_texts(recommendations@);
        assert(head == (if 5 * spec_failed_count(vs) > (if vs.len() == 0 { 1 } else { vs.len() }) {
            seq!["High failure rate detected. Consider reviewing oracle configurations."@]
        } else { Seq::<Seq<char>>::empty() })
            + (if spec_price_deviation_count(vs) > vs.len() / 2 {
                seq!["Frequent price deviations detected. Verify price feed accuracy."@]
            } else { Seq::<Seq<char>>::empty() }));
        let mut k: usize = 0;
        while k < self.source_reliability.len()
            invariant
                k <= self.source_reliability@.len(),
                spec_texts(recommendations@) == head + spec_reliability_advice(self.source_reliability@.subrange(0, k as int)),
            decreases self.source_reliability@.len() - k,
        {
            let (source, rel) = self.source_reliability[k];
            let ghost prev = recommendations@;
            proof {
                assert(self.source_reliability@.subrange(0, k + 1).drop_last() =~= self.source_reliability@.subrange(0, k as int));
            }
            if rel.current_score < 70 {
                let mut line = String::from_str(source_name(source));
                line.append(" reliability below threshold (");
                push_decimal(&mut line, rel.current_score);
                line.append("). Consider fallback options.");
                recommendations.push(line);
                assert(spec_texts(recommendations@) =~= spec_texts(prev).push(line@));
            }
            k = k + 1;
            assert(spec_texts(recommendations@) =~= head + spec_reliability_advice(self.source_reliability@.subrange(0, k as int)));
        }
        assert(self.source_reliability@.subrange(0, k as int) =~= self.source_reliability@);
        recommendations
    }
}

proof fn lemma_filter_len_le<A>(s: Seq<A>, p: spec_fn(A) -> bool)
    ensures
        s.filter(p).len() <= s.len(),
    decreases s.len(),
{
    reveal_with_fuel(Seq::filter, 1);
    if s.len() > 0 {
        lemma_filter_len_le(s.drop_last(), p);
    }
}

proof fn lemma_filter_prefix_le<A>(s: Seq<A>, j: int, p: spec_fn(A) -> bool)
    requires
        0 <= j <= s.len(),
    ensures
        s.subrange(0, j).filter(p).len() <= s.filter(p).len(),
    decreases s.len() - j,
{
    reveal_with_fuel(Seq::filter, 1);
    if j < s.len() {
        lemma_filter_prefix_le(s, j + 1, p);
        assert(s.subrange(0, j + 1).drop_last() =~= s.subrange(0, j));
    } else {
        assert(s.subrange(0, j) =~= s);
    }
}

proof fn lemma_price_count_monotone(vs: Seq<ValidationResult>, j: int)
    requires
        0 <= j <= vs.len(),
    ensures
        spec_price_deviation_count(vs.subrange(0, j)) <= spec_price_deviation_count(vs),
    decreases vs.len() - j,
{
    if j < vs.len() {
        lemma_price_count_monotone(vs, j + 1);
        assert(vs.subrange(0, j + 1).drop_last() =~= vs.subrange(0, j));
    } else {
        assert(vs.subrange(0, j) =~= vs);
    }
}

/// Position of a discrepancy's kind in report order.
pub open spec fn spec_kind(d: Discrepancy) -> int {
    match d {
        Discrepancy::PriceDeviation { .. } => 0,
        Discrepancy::VolumeDeviation { .. } => 1,
        Discrepancy::OutcomeMismatch { .. } => 2,
        Discrepancy::TimestampDrift { .. } => 3,
        Discrepancy::StatusMismatch { .. } => 4,
        Discrepancy::MissingData { .. } => 5,
    }
}

/// Name of the discrepancy kind at position `k`.
pub open spec fn spec_kind_name(k: int) -> Seq<char> {
    if k == 0 { "PriceDeviation"@ } else if k == 1 { "VolumeDeviation"@ } else if k == 2 { "OutcomeMismatch"@ }
    else if k == 3 { "TimestampDrift"@ } else if k == 4 { "StatusMismatch"@ } else { "MissingData"@ }
}

/// Number of discrepancies of kind `k` among the results.
pub open spec fn spec_kind_count(vs: Seq<ValidationResult>, k: int) -> nat
    decreases vs.len(),
{
    if vs.len() == 0 {
        0
    } else {
        spec_kind_count(vs.drop_last(), k) + vs.last().discrepancies@.filter(|d: Discrepancy| spec_kind(d) == k).len()
    }
}

/// (kind name, count) for each kind below `n` that occurs, in kind order.
pub open spec fn spec_kind_entries(vs: Seq<ValidationResult>, n: nat) -> Seq<(Seq<char>, nat)>
    decreases n,
{
    if n == 0 {
        Seq::empty()
    } else {
        let k = n - 1;
        spec_kind_entries(vs, k as nat) + if spec_kind_count(vs, k) > 0 {
            seq![(spec_kind_name(k), spec_kind_count(vs, k))]
        } else {
            Seq::empty()
        }
    }
}

/// The results at or after `cutoff`, in history order.
pub open spec fn spec_recent(h: Seq<ValidationResult>, cutoff: int) -> Seq<ValidationResult> {
    h.filter(|v: ValidationResult| v.timestamp >= cutoff)
}

/// The discrepancy counts of a report, with names as character sequences.
pub open spec fn spec_count_view(v: Seq<(String, u32)>) -> Seq<(Seq<char>, nat)> {
    v.map_values(|e: (String, u32)| (e.0@, e.1 as nat))
}

fn discrepancy_kind(d: &Discrepancy) -> (r: u8)
    ensures
        r == spec_kind(*d),
{
    match d {
        Discrepancy::PriceDeviation { .. } => 0,
        Discrepancy::VolumeDeviation { .. } => 1,
        Discrepancy::OutcomeMismatch { .. } => 2,
        Discrepancy::TimestampDrift { .. } => 3,
        Discrepancy::StatusMismatch { .. } => 4,
        Discrepancy::MissingData { .. } => 5,
    }
}

fn kind_name(k: u8) -> (r: &'static str)
    ensures
        r@ == spec_kind_name(k as int),
{
    if k == 0 { "PriceDeviation" } else if k == 1 { "VolumeDeviation" } else if k == 2 { "OutcomeMismatch" }
    else if k == 3 { "TimestampDrift" } else if k == 4 { "StatusMismatch" } else { "MissingData" }
}

proof fn lemma_kind_count_monotone(vs: Seq<ValidationResult>, j: int, k: int)
    requires
        0 <= j <= vs.len(),
    ensures
        spec_kind_count(vs.subrange(0, j), k) <= spec_kind_count(vs, k),
    decreases vs.len() - j,
{
    if j < vs.len() {
        lemma_kind_count_monotone(vs, j + 1, k);
        assert(vs.subrange(0, j + 1).drop_last() =~= vs.subrange(0, j));
    } else {
        assert(vs.subrange(0, j) =~= vs);
    }
}

/// Counts the discrepancies of kind `k` among the results.
fn count_kind(recent: &Vec<&ValidationResult>, k: u8) -> (r: u64)
    requires
        spec_kind_count(recent@.map_values(|v: &ValidationResult| *v), k as int) <= u32::MAX,
    ensures
        r == spec_kind_count(recent@.map_values(|v: &ValidationResult| *v), k as int),
{
    let ghost vs = recent@.map_values(|v: &ValidationResult| *v);
    let mut count: u64 = 0;
    let mut i: usize = 0;
    while i < recent.len()
        invariant
            vs == recent@.map_values(|v: &ValidationResult| *v),
            i <= vs.len(),
            spec_kind_count(vs, k as int) <= u32::MAX,
            count == spec_kind_count(vs.subrange(0, i as int), k as int),
        decreases vs.len() - i,
    {
        let v = recent[i];
        let ghost ds = v.discrepancies@;
        proof {
            assert(vs.subrange(0, i + 1).drop_last() =~= vs.subrange(0, i as int));
            assert(vs.subrange(0, i + 1).last() == *v);
            lemma_kind_count_monotone(vs, i + 1, k as int);
        }
        let mut j: usize = 0;
        let mut local: u64 = 0;
        while j < v.discrepancies.len()
            invariant
                j <= ds.len(),
                ds == v.discrepancies@,
                local == ds.subrange(0, j as int).filter(|d: Discrepancy| spec_kind(d) == k as int).len(),
                count + ds.filter(|d: Discrepancy| spec_kind(d) == k as int).len() <= u32::MAX,
            decreases ds.len() - j,
        {
            proof {
                reveal_with_fuel(Seq::filter, 1);
                assert(ds.subrange(0, j + 1).drop_last() =~= ds.subrange(0, j as int));
                lemma_filter_prefix_le(ds, j + 1, |d: Discrepancy| spec_kind(d) == k as int);
            }
            if discrepancy_kind(&v.discrepancies[j]) == k {
                local = local + 1;
            }
            j = j + 1;
        }
        assert(ds.subrange(0, j as int) =~= ds);
        count = count + local;
        i = i + 1;
    }
    assert(vs.subrange(0, i as int) =~= vs);
    count
}

proof fn lemma_price_count_is_kind_count(vs: Seq<ValidationResult>)
    ensures
        spec_price_deviation_count(vs) == spec_kind_count(vs, 0),
    decreases vs.len(),
{
    if vs.len() > 0 {
        lemma_price_count_is_kind_count(vs.drop_last());
        let ds = vs.last().discrepancies@;
        assert(ds.filter(|d: Discrepancy| d is PriceDeviation) =~= ds.filter(|d: Discrepancy| spec_kind(d) == 0)) by {
            let p1 = |d: Discrepancy| d is PriceDeviation;
            let p2 = |d: Discrepancy| spec_kind(d) == 0;
            assert(forall|d: Discrepancy| #[trigger] p1(d) == p2(d));
            assert(p1 =~= p2);
        }
    }
}

impl CrossValidator {
    /// Report over the results of the last `time_window` seconds before
    /// `current_time`: counts, success rate, discrepancy counts by kind,
    /// source reliability and recommendations.
    pub fn generate_report(&self, current_time: i64, time_window: i64) -> (r: ValidationReport)
        requires
            i64::MIN <= current_time - time_window <= i64::MAX,
            self.validation_history@.len() <= u64::MAX / 100,
            forall|k: int| 0 <= k < 6 ==> #[trigger] spec_kind_count(
                spec_recent(self.validation_history@, current_time - time_window), k) <= u32::MAX,
        ensures
            r.timestamp == current_time,
            r.time_window == time_window,
            r.total_validations == spec_recent(self.validation_history@, current_time - time_window).len(),
            r.passed_validations == spec_passed_count(spec_recent(self.validation_history@, current_time - time_window)),
            r.failed_validations == spec_failed_count(spec_recent(self.validation_history@, current_time - time_window)),
            r.success_rate == (if r.total_validations > 0 { r.passed_validations * 100 / (r.total_validations as int) } else { 100 }),
            spec_count_view(r.discrepancy_counts@) == spec_kind_entries(spec_recent(self.validation_history@, current_time - time_window), 6),
            r.source_reliability@ == self.source_reliability@,
            spec_texts(r.recommendations@) == spec_recommendations(
                spec_recent(self.validation_history@, current_time - time_window), self.source_reliability@),
    {
        let cutoff = current_time - time_window;
        let ghost h = self.validation_history@;
        let ghost pred = |v: ValidationResult| v.timestamp >= cutoff;
        let mut recent: Vec<&ValidationResult> = Vec::new();
        let mut passed: u64 = 0;
        let mut failed: u64 = 0;
        let mut i: usize = 0;
        while i < self.validation_history.len()
            invariant
                h == self.validation_history@,
                i <= h.len(),
                h.len() <= u64::MAX / 100,
                pred == (|v: ValidationResult| v.timestamp >= cutoff),
                recent@.map_values(|v: &ValidationResult| *v) == h.subrange(0, i as int).filter(pred),
                passed == spec_passed_count(h.subrange(0, i as int).filter(pred)),
                failed == spec_failed_count(h.subrange(0, i as int).filter(pred)),
            decreases h.len() - i,
        {
            let v = &self.validation_history[i];
            let ghost before = h.subrange(0, i as int).filter(pred);
            proof {
                reveal_with_fuel(Seq::filter, 1);
                assert(h.subrange(0, i + 1).drop_last() =~= h.subrange(0, i as int));
                lemma_filter_len_le(h.subrange(0, i as int), pred);
                lemma_filter_len_le(before, |v: ValidationResult| v.validation_status == ValidationStatus::Passed);
                lemma_filter_len_le(before, |v: ValidationResult| v.validation_status == ValidationStatus::Failed);
            }
            if v.timestamp >= cutoff {
                recent.push(v);
                if v.validation_status == ValidationStatus::Passed {
                    passed = passed + 1;
                }
                if v.validation_status == ValidationStatus::Failed {
                    failed = failed + 1;
                }
                proof {
                    assert(h.subrange(0, i + 1).filter(pred) == before.push(*v));
                    assert(before.push(*v).drop_last() =~= before);
                }
            } else {
                proof {
                    assert(h.subrange(0, i + 1).filter(pred) == before);
                }
            }
            assert(recent@.map_values(|v: &ValidationResult| *v) =~= h.subrange(0, i + 1).filter(pred));
            i = i + 1;
        }
        assert(h.subrange(0, i as int) =~= h);
        let ghost rec = h.filter(pred);
        assert(rec == spec_recent(self.validation_history@, current_time - time_window)) by {
            assert(pred =~= (|v: ValidationResult| v.timestamp >= current_time - time_window));
        }
        let total = recent.len() as u64;
        proof {
            lemma_filter_len_le(h, pred);
            lemma_filter_len_le(rec, |v: ValidationResult| v.validation_status == ValidationStatus::Passed);
        }
        let success_rate = if total > 0 { (passed * 100) / total } else { 100 };
        let mut discrepancy_counts: Vec<(String, u32)> = Vec::new();
        let mut k: u8 = 0;
        while k < 6
            invariant
                k <= 6,
                rec == recent@.map_values(|v: &ValidationResult| *v),
                forall|j: int| 0 <= j < 6 ==> #[trigger] spec_kind_count(spec_recent(self.validation_history@, current_time - time_window), j) <= u32::MAX,
                rec == spec_recent(self.validation_history@, current_time - time_window),
                spec_count_view(discrepancy_counts@) == spec_kind_entries(rec, k as nat),
            decreases 6 - k,
        {
            let c = count_kind(&recent, k);
            let ghost prev = discrepancy_counts@;
            if c > 0 {
                discrepancy_counts.push((String::from_str(kind_name(k)), c as u32));
            }
            assert(spec_count_view(discrepancy_counts@) =~= spec_kind_entries(rec, (k + 1) as nat));
            k = k + 1;
        }
        let mut source_reliability: Vec<(OracleSource, SourceReliability)> = Vec::new();
        let mut s: usize = 0;
        while s < self.source_reliability.len()
            invariant
                s <= self.source_reliability@.len(),
                source_reliability@ == self.source_reliability@.subrange(0, s as int),
            decreases self.source_reliability@.len() - s,
        {
            source_reliability.push(self.source_reliability[s]);
            assert(source_reliability@ =~= self.source_reliability@.subrange(0, s + 1));
            s = s + 1;
        }
        assert(source_reliability@ =~= self.source_reliability@);
        proof {
            lemma_price_count_is_kind_count(rec);
        }
        let recommendations = self.generate_recommendations(recent.as_slice());
        ValidationReport {
            timestamp: current_time,
            time_window,
            total_validations: total,
            passed_validations: passed,
            failed_validations: failed,
            success_rate,
            discrepancy_counts,
            source_reliability,
            recommendations,
        }
    }
}

/// An alert raised on a validation result.
#[derive(Clone, Copy, Debug, PartialEq, Eq, Structural)]
pub enum ValidationAlert {
    /// Number of critical discrepancies in the result.
    CriticalDiscrepancies(u64),
    /// The result's confidence, under the threshold.
    LowConfidence(u64),
    /// Failure rate of all validations (percent), over the threshold.
    HighFailureRate(u64),
}

/// Number of critical discrepancies.
pub open spec fn spec_critical_count(ds: Seq<Discrepancy>) -> nat {
    ds.filter(|d: Discrepancy| spec_severity(d) == Severity::Critical).len()
}

/// Failure rate in percent of all validations so far.
pub open spec fn spec_failure_rate(failed: u64, total: u64) -> int {
    if total > 0 { failed * 100 / (total as int) } else { 0 }
}

/// The alerts a result raises, in order: critical discrepancies, low
/// confidence, high failure rate.
pub open spec fn spec_alerts(v: CrossValidator, r: ValidationResult) -> Seq<ValidationAlert> {
    let c = spec_critical_count(r.discrepancies@);
    let rate = spec_failure_rate(v.failed_validations, v.total_validations);
    (if c > 0 { seq![ValidationAlert::CriticalDiscrepancies(c as u64)] } else { Seq::empty() })
        + (if r.confidence_score < v.alert_thresholds.min_confidence {
            seq![ValidationAlert::LowConfidence(r.confidence_score)]
        } else { Seq::empty() })
        + (if rate > v.alert_thresholds.max_failure_rate {
            seq![ValidationAlert::HighFailureRate(rate as u64)]
        } else { Seq::empty() })
}

impl CrossValidator {
    /// The alerts a validation result raises: any critical discrepancy, a
    /// confidence under the minimum, or an overall failure rate over the
    /// maximum.
    pub fn check_alerts(&self, result: &ValidationResult) -> (r: Vec<ValidationAlert>)
        requires
            self.failed_validations * 100 <= u64::MAX,
        ensures
            r@ == spec_alerts(*self, *result),
    {
        let ghost ds = result.discrepancies@;
        let ghost crit = |d: Discrepancy| spec_severity(d) == Severity::Critical;
        let mut critical: u64 = 0;
        let mut j: usize = 0;
        while j < result.discrepancies.len()
            invariant
                j <= ds.len(),
                ds == result.discrepancies@,
                crit == (|d: Discrepancy| spec_severity(d) == Severity::Critical),
                critical == ds.subrange(0, j as int).filter(crit).len(),
                critical <= j,
            decreases ds.len() - j,
        {
            proof {
                reveal_with_fuel(Seq::filter, 1);
                assert(ds.subrange(0, j + 1).drop_last() =~= ds.subrange(0, j as int));
            }
            if result.discrepancies[j].severity() == Severity::Critical {
                critical = critical + 1;
            }
            j = j + 1;
        }
        assert(ds.subrange(0, j as int) =~= ds);
        let mut alerts: Vec<ValidationAlert> = Vec::new();
        if critical > 0 {
            alerts.push(ValidationAlert::CriticalDiscrepancies(critical));
        }
        if result.confidence_score < self.alert_thresholds.min_confidence {
            alerts.push(ValidationAlert::LowConfidence(result.confidence_score));
        }
        let failure_rate = if self.total_validations > 0 {
            (self.failed_validations * 100) / self.total_validations
        } else {
            0
        };
        if failure_rate > self.alert_thresholds.max_failure_rate {
            alerts.push(ValidationAlert::HighFailureRate(failure_rate));
        }
        assert(alerts@ =~= spec_alerts(*self, *result));
        alerts
    }
}

/// The deviation depends only on how far the second value lies from the
/// first, not on the side: a value `d` below and a value `d` above both give
/// `d` in basis points of the first value. Two nonzero values that differ by
/// at least a ten-thousandth of the first always deviate, and equal ones do
/// not; a zero value deviates fully.
pub proof fn lemma_deviation_is_distance(v: u64, d: u64)
    requires
        0 < d < v,
        v + d <= u64::MAX,
        d * 10000 <= u64::MAX,
    ensures
        spec_deviation(v, (v - d) as u64) == d * 10000 / (v as int),
        spec_deviation(v, (v + d) as u64) == d * 10000 / (v as int),
        d * 10000 >= v ==> spec_deviation(v, (v - d) as u64) > 0 && spec_deviation(v, (v + d) as u64) > 0,
        spec_deviation(v, v) == 0,
        spec_deviation(v, 0) == 10000 && spec_deviation(0, v) == 10000,
{
    assert(d * 10000 / (v as int) <= d * 10000) by (nonlinear_arith) requires v >= 1, d >= 0;
    if d * 10000 >= v {
        assert(d * 10000 / (v as int) >= 1) by (nonlinear_arith) requires d * 10000 >= v, v >= 1;
    }
    assert(0int * 10000 / (v as int) == 0);
}

} // verus!
