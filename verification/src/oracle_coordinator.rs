//! Oracle coordination: Polymarket is the primary source; backups are used
//! only while it is down, and their data is reconciled when it returns.
use vstd::prelude::*;
use crate::error::BettingPlatformError;
use crate::polymarket_api_types::InternalMarketData;

verus! {

/// Oracle source type.
#[derive(Clone, Copy, Debug, PartialEq, Eq, Hash, PartialOrd, Ord, Structural)]
pub enum OracleSource {
    Polymarket,
    Pyth,
    PythNetwork,
    Chainlink,
    InternalCache,
}

/// Priority of a source (1 is preferred).
pub open spec fn spec_priority(s: OracleSource) -> u8 {
    match s {
        OracleSource::Polymarket => 1,
        OracleSource::Pyth | OracleSource::PythNetwork => 2,
        OracleSource::Chainlink => 3,
        OracleSource::InternalCache => 4,
    }
}

impl OracleSource {
    /// Priority of the source: Polymarket 1, Pyth 2, Chainlink 3, cache 4.
    pub fn priority(&self) -> (r: u8)
        ensures
            r == spec_priority(*self),
    {
        match self {
            OracleSource::Polymarket => 1,
            OracleSource::Pyth | OracleSource::PythNetwork => 2,
            OracleSource::Chainlink => 3,
            OracleSource::InternalCache => 4,
        }
    }
}

/// The health score of an oracle: 40 when available, half the data quality,
/// 20/10/0 for latency under 100/500 ms, capped at 100, less 5 per
/// consecutive failure (at most 30), not below zero.
pub open spec fn spec_health_score(h: OracleHealth) -> u8 {
    let availability: int = if h.is_available { 40 } else { 0 };
    let latency: int = if h.average_latency_ms < 100 { 20 } else if h.average_latency_ms < 500 { 10 } else { 0 };
    let raw = availability + h.data_quality_score / 2 + latency;
    let capped = if raw > 100 { 100 } else { raw };
    let penalty: int = if h.consecutive_failures >= 6 { 30 } else { h.consecutive_failures * 5 };
    (if capped > penalty { capped - penalty } else { 0 }) as u8
}

/// Oracle health score.
#[derive(Clone, Copy, Debug)]
pub struct OracleHealth {
    pub source: OracleSource,
    pub is_available: bool,
    pub last_success_timestamp: i64,
    pub consecutive_failures: u32,
    pub average_latency_ms: u64,
    pub data_quality_score: u8,
    pub health_score: u8,
}

impl OracleHealth {
    /// A fresh record: available, full quality and health.
    pub fn new(source: OracleSource) -> (r: Self)
        ensures
            r.source == source,
            r.is_available,
            r.last_success_timestamp == 0,
            r.consecutive_failures == 0,
            r.average_latency_ms == 0,
            r.data_quality_score == 100,
            r.health_score == 100,
    {
        OracleHealth {
            source,
            is_available: true,
            last_success_timestamp: 0,
            consecutive_failures: 0,
            average_latency_ms: 0,
            data_quality_score: 100,
            health_score: 100,
        }
    }

    /// Recomputes the health score from the metrics.
    pub fn update_health_score(&mut self)
        ensures
            final(self).health_score == spec_health_score(*old(self)),
            final(self).source == old(self).source,
            final(self).is_available == old(self).is_available,
            final(self).last_success_timestamp == old(self).last_success_timestamp,
            final(self).consecutive_failures == old(self).consecutive_failures,
            final(self).average_latency_ms == old(self).average_latency_ms,
            final(self).data_quality_score == old(self).data_quality_score,
    {
        let availability: u32 = if self.is_available { 40 } else { 0 };
        let latency: u32 = if self.average_latency_ms < 100 { 20 } else if self.average_latency_ms < 500 { 10 } else { 0 };
        let raw: u32 = availability + (self.data_quality_score / 2) as u32 + latency;
        let capped: u32 = if raw > 100 { 100 } else { raw };
        let penalty: u32 = if self.consecutive_failures >= 6 { 30 } else { self.consecutive_failures * 5 };
        self.health_score = (if capped > penalty { capped - penalty } else { 0 }) as u8;
    }

    /// Records a successful fetch at `timestamp` taking `latency_ms`; the
    /// first sample sets the average, later ones move it by a tenth.
    pub fn record_success(&mut self, timestamp: i64, latency_ms: u64)
        requires
            old(self).average_latency_ms <= u64::MAX / 10,
            latency_ms <= u64::MAX / 10,
        ensures
            final(self).is_available,
            final(self).last_success_timestamp == timestamp,
            final(self).consecutive_failures == 0,
            final(self).average_latency_ms == (if old(self).average_latency_ms == 0 {
                latency_ms as int
            } else {
                (old(self).average_latency_ms * 9 + latency_ms) / 10
            }),
            final(self).health_score == spec_health_score(OracleHealth { health_score: 0, ..*final(self) }),
            final(self).source == old(self).source,
            final(self).data_quality_score == old(self).data_quality_score,
    {
        self.is_available = true;
        self.last_success_timestamp = timestamp;
        self.consecutive_failures = 0;
        if self.average_latency_ms == 0 {
            self.average_latency_ms = latency_ms;
        } else {
            self.average_latency_ms = (self.average_latency_ms * 9 + latency_ms) / 10;
        }
        self.update_health_score();
    }

    /// Records a failed fetch; three consecutive failures mark the source
    /// unavailable.
    pub fn record_failure(&mut self)
        requires
            old(self).consecutive_failures < u32::MAX,
        ensures
            final(self).consecutive_failures == old(self).consecutive_failures + 1,
            final(self).is_available == (old(self).is_available && old(self).consecutive_failures + 1 < 3),
            final(self).health_score == spec_health_score(OracleHealth { health_score: 0, ..*final(self) }),
            final(self).source == old(self).source,
            final(self).last_success_timestamp == old(self).last_success_timestamp,
            final(self).average_latency_ms == old(self).average_latency_ms,
            final(self).data_quality_score == old(self).data_quality_score,
    {
        self.consecutive_failures = self.consecutive_failures + 1;
        if self.consecutive_failures >= 3 {
            self.is_available = false;
        }
        self.update_health_score();
    }
}

/// Data reconciliation record.
#[derive(Clone, Copy, Debug)]
pub struct ReconciliationRecord {
    pub market_id: [u8; 16],
    pub primary_value: u64,
    pub backup_value: u64,
    pub difference_bps: u16,
    pub timestamp: i64,
    pub action_taken: ReconciliationAction,
}

/// What a reconciliation decided.
#[derive(Clone, Copy, Debug, PartialEq, Eq, Structural)]
pub enum ReconciliationAction {
    UsedPrimary,
    UsedBackup,
    AveragedValues,
    HaltedMarket,
}

/// The backup chosen when the primary is down: among available backups, the
/// last one with the highest health score (as `max_by_key` picks).
pub open spec fn spec_best_backup(b: Seq<OracleHealth>, i: int) -> bool {
    &&& 0 <= i < b.len()
    &&& b[i].is_available
    &&& forall|j: int| 0 <= j < b.len() && b[j].is_available ==> b[j].health_score <= b[i].health_score
    &&& forall|j: int| i < j < b.len() && b[j].is_available ==> b[j].health_score < b[i].health_score
}

/// Oracle coordinator state.
#[derive(Clone)]
pub struct OracleCoordinator {
    pub primary_oracle: OracleHealth,
    pub backup_oracles: Vec<OracleHealth>,
    pub active_source: OracleSource,
    pub fallback_active: bool,
    pub fallback_start_timestamp: i64,
    pub reconciliation_pending: bool,
    pub total_reconciliations: u64,
    pub significant_discrepancies: u64,
}

impl OracleCoordinator {
    pub const SIZE: usize = 8192;
    pub const MAX_BACKUP_DURATION_SECONDS: i64 = 1800;
    pub const SIGNIFICANT_DISCREPANCY_BPS: u16 = 500;

    /// Polymarket active; Pyth, Chainlink and the cache as backups.
    pub fn new() -> (r: Self)
        ensures
            r.primary_oracle == OracleHealth::new_spec(OracleSource::Polymarket),
            r.backup_oracles@ == seq![
                OracleHealth::new_spec(OracleSource::PythNetwork),
                OracleHealth::new_spec(OracleSource::Chainlink),
                OracleHealth::new_spec(OracleSource::InternalCache),
            ],
            r.active_source == OracleSource::Polymarket,
            !r.fallback_active,
            r.fallback_start_timestamp == 0,
            !r.reconciliation_pending,
            r.total_reconciliations == 0,
            r.significant_discrepancies == 0,
    {
        let mut backups: Vec<OracleHealth> = Vec::new();
        backups.push(OracleHealth::new(OracleSource::PythNetwork));
        backups.push(OracleHealth::new(OracleSource::Chainlink));
        backups.push(OracleHealth::new(OracleSource::InternalCache));
        let r = OracleCoordinator {
            primary_oracle: OracleHealth::new(OracleSource::Polymarket),
            backup_oracles: backups,
            active_source: OracleSource::Polymarket,
            fallback_active: false,
            fallback_start_timestamp: 0,
            reconciliation_pending: false,
            total_reconciliations: 0,
            significant_discrepancies: 0,
        };
        assert(r.backup_oracles@ =~= seq![
            OracleHealth::new_spec(OracleSource::PythNetwork),
            OracleHealth::new_spec(OracleSource::Chainlink),
            OracleHealth::new_spec(OracleSource::InternalCache),
        ]);
        r
    }

    /// Decides whether a backup is in use at `current_timestamp`. With a
    /// healthy primary (available, score above 20) no backup is used and a
    /// pending fallback asks for reconciliation. Otherwise the best
    /// available backup is used (switched to if no fallback was active); with
    /// none available the call fails.
    pub fn evaluate_oracle_switch(&mut self, current_timestamp: i64) -> (r: Result<bool, BettingPlatformError>)
        ensures
            final(self).primary_oracle == old(self).primary_oracle,
            final(self).backup_oracles == old(self).backup_oracles,
            final(self).total_reconciliations == old(self).total_reconciliations,
            final(self).significant_discrepancies == old(self).significant_discrepancies,
            old(self).primary_oracle.is_available && old(self).primary_oracle.health_score > 20 ==> {
                &&& r == Ok::<bool, BettingPlatformError>(false)
                &&& final(self).reconciliation_pending == (old(self).reconciliation_pending || old(self).fallback_active)
                &&& final(self).fallback_active == old(self).fallback_active
                &&& final(self).active_source == old(self).active_source
                &&& final(self).fallback_start_timestamp == old(self).fallback_start_timestamp
            },
            !(old(self).primary_oracle.is_available && old(self).primary_oracle.health_score > 20) ==> {
                &&& final(self).reconciliation_pending == old(self).reconciliation_pending
                &&& if exists|i: int| #[trigger] spec_best_backup(old(self).backup_oracles@, i) {
                    let i = choose|i: int| #[trigger] spec_best_backup(old(self).backup_oracles@, i);
                    &&& r == Ok::<bool, BettingPlatformError>(true)
                    &&& final(self).fallback_active
                    &&& if old(self).fallback_active {
                        final(self).active_source == old(self).active_source
                            && final(self).fallback_start_timestamp == old(self).fallback_start_timestamp
                    } else {
                        final(self).active_source == old(self).backup_oracles@[i].source
                            && final(self).fallback_start_timestamp == current_timestamp
                    }
                } else {
                    &&& r == Err::<bool, BettingPlatformError>(BettingPlatformError::NoHealthyOracles)
                    &&& final(self).active_source == old(self).active_source
                    &&& final(self).fallback_active == old(self).fallback_active
                    &&& final(self).fallback_start_timestamp == old(self).fallback_start_timestamp
                }
            },
    {
        if self.primary_oracle.is_available && self.primary_oracle.health_score > 20 {
            if self.fallback_active {
                self.reconciliation_pending = true;
            }
            return Ok(false);
        }
        let mut best: Option<usize> = None;
        let mut i: usize = 0;
        while i < self.backup_oracles.len()
            invariant
                self.backup_oracles == old(self).backup_oracles,
                i <= self.backup_oracles@.len(),
                match best {
                    Some(b) => {
                        &&& b < i
                        &&& spec_best_backup(self.backup_oracles@.subrange(0, i as int), b as int)
                    },
                    None => forall|j: int| 0 <= j < i ==> !self.backup_oracles@[j].is_available,
                },
            decreases self.backup_oracles@.len() - i,
        {
            let h = self.backup_oracles[i];
            if h.is_available {
                match best {
                    Some(b) => {
                        if h.health_score >= self.backup_oracles[b].health_score {
                            best = Some(i);
                        }
                    },
                    None => {
                        best = Some(i);
                    },
                }
            }
            i = i + 1;
            proof {
                let s = self.backup_oracles@.subrange(0, i as int);
                let s0 = self.backup_oracles@.subrange(0, i - 1);
                assert forall|j: int| 0 <= j < i - 1 implies s[j] == s0[j] by {}
            }
        }
        assert(self.backup_oracles@.subrange(0, i as int) =~= self.backup_oracles@);
        match best {
            Some(b) => {
                proof {
                    let c = choose|j: int| #[trigger] spec_best_backup(old(self).backup_oracles@, j);
                    assert(spec_best_backup(old(self).backup_oracles@, b as int));
                    assert(c == b as int) by {
                        let s = old(self).backup_oracles@;
                        if c < b as int { assert(s[b as int].health_score < s[c].health_score); }
                        if c > b as int { assert(s[c].health_score < s[b as int].health_score); }
                    }
                }
                if !self.fallback_active {
                    self.fallback_active = true;
                    self.fallback_start_timestamp = current_timestamp;
                    self.active_source = self.backup_oracles[b].source;
                }
                Ok(true)
            },
            None => {
                proof {
                    assert forall|j: int| !spec_best_backup(old(self).backup_oracles@, j) by {
                        if 0 <= j < old(self).backup_oracles@.len() {
                            assert(!old(self).backup_oracles@[j].is_available);
                        }
                    }
                }
                Err(BettingPlatformError::NoHealthyOracles)
            },
        }
    }

    /// Reconciles the backup's YES price against the primary's when the
    /// primary returns: a difference above 5% (relative to the primary)
    /// halts the market, otherwise the primary is used. The coordinator
    /// returns to the primary source.
    pub fn reconcile_data(
        &mut self,
        market_id: [u8; 16],
        primary_data: &InternalMarketData,
        backup_data: &InternalMarketData,
        current_timestamp: i64,
    ) -> (r: Result<ReconciliationRecord, BettingPlatformError>)
        requires
            primary_data.yes_price_bps > 0,
            primary_data.yes_price_bps <= i64::MAX,
            backup_data.yes_price_bps <= i64::MAX,
            spec_price_difference_bps(primary_data.yes_price_bps, backup_data.yes_price_bps) <= u16::MAX,
            old(self).total_reconciliations < u64::MAX,
            old(self).significant_discrepancies < u64::MAX,
        ensures
            ({
                let d = spec_price_difference_bps(primary_data.yes_price_bps, backup_data.yes_price_bps);
                let significant = d > Self::SIGNIFICANT_DISCREPANCY_BPS;
                &&& r matches Ok(rec) && rec == (ReconciliationRecord {
                    market_id,
                    primary_value: primary_data.yes_price_bps,
                    backup_value: backup_data.yes_price_bps,
                    difference_bps: d as u16,
                    timestamp: current_timestamp,
                    action_taken: if significant { ReconciliationAction::HaltedMarket } else { ReconciliationAction::UsedPrimary },
                })
                &&& final(self).significant_discrepancies == old(self).significant_discrepancies + (if significant { 1int } else { 0 })
            }),
            final(self).total_reconciliations == old(self).total_reconciliations + 1,
            !final(self).reconciliation_pending,
            !final(self).fallback_active,
            final(self).active_source == OracleSource::Polymarket,
            final(self).primary_oracle == old(self).primary_oracle,
            final(self).backup_oracles == old(self).backup_oracles,
            final(self).fallback_start_timestamp == old(self).fallback_start_timestamp,
    {
        let p = primary_data.yes_price_bps as i64;
        let b = backup_data.yes_price_bps as i64;
        let diff: i128 = if p >= b { (p - b) as i128 } else { (b - p) as i128 };
        let difference_bps = (diff * 10000 / p as i128) as u16;
        let action = if difference_bps > Self::SIGNIFICANT_DISCREPANCY_BPS {
            self.significant_discrepancies = self.significant_discrepancies + 1;
            ReconciliationAction::HaltedMarket
        } else {
            ReconciliationAction::UsedPrimary
        };
        let record = ReconciliationRecord {
            market_id,
            primary_value: primary_data.yes_price_bps,
            backup_value: backup_data.yes_price_bps,
            difference_bps,
            timestamp: current_timestamp,
            action_taken: action,
        };
        self.total_reconciliations = self.total_reconciliations + 1;
        self.reconciliation_pending = false;
        self.fallback_active = false;
        self.active_source = OracleSource::Polymarket;
        Ok(record)
    }

    /// Market data from the source in use at `current_timestamp`, with the
    /// source and whether the data is stale. The switch decision runs first;
    /// a fallback past the backup limit falls to the cache. `fetched` is the
    /// fallback manager's answer for the market, used when Polymarket or the
    /// cache serves; Pyth and Chainlink serve even prices. The serving
    /// source's health record notes the fetch.
    pub fn get_market_data(
        &mut self,
        market_id: [u8; 16],
        fetched: Result<(InternalMarketData, bool), BettingPlatformError>,
        current_timestamp: i64,
    ) -> (r: Result<(InternalMarketData, OracleSource, bool), BettingPlatformError>)
        requires
            spec_market_data_defined(*old(self), current_timestamp),
        ensures
            r == spec_market_answer(*old(self), market_id, fetched, current_timestamp),
            final(self).primary_oracle == spec_primary_after_fetch(*old(self), fetched, current_timestamp),
            final(self).backup_oracles@ == spec_backups_after_fetch(*old(self), current_timestamp),
            ({
                let (c2, sw) = spec_switch(*old(self), current_timestamp);
                &&& final(self).active_source == (if sw is Ok { spec_data_source(c2, current_timestamp) } else { c2.active_source })
                &&& final(self).fallback_active == c2.fallback_active
                &&& final(self).fallback_start_timestamp == c2.fallback_start_timestamp
                &&& final(self).reconciliation_pending == c2.reconciliation_pending
                &&& final(self).total_reconciliations == c2.total_reconciliations
                &&& final(self).significant_discrepancies == c2.significant_discrepancies
            }),
    {
        let ghost c0 = *self;
        let switched = self.evaluate_oracle_switch(current_timestamp);
        proof {
            let (c2, sw) = spec_switch(c0, current_timestamp);
            assert(self.backup_oracles@ == c2.backup_oracles@);
            assert(switched == sw);
            assert(self.primary_oracle == c2.primary_oracle);
            assert(self.active_source == c2.active_source);
            assert(self.fallback_active == c2.fallback_active);
            assert(self.fallback_start_timestamp == c2.fallback_start_timestamp);
            assert(self.reconciliation_pending == c2.reconciliation_pending);
        }
        match switched {
            Ok(_) => {},
            Err(e) => return Err(e),
        }
        if self.fallback_active {
            let backup_duration = current_timestamp - self.fallback_start_timestamp;
            if backup_duration > Self::MAX_BACKUP_DURATION_SECONDS {
                self.active_source = OracleSource::InternalCache;
            }
        }
        match self.active_source {
            OracleSource::Polymarket => match fetched {
                Ok((data, is_stale)) => {
                    self.primary_oracle.record_success(current_timestamp, 50);
                    Ok((data, OracleSource::Polymarket, is_stale))
                },
                Err(e) => {
                    self.primary_oracle.record_failure();
                    Err(e)
                },
            },
            OracleSource::Pyth | OracleSource::PythNetwork => {
                let mut h = self.backup_oracles[0];
                h.record_success(current_timestamp, 30);
                self.backup_oracles.set(0, h);
                Ok((Self::backup_data(market_id), OracleSource::Pyth, false))
            },
            OracleSource::Chainlink => {
                let mut h = self.backup_oracles[1];
                h.record_success(current_timestamp, 40);
                self.backup_oracles.set(1, h);
                Ok((Self::backup_data(market_id), OracleSource::Chainlink, false))
            },
            OracleSource::InternalCache => match fetched {
                Ok((data, is_stale)) => Ok((data, OracleSource::InternalCache, is_stale)),
                Err(e) => Err(e),
            },
        }
    }

    /// Even prices for a market, as a simulated backup answers.
    fn backup_data(market_id: [u8; 16]) -> (r: InternalMarketData)
        ensures
            r == spec_backup_data(market_id),
    {
        InternalMarketData {
            market_id,
            yes_price_bps: 5000,
            no_price_bps: 5000,
            volume_24h: 0,
            liquidity: 0,
            last_update_slot: 0,
            market_type: 0,
            status: 0,
            spread_bps: 0,
        }
    }

    /// Statistics at `current_timestamp`.
    pub fn get_stats(&self, current_timestamp: i64) -> (r: OracleStats)
        requires
            self.fallback_active ==> i64::MIN <= current_timestamp - self.fallback_start_timestamp <= i64::MAX,
        ensures
            r.primary_health == self.primary_oracle.health_score,
            r.active_source == self.active_source,
            r.fallback_active == self.fallback_active,
            r.total_reconciliations == self.total_reconciliations,
            r.significant_discrepancies == self.significant_discrepancies,
            r.backup_duration == (if self.fallback_active { current_timestamp - self.fallback_start_timestamp } else { 0 }),
    {
        OracleStats {
            primary_health: self.primary_oracle.health_score,
            active_source: self.active_source,
            fallback_active: self.fallback_active,
            total_reconciliations: self.total_reconciliations,
            significant_discrepancies: self.significant_discrepancies,
            backup_duration: if self.fallback_active { current_timestamp - self.fallback_start_timestamp } else { 0 },
        }
    }
}

/// A record after a successful fetch at `timestamp` taking `latency_ms`.
pub open spec fn spec_after_success(h: OracleHealth, timestamp: i64, latency_ms: u64) -> OracleHealth {
    let h1 = OracleHealth {
        is_available: true,
        last_success_timestamp: timestamp,
        consecutive_failures: 0,
        average_latency_ms: if h.average_latency_ms == 0 {
            latency_ms
        } else {
            ((h.average_latency_ms * 9 + latency_ms) / 10) as u64
        },
        ..h
    };
    OracleHealth { health_score: spec_health_score(h1), ..h1 }
}

/// A record after a failed fetch.
pub open spec fn spec_after_failure(h: OracleHealth) -> OracleHealth {
    let h1 = OracleHealth {
        consecutive_failures: (h.consecutive_failures + 1) as u32,
        is_available: h.is_available && h.consecutive_failures + 1 < 3,
        ..h
    };
    OracleHealth { health_score: spec_health_score(h1), ..h1 }
}

/// The coordinator and answer of `evaluate_oracle_switch` at `ts`.
pub open spec fn spec_switch(c: OracleCoordinator, ts: i64) -> (OracleCoordinator, Result<bool, BettingPlatformError>) {
    if c.primary_oracle.is_available && c.primary_oracle.health_score > 20 {
        (OracleCoordinator { reconciliation_pending: c.reconciliation_pending || c.fallback_active, ..c }, Ok(false))
    } else if exists|i: int| #[trigger] spec_best_backup(c.backup_oracles@, i) {
        let i = choose|i: int| #[trigger] spec_best_backup(c.backup_oracles@, i);
        if c.fallback_active {
            (c, Ok(true))
        } else {
            (OracleCoordinator {
                fallback_active: true,
                fallback_start_timestamp: ts,
                active_source: c.backup_oracles@[i].source,
                ..c
            }, Ok(true))
        }
    } else {
        (c, Err(BettingPlatformError::NoHealthyOracles))
    }
}

/// The source data is taken from after the switch decision: the cache once
/// a fallback has lasted longer than the backup limit.
pub open spec fn spec_data_source(c: OracleCoordinator, ts: i64) -> OracleSource {
    if c.fallback_active && ts - c.fallback_start_timestamp > OracleCoordinator::MAX_BACKUP_DURATION_SECONDS {
        OracleSource::InternalCache
    } else {
        c.active_source
    }
}

/// The data a simulated backup answers with: even prices for the market.
pub open spec fn spec_backup_data(market_id: [u8; 16]) -> InternalMarketData {
    InternalMarketData {
        market_id,
        yes_price_bps: 5000,
        no_price_bps: 5000,
        volume_24h: 0,
        liquidity: 0,
        last_update_slot: 0,
        market_type: 0,
        status: 0,
        spread_bps: 0,
    }
}

/// Inputs on which `get_market_data` computes without overflow or a missing
/// backup record.
pub open spec fn spec_market_data_defined(c: OracleCoordinator, ts: i64) -> bool {
    let (c2, sw) = spec_switch(c, ts);
    sw is Ok ==> {
        &&& (c2.fallback_active ==> i64::MIN <= ts - c2.fallback_start_timestamp <= i64::MAX)
        &&& match spec_data_source(c2, ts) {
            OracleSource::Polymarket => c2.primary_oracle.average_latency_ms <= u64::MAX / 10
                && c2.primary_oracle.consecutive_failures < u32::MAX,
            OracleSource::Pyth | OracleSource::PythNetwork => c2.backup_oracles@.len() >= 1
                && c2.backup_oracles@[0].average_latency_ms <= u64::MAX / 10,
            OracleSource::Chainlink => c2.backup_oracles@.len() >= 2
                && c2.backup_oracles@[1].average_latency_ms <= u64::MAX / 10,
            OracleSource::InternalCache => true,
        }
    }
}

/// The answer of `get_market_data`, given the fallback manager's answer
/// `fetched` for the market: the switch decision's error, else by the data
/// source the fetched data (Polymarket or the cache) or a backup's data.
pub open spec fn spec_market_answer(
    c: OracleCoordinator,
    market_id: [u8; 16],
    fetched: Result<(InternalMarketData, bool), BettingPlatformError>,
    ts: i64,
) -> Result<(InternalMarketData, OracleSource, bool), BettingPlatformError> {
    let (c2, sw) = spec_switch(c, ts);
    match sw {
        Err(e) => Err(e),
        Ok(_) => match spec_data_source(c2, ts) {
            OracleSource::Polymarket => match fetched {
                Ok((d, stale)) => Ok((d, OracleSource::Polymarket, stale)),
                Err(e) => Err(e),
            },
            OracleSource::Pyth | OracleSource::PythNetwork => Ok((spec_backup_data(market_id), OracleSource::Pyth, false)),
            OracleSource::Chainlink => Ok((spec_backup_data(market_id), OracleSource::Chainlink, false)),
            OracleSource::InternalCache => match fetched {
                Ok((d, stale)) => Ok((d, OracleSource::InternalCache, stale)),
                Err(e) => Err(e),
            },
        },
    }
}

/// The primary's record after `get_market_data`: a Polymarket fetch records
/// its success (50 ms) or failure.
pub open spec fn spec_primary_after_fetch(
    c: OracleCoordinator,
    fetched: Result<(InternalMarketData, bool), BettingPlatformError>,
    ts: i64,
) -> OracleHealth {
    let (c2, sw) = spec_switch(c, ts);
    if sw is Ok && spec_data_source(c2, ts) == OracleSource::Polymarket {
        if fetched is Ok { spec_after_success(c2.primary_oracle, ts, 50) } else { spec_after_failure(c2.primary_oracle) }
    } else {
        c2.primary_oracle
    }
}

/// The backups' records after `get_market_data`: Pyth (the first, 30 ms)
/// or Chainlink (the second, 40 ms) records a success when it served.
pub open spec fn spec_backups_after_fetch(c: OracleCoordinator, ts: i64) -> Seq<OracleHealth> {
    let (c2, sw) = spec_switch(c, ts);
    let b = c2.backup_oracles@;
    if sw is Ok {
        match spec_data_source(c2, ts) {
            OracleSource::Pyth | OracleSource::PythNetwork => b.update(0, spec_after_success(b[0], ts, 30)),
            OracleSource::Chainlink => b.update(1, spec_after_success(b[1], ts, 40)),
            _ => b,
        }
    } else {
        b
    }
}

/// Difference of two prices in basis points of the first.
pub open spec fn spec_price_difference_bps(primary: u64, backup: u64) -> int {
    let diff: int = if primary >= backup { primary - backup } else { backup - primary };
    diff * 10000 / (primary as int)
}

impl OracleHealth {
    /// The record `new` builds.
    pub open spec fn new_spec(source: OracleSource) -> OracleHealth {
        OracleHealth {
            source,
            is_available: true,
            last_success_timestamp: 0,
            consecutive_failures: 0,
            average_latency_ms: 0,
            data_quality_score: 100,
            health_score: 100,
        }
    }
}

/// Oracle statistics.
#[derive(Clone, Copy, Debug)]
pub struct OracleStats {
    pub primary_health: u8,
    pub active_source: OracleSource,
    pub fallback_active: bool,
    pub total_reconciliations: u64,
    pub significant_discrepancies: u64,
    pub backup_duration: i64,
}

/// Configurable oracle priorities.
#[derive(Clone, Debug)]
pub struct OraclePriorityConfig {
    pub priorities: Vec<(OracleSource, u8)>,
    pub auto_switch_enabled: bool,
    pub max_backup_duration_seconds: i64,
    pub reconciliation_threshold_bps: u16,
}

impl Default for OraclePriorityConfig {
    fn default() -> (r: Self)
        ensures
            r.priorities@ == seq![
                (OracleSource::Polymarket, 1u8),
                (OracleSource::Pyth, 2u8),
                (OracleSource::Chainlink, 3u8),
                (OracleSource::InternalCache, 4u8),
            ],
            r.auto_switch_enabled,
            r.max_backup_duration_seconds == 1800,
            r.reconciliation_threshold_bps == 500,
    {
        let mut priorities: Vec<(OracleSource, u8)> = Vec::new();
        priorities.push((OracleSource::Polymarket, 1));
        priorities.push((OracleSource::Pyth, 2));
        priorities.push((OracleSource::Chainlink, 3));
        priorities.push((OracleSource::InternalCache, 4));
        let r = OraclePriorityConfig {
            priorities,
            auto_switch_enabled: true,
            max_backup_duration_seconds: 1800,
            reconciliation_threshold_bps: 500,
        };
        assert(r.priorities@ =~= seq![
            (OracleSource::Polymarket, 1u8),
            (OracleSource::Pyth, 2u8),
            (OracleSource::Chainlink, 3u8),
            (OracleSource::InternalCache, 4u8),
        ]);
        r
    }
}

} // verus!
