//! Integer parts of anomaly detection: rolling volume statistics, user
//! activity windows, severities and the alert counters.
use vstd::prelude::*;
use std::collections::VecDeque;

verus! {

/// Smallest sample before statistics are trusted.
pub const MIN_SAMPLE_SIZE: usize = 30;
/// Window for recent anomalies, in seconds.
pub const ANOMALY_WINDOW_SECONDS: i64 = 3600;

/// Anomaly severity, from least to most severe.
#[derive(Clone, Copy, Debug, PartialEq, Eq, PartialOrd, Ord, Hash, Structural)]
pub enum AnomalySeverity {
    Low,
    Medium,
    High,
    Critical,
}

/// Action recommended for an anomaly.
#[derive(Clone, Copy, Debug, PartialEq, Eq, Structural)]
pub enum RecommendedAction {
    Monitor,
    Alert,
    InvestigateManually,
    FreezeTradingTemporarily,
    HaltMarket,
    RollbackTransactions,
}

/// Kinds of user activity.
#[derive(Clone, Copy, Debug, PartialEq, Eq, Structural)]
pub enum ActivityType {
    Trade,
    Deposit,
    Withdrawal,
    CreateMarket,
    AddLiquidity,
    RemoveLiquidity,
}

/// Saturating addition.
pub open spec fn spec_sat_add(a: u64, b: u64) -> u64 {
    if a + b > u64::MAX { u64::MAX } else { (a + b) as u64 }
}

/// Saturating subtraction.
pub open spec fn spec_sat_sub(a: u64, b: u64) -> u64 {
    if a >= b { (a - b) as u64 } else { 0 }
}

/// The last volumes seen, with their running total.
#[derive(Clone, Debug)]
pub struct VolumeStatistics {
    pub volumes: VecDeque<(u64, i64)>,
    pub total_volume: u64,
    pub sample_count: usize,
}

/// Sum of the volumes of a window.
pub open spec fn spec_volume_sum(s: Seq<(u64, i64)>) -> int
    decreases s.len(),
{
    if s.len() == 0 {
        0
    } else {
        spec_volume_sum(s.drop_last()) + s.last().0
    }
}

proof fn lemma_volume_sum_nonneg(s: Seq<(u64, i64)>)
    ensures
        spec_volume_sum(s) >= 0,
    decreases s.len(),
{
    if s.len() > 0 {
        lemma_volume_sum_nonneg(s.drop_last());
    }
}

/// The sum of a window is its first volume plus the sum of the rest.
proof fn lemma_volume_sum_first(s: Seq<(u64, i64)>)
    requires
        s.len() > 0,
    ensures
        spec_volume_sum(s) == s[0].0 + spec_volume_sum(s.drop_first()),
    decreases s.len(),
{
    if s.len() == 1 {
        assert(s.drop_last().len() == 0);
        assert(s.drop_first().len() == 0);
        assert(s.last() == s[0]);
        assert(spec_volume_sum(s.drop_last()) == 0);
        assert(spec_volume_sum(s.drop_first()) == 0);
        assert(spec_volume_sum(s) == spec_volume_sum(s.drop_last()) + s.last().0);
    } else {
        let d = s.drop_last();
        lemma_volume_sum_first(d);
        assert(d[0] == s[0]);
        assert(s.drop_first().drop_last() =~= d.drop_first());
        assert(s.drop_first().last() == s.last());
        assert(spec_volume_sum(s.drop_first()) == spec_volume_sum(s.drop_first().drop_last()) + s.drop_first().last().0);
        assert(spec_volume_sum(s) == spec_volume_sum(d) + s.last().0);
    }
}

impl VolumeStatistics {
    pub const MAX_SAMPLES: usize = 100;

    /// The sample count matches the window, which holds at most
    /// `MAX_SAMPLES` volumes.
    pub open spec fn wf(&self) -> bool {
        &&& self.sample_count == self.volumes@.len()
        &&& self.volumes@.len() <= Self::MAX_SAMPLES
    }

    /// No samples.
    pub fn new() -> (r: Self)
        ensures
            r.wf(),
            r.volumes@.len() == 0,
            r.total_volume == 0,
            r.total_volume == spec_volume_sum(r.volumes@),
    {
        VolumeStatistics { volumes: VecDeque::new(), total_volume: 0, sample_count: 0 }
    }

    /// Adds a volume seen at `timestamp`; the oldest falls out of a full
    /// window. The total saturates at both ends; while it does not, it
    /// stays the sum of the kept volumes, so the average is their mean.
    pub fn add_volume(&mut self, volume: u64, timestamp: i64)
        requires
            old(self).wf(),
        ensures
            final(self).wf(),
            old(self).total_volume == spec_volume_sum(old(self).volumes@)
                && spec_volume_sum(old(self).volumes@) + volume <= u64::MAX
                ==> final(self).total_volume == spec_volume_sum(final(self).volumes@),
            old(self).volumes@.len() < Self::MAX_SAMPLES ==> {
                &&& final(self).volumes@ == old(self).volumes@.push((volume, timestamp))
                &&& final(self).total_volume == spec_sat_add(old(self).total_volume, volume)
            },
            old(self).volumes@.len() == Self::MAX_SAMPLES ==> {
                &&& final(self).volumes@ == old(self).volumes@.push((volume, timestamp)).drop_first()
                &&& final(self).total_volume == spec_sat_sub(
                    spec_sat_add(old(self).total_volume, volume),
                    old(self).volumes@[0].0,
                )
            },
    {
        let ghost before = self.volumes@;
        proof {
            let pushed = before.push((volume, timestamp));
            assert(pushed.drop_last() =~= before);
            lemma_volume_sum_nonneg(before);
            if before.len() == Self::MAX_SAMPLES {
                lemma_volume_sum_first(pushed);
                lemma_volume_sum_nonneg(pushed.drop_first());
            }
        }
        self.volumes.push_back((volume, timestamp));
        self.total_volume = self.total_volume.saturating_add(volume);
        self.sample_count = self.sample_count + 1;
        if self.volumes.len() > Self::MAX_SAMPLES {
            match self.volumes.pop_front() {
                Some((old_volume, _)) => {
                    self.total_volume = self.total_volume.saturating_sub(old_volume);
                    self.sample_count = self.sample_count - 1;
                },
                None => {},
            }
        }
    }

    /// Average volume over the window (0 when empty).
    pub fn get_average(&self) -> (r: u64)
        ensures
            r == (if self.sample_count > 0 { self.total_volume / (self.sample_count as u64) } else { 0 }),
    {
        if self.sample_count > 0 {
            self.total_volume / (self.sample_count as u64)
        } else {
            0
        }
    }
}

/// How many of `acts` are trades at or after `since`.
pub open spec fn spec_recent_trades(acts: Seq<(ActivityType, i64)>, since: int) -> nat
    decreases acts.len(),
{
    if acts.len() == 0 {
        0
    } else {
        spec_recent_trades(acts.drop_last(), since) + if acts.last().0 == ActivityType::Trade && acts.last().1
            >= since {
            1nat
        } else {
            0nat
        }
    }
}

proof fn lemma_recent_trades_le(acts: Seq<(ActivityType, i64)>, since: int)
    ensures
        spec_recent_trades(acts, since) <= acts.len(),
    decreases acts.len(),
{
    if acts.len() > 0 {
        lemma_recent_trades_le(acts.drop_last(), since);
    }
}

/// A user's recent activities.
#[derive(Clone, Debug)]
pub struct UserActivityStats {
    pub activities: VecDeque<(ActivityType, i64)>,
    pub trade_count: u32,
    pub last_activity: i64,
}

impl UserActivityStats {
    pub const MAX_ACTIVITIES: usize = 1000;

    /// The window holds at most `MAX_ACTIVITIES` activities.
    pub open spec fn wf(&self) -> bool {
        self.activities@.len() <= Self::MAX_ACTIVITIES
    }

    /// No activity.
    pub fn new() -> (r: Self)
        ensures
            r.wf(),
            r.activities@.len() == 0,
            r.trade_count == 0,
            r.last_activity == 0,
    {
        UserActivityStats { activities: VecDeque::new(), trade_count: 0, last_activity: 0 }
    }

    /// Records an activity at `timestamp`; the oldest falls out of a full
    /// window, and trades are counted in and out.
    pub fn add_activity(&mut self, activity: ActivityType, timestamp: i64)
        requires
            old(self).wf(),
            activity == ActivityType::Trade ==> old(self).trade_count < u32::MAX,
        ensures
            final(self).wf(),
            final(self).last_activity == timestamp,
            old(self).activities@.len() < Self::MAX_ACTIVITIES ==> {
                &&& final(self).activities@ == old(self).activities@.push((activity, timestamp))
                &&& final(self).trade_count == old(self).trade_count + if activity == ActivityType::Trade {
                    1int
                } else {
                    0int
                }
            },
            old(self).activities@.len() == Self::MAX_ACTIVITIES ==> {
                let added: int = old(self).trade_count + if activity == ActivityType::Trade { 1int } else { 0int };
                &&& final(self).activities@ == old(self).activities@.push((activity, timestamp)).drop_first()
                &&& final(self).trade_count == (if old(self).activities@[0].0 == ActivityType::Trade {
                    if added > 0 { added - 1 } else { 0 }
                } else {
                    added
                })
            },
    {
        let is_trade = activity == ActivityType::Trade;
        self.activities.push_back((activity, timestamp));
        if is_trade {
            self.trade_count = self.trade_count + 1;
        }
        self.last_activity = timestamp;
        if self.activities.len() > Self::MAX_ACTIVITIES {
            match self.activities.pop_front() {
                Some((old_activity, _)) => {
                    if old_activity == ActivityType::Trade {
                        self.trade_count = self.trade_count.saturating_sub(1);
                    }
                },
                None => {},
            }
        }
    }

    /// Trades in the minute up to `current_timestamp`.
    pub fn get_trades_per_minute(&self, current_timestamp: i64) -> (r: u32)
        requires
            self.wf(),
            current_timestamp >= i64::MIN + 60,
        ensures
            r == spec_recent_trades(self.activities@, current_timestamp - 60),
    {
        let one_minute_ago = current_timestamp - 60;
        let ghost acts = self.activities@;
        let mut n: u32 = 0;
        let mut i: usize = 0;
        while i < self.activities.len()
            invariant
                acts == self.activities@,
                acts.len() <= Self::MAX_ACTIVITIES,
                i <= acts.len(),
                n == spec_recent_trades(acts.take(i as int), one_minute_ago as int),
            decreases acts.len() - i,
        {
            proof {
                lemma_recent_trades_le(acts.take(i as int), one_minute_ago as int);
            }
            assert(acts.take(i as int + 1).drop_last() =~= acts.take(i as int));
            let (a, ts) = self.activities[i];
            if ts >= one_minute_ago && a == ActivityType::Trade {
                n = n + 1;
            }
            i = i + 1;
        }
        assert(acts.take(acts.len() as int) =~= acts);
        n
    }
}

/// The position of a severity in the alert tables.
pub open spec fn spec_severity_index(s: AnomalySeverity) -> int {
    match s {
        AnomalySeverity::Low => 0,
        AnomalySeverity::Medium => 1,
        AnomalySeverity::High => 2,
        AnomalySeverity::Critical => 3,
    }
}

fn severity_index(s: AnomalySeverity) -> (r: usize)
    ensures
        r == spec_severity_index(s),
{
    match s {
        AnomalySeverity::Low => 0,
        AnomalySeverity::Medium => 1,
        AnomalySeverity::High => 2,
        AnomalySeverity::Critical => 3,
    }
}

/// Alert thresholds, counts and last alert times per severity, indexed
/// Low, Medium, High, Critical.
#[derive(Clone, Copy, Debug)]
pub struct AlertManager {
    pub alert_thresholds: [u32; 4],
    pub alert_counts: [u32; 4],
    pub last_alert_time: [Option<i64>; 4],
}

impl AlertManager {
    /// Alerts every 10 low, 5 medium, 2 high and every critical anomaly.
    pub fn new() -> (r: Self)
        ensures
            r.alert_thresholds@ == seq![10u32, 5u32, 2u32, 1u32],
            r.alert_counts@ == seq![0u32, 0u32, 0u32, 0u32],
            r.last_alert_time@ == seq![None::<i64>, None::<i64>, None::<i64>, None::<i64>],
    {
        let r = AlertManager {
            alert_thresholds: [10, 5, 2, 1],
            alert_counts: [0, 0, 0, 0],
            last_alert_time: [None, None, None, None],
        };
        assert(r.alert_thresholds@ =~= seq![10u32, 5u32, 2u32, 1u32]);
        assert(r.alert_counts@ =~= seq![0u32, 0u32, 0u32, 0u32]);
        assert(r.last_alert_time@ =~= seq![None::<i64>, None::<i64>, None::<i64>, None::<i64>]);
        r
    }

    /// Counts an anomaly of `severity` seen at `current_time`; when the
    /// count reaches the severity's threshold an alert fires: its time is
    /// recorded and the count starts over. Returns whether an alert fired.
    pub fn process_anomaly_severity(&mut self, severity: AnomalySeverity, current_time: i64) -> (r: bool)
        requires
            old(self).alert_counts@[spec_severity_index(severity)] < u32::MAX,
        ensures
            ({
                let k = spec_severity_index(severity);
                let count = old(self).alert_counts@[k] + 1;
                &&& r == (count >= old(self).alert_thresholds@[k])
                &&& final(self).alert_thresholds@ == old(self).alert_thresholds@
                &&& final(self).alert_counts@ == old(self).alert_counts@.update(k, if r { 0 } else { count as u32 })
                &&& final(self).last_alert_time@ == (if r {
                    old(self).last_alert_time@.update(k, Some(current_time))
                } else {
                    old(self).last_alert_time@
                })
            }),
    {
        let k = severity_index(severity);
        let current_count = self.alert_counts[k] + 1;
        self.alert_counts[k] = current_count;
        let threshold = self.alert_thresholds[k];
        if current_count >= threshold {
            self.trigger_alert(severity, current_time);
            self.alert_counts[k] = 0;
            assert(self.alert_counts@ =~= old(self).alert_counts@.update(k as int, 0));
            true
        } else {
            false
        }
    }

    fn trigger_alert(&mut self, severity: AnomalySeverity, current_time: i64)
        ensures
            final(self).alert_thresholds == old(self).alert_thresholds,
            final(self).alert_counts == old(self).alert_counts,
            final(self).last_alert_time@ == old(self).last_alert_time@.update(
                spec_severity_index(severity),
                Some(current_time),
            ),
    {
        let k = severity_index(severity);
        self.last_alert_time[k] = Some(current_time);
    }
}

} // verus!
