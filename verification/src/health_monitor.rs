//! System health monitoring: periodic checks of each component, the
//! overall status they give, automatic recovery and performance metrics.
use vstd::prelude::*;
use crate::coordinator::SystemStatus;
use crate::error::BettingPlatformError;

verus! {

/// Slots without a WebSocket update before it counts as stale (~60s).
pub const WEBSOCKET_TIMEOUT_SLOTS: u64 = 150;
/// Slots without a Polymarket update before it counts as failed (~120s).
pub const POLYMARKET_TIMEOUT_SLOTS: u64 = 300;
pub const MIN_KEEPER_COUNT: u32 = 3;
/// Coverage (basis points) under which the vault is critical (0.5).
pub const MIN_COVERAGE_RATIO: u64 = 5000;
pub const MAX_QUEUE_DEPTH: u32 = 1000;
pub const MAX_FAILED_TXS_PERCENT: u32 = 10;
/// Queue depth the queue probe reports.
pub const OBSERVED_QUEUE_DEPTH: u32 = 100;
/// Keepers the keeper probe reports active.
pub const OBSERVED_ACTIVE_KEEPERS: u32 = 5;
/// Coverage the vault probe reports (0.8).
pub const OBSERVED_COVERAGE_RATIO: u64 = 8000;

/// Component health status.
#[derive(Clone, Copy, Debug, PartialEq, Eq, Structural)]
pub enum HealthStatus {
    Healthy,
    Degraded,
    Critical,
    Failed,
}

/// Health of one component.
#[derive(Clone, Copy, Debug)]
pub struct ComponentHealth {
    /// Name, zero-padded to 32 bytes.
    pub component_name: [u8; 32],
    pub status: HealthStatus,
    pub last_check: u64,
    pub error_count: u32,
    pub latency_ms: u32,
    pub throughput: u32,
}

/// Performance tracking.
#[derive(Clone, Copy, Debug)]
pub struct PerformanceMetrics {
    pub trades_per_second: u32,
    pub average_latency_ms: u32,
    /// Success rate in basis points.
    pub success_rate_bps: u32,
    pub compute_units_used: u64,
    pub last_reset_slot: u64,
}

impl PerformanceMetrics {
    pub const SIZE: usize = 28;
}

/// System-wide health monitor.
#[derive(Clone, Copy, Debug)]
pub struct SystemHealthMonitor {
    pub overall_status: SystemStatus,
    pub polymarket_health: ComponentHealth,
    pub websocket_health: ComponentHealth,
    pub amm_health: ComponentHealth,
    pub queue_health: ComponentHealth,
    pub keeper_health: ComponentHealth,
    pub vault_health: ComponentHealth,
    pub last_full_check: u64,
    pub consecutive_failures: u32,
    pub auto_recovery_enabled: bool,
    pub performance_metrics: PerformanceMetrics,
}

/// Health summary for external monitoring.
#[derive(Clone, Copy, Debug)]
pub struct HealthSummary {
    pub overall_status: SystemStatus,
    pub healthy_components: u32,
    pub total_components: u32,
    /// Uptime in basis points.
    pub uptime_percent: u32,
    pub performance_score: u32,
}

/// Health check alerts.
#[derive(Clone, Copy, Debug)]
pub enum HealthAlert {
    ComponentFailure { component: [u8; 32], error_count: u32 },
    PerformanceDegradation { metric: [u8; 32], current_value: u32, threshold: u32 },
    SystemCritical { failed_components: u32 },
    RecoveryInitiated { trigger: [u8; 32] },
}

/// A name truncated or zero-padded to 32 bytes.
pub open spec fn spec_padded_name(name: Seq<u8>) -> Seq<u8> {
    Seq::new(32, |i: int| if i < name.len() { name[i] } else { 0u8 })
}

/// Slots since `last`, zero when `slot` is earlier.
pub open spec fn spec_slots_since(slot: u64, last: u64) -> int {
    if slot >= last { slot - last } else { 0 }
}

/// Polymarket check: failed after a timeout (one more error), critical
/// after more than 10 errors, otherwise healthy and refreshed.
pub open spec fn spec_polymarket_checked(c: ComponentHealth, slot: u64) -> (ComponentHealth, bool) {
    if spec_slots_since(slot, c.last_check) > POLYMARKET_TIMEOUT_SLOTS {
        (ComponentHealth { status: HealthStatus::Failed, error_count: (c.error_count + 1) as u32, ..c }, false)
    } else if c.error_count > 10 {
        (ComponentHealth { status: HealthStatus::Critical, ..c }, false)
    } else {
        (ComponentHealth { status: HealthStatus::Healthy, last_check: slot, ..c }, true)
    }
}

/// WebSocket check: degraded when stale or slow (polling covers it),
/// otherwise healthy and refreshed; never counts as a failure.
pub open spec fn spec_websocket_checked(c: ComponentHealth, slot: u64) -> ComponentHealth {
    if spec_slots_since(slot, c.last_check) > WEBSOCKET_TIMEOUT_SLOTS || c.latency_ms > 1000 {
        ComponentHealth { status: HealthStatus::Degraded, ..c }
    } else {
        ComponentHealth { status: HealthStatus::Healthy, last_check: slot, ..c }
    }
}

/// AMM check: degraded under 10 of throughput, otherwise healthy.
pub open spec fn spec_amm_checked(c: ComponentHealth) -> ComponentHealth {
    ComponentHealth { status: if c.throughput < 10 { HealthStatus::Degraded } else { HealthStatus::Healthy }, ..c }
}

/// Overall status for a number of failed components.
pub open spec fn spec_overall(failed: int) -> SystemStatus {
    if failed == 0 { SystemStatus::Active } else if failed <= 2 { SystemStatus::Degraded } else { SystemStatus::Critical }
}

/// Error counts cleared and the failure streak reset.
pub open spec fn spec_recovered(m: SystemHealthMonitor) -> SystemHealthMonitor {
    SystemHealthMonitor {
        polymarket_health: ComponentHealth { error_count: 0, ..m.polymarket_health },
        websocket_health: ComponentHealth { error_count: 0, ..m.websocket_health },
        amm_health: ComponentHealth { error_count: 0, ..m.amm_health },
        queue_health: ComponentHealth { error_count: 0, ..m.queue_health },
        keeper_health: ComponentHealth { error_count: 0, ..m.keeper_health },
        vault_health: ComponentHealth { error_count: 0, ..m.vault_health },
        consecutive_failures: 0,
        ..m
    }
}

/// The monitor after a full health check at `slot`.
pub open spec fn spec_health_checked(m: SystemHealthMonitor, slot: u64) -> SystemHealthMonitor {
    let (p, p_ok) = spec_polymarket_checked(m.polymarket_health, slot);
    let failed: int = if p_ok { 0 } else { 1 };
    let checked = SystemHealthMonitor {
        overall_status: spec_overall(failed),
        polymarket_health: p,
        websocket_health: spec_websocket_checked(m.websocket_health, slot),
        amm_health: spec_amm_checked(m.amm_health),
        queue_health: ComponentHealth { status: HealthStatus::Healthy, ..m.queue_health },
        keeper_health: ComponentHealth { status: HealthStatus::Healthy, ..m.keeper_health },
        vault_health: ComponentHealth { status: HealthStatus::Healthy, ..m.vault_health },
        consecutive_failures: if failed > 0 { (m.consecutive_failures + 1) as u32 } else { 0 },
        ..m
    };
    let recovered = if checked.auto_recovery_enabled && checked.consecutive_failures > 3 {
        spec_recovered(checked)
    } else {
        checked
    };
    SystemHealthMonitor { last_full_check: slot, ..recovered }
}

/// Whether a health check at `slot` counts without overflow.
pub open spec fn spec_health_check_defined(m: SystemHealthMonitor, slot: u64) -> bool {
    &&& (spec_slots_since(slot, m.polymarket_health.last_check) > POLYMARKET_TIMEOUT_SLOTS
        ==> m.polymarket_health.error_count < u32::MAX)
    &&& (!spec_polymarket_checked(m.polymarket_health, slot).1 ==> m.consecutive_failures < u32::MAX)
}

/// Uptime in basis points: full without failures, 10% less per failure.
pub open spec fn spec_uptime(failures: u32) -> int {
    if 10000 - failures * 1000 > 0 { 10000 - failures * 1000 } else { 0 }
}

/// Performance score: 40% success rate, 30% latency, 30% throughput.
pub open spec fn spec_performance_score(m: PerformanceMetrics) -> int {
    let success = m.success_rate_bps * 4 / 10;
    let lat = if m.average_latency_ms < 10000 { m.average_latency_ms as int } else { 10000 };
    let latency = (10000 - lat) * 3 / 10;
    let tps = if m.trades_per_second < 100 { m.trades_per_second as int } else { 100 };
    success + latency + (tps * 100) * 3 / 10
}

/// Number of healthy components.
pub open spec fn spec_healthy_count(m: SystemHealthMonitor) -> int {
    (if m.polymarket_health.status == HealthStatus::Healthy { 1int } else { 0 })
        + (if m.websocket_health.status == HealthStatus::Healthy { 1int } else { 0 })
        + (if m.amm_health.status == HealthStatus::Healthy { 1int } else { 0 })
        + (if m.queue_health.status == HealthStatus::Healthy { 1int } else { 0 })
        + (if m.keeper_health.status == HealthStatus::Healthy { 1int } else { 0 })
        + (if m.vault_health.status == HealthStatus::Healthy { 1int } else { 0 })
}

impl ComponentHealth {
    pub const SIZE: usize = 32 + 1 + 8 + 4 + 4 + 4;

    /// A healthy component named `name` with no history.
    fn new(name: &[u8]) -> (r: Self)
        ensures
            r.component_name@ == spec_padded_name(name@),
            r.status == HealthStatus::Healthy,
            r.last_check == 0,
            r.error_count == 0,
            r.latency_ms == 0,
            r.throughput == 0,
    {
        let mut component_name = [0u8; 32];
        let mut i: usize = 0;
        while i < 32 && i < name.len()
            invariant
                i <= 32,
                component_name@.len() == 32,
                forall|j: int| 0 <= j < 32 ==> component_name@[j] == (if j < i && j < name@.len() { name@[j] } else { 0u8 }),
            decreases 32 - i,
        {
            component_name[i] = name[i];
            i = i + 1;
        }
        assert(component_name@ =~= spec_padded_name(name@));
        ComponentHealth {
            component_name,
            status: HealthStatus::Healthy,
            last_check: 0,
            error_count: 0,
            latency_ms: 0,
            throughput: 0,
        }
    }
}

impl SystemHealthMonitor {
    pub const SIZE: usize = 1 + 6 * 53 + 8 + 4 + 1 + 32;

    /// Resets the monitor: six healthy components, auto-recovery on and
    /// a full success rate.
    pub fn initialize(&mut self, current_slot: u64) -> (r: Result<(), BettingPlatformError>)
        ensures
            r is Ok,
            final(self).overall_status == SystemStatus::Initializing,
            final(self).last_full_check == current_slot,
            final(self).consecutive_failures == 0,
            final(self).auto_recovery_enabled,
            final(self).polymarket_health.component_name@ == spec_padded_name("polymarket"@.map_values(|c: char| c as u8)),
            final(self).polymarket_health.status == HealthStatus::Healthy,
            final(self).polymarket_health.error_count == 0,
            final(self).polymarket_health.last_check == 0,
            final(self).websocket_health.status == HealthStatus::Healthy,
            final(self).amm_health.status == HealthStatus::Healthy,
            final(self).queue_health.status == HealthStatus::Healthy,
            final(self).keeper_health.status == HealthStatus::Healthy,
            final(self).vault_health.status == HealthStatus::Healthy,
            final(self).performance_metrics == (PerformanceMetrics {
                trades_per_second: 0,
                average_latency_ms: 0,
                success_rate_bps: 10000,
                compute_units_used: 0,
                last_reset_slot: current_slot,
            }),
    {
        self.overall_status = SystemStatus::Initializing;
        self.last_full_check = current_slot;
        self.consecutive_failures = 0;
        self.auto_recovery_enabled = true;
        let polymarket: [u8; 10] = [112, 111, 108, 121, 109, 97, 114, 107, 101, 116];
        let websocket: [u8; 9] = [119, 101, 98, 115, 111, 99, 107, 101, 116];
        let amm: [u8; 3] = [97, 109, 109];
        let queue: [u8; 14] = [112, 114, 105, 111, 114, 105, 116, 121, 95, 113, 117, 101, 117, 101];
        let keeper: [u8; 14] = [107, 101, 101, 112, 101, 114, 95, 110, 101, 116, 119, 111, 114, 107];
        let vault: [u8; 5] = [118, 97, 117, 108, 116];
        proof {
            reveal_strlit("polymarket");
            assert(polymarket@ =~= "polymarket"@.map_values(|c: char| c as u8));
        }
        self.polymarket_health = ComponentHealth::new(polymarket.as_slice());
        self.websocket_health = ComponentHealth::new(websocket.as_slice());
        self.amm_health = ComponentHealth::new(amm.as_slice());
        self.queue_health = ComponentHealth::new(queue.as_slice());
        self.keeper_health = ComponentHealth::new(keeper.as_slice());
        self.vault_health = ComponentHealth::new(vault.as_slice());
        self.performance_metrics = PerformanceMetrics {
            trades_per_second: 0,
            average_latency_ms: 0,
            success_rate_bps: 10000,
            compute_units_used: 0,
            last_reset_slot: current_slot,
        };
        Ok(())
    }

    fn check_polymarket_health(&mut self, slot: u64) -> (ok: bool)
        requires
            spec_slots_since(slot, old(self).polymarket_health.last_check) > POLYMARKET_TIMEOUT_SLOTS
                ==> old(self).polymarket_health.error_count < u32::MAX,
        ensures
            (final(self).polymarket_health, ok) == spec_polymarket_checked(old(self).polymarket_health, slot),
            *final(self) == (SystemHealthMonitor { polymarket_health: final(self).polymarket_health, ..*old(self) }),
    {
        let since = if slot >= self.polymarket_health.last_check { slot - self.polymarket_health.last_check } else { 0 };
        if since > POLYMARKET_TIMEOUT_SLOTS {
            self.polymarket_health.status = HealthStatus::Failed;
            self.polymarket_health.error_count = self.polymarket_health.error_count + 1;
            return false;
        }
        if self.polymarket_health.error_count > 10 {
            self.polymarket_health.status = HealthStatus::Critical;
            return false;
        }
        self.polymarket_health.status = HealthStatus::Healthy;
        self.polymarket_health.last_check = slot;
        true
    }

    fn check_websocket_health(&mut self, slot: u64) -> (ok: bool)
        ensures
            ok,
            final(self).websocket_health == spec_websocket_checked(old(self).websocket_health, slot),
            *final(self) == (SystemHealthMonitor { websocket_health: final(self).websocket_health, ..*old(self) }),
    {
        let since = if slot >= self.websocket_health.last_check { slot - self.websocket_health.last_check } else { 0 };
        if since > WEBSOCKET_TIMEOUT_SLOTS {
            self.websocket_health.status = HealthStatus::Degraded;
            return true;
        }
        if self.websocket_health.latency_ms > 1000 {
            self.websocket_health.status = HealthStatus::Degraded;
            return true;
        }
        self.websocket_health.status = HealthStatus::Healthy;
        self.websocket_health.last_check = slot;
        true
    }

    fn check_amm_health(&mut self) -> (ok: bool)
        ensures
            ok,
            final(self).amm_health == spec_amm_checked(old(self).amm_health),
            *final(self) == (SystemHealthMonitor { amm_health: final(self).amm_health, ..*old(self) }),
    {
        if self.amm_health.throughput < 10 {
            self.amm_health.status = HealthStatus::Degraded;
            return true;
        }
        self.amm_health.status = HealthStatus::Healthy;
        true
    }

    fn check_queue_health(&mut self) -> (ok: bool)
        ensures
            ok,
            *final(self) == (SystemHealthMonitor {
                queue_health: ComponentHealth { status: HealthStatus::Healthy, ..old(self).queue_health },
                ..*old(self)
            }),
    {
        let queue_depth = OBSERVED_QUEUE_DEPTH;
        if queue_depth > MAX_QUEUE_DEPTH {
            self.queue_health.status = HealthStatus::Critical;
            return false;
        }
        self.queue_health.status = HealthStatus::Healthy;
        true
    }

    fn check_keeper_health(&mut self) -> (ok: bool)
        ensures
            ok,
            *final(self) == (SystemHealthMonitor {
                keeper_health: ComponentHealth { status: HealthStatus::Healthy, ..old(self).keeper_health },
                ..*old(self)
            }),
    {
        let active_keepers = OBSERVED_ACTIVE_KEEPERS;
        if active_keepers < MIN_KEEPER_COUNT {
            self.keeper_health.status = HealthStatus::Critical;
            return false;
        }
        self.keeper_health.status = HealthStatus::Healthy;
        true
    }

    fn check_vault_health(&mut self) -> (ok: bool)
        ensures
            ok,
            *final(self) == (SystemHealthMonitor {
                vault_health: ComponentHealth { status: HealthStatus::Healthy, ..old(self).vault_health },
                ..*old(self)
            }),
    {
        let coverage_ratio = OBSERVED_COVERAGE_RATIO;
        if coverage_ratio < MIN_COVERAGE_RATIO {
            self.vault_health.status = HealthStatus::Critical;
            return false;
        }
        self.vault_health.status = HealthStatus::Healthy;
        true
    }

    fn attempt_auto_recovery(&mut self)
        ensures
            *final(self) == spec_recovered(*old(self)),
    {
        self.polymarket_health.error_count = 0;
        self.websocket_health.error_count = 0;
        self.amm_health.error_count = 0;
        self.queue_health.error_count = 0;
        self.keeper_health.error_count = 0;
        self.vault_health.error_count = 0;
        self.consecutive_failures = 0;
    }

    /// Checks every component at `current_slot`, sets the overall status
    /// (active, degraded with one or two failures, critical beyond), counts
    /// the failure streak and recovers automatically after more than three
    /// failing checks in a row.
    pub fn run_health_check(&mut self, current_slot: u64) -> (r: Result<(), BettingPlatformError>)
        requires
            spec_health_check_defined(*old(self), current_slot),
        ensures
            r is Ok,
            *final(self) == spec_health_checked(*old(self), current_slot),
    {
        let polymarket_ok = self.check_polymarket_health(current_slot);
        let websocket_ok = self.check_websocket_health(current_slot);
        let amm_ok = self.check_amm_health();
        let queue_ok = self.check_queue_health();
        let keeper_ok = self.check_keeper_health();
        let vault_ok = self.check_vault_health();
        let mut critical_count: u32 = 0;
        if !polymarket_ok { critical_count = critical_count + 1; }
        if !websocket_ok { critical_count = critical_count + 1; }
        if !amm_ok { critical_count = critical_count + 1; }
        if !queue_ok { critical_count = critical_count + 1; }
        if !keeper_ok { critical_count = critical_count + 1; }
        if !vault_ok { critical_count = critical_count + 1; }
        self.overall_status = if critical_count == 0 {
            SystemStatus::Active
        } else if critical_count <= 2 {
            SystemStatus::Degraded
        } else {
            SystemStatus::Critical
        };
        if critical_count > 0 {
            self.consecutive_failures = self.consecutive_failures + 1;
        } else {
            self.consecutive_failures = 0;
        }
        if self.auto_recovery_enabled && self.consecutive_failures > 3 {
            self.attempt_auto_recovery();
        }
        self.last_full_check = current_slot;
        Ok(())
    }

    /// Folds one period into the metrics: trades and latency are averaged
    /// with the previous value, the success rate moves 1% toward 100% or 0%,
    /// and compute units add up.
    pub fn update_performance_metrics(&mut self, trades: u32, latency_ms: u32, success: bool, compute_units: u64) -> (r: Result<(), BettingPlatformError>)
        requires
            old(self).performance_metrics.trades_per_second + trades <= u32::MAX,
            old(self).performance_metrics.average_latency_ms + latency_ms <= u32::MAX,
            old(self).performance_metrics.compute_units_used + compute_units <= u64::MAX,
        ensures
            r is Ok,
            *final(self) == (SystemHealthMonitor {
                performance_metrics: PerformanceMetrics {
                    trades_per_second: ((old(self).performance_metrics.trades_per_second + trades) / 2) as u32,
                    average_latency_ms: ((old(self).performance_metrics.average_latency_ms + latency_ms) / 2) as u32,
                    success_rate_bps: (if success {
                        (old(self).performance_metrics.success_rate_bps * 99 + 10000) / 100
                    } else {
                        old(self).performance_metrics.success_rate_bps * 99 / 100
                    }) as u32,
                    compute_units_used: (old(self).performance_metrics.compute_units_used + compute_units) as u64,
                    ..old(self).performance_metrics
                },
                ..*old(self)
            }),
    {
        let m = self.performance_metrics;
        let tps = (m.trades_per_second + trades) / 2;
        let lat = (m.average_latency_ms + latency_ms) / 2;
        let rate: u64 = if success {
            (m.success_rate_bps as u64 * 99 + 10000) / 100
        } else {
            (m.success_rate_bps as u64 * 99) / 100
        };
        self.performance_metrics.trades_per_second = tps;
        self.performance_metrics.average_latency_ms = lat;
        self.performance_metrics.success_rate_bps = rate as u32;
        self.performance_metrics.compute_units_used = m.compute_units_used + compute_units;
        Ok(())
    }

    fn count_healthy_components(&self) -> (r: u32)
        ensures
            r == spec_healthy_count(*self),
    {
        let mut count: u32 = 0;
        if self.polymarket_health.status == HealthStatus::Healthy { count = count + 1; }
        if self.websocket_health.status == HealthStatus::Healthy { count = count + 1; }
        if self.amm_health.status == HealthStatus::Healthy { count = count + 1; }
        if self.queue_health.status == HealthStatus::Healthy { count = count + 1; }
        if self.keeper_health.status == HealthStatus::Healthy { count = count + 1; }
        if self.vault_health.status == HealthStatus::Healthy { count = count + 1; }
        count
    }

    fn calculate_uptime(&self) -> (r: u32)
        requires
            self.consecutive_failures * 1000 <= u32::MAX,
        ensures
            r == spec_uptime(self.consecutive_failures),
    {
        if self.consecutive_failures == 0 {
            10000
        } else {
            let loss = self.consecutive_failures * 1000;
            if loss < 10000 { 10000 - loss } else { 0 }
        }
    }

    fn calculate_performance_score(&self) -> (r: u32)
        requires
            spec_performance_score(self.performance_metrics) <= u32::MAX,
            self.performance_metrics.success_rate_bps * 4 <= u32::MAX,
        ensures
            r == spec_performance_score(self.performance_metrics),
    {
        let m = self.performance_metrics;
        let success_score = m.success_rate_bps * 4 / 10;
        let lat = if m.average_latency_ms < 10000 { m.average_latency_ms } else { 10000 };
        let latency_score = (10000 - lat) * 3 / 10;
        let tps = if m.trades_per_second < 100 { m.trades_per_second } else { 100 };
        let tps_score = (tps * 100) * 3 / 10;
        success_score + latency_score + tps_score
    }

    /// Summary: overall status, healthy components out of six, uptime and
    /// performance score.
    pub fn get_health_summary(&self) -> (r: HealthSummary)
        requires
            self.consecutive_failures * 1000 <= u32::MAX,
            self.performance_metrics.success_rate_bps * 4 <= u32::MAX,
            spec_performance_score(self.performance_metrics) <= u32::MAX,
        ensures
            r.overall_status == self.overall_status,
            r.healthy_components == spec_healthy_count(*self),
            r.total_components == 6,
            r.uptime_percent == spec_uptime(self.consecutive_failures),
            r.performance_score == spec_performance_score(self.performance_metrics),
    {
        HealthSummary {
            overall_status: self.overall_status,
            healthy_components: self.count_healthy_components(),
            total_components: 6,
            uptime_percent: self.calculate_uptime(),
            performance_score: self.calculate_performance_score(),
        }
    }

    /// Applies a keeper's report: byte 0 picks the component (0 to 5),
    /// byte 1 the status (0 to 3), bytes 2..6 the latency, little-endian.
    pub fn update_component_health(&mut self, data: &[u8], current_slot: u64) -> (r: Result<(), BettingPlatformError>)
        requires
            data@.len() >= 6,
        ensures
            data@[0] > 5 ==> r == Err::<(), BettingPlatformError>(BettingPlatformError::InvalidComponent)
                && *final(self) == *old(self),
            data@[0] <= 5 && data@[1] > 3 ==> r == Err::<(), BettingPlatformError>(BettingPlatformError::InvalidHealthStatus)
                && *final(self) == *old(self),
            data@[0] <= 5 && data@[1] <= 3 ==> r is Ok && *final(self) == spec_component_updated(*old(self), data@, current_slot),
    {
        let component_id = data[0];
        let status_byte = data[1];
        let latency_ms: u32 = (data[2] as u32) | ((data[3] as u32) << 8) | ((data[4] as u32) << 16) | ((data[5] as u32) << 24);
        if component_id > 5 {
            return Err(BettingPlatformError::InvalidComponent);
        }
        let status = if status_byte == 0 {
            HealthStatus::Healthy
        } else if status_byte == 1 {
            HealthStatus::Degraded
        } else if status_byte == 2 {
            HealthStatus::Critical
        } else if status_byte == 3 {
            HealthStatus::Failed
        } else {
            return Err(BettingPlatformError::InvalidHealthStatus);
        };
        let mut c = if component_id == 0 {
            self.polymarket_health
        } else if component_id == 1 {
            self.websocket_health
        } else if component_id == 2 {
            self.amm_health
        } else if component_id == 3 {
            self.queue_health
        } else if component_id == 4 {
            self.keeper_health
        } else {
            self.vault_health
        };
        c.status = status;
        c.latency_ms = latency_ms;
        c.last_check = current_slot;
        if component_id == 0 {
            self.polymarket_health = c;
        } else if component_id == 1 {
            self.websocket_health = c;
        } else if component_id == 2 {
            self.amm_health = c;
        } else if component_id == 3 {
            self.queue_health = c;
        } else if component_id == 4 {
            self.keeper_health = c;
        } else {
            self.vault_health = c;
        }
        Ok(())
    }
}

/// Status named by a report byte.
pub open spec fn spec_status_of(b: u8) -> HealthStatus {
    if b == 0 { HealthStatus::Healthy } else if b == 1 { HealthStatus::Degraded } else if b == 2 { HealthStatus::Critical } else { HealthStatus::Failed }
}

/// Little-endian value of four bytes.
pub open spec fn spec_u32_le(b0: u8, b1: u8, b2: u8, b3: u8) -> u32 {
    (b0 as u32) | ((b1 as u32) << 8) | ((b2 as u32) << 16) | ((b3 as u32) << 24)
}

/// A component after a report.
pub open spec fn spec_reported(c: ComponentHealth, data: Seq<u8>, slot: u64) -> ComponentHealth {
    ComponentHealth {
        status: spec_status_of(data[1]),
        latency_ms: spec_u32_le(data[2], data[3], data[4], data[5]),
        last_check: slot,
        ..c
    }
}

/// The monitor after a valid report.
pub open spec fn spec_component_updated(m: SystemHealthMonitor, data: Seq<u8>, slot: u64) -> SystemHealthMonitor {
    let id = data[0];
    if id == 0 {
        SystemHealthMonitor { polymarket_health: spec_reported(m.polymarket_health, data, slot), ..m }
    } else if id == 1 {
        SystemHealthMonitor { websocket_health: spec_reported(m.websocket_health, data, slot), ..m }
    } else if id == 2 {
        SystemHealthMonitor { amm_health: spec_reported(m.amm_health, data, slot), ..m }
    } else if id == 3 {
        SystemHealthMonitor { queue_health: spec_reported(m.queue_health, data, slot), ..m }
    } else if id == 4 {
        SystemHealthMonitor { keeper_health: spec_reported(m.keeper_health, data, slot), ..m }
    } else {
        SystemHealthMonitor { vault_health: spec_reported(m.vault_health, data, slot), ..m }
    }
}

/// A health check never leaves a failure streak above three while
/// auto-recovery is on, and records the slot it ran at.
pub proof fn lemma_health_check_bounds_streak(m: SystemHealthMonitor, slot: u64)
    ensures
        m.auto_recovery_enabled ==> spec_health_checked(m, slot).consecutive_failures <= 3,
        spec_health_checked(m, slot).last_full_check == slot,
        spec_health_checked(m, slot).auto_recovery_enabled == m.auto_recovery_enabled,
{
}

} // verus!
