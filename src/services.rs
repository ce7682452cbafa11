//! Small collaborators of the core: uptime telemetry, the state-sync
//! coordinator's run flag and counters, and storage quota arithmetic.
use vstd::prelude::*;
use crate::ai::AiStats;
use crate::router::{Router, RouterStats};
use crate::supervisor::{Supervisor, SupervisorStats};

verus! {

/// Tracks uptime from a start time in milliseconds.
#[derive(Debug, Clone, Copy)]
pub struct TelemetryCollector {
    pub start_ms: u64,
}

impl TelemetryCollector {
    pub fn new(now_ms: u64) -> (r: Self)
        ensures
            r.start_ms == now_ms,
    {
        TelemetryCollector { start_ms: now_ms }
    }

    /// Whole seconds since the start; zero if `now_ms` lies before it.
    pub fn uptime_seconds(&self, now_ms: u64) -> (r: u64)
        ensures
            now_ms >= self.start_ms ==> r == (now_ms - self.start_ms) / 1000,
            now_ms < self.start_ms ==> r == 0,
    {
        if now_ms < self.start_ms { 0 } else { (now_ms - self.start_ms) / 1000 }
    }
}

/// State synchronization settings.
#[derive(Debug, Clone, Copy)]
pub struct SyncConfig {
    pub sync_interval_ms: u64,
    pub enable_batching: bool,
    pub batch_size: usize,
}

impl Default for SyncConfig {
    /// Every hundred milliseconds, in batches of ten.
    fn default() -> (r: Self)
        ensures
            r.sync_interval_ms == 100,
            r.enable_batching,
            r.batch_size == 10,
    {
        SyncConfig { sync_interval_ms: 100, enable_batching: true, batch_size: 10 }
    }
}

/// Synchronization statistics.
#[derive(Debug, Clone, Copy)]
pub struct SyncStats {
    pub total_syncs: u64,
    pub is_running: bool,
}

/// Run flag and counter of the periodic state sync.
#[derive(Debug, Clone, Copy)]
pub struct SyncCoordinator {
    pub config: SyncConfig,
    pub running: bool,
    pub sync_count: u64,
}

impl SyncCoordinator {
    pub fn new(config: SyncConfig) -> (r: Self)
        ensures
            r.config == config,
            !r.running,
            r.sync_count == 0,
    {
        SyncCoordinator { config, running: false, sync_count: 0 }
    }

    /// Test-and-set of the run flag; false when already running.
    pub fn start(&mut self) -> (r: bool)
        ensures
            r == !old(self).running,
            *final(self) == (SyncCoordinator { running: true, ..*old(self) }),
    {
        let was = self.running;
        self.running = true;
        !was
    }

    pub fn stop(&mut self)
        ensures
            *final(self) == (SyncCoordinator { running: false, ..*old(self) }),
    {
        self.running = false;
    }

    /// Counts one completed synchronization round.
    pub fn record_sync(&mut self)
        ensures
            *final(self) == (SyncCoordinator { sync_count: crate::health::bump(old(self).sync_count), ..*old(self) }),
    {
        self.sync_count = self.sync_count.saturating_add(1);
    }

    pub fn stats(&self) -> (r: SyncStats)
        ensures
            r.total_syncs == self.sync_count,
            r.is_running == self.running,
    {
        SyncStats { total_syncs: self.sync_count, is_running: self.running }
    }
}

/// Storage used beyond the limit.
#[derive(Debug, Clone, Copy, PartialEq, Eq, Structural)]
pub struct StorageQuotaExceeded {
    pub used_mb: usize,
    pub limit_mb: usize,
}

/// Tenant and site storage under one base directory.
#[derive(Debug, Clone)]
pub struct StorageManager {
    pub base_path: String,
}

impl StorageManager {
    pub fn new(base_path: String) -> (r: Self)
        ensures
            r.base_path == base_path,
    {
        StorageManager { base_path }
    }

    /// A byte count in whole mebibytes.
    pub fn usage_mb(&self, bytes: usize) -> (r: usize)
        ensures
            r == bytes / 1048576,
    {
        bytes / (1024 * 1024)
    }

    /// Refused when more than `limit_mb` is used.
    pub fn check_quota(&self, used_mb: usize, limit_mb: usize) -> (r: Result<(), StorageQuotaExceeded>)
        ensures
            r.is_ok() <==> used_mb <= limit_mb,
            r.is_err() ==> r == Err::<(), StorageQuotaExceeded>(StorageQuotaExceeded { used_mb, limit_mb }),
    {
        if used_mb > limit_mb {
            return Err(StorageQuotaExceeded { used_mb, limit_mb });
        }
        Ok(())
    }
}

/// What the administration dashboard shows: a snapshot of the router's,
/// the supervisor's and the classifiers' counters.
#[derive(Debug, Clone, Copy)]
pub struct DashboardState {
    pub router: RouterStats,
    pub supervisor: SupervisorStats,
    pub ai: AiStats,
}

impl DashboardState {
    pub fn new(router: &Router, supervisor: &Supervisor, ai: AiStats) -> (r: Self)
        ensures
            r.router.total_requests == router.total_requests,
            r.router.successful_requests == router.successful_requests,
            r.router.failed_requests == router.failed_requests,
            r.router.active_pools == crate::router::pool_map(router.pools).dom().len(),
            r.supervisor.supervised_pools == crate::supervisor::record_map(supervisor.pools).dom().len(),
            r.supervisor.healing_events == supervisor.healing_events,
            r.supervisor.is_running == supervisor.running,
            r.ai == ai,
    {
        DashboardState { router: router.stats(), supervisor: supervisor.stats(), ai }
    }
}

} // verus!
