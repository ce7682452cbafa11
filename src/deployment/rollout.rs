//! The rolling update: Cage-by-Cage replacement of a pool's module version,
//! aborted with a rollback when a new Cage stays unhealthy or the canary's
//! error gate trips.
//!
//! The orchestrator decides; the caller performs each action (waits,
//! terminations, spawns, probes) and reports back with an event.
use vstd::prelude::*;

verus! {

/// Rolling update settings, in milliseconds.
#[derive(Debug, Clone, Copy)]
pub struct RollingUpdateConfig {
    /// Pause between two replacements.
    pub wait_between_replacements_ms: u64,
    /// How long a new Cage may take to become healthy.
    pub health_check_timeout_ms: u64,
    /// Error-rate ceiling, in basis points.
    pub max_error_rate_bp: u64,
    /// Quiescence before a draining Cage is terminated.
    pub drain_wait_ms: u64,
}

impl Default for RollingUpdateConfig {
    /// Ten seconds between replacements, thirty to become healthy, five
    /// percent of errors, five seconds of draining.
    fn default() -> (r: Self)
        ensures
            r.wait_between_replacements_ms == 10000,
            r.health_check_timeout_ms == 30000,
            r.max_error_rate_bp == 500,
            r.drain_wait_ms == 5000,
    {
        RollingUpdateConfig {
            wait_between_replacements_ms: 10000,
            health_check_timeout_ms: 30000,
            max_error_rate_bp: 500,
            drain_wait_ms: 5000,
        }
    }
}

/// Where a rolling update stands.
#[derive(Debug, Clone, Copy, PartialEq, Eq, Structural)]
pub enum RolloutPhase {
    /// The Cage at the index is draining.
    Draining,
    /// The Cage at the index is being terminated and replaced.
    Replacing,
    /// The replacement is being probed.
    Probing,
    /// The canary's error gate is being checked.
    Gating,
    /// Waiting before the next Cage.
    Pausing,
    Completed,
    Aborted,
}

/// Progress of a rolling update over `total` Cages.
#[derive(Debug, Clone, Copy, PartialEq, Eq, Structural)]
pub struct RolloutState {
    pub index: usize,
    pub total: usize,
    pub phase: RolloutPhase,
}

impl RolloutState {
    /// A state the orchestrator can reach: an index in range until the
    /// update ends, and a pause only before a further Cage.
    pub open spec fn wf(&self) -> bool {
        &&& (self.phase == RolloutPhase::Completed || self.phase == RolloutPhase::Aborted || self.index < self.total)
        &&& self.phase == RolloutPhase::Pausing ==> self.index + 1 < self.total
    }
}

/// What the caller reports after performing the last action.
#[derive(Debug, Clone, Copy, PartialEq, Eq, Structural)]
pub enum RolloutEvent {
    /// The drain wait is over.
    Drained,
    /// The old Cage was terminated and a replacement spawned.
    Replaced,
    /// A health probe of the replacement, `elapsed_ms` after probing began.
    Probed { healthy: bool, elapsed_ms: u64 },
    /// The canary's error gate was checked.
    Gate { tripped: bool },
    /// The pause between replacements is over.
    Paused,
}

/// What the caller does next.
#[derive(Debug, Clone, Copy, PartialEq, Eq, Structural)]
pub enum RolloutAction {
    /// Withhold traffic from the Cage at `index` and wait `wait_ms`.
    Drain { index: usize, wait_ms: u64 },
    /// Terminate the Cage at `index` and spawn one from the new module.
    Replace { index: usize },
    /// Probe the replacement at `index` (again).
    Probe { index: usize },
    /// Check the canary's error rate.
    CheckGate,
    /// Sleep `ms` before the next Cage.
    Sleep { ms: u64 },
    /// Roll the canary back and stop.
    Rollback,
    /// Mark the deployment completed.
    Complete,
    /// The update is over; nothing to do.
    Idle,
}

/// The first step of a rolling update over `total` Cages.
pub open spec fn spec_start(cfg: RollingUpdateConfig, total: usize) -> (RolloutState, RolloutAction) {
    if total == 0 {
        (RolloutState { index: 0, total, phase: RolloutPhase::Completed }, RolloutAction::Complete)
    } else {
        (RolloutState { index: 0, total, phase: RolloutPhase::Draining },
         RolloutAction::Drain { index: 0, wait_ms: cfg.drain_wait_ms })
    }
}

/// The transition of a rolling update on an event. An event that does not
/// fit the phase leaves the state as it is and asks for nothing.
pub open spec fn spec_advance(cfg: RollingUpdateConfig, s: RolloutState, e: RolloutEvent) -> (RolloutState, RolloutAction) {
    match (s.phase, e) {
        (RolloutPhase::Draining, RolloutEvent::Drained) =>
            (RolloutState { phase: RolloutPhase::Replacing, ..s }, RolloutAction::Replace { index: s.index }),
        (RolloutPhase::Replacing, RolloutEvent::Replaced) =>
            (RolloutState { phase: RolloutPhase::Probing, ..s }, RolloutAction::Probe { index: s.index }),
        (RolloutPhase::Probing, RolloutEvent::Probed { healthy, elapsed_ms }) =>
            if healthy {
                (RolloutState { phase: RolloutPhase::Gating, ..s }, RolloutAction::CheckGate)
            } else if elapsed_ms >= cfg.health_check_timeout_ms {
                (RolloutState { phase: RolloutPhase::Aborted, ..s }, RolloutAction::Rollback)
            } else {
                (s, RolloutAction::Probe { index: s.index })
            },
        (RolloutPhase::Gating, RolloutEvent::Gate { tripped }) =>
            if tripped {
                (RolloutState { phase: RolloutPhase::Aborted, ..s }, RolloutAction::Idle)
            } else if s.index + 1 >= s.total {
                (RolloutState { phase: RolloutPhase::Completed, ..s }, RolloutAction::Complete)
            } else {
                (RolloutState { phase: RolloutPhase::Pausing, ..s },
                 RolloutAction::Sleep { ms: cfg.wait_between_replacements_ms })
            },
        (RolloutPhase::Pausing, RolloutEvent::Paused) =>
            (RolloutState { index: (s.index + 1) as usize, phase: RolloutPhase::Draining, ..s },
             RolloutAction::Drain { index: (s.index + 1) as usize, wait_ms: cfg.drain_wait_ms }),
        _ => (s, RolloutAction::Idle),
    }
}

/// Drives a rolling update.
#[derive(Debug, Clone, Copy)]
pub struct RollingUpdateOrchestrator {
    pub config: RollingUpdateConfig,
}

impl RollingUpdateOrchestrator {
    pub fn new(config: RollingUpdateConfig) -> (r: Self)
        ensures
            r.config == config,
    {
        RollingUpdateOrchestrator { config }
    }

    /// Begins replacing `total` Cages in index order, draining the first.
    pub fn start(&self, total: usize) -> (r: (RolloutState, RolloutAction))
        ensures
            r == spec_start(self.config, total),
            r.0.wf(),
    {
        if total == 0 {
            (RolloutState { index: 0, total, phase: RolloutPhase::Completed }, RolloutAction::Complete)
        } else {
            (RolloutState { index: 0, total, phase: RolloutPhase::Draining },
             RolloutAction::Drain { index: 0, wait_ms: self.config.drain_wait_ms })
        }
    }

    /// One step: drain, replace, probe until healthy or the timeout (then
    /// roll back), check the error gate (a tripped gate has already rolled
    /// the canary back), pause, and move on; after the last Cage, complete.
    pub fn advance(&self, s: RolloutState, e: RolloutEvent) -> (r: (RolloutState, RolloutAction))
        requires
            s.wf(),
        ensures
            r == spec_advance(self.config, s, e),
            r.0.wf(),
    {
        match (s.phase, e) {
            (RolloutPhase::Draining, RolloutEvent::Drained) =>
                (RolloutState { phase: RolloutPhase::Replacing, ..s }, RolloutAction::Replace { index: s.index }),
            (RolloutPhase::Replacing, RolloutEvent::Replaced) =>
                (RolloutState { phase: RolloutPhase::Probing, ..s }, RolloutAction::Probe { index: s.index }),
            (RolloutPhase::Probing, RolloutEvent::Probed { healthy, elapsed_ms }) => {
                if healthy {
                    (RolloutState { phase: RolloutPhase::Gating, ..s }, RolloutAction::CheckGate)
                } else if elapsed_ms >= self.config.health_check_timeout_ms {
                    (RolloutState { phase: RolloutPhase::Aborted, ..s }, RolloutAction::Rollback)
                } else {
                    (s, RolloutAction::Probe { index: s.index })
                }
            },
            (RolloutPhase::Gating, RolloutEvent::Gate { tripped }) => {
                if tripped {
                    (RolloutState { phase: RolloutPhase::Aborted, ..s }, RolloutAction::Idle)
                } else if s.index + 1 >= s.total {
                    (RolloutState { phase: RolloutPhase::Completed, ..s }, RolloutAction::Complete)
                } else {
                    (RolloutState { phase: RolloutPhase::Pausing, ..s },
                     RolloutAction::Sleep { ms: self.config.wait_between_replacements_ms })
                }
            },
            (RolloutPhase::Pausing, RolloutEvent::Paused) =>
                (RolloutState { index: s.index + 1, phase: RolloutPhase::Draining, ..s },
                 RolloutAction::Drain { index: s.index + 1, wait_ms: self.config.drain_wait_ms }),
            _ => (s, RolloutAction::Idle),
        }
    }
}

} // verus!
