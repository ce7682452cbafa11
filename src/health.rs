//! Circuit breaker guarding Cage selection, and health probe results.
use vstd::prelude::*;

verus! {

/// Health of a Cage or Pool as seen through its breaker.
#[derive(Debug, Clone, Copy, PartialEq, Eq, Structural)]
pub enum HealthStatus {
    Healthy,
    Degraded,
    Unhealthy,
}

/// The three states of a breaker.
#[derive(Debug, Clone, Copy, PartialEq, Eq, Structural)]
pub enum CircuitState {
    /// Every request is forwarded.
    Closed,
    /// Every request is rejected.
    Open,
    /// Trial requests are forwarded to probe recovery.
    HalfOpen,
}

/// Adds one to a counter, staying at the top instead of wrapping.
pub open spec fn bump(n: u64) -> u64 {
    if n == u64::MAX { n } else { (n + 1) as u64 }
}

/// Tri-state health gate in front of a Cage.
#[derive(Debug, Clone, Copy)]
pub struct CircuitBreaker {
    pub state: CircuitState,
    pub consecutive_failures: u64,
    pub consecutive_successes: u64,
    /// Consecutive failures that open a closed breaker.
    pub failure_threshold: u64,
    /// Consecutive successes in `HalfOpen` that close the breaker.
    pub success_threshold: u64,
    /// How long an open breaker waits before a trial, in milliseconds.
    pub retry_timeout_ms: u64,
}

impl CircuitBreaker {
    /// A closed breaker with zeroed counters.
    pub fn new(failure_threshold: u64, success_threshold: u64, retry_timeout_ms: u64) -> (r: Self)
        ensures
            r.state == CircuitState::Closed,
            r.consecutive_failures == 0,
            r.consecutive_successes == 0,
            r.failure_threshold == failure_threshold,
            r.success_threshold == success_threshold,
            r.retry_timeout_ms == retry_timeout_ms,
    {
        CircuitBreaker {
            state: CircuitState::Closed,
            consecutive_failures: 0,
            consecutive_successes: 0,
            failure_threshold,
            success_threshold,
            retry_timeout_ms,
        }
    }

    /// The state after one more success from `self`.
    pub open spec fn state_after_success(&self) -> CircuitState {
        match self.state {
            CircuitState::HalfOpen => if bump(self.consecutive_successes) >= self.success_threshold {
                CircuitState::Closed
            } else {
                CircuitState::HalfOpen
            },
            CircuitState::Open => CircuitState::HalfOpen,
            CircuitState::Closed => CircuitState::Closed,
        }
    }

    /// The state after one more failure from `self`: a failure in `HalfOpen`
    /// reopens at once, a closed breaker opens at the threshold.
    pub open spec fn state_after_failure(&self) -> CircuitState {
        if self.state == CircuitState::HalfOpen || bump(self.consecutive_failures) >= self.failure_threshold {
            CircuitState::Open
        } else {
            self.state
        }
    }

    /// Records a successful probe or request.
    pub fn record_success(&mut self)
        ensures
            final(self).state == old(self).state_after_success(),
            final(self).consecutive_failures == 0,
            final(self).consecutive_successes == if old(self).state == CircuitState::HalfOpen
                && final(self).state == CircuitState::Closed {
                0
            } else {
                bump(old(self).consecutive_successes)
            },
            final(self).failure_threshold == old(self).failure_threshold,
            final(self).success_threshold == old(self).success_threshold,
            final(self).retry_timeout_ms == old(self).retry_timeout_ms,
    {
        self.consecutive_failures = 0;
        self.consecutive_successes = self.consecutive_successes.saturating_add(1);
        match self.state {
            CircuitState::HalfOpen => {
                if self.consecutive_successes >= self.success_threshold {
                    self.state = CircuitState::Closed;
                    self.consecutive_successes = 0;
                }
            },
            CircuitState::Open => {
                self.state = CircuitState::HalfOpen;
            },
            CircuitState::Closed => {},
        }
    }

    /// Records a failed probe or request.
    pub fn record_failure(&mut self)
        ensures
            final(self).state == old(self).state_after_failure(),
            final(self).consecutive_successes == 0,
            final(self).consecutive_failures == bump(old(self).consecutive_failures),
            final(self).failure_threshold == old(self).failure_threshold,
            final(self).success_threshold == old(self).success_threshold,
            final(self).retry_timeout_ms == old(self).retry_timeout_ms,
    {
        self.consecutive_successes = 0;
        self.consecutive_failures = self.consecutive_failures.saturating_add(1);
        if self.state == CircuitState::HalfOpen || self.consecutive_failures >= self.failure_threshold {
            self.state = CircuitState::Open;
        }
    }

    /// True unless the breaker is open.
    pub fn should_allow_request(&self) -> (r: bool)
        ensures
            r <==> self.state != CircuitState::Open,
    {
        match self.state {
            CircuitState::Closed => true,
            CircuitState::HalfOpen => true,
            CircuitState::Open => false,
        }
    }

    /// Moves an open breaker to `HalfOpen` for a trial; the caller invokes it
    /// once `retry_timeout_ms` has passed since the breaker opened.
    pub fn try_half_open(&mut self)
        ensures
            old(self).state == CircuitState::Open ==> final(self).state == CircuitState::HalfOpen
                && final(self).consecutive_successes == 0,
            old(self).state != CircuitState::Open ==> *final(self) == *old(self),
            final(self).consecutive_failures == old(self).consecutive_failures,
            final(self).failure_threshold == old(self).failure_threshold,
            final(self).success_threshold == old(self).success_threshold,
            final(self).retry_timeout_ms == old(self).retry_timeout_ms,
    {
        if self.state == CircuitState::Open {
            self.state = CircuitState::HalfOpen;
            self.consecutive_successes = 0;
        }
    }

    /// `Closed` is healthy, `HalfOpen` degraded, `Open` unhealthy.
    pub fn health_status(&self) -> (r: HealthStatus)
        ensures
            r == health_of(self.state),
    {
        match self.state {
            CircuitState::Closed => HealthStatus::Healthy,
            CircuitState::HalfOpen => HealthStatus::Degraded,
            CircuitState::Open => HealthStatus::Unhealthy,
        }
    }
}

/// The health projection of a breaker state.
pub open spec fn health_of(s: CircuitState) -> HealthStatus {
    match s {
        CircuitState::Closed => HealthStatus::Healthy,
        CircuitState::HalfOpen => HealthStatus::Degraded,
        CircuitState::Open => HealthStatus::Unhealthy,
    }
}

/// Outcome of one health probe.
#[derive(Debug, Clone)]
pub struct ProbeResult {
    pub healthy: bool,
    pub response_time_ms: u64,
    pub error: Option<String>,
}

impl ProbeResult {
    /// A healthy probe answered in `response_time_ms`.
    pub fn success(response_time_ms: u64) -> (r: Self)
        ensures
            r.healthy,
            r.response_time_ms == response_time_ms,
            r.error.is_none(),
    {
        ProbeResult { healthy: true, response_time_ms, error: None }
    }

    /// A failed probe carrying its error text.
    pub fn failure(error: String) -> (r: Self)
        ensures
            !r.healthy,
            r.response_time_ms == 0,
            r.error == Some(error),
    {
        ProbeResult { healthy: false, response_time_ms: 0, error: Some(error) }
    }
}

/// Probe cadence and thresholds for Cage health checks.
#[derive(Debug, Clone, Copy)]
pub struct HealthChecker {
    pub check_interval_ms: u64,
    pub failure_threshold: u32,
    pub success_threshold: u32,
}

impl HealthChecker {
    pub fn new(check_interval_ms: u64, failure_threshold: u32, success_threshold: u32) -> (r: Self)
        ensures
            r.check_interval_ms == check_interval_ms,
            r.failure_threshold == failure_threshold,
            r.success_threshold == success_threshold,
    {
        HealthChecker { check_interval_ms, failure_threshold, success_threshold }
    }

    /// Every five seconds; three failures mark a Cage unhealthy, two successes heal it.
    pub fn default_config() -> (r: Self)
        ensures
            r.check_interval_ms == 5000,
            r.failure_threshold == 3,
            r.success_threshold == 2,
    {
        HealthChecker { check_interval_ms: 5000, failure_threshold: 3, success_threshold: 2 }
    }

    /// The probe interval in milliseconds.
    pub fn interval_ms(&self) -> (r: u64)
        ensures
            r == self.check_interval_ms,
    {
        self.check_interval_ms
    }
}

} // verus!
