//! A Cage: one sandboxed WebAssembly instance with an explicit lifecycle,
//! request accounting and a circuit breaker.
//!
//! The engine that compiles and runs the module sits outside this type: it
//! reports each finished invocation as an [`ExecOutcome`], and the Cage
//! decides what follows from it.
use vstd::prelude::*;
use crate::health::{CircuitBreaker, CircuitState};
use self::config::{CageConfig, ConfigError};

pub mod config;

verus! {

/// How long `terminate` waits for in-flight requests, in milliseconds.
pub const TERMINATION_GRACE_MS: u64 = 5000;

/// Breaker settings of a fresh Cage: three failures open it, two successes
/// close it, a trial after ten seconds.
pub const BREAKER_FAILURE_THRESHOLD: u64 = 3;
pub const BREAKER_SUCCESS_THRESHOLD: u64 = 2;
pub const BREAKER_RETRY_TIMEOUT_MS: u64 = 10000;

/// Lifecycle states of a Cage.
#[derive(Debug, Clone, Copy, PartialEq, Eq, Structural)]
pub enum CageState {
    Initializing,
    Running,
    Crashed,
    Terminating,
    Terminated,
}

impl CageState {
    /// Short tag used in logs and status listings.
    pub fn label(&self) -> (r: &'static str)
        ensures
            r@ == state_label(*self),
    {
        match self {
            CageState::Initializing => "INIT",
            CageState::Running => "RUN",
            CageState::Crashed => "CRASH",
            CageState::Terminating => "TERM",
            CageState::Terminated => "STOP",
        }
    }
}

pub open spec fn state_label(s: CageState) -> Seq<char> {
    match s {
        CageState::Initializing => "INIT"@,
        CageState::Running => "RUN"@,
        CageState::Crashed => "CRASH"@,
        CageState::Terminating => "TERM"@,
        CageState::Terminated => "STOP"@,
    }
}

/// The lifecycle moves forward only: `Initializing -> Running -> {Crashed,
/// Terminating -> Terminated}`, a crashed Cage may still be cleaned up to
/// `Terminated`, and every state may stay as it is.
pub open spec fn transition_allowed(from: CageState, to: CageState) -> bool {
    from == to || match from {
        CageState::Initializing => to == CageState::Running || to == CageState::Crashed,
        CageState::Running => to != CageState::Initializing,
        CageState::Crashed => to == CageState::Terminating || to == CageState::Terminated,
        CageState::Terminating => to == CageState::Terminated || to == CageState::Crashed,
        CageState::Terminated => false,
    }
}

/// Errors surfaced by a Cage.
#[derive(Debug, Clone, Copy, PartialEq, Eq, Structural)]
pub enum CageError {
    /// The module bytes did not compile.
    Compile,
    /// Linking the WASI imports failed.
    Link,
    /// Instantiating the module failed.
    Instantiate,
    /// The configuration was rejected.
    InvalidConfig(ConfigError),
    /// `initialize` was called on a Cage that had left `Initializing`.
    AlreadyInitialized,
    /// The Cage is not accepting requests.
    Unhealthy,
    /// `max_concurrent_requests` requests are already in flight.
    OverLimit,
    /// The module trapped.
    Trap,
    /// The request ran past `cpu_timeout_ms`.
    Timeout,
    /// The module asked for memory above the cap.
    Limit,
}

/// What the engine reported for one invocation of the module's entry point.
#[derive(Debug, Clone)]
pub enum ExecOutcome {
    /// The handler returned these response bytes.
    Completed(Vec<u8>),
    /// The handler trapped.
    Trapped,
    /// A memory growth was denied by the limiter.
    MemoryLimit,
    /// The wall-clock budget ran out.
    TimedOut,
}

/// The error a failed outcome maps to.
pub open spec fn outcome_error(o: ExecOutcome) -> CageError {
    match o {
        ExecOutcome::Completed(_) => CageError::Trap,
        ExecOutcome::Trapped => CageError::Trap,
        ExecOutcome::MemoryLimit => CageError::Limit,
        ExecOutcome::TimedOut => CageError::Timeout,
    }
}

/// Whether the limiter lets linear memory grow to `desired` bytes.
pub open spec fn growth_allowed(limit: usize, desired: usize) -> bool {
    desired <= limit
}

/// The limiter's answer to a memory growth request: growth up to the cap is
/// allowed, anything above is denied.
pub fn memory_growth_allowed(limit: usize, desired: usize) -> (r: bool)
    ensures
        r == growth_allowed(limit, desired),
{
    desired <= limit
}

/// One sandboxed WebAssembly instance.
#[derive(Debug, Clone)]
pub struct Cage {
    pub id: u64,
    pub name: String,
    pub config: CageConfig,
    pub state: CageState,
    /// Set only while the Cage is `Running` and passed its last check.
    pub healthy: bool,
    /// Requests finished since creation.
    pub request_count: u64,
    /// Requests in flight.
    pub active_requests: u64,
    /// Time of the last health probe, in milliseconds.
    pub last_health_check_ms: u64,
    pub breaker: CircuitBreaker,
}

impl Cage {
    /// The Cage's own invariant: healthy only while running, never more
    /// requests in flight than the configuration allows.
    pub open spec fn wf(&self) -> bool {
        &&& self.healthy ==> self.state == CageState::Running
        &&& self.active_requests <= self.config.max_concurrent_requests
    }

    /// A fresh Cage in `Initializing`, or the configuration's error.
    pub fn new(id: u64, name: String, config: CageConfig) -> (r: Result<Cage, CageError>)
        ensures
            config.is_valid() <==> r.is_ok(),
            r.is_err() ==> r == Err::<Cage, CageError>(
                CageError::InvalidConfig(config.spec_error().unwrap()),
            ),
            r.is_ok() ==> {
                let c = r.unwrap();
                &&& c.wf()
                &&& c.id == id
                &&& c.name == name
                &&& c.config == config
                &&& c.state == CageState::Initializing
                &&& !c.healthy
                &&& c.request_count == 0
                &&& c.active_requests == 0
                &&& c.breaker.state == CircuitState::Closed
            },
    {
        match config.validate() {
            Err(e) => Err(CageError::InvalidConfig(e)),
            Ok(()) => {
                let breaker = CircuitBreaker::new(
                    BREAKER_FAILURE_THRESHOLD,
                    BREAKER_SUCCESS_THRESHOLD,
                    BREAKER_RETRY_TIMEOUT_MS,
                );
                Ok(Cage {
                    id,
                    name,
                    config,
                    state: CageState::Initializing,
                    healthy: false,
                    request_count: 0,
                    active_requests: 0,
                    last_health_check_ms: 0,
                    breaker,
                })
            },
        }
    }

    /// Moves an instantiated Cage from `Initializing` to `Running`; a second
    /// call is an error and changes nothing.
    pub fn initialize(&mut self) -> (r: Result<(), CageError>)
        requires
            old(self).wf(),
        ensures
            final(self).wf(),
            old(self).state == CageState::Initializing <==> r.is_ok(),
            r.is_ok() ==> *final(self) == (Cage { state: CageState::Running, healthy: true, ..*old(self) }),
            r.is_err() ==> r == Err::<(), CageError>(CageError::AlreadyInitialized)
                && *final(self) == *old(self),
    {
        if self.state != CageState::Initializing {
            return Err(CageError::AlreadyInitialized);
        }
        self.state = CageState::Running;
        self.healthy = true;
        Ok(())
    }

    /// Admits one request: refused unless the Cage is healthy, and refused
    /// fast when `max_concurrent_requests` are already in flight.
    pub fn begin_request(&mut self) -> (r: Result<(), CageError>)
        requires
            old(self).wf(),
        ensures
            begin_post(*old(self), *final(self), r),
    {
        if !self.healthy {
            return Err(CageError::Unhealthy);
        }
        if self.active_requests >= self.config.max_concurrent_requests as u64 {
            return Err(CageError::OverLimit);
        }
        self.active_requests = self.active_requests + 1;
        Ok(())
    }

    /// Closes one admitted request with what the engine reported: the request
    /// leaves the in-flight count and joins the total; a trap, a denied memory
    /// growth or a timeout crashes the Cage and is returned as its error.
    pub fn finish_request(&mut self, outcome: ExecOutcome) -> (r: Result<Vec<u8>, CageError>)
        requires
            old(self).wf(),
            old(self).active_requests > 0,
        ensures
            finish_post(*old(self), *final(self), outcome, r),
    {
        self.active_requests = self.active_requests - 1;
        self.request_count = self.request_count.saturating_add(1);
        match outcome {
            ExecOutcome::Completed(bytes) => {
                self.breaker.record_success();
                Ok(bytes)
            },
            ExecOutcome::Trapped => {
                self.breaker.record_failure();
                self.mark_crashed();
                Err(CageError::Trap)
            },
            ExecOutcome::MemoryLimit => {
                self.breaker.record_failure();
                self.mark_crashed();
                Err(CageError::Limit)
            },
            ExecOutcome::TimedOut => {
                self.breaker.record_failure();
                self.mark_crashed();
                Err(CageError::Timeout)
            },
        }
    }

    /// Probes the Cage at time `now_ms`: true iff it is `Running`, in which
    /// case the probe time is recorded and the healthy flag set; a crashed or
    /// terminating Cage loses the flag.
    pub fn health_check(&mut self, now_ms: u64) -> (r: bool)
        requires
            old(self).wf(),
        ensures
            final(self).wf(),
            r <==> old(self).state == CageState::Running,
            r ==> *final(self) == (Cage { healthy: true, last_health_check_ms: now_ms, ..*old(self) }),
            !r ==> *final(self) == (Cage { healthy: false, ..*old(self) }),
    {
        match self.state {
            CageState::Running => {
                self.last_health_check_ms = now_ms;
                self.healthy = true;
                true
            },
            _ => {
                self.healthy = false;
                false
            },
        }
    }

    pub fn is_healthy(&self) -> (r: bool)
        ensures
            r == self.healthy,
    {
        self.healthy
    }

    pub fn state(&self) -> (r: CageState)
        ensures
            r == self.state,
    {
        self.state
    }

    pub fn active_request_count(&self) -> (r: u64)
        ensures
            r == self.active_requests,
    {
        self.active_requests
    }

    pub fn total_request_count(&self) -> (r: u64)
        ensures
            r == self.request_count,
    {
        self.request_count
    }

    pub fn id(&self) -> (r: u64)
        ensures
            r == self.id,
    {
        self.id
    }

    pub fn name(&self) -> (r: &str)
        ensures
            r@ == self.name@,
    {
        self.name.as_str()
    }

    /// Marks the Cage crashed and unhealthy; a terminated Cage stays terminated.
    pub fn mark_crashed(&mut self)
        requires
            old(self).wf(),
        ensures
            final(self).wf(),
            *final(self) == (Cage { state: crashed_state(old(self).state), healthy: false, ..*old(self) }),
    {
        if self.state != CageState::Terminated {
            self.state = CageState::Crashed;
        }
        self.healthy = false;
    }

    /// One step of graceful termination, `elapsed_ms` after it began: the Cage
    /// stops taking requests and is `Terminating` until no request is in flight
    /// or the grace period has passed, then `Terminated`. Returns true once
    /// terminated; the caller yields and calls again until then.
    pub fn terminate(&mut self, elapsed_ms: u64) -> (r: bool)
        requires
            old(self).wf(),
        ensures
            final(self).wf(),
            !final(self).healthy,
            r <==> final(self).state == CageState::Terminated,
            r <==> (old(self).state == CageState::Terminated || old(self).active_requests == 0
                || elapsed_ms > TERMINATION_GRACE_MS),
            !r ==> final(self).state == CageState::Terminating,
            *final(self) == (Cage { state: final(self).state, healthy: false, ..*old(self) }),
    {
        self.healthy = false;
        if self.state != CageState::Terminated {
            self.state = CageState::Terminating;
        }
        if self.state == CageState::Terminated || self.active_requests == 0 || elapsed_ms > TERMINATION_GRACE_MS {
            self.state = CageState::Terminated;
            true
        } else {
            false
        }
    }
}

/// What `begin_request` does to Cage `c`, leaving `d` and returning `r`.
pub open spec fn begin_post(c: Cage, d: Cage, r: Result<(), CageError>) -> bool {
    &&& d.wf()
    &&& !c.healthy ==> r == Err::<(), CageError>(CageError::Unhealthy)
    &&& c.healthy && c.active_requests >= c.config.max_concurrent_requests
        ==> r == Err::<(), CageError>(CageError::OverLimit)
    &&& c.healthy && c.active_requests < c.config.max_concurrent_requests ==> r.is_ok()
    &&& r.is_ok() ==> d == (Cage { active_requests: (c.active_requests + 1) as u64, ..c })
    &&& r.is_err() ==> d == c
}

/// What `finish_request` does to Cage `c` given the engine's `outcome`,
/// leaving `d` and returning `r`.
pub open spec fn finish_post(c: Cage, d: Cage, outcome: ExecOutcome, r: Result<Vec<u8>, CageError>) -> bool {
    &&& d.wf()
    &&& d.active_requests == c.active_requests - 1
    &&& d.request_count == crate::health::bump(c.request_count)
    &&& d.id == c.id
    &&& d.name == c.name
    &&& d.config == c.config
    &&& d.last_health_check_ms == c.last_health_check_ms
    &&& transition_allowed(c.state, d.state)
    &&& match outcome {
        ExecOutcome::Completed(bytes) => {
            &&& r == Ok::<Vec<u8>, CageError>(bytes)
            &&& d.state == c.state
            &&& d.healthy == c.healthy
            &&& d.breaker.state == c.breaker.state_after_success()
        },
        _ => {
            &&& r == Err::<Vec<u8>, CageError>(outcome_error(outcome))
            &&& d.state == crashed_state(c.state)
            &&& !d.healthy
            &&& d.breaker.state == c.breaker.state_after_failure()
        },
    }
}

/// Where `mark_crashed` leaves a Cage in state `s`.
pub open spec fn crashed_state(s: CageState) -> CageState {
    if s == CageState::Terminated { CageState::Terminated } else { CageState::Crashed }
}

/// A Cage's in-flight count stays between zero and its concurrency limit.
pub proof fn active_requests_in_range(c: Cage)
    requires
        c.wf(),
    ensures
        0 <= c.active_requests <= c.config.max_concurrent_requests,
{
}

/// A healthy Cage is running.
pub proof fn healthy_implies_running(c: Cage)
    requires
        c.wf(),
    ensures
        c.healthy ==> c.state == CageState::Running,
{
}

/// Finishing a request never lowers a Cage's total request count.
pub proof fn request_count_monotonic(c: Cage, d: Cage, outcome: ExecOutcome, r: Result<Vec<u8>, CageError>)
    requires
        finish_post(c, d, outcome, r),
    ensures
        d.request_count >= c.request_count,
{
}

/// With `max_concurrent_requests + 1` requests admitted one after another
/// on an idle healthy Cage (`cs[k]` before the k-th, `rs[k]` its answer),
/// all but the last are admitted and the last fails fast as over the limit.
pub proof fn over_limit_fails_fast(cs: Seq<Cage>, rs: Seq<Result<(), CageError>>)
    requires
        cs.len() == rs.len() + 1,
        rs.len() == cs[0].config.max_concurrent_requests + 1,
        cs[0].wf(),
        cs[0].healthy,
        cs[0].active_requests == 0,
        forall|k: int| 0 <= k < rs.len() ==> begin_post(#[trigger] cs[k], cs[k + 1], rs[k]),
    ensures
        forall|k: int| 0 <= k < rs.len() - 1 ==> (#[trigger] rs[k]).is_ok(),
        rs.last() == Err::<(), CageError>(CageError::OverLimit),
{
    let max = cs[0].config.max_concurrent_requests;
    assert forall|k: int| 0 <= k < rs.len() implies
        (#[trigger] cs[k]).healthy && cs[k].active_requests == k && cs[k].config == cs[0].config by {
        lemma_admitted_prefix(cs, rs, k);
    }
    assert forall|k: int| 0 <= k < rs.len() - 1 implies (#[trigger] rs[k]).is_ok() by {
        assert(cs[k].healthy && cs[k].active_requests == k && cs[k].config == cs[0].config);
    }
    let last = rs.len() - 1;
    assert(cs[last].healthy && cs[last].active_requests == last && cs[last].config == cs[0].config);
}

proof fn lemma_admitted_prefix(cs: Seq<Cage>, rs: Seq<Result<(), CageError>>, k: int)
    requires
        cs.len() == rs.len() + 1,
        rs.len() == cs[0].config.max_concurrent_requests + 1,
        cs[0].healthy,
        cs[0].active_requests == 0,
        forall|j: int| 0 <= j < rs.len() ==> begin_post(#[trigger] cs[j], cs[j + 1], rs[j]),
        0 <= k < rs.len(),
    ensures
        cs[k].healthy && cs[k].active_requests == k && cs[k].config == cs[0].config,
    decreases k,
{
    if k > 0 {
        lemma_admitted_prefix(cs, rs, k - 1);
        assert(begin_post(cs[k - 1], cs[k], rs[k - 1]));
    }
}

/// A memory growth above the cap is denied, and the trap it causes crashes
/// a running Cage with the `Limit` error.
pub proof fn memory_limit_crashes(c: Cage, d: Cage, r: Result<Vec<u8>, CageError>, desired: usize)
    requires
        desired > c.config.memory_limit_bytes,
        c.state == CageState::Running,
        finish_post(c, d, ExecOutcome::MemoryLimit, r),
    ensures
        !growth_allowed(c.config.memory_limit_bytes, desired),
        r == Err::<Vec<u8>, CageError>(CageError::Limit),
        d.state == CageState::Crashed,
        !d.healthy,
{
}

/// A handler that runs past its budget is reported as a timeout and crashes
/// a running Cage.
pub proof fn timeout_crashes(c: Cage, d: Cage, r: Result<Vec<u8>, CageError>)
    requires
        c.state == CageState::Running,
        finish_post(c, d, ExecOutcome::TimedOut, r),
    ensures
        r == Err::<Vec<u8>, CageError>(CageError::Timeout),
        d.state == CageState::Crashed,
        !d.healthy,
{
}

} // verus!
