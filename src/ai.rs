//! Signals the core consumes from the traffic classifiers: a per-request
//! verdict that can veto a request before Cage selection, and the
//! classifiers' counters.
use vstd::prelude::*;

verus! {

/// Status answered to a rate-limited client.
pub const STATUS_TOO_MANY_REQUESTS: u16 = 429;
/// Status answered to a banned client.
pub const STATUS_FORBIDDEN: u16 = 403;

/// A classifier's verdict on one request.
#[derive(Debug, Clone)]
pub enum RequestDecision {
    Allow,
    /// Over the rate; retry after this many milliseconds.
    RateLimited { retry_after_ms: u64 },
    /// Banned until the given time, in milliseconds.
    Banned { reason: String, until_ms: u64 },
}

impl RequestDecision {
    pub fn is_allowed(&self) -> (r: bool)
        ensures
            r <==> self is Allow,
    {
        match self {
            RequestDecision::Allow => true,
            _ => false,
        }
    }

    /// The status the router answers with instead of selecting a Cage: 429
    /// when rate limited, 403 when banned, none when allowed.
    pub fn veto_status(&self) -> (r: Option<u16>)
        ensures
            self is Allow ==> r.is_none(),
            self is RateLimited ==> r == Some(STATUS_TOO_MANY_REQUESTS),
            self is Banned ==> r == Some(STATUS_FORBIDDEN),
    {
        match self {
            RequestDecision::Allow => None,
            RequestDecision::RateLimited { .. } => Some(STATUS_TOO_MANY_REQUESTS),
            RequestDecision::Banned { .. } => Some(STATUS_FORBIDDEN),
        }
    }
}

/// Rate limiter counters.
#[derive(Debug, Clone, Copy)]
pub struct DDoSStats {
    pub active_buckets: usize,
    pub banned_ips: usize,
    pub total_bans: u64,
}

/// What the classifiers look at in a request.
#[derive(Debug, Clone)]
pub struct RequestFeatures {
    pub method: String,
    pub path: String,
    pub query_params: Vec<(String, String)>,
    pub headers: Vec<(String, String)>,
    pub body_size: usize,
    pub source_ip: String,
}

/// Kinds of threat the classifiers report.
#[derive(Debug, Clone, Copy, PartialEq, Eq, Structural)]
pub enum ThreatType {
    Anomalous,
    SqlInjection,
    Xss,
    DdosPattern,
    BotActivity,
}

/// Classifier counters.
#[derive(Debug, Clone, Copy)]
pub struct AiStats {
    pub threats_detected: u64,
    pub anomaly_detection_enabled: bool,
}

/// The path monitor's verdict on a request path.
#[derive(Debug, Clone, Copy, PartialEq, Eq, Structural)]
pub enum PathDecision {
    Safe,
    Suspicious,
    Banned,
}

/// Path monitor counters.
#[derive(Debug, Clone, Copy)]
pub struct PathMonitorStats {
    pub tracked_ips: usize,
    pub banned_ips: usize,
    pub total_scan_attempts: usize,
    pub sensitive_paths_count: usize,
}

} // verus!
