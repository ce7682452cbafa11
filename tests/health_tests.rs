use pear::health::{CircuitBreaker, CircuitState, HealthChecker, HealthStatus, ProbeResult};

#[test]
fn test_circuit_breaker_opens_after_failures() {
    let mut breaker = CircuitBreaker::new(3, 2, 10000);
    assert!(breaker.should_allow_request());
    breaker.record_failure();
    breaker.record_failure();
    breaker.record_failure();
    assert!(!breaker.should_allow_request());
    assert_eq!(breaker.health_status(), HealthStatus::Unhealthy);
}

#[test]
fn test_circuit_breaker_closes_after_recovery() {
    let mut breaker = CircuitBreaker::new(2, 2, 10000);
    breaker.record_failure();
    breaker.record_failure();
    breaker.try_half_open();
    assert_eq!(breaker.health_status(), HealthStatus::Degraded);
    breaker.record_success();
    breaker.record_success();
    assert_eq!(breaker.health_status(), HealthStatus::Healthy);
}

#[test]
fn any_failure_in_half_open_reopens() {
    let mut breaker = CircuitBreaker::new(3, 2, 10000);
    for _ in 0..3 {
        breaker.record_failure();
    }
    breaker.try_half_open();
    breaker.record_success();
    assert_eq!(breaker.state, CircuitState::HalfOpen);
    breaker.record_failure();
    assert_eq!(breaker.state, CircuitState::Open);
}

#[test]
fn two_failures_keep_the_breaker_closed() {
    let mut breaker = CircuitBreaker::new(3, 2, 10000);
    breaker.record_failure();
    breaker.record_failure();
    assert_eq!(breaker.health_status(), HealthStatus::Healthy);
    breaker.record_success();
    breaker.record_failure();
    breaker.record_failure();
    assert!(breaker.should_allow_request());
}

#[test]
fn try_half_open_only_moves_an_open_breaker() {
    let mut breaker = CircuitBreaker::new(3, 2, 10000);
    breaker.try_half_open();
    assert_eq!(breaker.state, CircuitState::Closed);
}

#[test]
fn test_health_checker_creation() {
    let checker = HealthChecker::default_config();
    assert!(checker.interval_ms() > 0);
    assert_eq!(HealthChecker::new(7, 1, 1).interval_ms(), 7);
}

#[test]
fn probe_results() {
    let ok = ProbeResult::success(12);
    assert!(ok.healthy && ok.response_time_ms == 12 && ok.error.is_none());
    let bad = ProbeResult::failure("refused".to_string());
    assert!(!bad.healthy);
    assert_eq!(bad.error, Some("refused".to_string()));
}
