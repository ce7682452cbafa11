use pear::cage::config::CageConfig;
use pear::cage::{memory_growth_allowed, Cage, CageError, CageState, ExecOutcome};

fn running_cage(max_concurrent: usize) -> Cage {
    let mut config = CageConfig::default();
    config.max_concurrent_requests = max_concurrent;
    let mut cage = Cage::new(1, "test-cage".to_string(), config).unwrap();
    cage.initialize().unwrap();
    cage
}

#[test]
fn test_cage_creation() {
    let cage = Cage::new(1, "test-cage".to_string(), CageConfig::default());
    assert!(cage.is_ok());
    let cage = cage.unwrap();
    assert_eq!(cage.state(), CageState::Initializing);
    assert!(!cage.is_healthy());
    assert_eq!(cage.name(), "test-cage");
}

#[test]
fn test_cage_health_check() {
    let mut cage = Cage::new(1, "test-cage".to_string(), CageConfig::default()).unwrap();
    cage.initialize().unwrap();
    assert!(cage.health_check(10));
    assert_eq!(cage.last_health_check_ms, 10);
}

#[test]
fn invalid_config_is_refused_at_creation() {
    let mut config = CageConfig::default();
    config.cpu_timeout_ms = 0;
    assert!(matches!(Cage::new(1, "c".to_string(), config), Err(CageError::InvalidConfig(_))));
}

#[test]
fn second_initialize_is_an_error() {
    let mut cage = running_cage(1);
    assert_eq!(cage.initialize(), Err(CageError::AlreadyInitialized));
    assert_eq!(cage.state(), CageState::Running);
}

#[test]
fn one_request_over_the_limit_fails_fast() {
    let mut cage = running_cage(4);
    let mut failures = 0;
    for _ in 0..5 {
        if let Err(e) = cage.begin_request() {
            assert_eq!(e, CageError::OverLimit);
            failures += 1;
        }
    }
    assert_eq!(failures, 1);
    assert_eq!(cage.active_request_count(), 4);
}

#[test]
fn unhealthy_cage_refuses_requests() {
    let mut cage = Cage::new(1, "c".to_string(), CageConfig::default()).unwrap();
    assert_eq!(cage.begin_request(), Err(CageError::Unhealthy));
}

#[test]
fn completed_request_returns_the_bytes_and_counts() {
    let mut cage = running_cage(2);
    cage.begin_request().unwrap();
    assert_eq!(cage.active_request_count(), 1);
    let out = cage.finish_request(ExecOutcome::Completed(vec![7, 8]));
    assert_eq!(out, Ok(vec![7, 8]));
    assert_eq!(cage.active_request_count(), 0);
    assert_eq!(cage.total_request_count(), 1);
    assert!(cage.is_healthy());
}

#[test]
fn memory_limit_trap_crashes_the_cage() {
    let mut cage = running_cage(2);
    assert!(!memory_growth_allowed(cage.config.memory_limit_bytes, cage.config.memory_limit_bytes + 65536));
    assert!(memory_growth_allowed(cage.config.memory_limit_bytes, cage.config.memory_limit_bytes));
    cage.begin_request().unwrap();
    assert_eq!(cage.finish_request(ExecOutcome::MemoryLimit), Err(CageError::Limit));
    assert_eq!(cage.state(), CageState::Crashed);
    assert!(!cage.is_healthy());
    assert_eq!(cage.active_request_count(), 0);
}

#[test]
fn timeout_and_trap_map_to_their_errors() {
    let mut cage = running_cage(2);
    cage.begin_request().unwrap();
    assert_eq!(cage.finish_request(ExecOutcome::TimedOut), Err(CageError::Timeout));
    assert_eq!(cage.state(), CageState::Crashed);
    let mut cage = running_cage(2);
    cage.begin_request().unwrap();
    assert_eq!(cage.finish_request(ExecOutcome::Trapped), Err(CageError::Trap));
    assert_eq!(cage.state(), CageState::Crashed);
}

#[test]
fn healthy_only_while_running() {
    let mut cage = running_cage(2);
    assert!(cage.is_healthy() && cage.state() == CageState::Running);
    cage.mark_crashed();
    assert!(!cage.is_healthy());
    assert!(!cage.health_check(5));
    cage.mark_crashed();
    assert_eq!(cage.state(), CageState::Crashed);
}

#[test]
fn graceful_termination_waits_for_the_request() {
    let mut cage = running_cage(2);
    cage.begin_request().unwrap();
    assert!(!cage.terminate(0));
    assert_eq!(cage.state(), CageState::Terminating);
    assert_eq!(cage.begin_request(), Err(CageError::Unhealthy));
    assert!(!cage.terminate(2000));
    assert_eq!(cage.finish_request(ExecOutcome::Completed(vec![1])), Ok(vec![1]));
    assert!(cage.terminate(2001));
    assert_eq!(cage.state(), CageState::Terminated);
}

#[test]
fn termination_gives_up_after_the_grace_period() {
    let mut cage = running_cage(2);
    cage.begin_request().unwrap();
    assert!(!cage.terminate(5000));
    assert!(cage.terminate(5001));
    assert_eq!(cage.state(), CageState::Terminated);
    cage.mark_crashed();
    assert_eq!(cage.state(), CageState::Terminated);
}

#[test]
fn state_labels() {
    assert_eq!(CageState::Initializing.label(), "INIT");
    assert_eq!(CageState::Running.label(), "RUN");
    assert_eq!(CageState::Crashed.label(), "CRASH");
    assert_eq!(CageState::Terminating.label(), "TERM");
    assert_eq!(CageState::Terminated.label(), "STOP");
}
