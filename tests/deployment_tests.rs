use pear::cage::config::CageConfig;
use pear::cage::ExecOutcome;
use pear::deployment::rollout::{
    RollingUpdateConfig, RollingUpdateOrchestrator, RolloutAction, RolloutEvent, RolloutPhase,
};
use pear::deployment::{generate_beta_secret, CanaryError, CanaryManager, CanaryStatus};
use pear::pool::CagePool;
use pear::router::{RouteDecision, RouteRequest, Router, RouterConfig};

fn pool_of(site: &str, n: usize) -> CagePool {
    let mut pool = CagePool::empty(site.to_string(), CageConfig::default(), n).unwrap();
    assert_eq!(pool.maintain_replicas(&vec![Ok(()); n]), 0);
    pool
}

#[test]
fn test_canary_creation() {
    let mut manager = CanaryManager::new();
    let info = manager.create_canary("test-site".to_string(), vec![0, 1, 2, 3], 0).unwrap();
    assert!(!info.beta_secret.is_empty());
    assert!(info.test_url.contains(&info.beta_secret));
}

#[test]
fn test_canary_routing() {
    let mut manager = CanaryManager::new();
    let info = manager.create_canary("test-site".to_string(), vec![], 0).unwrap();
    assert!(manager.should_route_to_canary("test-site", Some(&info.beta_secret), None, 0));
    assert!(!manager.should_route_to_canary("test-site", Some("wrong-secret"), None, 0));
}

#[test]
fn test_canary_promotion() {
    let mut manager = CanaryManager::new();
    manager.create_canary("test-site".to_string(), vec![], 0).unwrap();
    manager.promote_to_production("test-site").unwrap();
    let canary = manager.routing("test-site").unwrap();
    assert_eq!(canary.status, CanaryStatus::RollingOut);
    assert_eq!(canary.traffic_bp, 1000);
}

#[test]
fn test_canary_deployment() {
    let mut manager = CanaryManager::new();
    let info = manager.create_canary("test-site".to_string(), vec![0, 1, 2, 3], 0).expect("Failed to create canary");
    assert!(!info.beta_secret.is_empty());
    assert!(manager.should_route_to_canary("test-site", Some(&info.beta_secret), None, 0));
    assert!(!manager.should_route_to_canary("test-site", Some("wrong"), None, 0));
}

#[test]
fn beta_secrets_are_sixteen_base36_characters() {
    let s = generate_beta_secret();
    assert_eq!(s.chars().count(), 16);
    assert!(s.chars().all(|c| c.is_ascii_lowercase() || c.is_ascii_digit()));
}

#[test]
fn created_canary_carries_its_secret_in_url_and_header() {
    let mut manager = CanaryManager::new();
    let info = manager.create_canary_with("s".to_string(), vec![9], 77, "abc".to_string(), 5);
    assert_eq!(info.canary_id, 77);
    assert_eq!(info.test_url, "https://example.com/?beta=abc");
    assert_eq!(info.cookie_header, "X-Pear-Beta: abc");
    assert!(manager.should_route_to_canary("S", None, Some("abc"), 0));
}

#[test]
fn traffic_share_rules() {
    let mut manager = CanaryManager::new();
    assert_eq!(manager.promote_to_production("x"), Err(CanaryError::NotFound));
    manager.create_canary_with("x".to_string(), vec![], 1, "s".to_string(), 0);
    assert_eq!(manager.increase_traffic("x", 5000), Err(CanaryError::InvalidStatus));
    assert_eq!(manager.complete_deployment("x"), Err(CanaryError::InvalidStatus));
    manager.promote_to_production("x").unwrap();
    assert_eq!(manager.promote_to_production("x"), Err(CanaryError::InvalidStatus));
    assert!(manager.should_route_to_canary("x", None, None, 999));
    assert!(!manager.should_route_to_canary("x", None, None, 1000));
    manager.increase_traffic("x", 20000).unwrap();
    assert_eq!(manager.routing("x").unwrap().traffic_bp, 10000);
    manager.complete_deployment("x").unwrap();
    assert_eq!(manager.routing("x").unwrap().status, CanaryStatus::Completed);
    assert_eq!(manager.routing("X").unwrap().traffic_bp, 10000);
    assert_eq!(manager.rollback("x", "late"), Err(CanaryError::InvalidStatus));
}

#[test]
fn error_rate_gate_rolls_back_above_five_percent() {
    let mut manager = CanaryManager::new();
    manager.create_canary_with("x".to_string(), vec![], 3, "s".to_string(), 0);
    manager.promote_to_production("x").unwrap();
    for i in 0..20 {
        manager.record_request(3, i == 0);
    }
    assert_eq!(manager.check_error_rate("x"), Ok(false));
    manager.record_request(3, true);
    assert_eq!(manager.check_error_rate("x"), Ok(true));
    assert_eq!(manager.routing("x").unwrap().status, CanaryStatus::RolledBack);
    assert_eq!(manager.routing("x").unwrap().traffic_bp, 0);
    assert_eq!(manager.check_error_rate("x"), Ok(false));
    assert_eq!(manager.check_error_rate("nothing"), Ok(false));
}

fn request_with_beta(beta: Option<&str>) -> RouteRequest {
    RouteRequest {
        method: "GET".to_string(),
        uri: "/".to_string(),
        host: Some("site-A".to_string()),
        beta_cookie: beta.map(|b| b.to_string()),
        beta_query: None,
    }
}

fn routed_output(router: &mut Router, manager: &CanaryManager, req: &RouteRequest, roll: u64) -> Vec<u8> {
    match router.route_request(req, manager, roll) {
        RouteDecision::Dispatch(d) => {
            let out = if d.canary { vec![1u8] } else { vec![0u8] };
            router.complete_request(&d, ExecOutcome::Completed(out)).body
        }
        RouteDecision::Respond(r) => panic!("unexpected status {}", r.status),
    }
}

#[test]
fn beta_secret_reaches_the_new_module() {
    let mut router = Router::new(RouterConfig::default());
    router.register_pool("site-A".to_string(), pool_of("site-A", 2));
    router.register_canary_pool("site-A".to_string(), pool_of("site-A", 1));
    let mut manager = CanaryManager::new();
    let info = manager.create_canary("site-A".to_string(), vec![1], 0).unwrap();
    assert_eq!(routed_output(&mut router, &manager, &request_with_beta(Some(&info.beta_secret)), 0), vec![1]);
    assert_eq!(routed_output(&mut router, &manager, &request_with_beta(None), 0), vec![0]);
}

#[test]
fn failing_canary_is_rolled_back_and_old_module_serves() {
    let mut router = Router::new(RouterConfig::default());
    router.register_pool("site-A".to_string(), pool_of("site-A", 2));
    router.register_canary_pool("site-A".to_string(), pool_of("site-A", 1));
    let mut manager = CanaryManager::new();
    let info = manager.create_canary("site-A".to_string(), vec![1], 0).unwrap();
    manager.promote_to_production("site-A").unwrap();
    for k in 0..20u64 {
        manager.record_request(info.canary_id, k % 4 == 0);
    }
    assert_eq!(manager.check_error_rate("site-A"), Ok(true));
    for roll in [0u64, 10, 500, 999] {
        assert_eq!(routed_output(&mut router, &manager, &request_with_beta(None), roll), vec![0]);
    }
}

#[test]
fn test_rolling_update_config() {
    let config = RollingUpdateConfig::default();
    assert_eq!(config.wait_between_replacements_ms, 10000);
    assert_eq!(config.max_error_rate_bp, 500);
}

#[test]
fn rollout_replaces_each_cage_then_completes() {
    let orch = RollingUpdateOrchestrator::new(RollingUpdateConfig::default());
    let (mut s, mut a) = orch.start(2);
    let mut actions = vec![a];
    loop {
        let e = match a {
            RolloutAction::Drain { .. } => RolloutEvent::Drained,
            RolloutAction::Replace { .. } => RolloutEvent::Replaced,
            RolloutAction::Probe { .. } => RolloutEvent::Probed { healthy: true, elapsed_ms: 0 },
            RolloutAction::CheckGate => RolloutEvent::Gate { tripped: false },
            RolloutAction::Sleep { .. } => RolloutEvent::Paused,
            _ => break,
        };
        let next = orch.advance(s, e);
        s = next.0;
        a = next.1;
        actions.push(a);
    }
    assert_eq!(s.phase, RolloutPhase::Completed);
    assert_eq!(actions.first(), Some(&RolloutAction::Drain { index: 0, wait_ms: 5000 }));
    assert!(actions.contains(&RolloutAction::Replace { index: 1 }));
    assert!(actions.contains(&RolloutAction::Sleep { ms: 10000 }));
    assert_eq!(actions.last(), Some(&RolloutAction::Complete));
}

#[test]
fn rollout_rolls_back_when_the_replacement_stays_unhealthy() {
    let orch = RollingUpdateOrchestrator::new(RollingUpdateConfig::default());
    let (s, _) = orch.start(3);
    let (s, _) = orch.advance(s, RolloutEvent::Drained);
    let (s, a) = orch.advance(s, RolloutEvent::Replaced);
    assert_eq!(a, RolloutAction::Probe { index: 0 });
    let (s, a) = orch.advance(s, RolloutEvent::Probed { healthy: false, elapsed_ms: 2000 });
    assert_eq!(a, RolloutAction::Probe { index: 0 });
    let (s, a) = orch.advance(s, RolloutEvent::Probed { healthy: false, elapsed_ms: 30000 });
    assert_eq!(a, RolloutAction::Rollback);
    assert_eq!(s.phase, RolloutPhase::Aborted);
}

#[test]
fn sampled_routing_honours_the_secret() {
    let mut manager = CanaryManager::new();
    let info = manager.create_canary("s".to_string(), vec![], 0).unwrap();
    for _ in 0..20 {
        assert!(manager.should_route_to_canary_sampled("s", Some(&info.beta_secret), None));
        assert!(!manager.should_route_to_canary_sampled("s", None, None));
    }
    assert!(!manager.should_route_to_canary_sampled("other", Some(&info.beta_secret), None));
}

#[test]
fn creation_starts_the_error_counters() {
    let mut manager = CanaryManager::new();
    let info = manager.create_canary("s".to_string(), vec![], 42).unwrap();
    let stats = manager.error_tracker.stats_for(info.canary_id).unwrap();
    assert_eq!((stats.total_requests, stats.error_count, stats.started_at_ms), (0, 0, 42));
}
