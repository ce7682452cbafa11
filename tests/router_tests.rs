use pear::ai::RequestDecision;
use pear::cage::config::CageConfig;
use pear::cage::ExecOutcome;
use pear::deployment::CanaryManager;
use pear::pool::CagePool;
use pear::router::strategies::{LeastConnectedStrategy, LoadBalancingStrategy as NamedStrategy, RoundRobinStrategy};
use pear::router::{
    extract_site_id, serialize_request, LoadBalancingStrategy, RouteDecision, RouteRequest, Router, RouterConfig,
};

fn pool_of(site: &str, n: usize) -> CagePool {
    let mut pool = CagePool::empty(site.to_string(), CageConfig::default(), n).unwrap();
    assert_eq!(pool.maintain_replicas(&vec![Ok(()); n]), 0);
    pool
}

fn request(host: Option<&str>) -> RouteRequest {
    RouteRequest {
        method: "GET".to_string(),
        uri: "/".to_string(),
        host: host.map(|h| h.to_string()),
        beta_cookie: None,
        beta_query: None,
    }
}

fn serve(router: &mut Router, canaries: &CanaryManager, req: &RouteRequest, output: Vec<u8>) -> (u16, Vec<u8>, Option<u64>) {
    match router.route_request(req, canaries, 9999) {
        RouteDecision::Respond(resp) => (resp.status, resp.body, None),
        RouteDecision::Dispatch(d) => {
            let resp = router.complete_request(&d, ExecOutcome::Completed(output));
            (resp.status, resp.body, Some(d.cage_id))
        }
    }
}

#[test]
fn test_router_creation() {
    let router = Router::new(RouterConfig::default());
    assert_eq!(router.pool_count(), 0);
}

#[test]
fn test_router_stats() {
    let router = Router::new(RouterConfig::default());
    let stats = router.stats();
    assert_eq!(stats.total_requests, 0);
    assert_eq!(stats.success_rate(), 0);
}

#[test]
fn test_round_robin() {
    let mut strategy = RoundRobinStrategy::new();
    let idx1 = strategy.next_index(3);
    let idx2 = strategy.next_index(3);
    let idx3 = strategy.next_index(3);
    assert!(idx1 < 3);
    assert!(idx2 < 3);
    assert!(idx3 < 3);
    assert_eq!((idx1, idx2, idx3), (0, 1, 2));
    assert_eq!(strategy.next_index(0), 0);
}

#[test]
fn test_least_connected_creation() {
    let strategy = LeastConnectedStrategy::new();
    assert_eq!(strategy.name(), "least-connected");
    assert_eq!(RoundRobinStrategy::new().name(), "round-robin");
}

#[test]
fn site_key_and_payload() {
    assert_eq!(extract_site_id(&request(Some("shop.example"))), "shop.example");
    assert_eq!(extract_site_id(&request(None)), "default-site");
    let mut req = request(None);
    req.method = "POST".to_string();
    req.uri = "/cart?id=1".to_string();
    assert_eq!(serialize_request(&req), "{\"method\":\"POST\",\"uri\":\"/cart?id=1\"}");
}

#[test]
fn unknown_site_is_404() {
    let mut router = Router::new(RouterConfig::default());
    let canaries = CanaryManager::new();
    let (status, body, _) = serve(&mut router, &canaries, &request(Some("nowhere")), vec![]);
    assert_eq!(status, 404);
    assert_eq!(String::from_utf8(body).unwrap(), "{\"error\":\"Site not found\",\"status\":404}");
    let stats = router.stats();
    assert_eq!((stats.total_requests, stats.failed_requests), (1, 1));
}

#[test]
fn pool_without_replicas_is_503() {
    let mut router = Router::new(RouterConfig::default());
    let canaries = CanaryManager::new();
    router.register_pool("site-a".to_string(), CagePool::empty("site-a".to_string(), CageConfig::default(), 3).unwrap());
    let (status, _, _) = serve(&mut router, &canaries, &request(Some("site-a")), vec![]);
    assert_eq!(status, 503);
}

#[test]
fn site_keys_match_without_case() {
    let mut router = Router::new(RouterConfig::default());
    let canaries = CanaryManager::new();
    router.register_pool("Site-A.example".to_string(), pool_of("site-a", 1));
    let (status, body, _) = serve(&mut router, &canaries, &request(Some("site-a.EXAMPLE")), vec![42]);
    assert_eq!(status, 200);
    assert_eq!(body, vec![42]);
}

#[test]
fn three_replica_round_robin_spreads_nine_requests_evenly() {
    let mut router = Router::new(RouterConfig::default());
    let canaries = CanaryManager::new();
    router.register_pool("site".to_string(), pool_of("site", 3));
    let mut per_cage = [0u32; 3];
    for _ in 0..9 {
        let (status, body, cage) = serve(&mut router, &canaries, &request(Some("site")), vec![5]);
        assert_eq!(status, 200);
        assert_eq!(body, vec![5]);
        per_cage[cage.unwrap() as usize] += 1;
    }
    assert_eq!(per_cage, [3, 3, 3]);
    let stats = router.stats();
    assert_eq!(stats.total_requests, 9);
    assert_eq!(stats.successful_requests, 9);
    assert_eq!(stats.success_rate(), 100);
}

#[test]
fn counters_balance_with_requests_in_flight() {
    let mut router = Router::new(RouterConfig { strategy: LoadBalancingStrategy::LeastConnected, ..RouterConfig::default() });
    let canaries = CanaryManager::new();
    router.register_pool("site".to_string(), pool_of("site", 2));
    let first = router.route_request(&request(Some("site")), &canaries, 0);
    let second = router.route_request(&request(Some("site")), &canaries, 0);
    let _ = router.route_request(&request(Some("other")), &canaries, 0);
    assert_eq!(router.total_requests, router.successful_requests + router.failed_requests + router.in_flight);
    assert_eq!(router.in_flight, 2);
    let (RouteDecision::Dispatch(a), RouteDecision::Dispatch(b)) = (first, second) else { panic!("both dispatched") };
    assert_ne!(a.cage_id, b.cage_id);
    let resp = router.complete_request(&a, ExecOutcome::Trapped);
    assert_eq!(resp.status, 500);
    router.complete_request(&b, ExecOutcome::Completed(vec![]));
    assert_eq!(router.total_requests, router.successful_requests + router.failed_requests + router.in_flight);
    assert_eq!((router.successful_requests, router.failed_requests, router.in_flight), (1, 2, 0));
}

#[test]
fn circuit_open_cage_is_bypassed_with_503() {
    let mut router = Router::new(RouterConfig::default());
    let canaries = CanaryManager::new();
    let mut pool = pool_of("site", 1);
    for _ in 0..3 {
        pool.cages[0].breaker.record_failure();
    }
    router.register_pool("site".to_string(), pool);
    let (status, _, _) = serve(&mut router, &canaries, &request(Some("site")), vec![1]);
    assert_eq!(status, 503);
    let (status, _, _) = serve(&mut router, &canaries, &request(Some("site")), vec![1]);
    assert_eq!(status, 503);
    let pool = router.unregister_pool("site").unwrap();
    let mut pool = pool;
    pool.cages[0].breaker.try_half_open();
    router.register_pool("site".to_string(), pool);
    let (status, _, _) = serve(&mut router, &canaries, &request(Some("site")), vec![1]);
    assert_eq!(status, 200);
}

#[test]
fn vetoed_requests_are_answered_early() {
    let mut router = Router::new(RouterConfig::default());
    assert!(router.screen_request(&RequestDecision::Allow).is_none());
    let resp = router.screen_request(&RequestDecision::RateLimited { retry_after_ms: 1000 }).unwrap();
    assert_eq!(resp.status, 429);
    let resp = router.screen_request(&RequestDecision::Banned { reason: "scan".to_string(), until_ms: 5 }).unwrap();
    assert_eq!(resp.status, 403);
    assert_eq!(router.stats().failed_requests, 2);
}

#[test]
fn register_replaces_and_unregister_hands_back() {
    let mut router = Router::new(RouterConfig::default());
    assert!(router.register_pool("a".to_string(), pool_of("a", 1)).is_none());
    let old = router.register_pool("A".to_string(), pool_of("a", 2)).unwrap();
    assert_eq!(old.size(), 1);
    assert_eq!(router.pool_count(), 1);
    let back = router.unregister_pool("a").unwrap();
    assert_eq!(back.size(), 2);
    assert_eq!(router.pool_count(), 0);
    assert!(router.unregister_pool("a").is_none());
}

#[test]
fn health_report_lists_every_pool() {
    let mut router = Router::new(RouterConfig::default());
    router.register_pool("a".to_string(), pool_of("a", 2));
    router.register_pool("b".to_string(), CagePool::empty("b".to_string(), CageConfig::default(), 1).unwrap());
    let report = router.pool_health_report();
    assert_eq!(report.len(), 2);
    assert_eq!(report.iter().filter(|s| s.is_healthy()).count(), 1);
    assert!(router.pool_health("A").unwrap().is_healthy());
    assert!(!router.pool_health("b").unwrap().is_healthy());
    assert!(router.pool_health("c").is_none());
}

#[test]
fn completion_counts_the_request_on_the_cage() {
    let mut router = Router::new(RouterConfig::default());
    let canaries = CanaryManager::new();
    router.register_pool("site".to_string(), pool_of("site", 3));
    for _ in 0..9 {
        serve(&mut router, &canaries, &request(Some("site")), vec![5]);
    }
    let pool = router.unregister_pool("site").unwrap();
    assert!(pool.cages.iter().all(|c| c.total_request_count() == 3 && c.active_request_count() == 0));
}
