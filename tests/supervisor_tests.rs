use pear::cage::config::CageConfig;
use pear::pool::CagePool;
use pear::router::{Router, RouterConfig};
use pear::supervisor::{calculate_backoff, HealAction, Supervisor, SupervisorConfig};

#[test]
fn test_supervisor_creation() {
    let supervisor = Supervisor::new(SupervisorConfig::default());
    let stats = supervisor.stats();
    assert_eq!(stats.supervised_pools, 0);
    assert_eq!(stats.healing_events, 0);
}

#[test]
fn test_backoff_calculation() {
    assert_eq!(calculate_backoff(0, 1000, 60000), 1000);
    assert_eq!(calculate_backoff(1, 1000, 60000), 2000);
    assert_eq!(calculate_backoff(2, 1000, 60000), 4000);
}

#[test]
fn test_backoff_cap() {
    assert_eq!(calculate_backoff(10, 1000, 10000), 10000);
    assert_eq!(calculate_backoff(200, u64::MAX / 2, u64::MAX), u64::MAX);
}

#[test]
fn start_is_a_test_and_set() {
    let mut supervisor = Supervisor::new(SupervisorConfig::default());
    assert!(supervisor.start());
    assert!(!supervisor.start());
    supervisor.stop();
    assert!(!supervisor.stats().is_running);
}

#[test]
fn crash_and_heal_within_two_sweeps() {
    let mut router = Router::new(RouterConfig::default());
    let mut pool = CagePool::empty("site".to_string(), CageConfig::default(), 3).unwrap();
    assert_eq!(pool.maintain_replicas(&vec![Ok(()); 3]), 0);
    pool.mark_crashed(1);
    router.register_pool("site".to_string(), pool);
    let mut supervisor = Supervisor::new(SupervisorConfig::default());
    supervisor.register_pool("site".to_string(), vec![0, 97, 115, 109]);

    let mut now = 0u64;
    for _sweep in 0..2 {
        now += 5000;
        let stats = router.pool_health("site").unwrap();
        if supervisor.heal_pool("site", &stats, now) == HealAction::Heal {
            router.maintain_pool("site", &vec![Ok(()); 3]).unwrap();
        }
    }
    assert_eq!(router.pool_health("site").unwrap().healthy_cages, 3);
    assert!(supervisor.stats().healing_events >= 1);
}

#[test]
fn backoff_defers_and_attempts_cap_gives_up() {
    let config = SupervisorConfig { max_respawn_attempts: 2, ..SupervisorConfig::default() };
    let mut supervisor = Supervisor::new(config);
    supervisor.register_pool("s".to_string(), vec![]);
    let mut pool = CagePool::empty("s".to_string(), CageConfig::default(), 1).unwrap();
    let stats = pool.health_stats();
    assert_eq!(supervisor.heal_pool("s", &stats, 0), HealAction::Heal);
    assert_eq!(supervisor.heal_pool("s", &stats, 1999), HealAction::Deferred);
    assert_eq!(supervisor.heal_pool("s", &stats, 2000), HealAction::Heal);
    assert_eq!(supervisor.heal_pool("s", &stats, 100000), HealAction::GaveUp);
    assert_eq!(supervisor.stats().healing_events, 2);
    assert!(supervisor.reset_attempts("s"));
    assert_eq!(supervisor.heal_pool("s", &stats, 100000), HealAction::Heal);
    pool.maintain_replicas(&vec![Ok(())]);
    let healthy = pool.health_stats();
    assert_eq!(supervisor.heal_pool("s", &healthy, 200000), HealAction::Healthy);
    assert_eq!(supervisor.heal_pool("other", &healthy, 0), HealAction::NotSupervised);
}

#[test]
fn rollout_owned_pools_are_skipped() {
    let mut supervisor = Supervisor::new(SupervisorConfig::default());
    supervisor.register_pool("s".to_string(), vec![]);
    assert!(supervisor.set_rollout_owned("s", true));
    let pool = CagePool::empty("s".to_string(), CageConfig::default(), 1).unwrap();
    assert_eq!(supervisor.heal_pool("s", &pool.health_stats(), 0), HealAction::RolloutOwned);
    supervisor.unregister_pool("s");
    assert_eq!(supervisor.stats().supervised_pools, 0);
}
