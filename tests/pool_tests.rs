use pear::cage::config::CageConfig;
use pear::cage::{CageError, CageState, ExecOutcome};
use pear::pool::CagePool;

fn pool_of(n: usize) -> CagePool {
    CagePool::new("test-site".to_string(), CageConfig::default(), n, &vec![Ok(()); n]).unwrap()
}

#[test]
fn test_pool_creation() {
    let pool = pool_of(3);
    assert_eq!(pool.size(), 3);
    assert_eq!(pool.site_id(), "test-site");
}

#[test]
fn test_round_robin_selection() {
    let mut pool = pool_of(3);
    assert!(pool.get_cage_round_robin().is_some());
    assert!(pool.get_cage_round_robin().is_some());
}

#[test]
fn test_health_stats() {
    let pool = pool_of(3);
    let stats = pool.health_stats();
    assert_eq!(stats.total_cages, 3);
    assert!(stats.is_healthy());
    assert!(stats.health_percentage() > 0);
    assert_eq!(stats.health_percentage(), 100);
}

#[test]
fn spawned_cages_get_fresh_ids_and_names() {
    let mut pool = CagePool::empty("shop".to_string(), CageConfig::default(), 2).unwrap();
    assert_eq!(pool.spawn_cage(Ok(())), Ok(0));
    assert_eq!(pool.spawn_cage(Err(CageError::Compile)), Err(CageError::Compile));
    assert_eq!(pool.spawn_cage(Ok(())), Ok(2));
    assert_eq!(pool.size(), 2);
    assert_eq!(pool.cages[0].name(), "shop-cage-0");
    assert_eq!(pool.cages[1].name(), "shop-cage-2");
    assert_eq!(pool.cages[1].state(), CageState::Running);
}

#[test]
fn round_robin_cycles_and_skips_unhealthy() {
    let mut pool = pool_of(3);
    let picks: Vec<usize> = (0..6).map(|_| pool.get_cage_round_robin().unwrap()).collect();
    assert_eq!(picks, vec![0, 1, 2, 0, 1, 2]);
    pool.mark_crashed(1);
    let picks: Vec<usize> = (0..3).map(|_| pool.get_cage_round_robin().unwrap()).collect();
    assert_eq!(picks, vec![0, 2, 2]);
}

#[test]
fn no_healthy_cage_gives_none() {
    let mut empty = CagePool::empty("s".to_string(), CageConfig::default(), 0).unwrap();
    assert_eq!(empty.get_cage_round_robin(), None);
    let mut pool = pool_of(2);
    pool.mark_crashed(0);
    pool.mark_crashed(1);
    assert_eq!(pool.get_cage_round_robin(), None);
    assert_eq!(pool.get_cage_least_connected(), None);
}

#[test]
fn least_connected_prefers_the_idlest_and_the_first_on_ties() {
    let mut pool = pool_of(3);
    assert_eq!(pool.get_cage_least_connected(), Some(0));
    pool.begin_request(0).unwrap();
    pool.begin_request(0).unwrap();
    pool.begin_request(1).unwrap();
    assert_eq!(pool.get_cage_least_connected(), Some(2));
    pool.begin_request(2).unwrap();
    assert_eq!(pool.get_cage_least_connected(), Some(1));
}

#[test]
fn remove_crashed_keeps_live_cages_in_order() {
    let mut pool = pool_of(4);
    pool.mark_crashed(1);
    pool.mark_crashed(3);
    let stats = pool.health_stats();
    assert_eq!(stats.crashed_cages, 2);
    assert_eq!(stats.healthy_cages, 2);
    assert_eq!(pool.remove_crashed_cages(), 2);
    assert_eq!(pool.size(), 2);
    assert_eq!(pool.cages[0].id(), 0);
    assert_eq!(pool.cages[1].id(), 2);
    assert!(pool.cages.iter().all(|c| c.state() != CageState::Crashed && c.state() != CageState::Terminated));
}

#[test]
fn maintain_replicas_refills_and_is_idempotent() {
    let mut pool = pool_of(3);
    pool.mark_crashed(0);
    assert_eq!(pool.maintain_replicas(&vec![Ok(()); 3]), 0);
    assert_eq!(pool.size(), 3);
    let before = pool.size();
    assert_eq!(pool.maintain_replicas(&vec![Ok(()); 3]), 0);
    assert_eq!(pool.size(), before);
}

#[test]
fn maintain_replicas_reports_spawn_failures() {
    let mut pool = CagePool::empty("s".to_string(), CageConfig::default(), 3).unwrap();
    let failures = pool.maintain_replicas(&vec![Ok(()), Err(CageError::Instantiate), Ok(())]);
    assert_eq!(failures, 1);
    assert_eq!(pool.size(), 2);
    assert_eq!(pool.maintain_replicas(&vec![Ok(()); 3]), 0);
    assert_eq!(pool.size(), 3);
}

#[test]
fn finish_request_through_the_pool() {
    let mut pool = pool_of(1);
    pool.begin_request(0).unwrap();
    assert_eq!(pool.find_admitted(0), Some(0));
    assert_eq!(pool.finish_request(0, ExecOutcome::Completed(vec![1])), Ok(vec![1]));
    assert_eq!(pool.find_admitted(0), None);
    assert_eq!(pool.cages[0].total_request_count(), 1);
}

#[test]
fn health_check_all_counts_running_cages() {
    let mut pool = pool_of(3);
    pool.mark_crashed(2);
    assert_eq!(pool.health_check_all(100), 2);
    assert_eq!(pool.cages[0].last_health_check_ms, 100);
}

#[test]
fn construction_aborts_on_a_failed_spawn() {
    let results = vec![Ok(()), Err(CageError::Link), Ok(())];
    let pool = CagePool::new("s".to_string(), CageConfig::default(), 3, &results);
    assert_eq!(pool.err(), Some(CageError::Link));
    let mut bad = CageConfig::default();
    bad.max_concurrent_requests = 0;
    assert!(matches!(
        CagePool::new("s".to_string(), bad, 1, &vec![Ok(())]),
        Err(CageError::InvalidConfig(_))
    ));
    let pool = CagePool::new("s".to_string(), CageConfig::default(), 2, &vec![Ok(()); 2]).unwrap();
    assert_eq!(pool.cages[1].id(), 1);
    assert_eq!(pool.next_cage_id, 2);
}

#[test]
fn replacements_get_ids_above_every_earlier_one() {
    let mut pool = pool_of(3);
    pool.mark_crashed(0);
    pool.mark_crashed(2);
    assert_eq!(pool.maintain_replicas(&vec![Ok(()); 3]), 0);
    let ids: Vec<u64> = pool.cages.iter().map(|c| c.id()).collect();
    assert_eq!(ids, vec![1, 3, 4]);
    assert!(pool.cages[1..].iter().all(|c| c.is_healthy() && c.active_request_count() == 0));
}

#[test]
fn terminating_a_cage_by_index() {
    let mut pool = pool_of(2);
    pool.begin_request(1).unwrap();
    assert!(!pool.terminate_cage(1, 0));
    assert!(pool.terminate_cage(0, 0));
    assert_eq!(pool.cages[0].state(), CageState::Terminated);
    assert_eq!(pool.cages[1].state(), CageState::Terminating);
    assert_eq!(pool.remove_crashed_cages(), 1);
}
