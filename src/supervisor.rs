//! The self-healing supervisor: per-site respawn records, exponential
//! backoff, and the decision each sweep takes for a pool.
//!
//! A sweep reads a pool's health statistics and asks `heal_pool` what to do;
//! on `HealAction::Heal` the caller runs `CagePool::maintain_replicas`.
use vstd::prelude::*;
use crate::pool::PoolHealthStats;
use crate::sites::{fold_key, normalize_key};

verus! {

/// Two to the power `e`.
pub open spec fn pow2(e: nat) -> nat
    decreases e,
{
    if e == 0 { 1 } else { 2 * pow2((e - 1) as nat) }
}

/// The respawn delay after `attempts` respawns: `min(min_ms * 2^attempts, max_ms)`.
pub open spec fn backoff(attempts: nat, min_ms: nat, max_ms: nat) -> nat {
    let d = min_ms * pow2(attempts);
    if d < max_ms { d } else { max_ms }
}

proof fn lemma_pow2_mono(a: nat, b: nat)
    requires
        a <= b,
    ensures
        pow2(a) <= pow2(b),
    decreases b,
{
    if a < b {
        lemma_pow2_mono(a, (b - 1) as nat);
    }
}

/// Exponential backoff delay in milliseconds (see `backoff`).
pub fn calculate_backoff(attempts: u32, min_ms: u64, max_ms: u64) -> (r: u64)
    ensures
        r == backoff(attempts as nat, min_ms as nat, max_ms as nat),
{
    let mut d: u128 = min_ms as u128;
    let mut k: u32 = 0;
    assert(pow2(0) == 1);
    while k < attempts && d < max_ms as u128
        invariant
            k <= attempts,
            d == min_ms * pow2(k as nat),
            d <= 2 * (max_ms as int) || k == 0,
            k == 0 ==> d == min_ms,
        decreases attempts - k,
    {
        proof {
            assert(pow2((k + 1) as nat) == 2 * pow2(k as nat));
            assert(min_ms * (2 * pow2(k as nat)) == 2 * (min_ms * pow2(k as nat))) by (nonlinear_arith);
        }
        d = d * 2;
        k = k + 1;
    }
    proof {
        if k < attempts {
            lemma_pow2_mono(k as nat, attempts as nat);
            assert(min_ms * pow2(k as nat) <= min_ms * pow2(attempts as nat)) by (nonlinear_arith)
                requires pow2(k as nat) <= pow2(attempts as nat);
        }
    }
    if d < max_ms as u128 { d as u64 } else { max_ms }
}

/// Supervisor settings.
#[derive(Debug, Clone, Copy)]
pub struct SupervisorConfig {
    pub monitoring_interval_secs: u64,
    /// Base of the exponential backoff.
    pub min_respawn_delay_ms: u64,
    /// Cap of the exponential backoff.
    pub max_respawn_delay_ms: u64,
    /// Respawns after which the supervisor gives a pool up.
    pub max_respawn_attempts: u32,
}

impl Default for SupervisorConfig {
    /// Sweeps every five seconds; backoff from one second to one minute; five attempts.
    fn default() -> (r: Self)
        ensures
            r.monitoring_interval_secs == 5,
            r.min_respawn_delay_ms == 1000,
            r.max_respawn_delay_ms == 60000,
            r.max_respawn_attempts == 5,
    {
        SupervisorConfig {
            monitoring_interval_secs: 5,
            min_respawn_delay_ms: 1000,
            max_respawn_delay_ms: 60000,
            max_respawn_attempts: 5,
        }
    }
}

/// The supervisor's record of one pool.
#[derive(Debug)]
pub struct SupervisedPool {
    /// Module bytes new replicas are spawned from.
    pub wasm_bytes: Vec<u8>,
    pub respawn_attempts: u32,
    /// When the pool was last respawned, in milliseconds.
    pub last_respawn_ms: Option<u64>,
    /// Set while a rollout owns the pool's replica count.
    pub rollout_owned: bool,
}

/// What a sweep does for one pool.
#[derive(Debug, Clone, Copy, PartialEq, Eq, Structural)]
pub enum HealAction {
    /// The site is not supervised.
    NotSupervised,
    /// A rollout owns the pool; it is left alone.
    RolloutOwned,
    /// Nothing to heal; the attempt counter was reset.
    Healthy,
    /// The attempts are spent; the pool stays degraded.
    GaveUp,
    /// The backoff has not elapsed; try on a later sweep.
    Deferred,
    /// Respawn now: run `maintain_replicas` on the pool.
    Heal,
}

/// A pool needs healing when a Cage crashed or none serves.
pub open spec fn needs_healing(stats: PoolHealthStats) -> bool {
    stats.crashed_cages > 0 || stats.healthy_cages == 0
}

/// Supervisor statistics.
#[derive(Debug, Clone, Copy)]
pub struct SupervisorStats {
    pub supervised_pools: usize,
    pub healing_events: u64,
    pub is_running: bool,
}

/// Supervised records by folded site key, in a `dashmap::DashMap`.
pub type RecordMap = dashmap::DashMap<String, SupervisedPool>;

/// What a record map holds.
pub uninterp spec fn record_map(m: RecordMap) -> Map<Seq<char>, SupervisedPool>;

/// Relies on `DashMap::new`: an empty map.
#[verifier::external_body]
fn record_map_new() -> (r: RecordMap)
    ensures
        record_map(r).dom() == Set::<Seq<char>>::empty(),
{
    dashmap::DashMap::new()
}

/// Relies on `DashMap::insert`: the key maps to the value afterwards, and
/// the value it replaced is returned.
#[verifier::external_body]
fn record_map_insert(m: &mut RecordMap, key: String, value: SupervisedPool) -> (r: Option<SupervisedPool>)
    ensures
        record_map(*final(m)) == record_map(*old(m)).insert(key@, value),
        r == record_map(*old(m)).get(key@),
{
    m.insert(key, value)
}

/// Relies on `DashMap::remove`: the key is gone afterwards, and its value is
/// handed back.
#[verifier::external_body]
fn record_map_remove(m: &mut RecordMap, key: &str) -> (r: Option<SupervisedPool>)
    ensures
        record_map(*final(m)) == record_map(*old(m)).remove(key@),
        r == record_map(*old(m)).get(key@),
{
    m.remove(key).map(|(_, v)| v)
}

/// Relies on `DashMap::len`: the number of entries.
#[verifier::external_body]
fn record_map_len(m: &RecordMap) -> (r: usize)
    ensures
        r == record_map(*m).dom().len(),
{
    m.len()
}

/// The self-healing supervisor.
#[derive(Debug)]
pub struct Supervisor {
    pub config: SupervisorConfig,
    pub pools: RecordMap,
    pub healing_events: u64,
    pub running: bool,
}

/// The action a sweep takes for record `rec` under `config` at `now_ms`.
pub open spec fn spec_action(config: SupervisorConfig, rec: SupervisedPool, stats: PoolHealthStats, now_ms: u64) -> HealAction {
    if rec.rollout_owned {
        HealAction::RolloutOwned
    } else if !needs_healing(stats) {
        HealAction::Healthy
    } else if rec.respawn_attempts >= config.max_respawn_attempts {
        HealAction::GaveUp
    } else if rec.last_respawn_ms.is_some() && (now_ms as int) - (rec.last_respawn_ms.unwrap() as int)
        < backoff(rec.respawn_attempts as nat, config.min_respawn_delay_ms as nat, config.max_respawn_delay_ms as nat) {
        HealAction::Deferred
    } else {
        HealAction::Heal
    }
}

/// The record after a sweep took `action` at `now_ms`.
pub open spec fn spec_record_after(rec: SupervisedPool, action: HealAction, now_ms: u64) -> SupervisedPool {
    if action == HealAction::Healthy {
        SupervisedPool { respawn_attempts: 0, ..rec }
    } else if action == HealAction::Heal {
        SupervisedPool { respawn_attempts: (rec.respawn_attempts + 1) as u32, last_respawn_ms: Some(now_ms), ..rec }
    } else {
        rec
    }
}

/// The ensures of `heal_pool` for `site`, from supervisor `s` to `t`.
pub open spec fn heal_post(s: Supervisor, t: Supervisor, site: Seq<char>, stats: PoolHealthStats, now_ms: u64, r: HealAction) -> bool {
    &&& t.wf()
    &&& t.config == s.config
    &&& t.running == s.running
    &&& forall|k: Seq<char>| fold_key(k) != fold_key(site) ==> t.record(k) == s.record(k)
    &&& match s.record(site) {
        None => r == HealAction::NotSupervised && t.record(site).is_none() && t.healing_events == s.healing_events,
        Some(rec) => {
            &&& r == spec_action(s.config, rec, stats, now_ms)
            &&& t.record(site) == Some(spec_record_after(rec, r, now_ms))
            &&& t.healing_events == if r == HealAction::Heal {
                crate::health::bump(s.healing_events)
            } else {
                s.healing_events
            }
        },
    }
}

impl Supervisor {
    /// Attempt counters stay within the cap.
    pub open spec fn wf(&self) -> bool {
        &&& record_map(self.pools).dom().finite()
        &&& forall|k: Seq<char>| record_map(self.pools).dom().contains(k)
            ==> (#[trigger] record_map(self.pools)[k]).respawn_attempts <= self.config.max_respawn_attempts
    }

    /// The record of `site`, if it is supervised.
    pub open spec fn record(&self, site: Seq<char>) -> Option<SupervisedPool> {
        record_map(self.pools).get(fold_key(site))
    }

    pub fn new(config: SupervisorConfig) -> (r: Self)
        ensures
            r.wf(),
            r.config == config,
            forall|site: Seq<char>| r.record(site).is_none(),
            r.healing_events == 0,
            !r.running,
    {
        Supervisor { config, pools: record_map_new(), healing_events: 0, running: false }
    }

    /// Supervises the pool of `site_id`, respawning from `wasm_bytes`; a
    /// record already there is replaced by a fresh one.
    pub fn register_pool(&mut self, site_id: String, wasm_bytes: Vec<u8>)
        requires
            old(self).wf(),
        ensures
            final(self).wf(),
            final(self).record(site_id@) == Some(SupervisedPool {
                wasm_bytes,
                respawn_attempts: 0,
                last_respawn_ms: None,
                rollout_owned: false,
            }),
            forall|k: Seq<char>| fold_key(k) != fold_key(site_id@) ==> final(self).record(k) == old(self).record(k),
            final(self).config == old(self).config,
            final(self).healing_events == old(self).healing_events,
            final(self).running == old(self).running,
    {
        let rec = SupervisedPool { wasm_bytes, respawn_attempts: 0, last_respawn_ms: None, rollout_owned: false };
        let key = normalize_key(site_id.as_str());
        let _ = record_map_insert(&mut self.pools, key, rec);
    }

    /// Stops supervising `site_id`.
    pub fn unregister_pool(&mut self, site_id: &str)
        requires
            old(self).wf(),
        ensures
            final(self).wf(),
            final(self).record(site_id@).is_none(),
            forall|k: Seq<char>| fold_key(k) != fold_key(site_id@) ==> final(self).record(k) == old(self).record(k),
            final(self).config == old(self).config,
            final(self).healing_events == old(self).healing_events,
            final(self).running == old(self).running,
    {
        let key = normalize_key(site_id);
        let _ = record_map_remove(&mut self.pools, key.as_str());
    }

    /// Starts the supervisor: a test-and-set of the running flag. False when
    /// it was already running.
    pub fn start(&mut self) -> (r: bool)
        ensures
            r == !old(self).running,
            *final(self) == (Supervisor { running: true, ..*old(self) }),
    {
        let was = self.running;
        self.running = true;
        !was
    }

    pub fn stop(&mut self)
        ensures
            *final(self) == (Supervisor { running: false, ..*old(self) }),
    {
        self.running = false;
    }

    pub fn stats(&self) -> (r: SupervisorStats)
        ensures
            r.supervised_pools == record_map(self.pools).dom().len(),
            r.healing_events == self.healing_events,
            r.is_running == self.running,
    {
        SupervisorStats {
            supervised_pools: record_map_len(&self.pools),
            healing_events: self.healing_events,
            is_running: self.running,
        }
    }

    /// One sweep step for the pool of `site_id`, whose statistics are
    /// `stats`, at time `now_ms`. Healing is needed when a Cage crashed or
    /// none serves. Then: give up once the attempts are spent; wait while
    /// less than the backoff has passed since the last respawn; otherwise
    /// count an attempt and a healing event and answer `Heal`. A pool found
    /// healthy has its attempts reset. Pools owned by a rollout are skipped.
    pub fn heal_pool(&mut self, site_id: &str, stats: &PoolHealthStats, now_ms: u64) -> (r: HealAction)
        requires
            old(self).wf(),
        ensures
            heal_post(*old(self), *final(self), site_id@, *stats, now_ms, r),
    {
        let key = normalize_key(site_id);
        let ghost m0 = record_map(self.pools);
        match record_map_remove(&mut self.pools, key.as_str()) {
            None => {
                assert(record_map(self.pools) =~= m0);
                HealAction::NotSupervised
            },
            Some(mut rec) => {
                let action = if rec.rollout_owned {
                    HealAction::RolloutOwned
                } else if !(stats.crashed_cages > 0 || stats.healthy_cages == 0) {
                    HealAction::Healthy
                } else if rec.respawn_attempts >= self.config.max_respawn_attempts {
                    HealAction::GaveUp
                } else {
                    let delay = calculate_backoff(
                        rec.respawn_attempts,
                        self.config.min_respawn_delay_ms,
                        self.config.max_respawn_delay_ms,
                    );
                    match rec.last_respawn_ms {
                        Some(last) => {
                            if now_ms < last || now_ms - last < delay {
                                HealAction::Deferred
                            } else {
                                HealAction::Heal
                            }
                        },
                        None => HealAction::Heal,
                    }
                };
                if action == HealAction::Healthy {
                    rec.respawn_attempts = 0;
                } else if action == HealAction::Heal {
                    rec.respawn_attempts = rec.respawn_attempts + 1;
                    rec.last_respawn_ms = Some(now_ms);
                    self.healing_events = self.healing_events.saturating_add(1);
                }
                let ghost k0 = key@;
                let ghost r2 = rec;
                let _ = record_map_insert(&mut self.pools, key, rec);
                assert(record_map(self.pools) =~= m0.insert(k0, r2));
                action
            },
        }
    }

    /// Clears the attempt counter of `site_id`, as a finished rollout does.
    pub fn reset_attempts(&mut self, site_id: &str) -> (r: bool)
        requires
            old(self).wf(),
        ensures
            final(self).wf(),
            r == old(self).record(site_id@).is_some(),
            r ==> final(self).record(site_id@) == Some(SupervisedPool {
                respawn_attempts: 0,
                ..old(self).record(site_id@).unwrap()
            }),
            forall|k: Seq<char>| !r || fold_key(k) != fold_key(site_id@) ==> final(self).record(k) == old(self).record(k),
            final(self).config == old(self).config,
            final(self).healing_events == old(self).healing_events,
            final(self).running == old(self).running,
    {
        self.set_record(site_id, None)
    }

    /// Sets or clears the rollout-owner flag of `site_id`.
    pub fn set_rollout_owned(&mut self, site_id: &str, owned: bool) -> (r: bool)
        requires
            old(self).wf(),
        ensures
            final(self).wf(),
            r == old(self).record(site_id@).is_some(),
            r ==> final(self).record(site_id@) == Some(SupervisedPool {
                rollout_owned: owned,
                ..old(self).record(site_id@).unwrap()
            }),
            forall|k: Seq<char>| !r || fold_key(k) != fold_key(site_id@) ==> final(self).record(k) == old(self).record(k),
            final(self).config == old(self).config,
            final(self).healing_events == old(self).healing_events,
            final(self).running == old(self).running,
    {
        self.set_record(site_id, Some(owned))
    }

    /// Resets the attempts (`owned` is `None`) or sets the owner flag.
    fn set_record(&mut self, site_id: &str, owned: Option<bool>) -> (r: bool)
        requires
            old(self).wf(),
        ensures
            final(self).wf(),
            r == old(self).record(site_id@).is_some(),
            r ==> final(self).record(site_id@) == Some(match owned {
                None => SupervisedPool { respawn_attempts: 0, ..old(self).record(site_id@).unwrap() },
                Some(o) => SupervisedPool { rollout_owned: o, ..old(self).record(site_id@).unwrap() },
            }),
            forall|k: Seq<char>| !r || fold_key(k) != fold_key(site_id@) ==> final(self).record(k) == old(self).record(k),
            final(self).config == old(self).config,
            final(self).healing_events == old(self).healing_events,
            final(self).running == old(self).running,
    {
        let key = normalize_key(site_id);
        let ghost m0 = record_map(self.pools);
        match record_map_remove(&mut self.pools, key.as_str()) {
            None => {
                assert(record_map(self.pools) =~= m0);
                false
            },
            Some(mut rec) => {
                match owned {
                    None => { rec.respawn_attempts = 0; },
                    Some(o) => { rec.rollout_owned = o; },
                }
                let ghost k0 = key@;
                let ghost r2 = rec;
                let _ = record_map_insert(&mut self.pools, key, rec);
                assert(record_map(self.pools) =~= m0.insert(k0, r2));
                true
            },
        }
    }
}

/// Within a healing burst, a sweep that finds the pool still in need of
/// healing never lowers its respawn attempts.
pub proof fn attempts_grow_while_healing(
    s: Supervisor,
    t: Supervisor,
    site: Seq<char>,
    stats: PoolHealthStats,
    now_ms: u64,
    r: HealAction,
)
    requires
        s.wf(),
        heal_post(s, t, site, stats, now_ms, r),
        needs_healing(stats),
        s.record(site).is_some(),
    ensures
        t.record(site).unwrap().respawn_attempts >= s.record(site).unwrap().respawn_attempts,
{
}

/// The healing-events counter never decreases.
pub proof fn healing_events_monotonic(
    s: Supervisor,
    t: Supervisor,
    site: Seq<char>,
    stats: PoolHealthStats,
    now_ms: u64,
    r: HealAction,
)
    requires
        heal_post(s, t, site, stats, now_ms, r),
    ensures
        t.healing_events >= s.healing_events,
{
}

/// Between two respawns of the same pool at least
/// `min(min_delay * 2^(attempts - 1), max_delay)` milliseconds pass, where
/// `attempts` counts the respawns including the new one.
pub proof fn respawn_backoff_respected(
    s: Supervisor,
    t: Supervisor,
    site: Seq<char>,
    stats: PoolHealthStats,
    now_ms: u64,
    last_ms: u64,
)
    requires
        heal_post(s, t, site, stats, now_ms, HealAction::Heal),
        s.record(site).is_some(),
        s.record(site).unwrap().last_respawn_ms == Some(last_ms),
    ensures
        ({
            let attempts = t.record(site).unwrap().respawn_attempts;
            &&& attempts >= 1
            &&& now_ms - last_ms >= backoff(
                (attempts - 1) as nat,
                s.config.min_respawn_delay_ms as nat,
                s.config.max_respawn_delay_ms as nat,
            )
        }),
{
}

} // verus!
