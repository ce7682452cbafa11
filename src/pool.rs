//! A pool of replica Cages serving one site: spawning, load-balanced
//! selection, crash removal and replenishment.
use vstd::prelude::*;
use vstd::string::*;
use crate::cage::{Cage, CageError, CageState, ExecOutcome, begin_post, finish_post};
use crate::cage::config::CageConfig;

verus! {

/// The decimal digit `d` as a character.
pub open spec fn digit_char(d: nat) -> char {
    if d == 0 { '0' } else if d == 1 { '1' } else if d == 2 { '2' } else if d == 3 { '3' }
    else if d == 4 { '4' } else if d == 5 { '5' } else if d == 6 { '6' } else if d == 7 { '7' }
    else if d == 8 { '8' } else { '9' }
}

/// `n` written in decimal, without leading zeros.
pub open spec fn decimal(n: nat) -> Seq<char>
    decreases n,
{
    if n < 10 { seq![digit_char(n)] } else { decimal(n / 10).push(digit_char(n % 10)) }
}

/// The name of the Cage numbered `id` in the pool of `site`.
pub open spec fn spec_cage_name(site: Seq<char>, id: u64) -> Seq<char> {
    site + "-cage-"@ + decimal(id as nat)
}

/// The decimal digits, indexed by value.
pub const DIGITS: &'static str = "0123456789";

/// Appends `n` in decimal to `out`.
fn append_decimal(out: &mut String, n: u64)
    ensures
        final(out)@ == old(out)@ + decimal(n as nat),
    decreases n,
{
    if n >= 10 {
        append_decimal(out, n / 10);
    }
    let d = (n % 10) as usize;
    proof { reveal_strlit("0123456789"); }
    let piece = DIGITS.substring_char(d, d + 1);
    proof {
        reveal_strlit("0123456789");
        let ds = "0123456789"@;
        assert(ds[0] == '0' && ds[1] == '1' && ds[2] == '2' && ds[3] == '3' && ds[4] == '4');
        assert(ds[5] == '5' && ds[6] == '6' && ds[7] == '7' && ds[8] == '8' && ds[9] == '9');
        assert(piece@ =~= seq![digit_char(d as nat)]);
    }
    let ghost before = out@;
    out.append(piece);
    proof {
        if n >= 10 {
            assert(decimal(n as nat) == decimal((n / 10) as nat).push(digit_char((n % 10) as nat)));
        } else {
            assert(decimal(n as nat) == seq![digit_char(n as nat)]);
        }
        assert(out@ =~= old(out)@ + decimal(n as nat));
    }
}

/// The name of the Cage numbered `id` in the pool of `site`.
fn cage_name(site: &str, id: u64) -> (r: String)
    ensures
        r@ == spec_cage_name(site@, id),
{
    let mut name = String::from_str(site);
    name.append("-cage-");
    append_decimal(&mut name, id);
    name
}

/// A Cage that `remove_crashed_cages` keeps.
pub open spec fn is_live(c: Cage) -> bool {
    c.state != CageState::Crashed && c.state != CageState::Terminated
}

/// The live Cages of `s`, in order.
pub open spec fn live_cages(s: Seq<Cage>) -> Seq<Cage>
    decreases s.len(),
{
    if s.len() == 0 {
        s
    } else {
        let r = live_cages(s.drop_last());
        if is_live(s.last()) { r.push(s.last()) } else { r }
    }
}

/// How many Cages of `s` satisfy `p`.
pub open spec fn count_cages(s: Seq<Cage>, p: spec_fn(Cage) -> bool) -> nat
    decreases s.len(),
{
    if s.len() == 0 {
        0
    } else {
        count_cages(s.drop_last(), p) + if p(s.last()) { 1nat } else { 0nat }
    }
}

pub open spec fn serving(c: Cage) -> bool {
    c.state == CageState::Running && c.healthy
}

pub open spec fn crashed(c: Cage) -> bool {
    c.state == CageState::Crashed
}

pub open spec fn initializing(c: Cage) -> bool {
    c.state == CageState::Initializing
}

/// How many of the engine's reports in `s` were successes.
pub open spec fn count_ok(s: Seq<Result<(), CageError>>) -> nat
    decreases s.len(),
{
    if s.len() == 0 {
        0
    } else {
        count_ok(s.drop_last()) + if s.last().is_ok() { 1nat } else { 0nat }
    }
}

/// How many replicas a pool holding `live` live Cages must add to reach `target`.
pub open spec fn shortfall(live: nat, target: nat) -> nat {
    if live < target { (target - live) as nat } else { 0 }
}

/// The Cage round-robin selection picks in pool `q`: the first healthy
/// Cage met scanning forward from the cursor modulo the size.
pub open spec fn rr_pick(q: CagePool, i: int) -> bool {
    let n = q.cages@.len() as int;
    let start = q.round_robin_index as int % n;
    &&& 0 <= i < n
    &&& q.cages@[i].healthy
    &&& forall|j: int| 0 <= j < (i - start + n) % n ==> !#[trigger] q.cages@[(start + j) % n].healthy
}

/// The Cage least-connected selection picks in pool `q`: a healthy Cage
/// with the fewest requests in flight, the first one on a tie.
pub open spec fn lc_pick(q: CagePool, i: int) -> bool {
    &&& 0 <= i < q.cages@.len()
    &&& q.cages@[i].healthy
    &&& forall|j: int| 0 <= j < q.cages@.len() && #[trigger] q.cages@[j].healthy
        ==> q.cages@[i].active_requests <= q.cages@[j].active_requests
    &&& forall|j: int| 0 <= j < i && #[trigger] q.cages@[j].healthy
        ==> q.cages@[i].active_requests < q.cages@[j].active_requests
}

/// `s` holds the health statistics of pool `q`: all Cages, serving ones
/// (running and healthy), crashed ones, initializing ones.
pub open spec fn stats_of(q: CagePool, s: PoolHealthStats) -> bool {
    &&& s.site_id@ == q.site_id@
    &&& s.total_cages == q.cages@.len()
    &&& s.healthy_cages == count_cages(q.cages@, |c: Cage| serving(c))
    &&& s.crashed_cages == count_cages(q.cages@, |c: Cage| crashed(c))
    &&& s.initializing_cages == count_cages(q.cages@, |c: Cage| initializing(c))
}

/// Health statistics of a pool.
#[derive(Debug, Clone)]
pub struct PoolHealthStats {
    pub site_id: String,
    pub total_cages: usize,
    pub healthy_cages: usize,
    pub crashed_cages: usize,
    pub initializing_cages: usize,
}

impl PoolHealthStats {
    /// At least one Cage serves.
    pub fn is_healthy(&self) -> (r: bool)
        ensures
            r <==> self.healthy_cages > 0,
    {
        self.healthy_cages > 0
    }

    /// The share of serving Cages in percent, rounded down; zero for an empty
    /// pool. Counts that do not come from one pool (more serving Cages than
    /// Cages) give `u64::MAX`.
    pub fn health_percentage(&self) -> (r: u64)
        ensures
            self.total_cages == 0 ==> r == 0,
            0 < self.total_cages && self.healthy_cages <= self.total_cages
                ==> r == (100 * self.healthy_cages as int) / (self.total_cages as int),
            0 < self.total_cages && self.healthy_cages > self.total_cages ==> r == u64::MAX,
    {
        if self.total_cages == 0 {
            0
        } else if self.healthy_cages > self.total_cages {
            u64::MAX
        } else {
            let h: u128 = self.healthy_cages as u128;
            let t: u128 = self.total_cages as u128;
            assert(h * 100 <= t * 100) by (nonlinear_arith)
                requires h <= t;
            assert((h * 100) as int / (t as int) <= 100) by (nonlinear_arith)
                requires h <= t, t > 0;
            ((h * 100) / t) as u64
        }
    }
}

/// Replicas of one site.
#[derive(Debug)]
pub struct CagePool {
    pub site_id: String,
    /// The replicas, in spawn order.
    pub cages: Vec<Cage>,
    /// Configuration handed to every new replica.
    pub config: CageConfig,
    pub target_replicas: usize,
    /// Id of the next replica; ids grow with spawn order and are never reused.
    pub next_cage_id: u64,
    /// Round-robin cursor.
    pub round_robin_index: usize,
}

impl CagePool {
    /// Every replica keeps its own invariant, and new replicas can be made.
    pub open spec fn wf(&self) -> bool {
        &&& self.config.is_valid()
        &&& forall|i: int| 0 <= i < self.cages@.len() ==> #[trigger] self.cages@[i].wf()
        &&& forall|i: int| 0 <= i < self.cages@.len() ==> #[trigger] self.cages@[i].id < self.next_cage_id
        &&& forall|i: int, j: int| 0 <= i < j < self.cages@.len() ==> #[trigger] self.cages@[i].id < #[trigger] self.cages@[j].id
    }

    pub open spec fn len(&self) -> nat {
        self.cages@.len()
    }

    /// An empty pool for `site_id`; replicas come from `spawn_cage` or
    /// `maintain_replicas`.
    pub fn empty(site_id: String, config: CageConfig, target_replicas: usize) -> (r: Result<CagePool, CageError>)
        ensures
            config.is_valid() <==> r.is_ok(),
            r.is_err() ==> r == Err::<CagePool, CageError>(
                CageError::InvalidConfig(config.spec_error().unwrap()),
            ),
            r.is_ok() ==> {
                let p = r.unwrap();
                &&& p.wf()
                &&& p.site_id == site_id
                &&& p.config == config
                &&& p.target_replicas == target_replicas
                &&& p.cages@.len() == 0
                &&& p.next_cage_id == 0
                &&& p.round_robin_index == 0
            },
    {
        match config.validate() {
            Err(e) => Err(CageError::InvalidConfig(e)),
            Ok(()) => Ok(CagePool {
                site_id,
                cages: Vec::new(),
                config,
                target_replicas,
                next_cage_id: 0,
                round_robin_index: 0,
            }),
        }
    }

    /// A pool for `site_id` with its `target_replicas` initial replicas, the
    /// k-th spawned from the engine's report `engine_results[k]`. Any failed
    /// spawn aborts construction with its error, and the replicas spawned so
    /// far are dropped.
    pub fn new(
        site_id: String,
        config: CageConfig,
        target_replicas: usize,
        engine_results: &Vec<Result<(), CageError>>,
    ) -> (r: Result<CagePool, CageError>)
        requires
            engine_results@.len() >= target_replicas,
        ensures
            !config.is_valid() ==> r == Err::<CagePool, CageError>(
                CageError::InvalidConfig(config.spec_error().unwrap()),
            ),
            config.is_valid() ==> (r.is_ok() <==> forall|k: int| 0 <= k < target_replicas ==> #[trigger] engine_results@[k].is_ok()),
            forall|e: CageError| config.is_valid() && r == Err::<CagePool, CageError>(e)
                ==> exists|k: int| 0 <= k < target_replicas && #[trigger] engine_results@[k] == Err::<(), CageError>(e),
            r.is_ok() ==> {
                let p = r.unwrap();
                &&& p.wf()
                &&& p.site_id == site_id
                &&& p.config == config
                &&& p.target_replicas == target_replicas
                &&& p.cages@.len() == target_replicas
                &&& forall|i: int| 0 <= i < p.cages@.len() ==> (#[trigger] p.cages@[i]).healthy
                    && p.cages@[i].state == CageState::Running && p.cages@[i].id == i
                &&& p.next_cage_id == target_replicas
                &&& p.round_robin_index == 0
            },
    {
        let mut pool = match CagePool::empty(site_id, config, target_replicas) {
            Err(e) => { return Err(e); },
            Ok(p) => p,
        };
        let mut k: usize = 0;
        while k < target_replicas
            invariant
                pool.wf(),
                k <= target_replicas,
                target_replicas <= engine_results@.len(),
                pool.site_id == site_id,
                pool.config == config,
                config.is_valid(),
                pool.target_replicas == target_replicas,
                pool.round_robin_index == 0,
                pool.next_cage_id == k,
                pool.cages@.len() == k,
                forall|j: int| 0 <= j < k ==> #[trigger] engine_results@[j].is_ok(),
                forall|i: int| 0 <= i < pool.cages@.len() ==> (#[trigger] pool.cages@[i]).healthy
                    && pool.cages@[i].state == CageState::Running && pool.cages@[i].id == i,
            decreases target_replicas - k,
        {
            let ghost prev = pool.cages@;
            match pool.spawn_cage(engine_results[k]) {
                Err(e) => {
                    assert(engine_results@[k as int] == Err::<(), CageError>(e));
                    return Err(e);
                },
                Ok(_) => {
                    assert forall|i: int| 0 <= i < pool.cages@.len() implies (#[trigger] pool.cages@[i]).healthy
                        && pool.cages@[i].state == CageState::Running && pool.cages@[i].id == i by {
                        if i < prev.len() {
                            assert(pool.cages@.drop_last()[i] == pool.cages@[i]);
                        }
                    }
                },
            }
            k = k + 1;
        }
        Ok(pool)
    }

    /// Adds a replica once the engine reported on compiling and instantiating
    /// it: on success a `Running` Cage with a fresh id is appended and its id
    /// returned; on failure the engine's error is returned and the id is spent.
    pub fn spawn_cage(&mut self, engine_result: Result<(), CageError>) -> (r: Result<u64, CageError>)
        requires
            old(self).wf(),
            old(self).next_cage_id < u64::MAX,
        ensures
            final(self).wf(),
            final(self).next_cage_id == old(self).next_cage_id + 1,
            final(self).site_id == old(self).site_id,
            final(self).config == old(self).config,
            final(self).target_replicas == old(self).target_replicas,
            final(self).round_robin_index == old(self).round_robin_index,
            r.is_ok() <==> engine_result.is_ok(),
            r.is_err() ==> final(self).cages@ == old(self).cages@,
            engine_result.is_err() ==> r == Err::<u64, CageError>(engine_result->Err_0)
                && final(self).cages@ == old(self).cages@,
            engine_result.is_ok() ==> {
                &&& r == Ok::<u64, CageError>(old(self).next_cage_id)
                &&& final(self).cages@.len() == old(self).cages@.len() + 1
                &&& final(self).cages@.drop_last() == old(self).cages@
                &&& final(self).cages@.last().id == old(self).next_cage_id
                &&& final(self).cages@.last().name@ == spec_cage_name(old(self).site_id@, old(self).next_cage_id)
                &&& final(self).cages@.last().state == CageState::Running
                &&& final(self).cages@.last().healthy
                &&& final(self).cages@.last().active_requests == 0
                &&& final(self).cages@.last().request_count == 0
            },
    {
        let id = self.next_cage_id;
        self.next_cage_id = self.next_cage_id + 1;
        match engine_result {
            Err(e) => Err(e),
            Ok(()) => {
                let name = cage_name(self.site_id.as_str(), id);
                let config = self.config.duplicate();
                match Cage::new(id, name, config) {
                    Err(e) => Err(e),
                    Ok(mut cage) => {
                        let _ = cage.initialize();
                        self.cages.push(cage);
                        assert(self.cages@.drop_last() =~= old(self).cages@);
                        Ok(id)
                    },
                }
            },
        }
    }

    /// Round-robin selection: bumps the cursor and scans forward from the
    /// cursor's old value modulo the size, wrapping once, for the first
    /// healthy Cage. `None` when the pool is empty or none is healthy.
    pub fn get_cage_round_robin(&mut self) -> (r: Option<usize>)
        requires
            old(self).wf(),
        ensures
            final(self).wf(),
            final(self).cages == old(self).cages,
            final(self).site_id == old(self).site_id,
            final(self).config == old(self).config,
            final(self).target_replicas == old(self).target_replicas,
            final(self).next_cage_id == old(self).next_cage_id,
            old(self).cages@.len() == 0 ==> final(self).round_robin_index == old(self).round_robin_index,
            old(self).cages@.len() > 0 ==> final(self).round_robin_index == old(self).round_robin_index.wrapping_add(1),
            r.is_none() <==> forall|i: int| 0 <= i < old(self).cages@.len() ==> !old(self).cages@[i].healthy,
            r.is_some() ==> rr_pick(*old(self), r.unwrap() as int),
    {
        let n = self.cages.len();
        if n == 0 {
            return None;
        }
        let start = self.round_robin_index % n;
        self.round_robin_index = self.round_robin_index.wrapping_add(1);
        self.first_healthy_from(start)
    }

    /// The first healthy Cage met when scanning forward from `start`, wrapping once.
    pub fn first_healthy_from(&self, start: usize) -> (r: Option<usize>)
        requires
            start < self.cages@.len(),
        ensures
            r.is_none() <==> forall|i: int| 0 <= i < self.cages@.len() ==> !self.cages@[i].healthy,
            r.is_some() ==> {
                let n = self.cages@.len() as int;
                let i = r.unwrap() as int;
                &&& 0 <= i < n
                &&& self.cages@[i].healthy
                &&& forall|j: int| 0 <= j < (i - start + n) % n ==> !#[trigger] self.cages@[(start + j) % n].healthy
            },
    {
        let n = self.cages.len();
        let mut offset: usize = 0;
        while offset < n
            invariant
                n == self.cages@.len(),
                n > 0,
                start < n,
                offset <= n,
                forall|j: int| 0 <= j < offset ==> !#[trigger] self.cages@[(start + j) % (n as int)].healthy,
            decreases n - offset,
        {
            let index: usize = if offset < n - start { start + offset } else { offset - (n - start) };
            assert(index as int == (start as int + offset as int) % (n as int)) by (nonlinear_arith)
                requires
                    n > 0, start < n, offset < n,
                    offset < n - start ==> index == start + offset,
                    offset >= n - start ==> index == offset - (n - start);
            if self.cages[index].healthy {
                assert((index as int - start as int + n as int) % (n as int) == offset as int) by (nonlinear_arith)
                    requires
                        n > 0, start < n, offset < n,
                        index as int == (start as int + offset as int) % (n as int);
                return Some(index);
            }
            offset = offset + 1;
        }
        assert forall|i: int| 0 <= i < n implies !self.cages@[i].healthy by {
            let j = (i - start + n) % (n as int);
            assert(0 <= j < n) by (nonlinear_arith)
                requires n > 0, j == (i - start + n) % (n as int);
            assert((start + j) % (n as int) == i) by (nonlinear_arith)
                requires 0 <= i < n, 0 <= start < n, n > 0, j == (i - start + n) % (n as int);
            assert(!self.cages@[(start + j) % (n as int)].healthy);
        }
        None
    }

    /// The healthy Cage with the fewest requests in flight; the first such
    /// Cage in list order on a tie. `None` when none is healthy.
    pub fn get_cage_least_connected(&self) -> (r: Option<usize>)
        ensures
            r.is_none() <==> forall|i: int| 0 <= i < self.cages@.len() ==> !self.cages@[i].healthy,
            r.is_some() ==> lc_pick(*self, r.unwrap() as int),
    {
        let mut best: Option<usize> = None;
        let mut k: usize = 0;
        while k < self.cages.len()
            invariant
                k <= self.cages@.len(),
                best.is_none() ==> forall|j: int| 0 <= j < k ==> !self.cages@[j].healthy,
                best.is_some() ==> {
                    let i = best.unwrap() as int;
                    &&& 0 <= i < k
                    &&& self.cages@[i].healthy
                    &&& forall|j: int| 0 <= j < k && #[trigger] self.cages@[j].healthy
                        ==> self.cages@[i].active_requests <= self.cages@[j].active_requests
                    &&& forall|j: int| 0 <= j < i && #[trigger] self.cages@[j].healthy
                        ==> self.cages@[i].active_requests < self.cages@[j].active_requests
                },
            decreases self.cages@.len() - k,
        {
            if self.cages[k].healthy {
                match best {
                    None => {
                        best = Some(k);
                    },
                    Some(b) => {
                        if self.cages[k].active_requests < self.cages[b].active_requests {
                            best = Some(k);
                        }
                    },
                }
            }
            k = k + 1;
        }
        best
    }

    /// Counts over the current replicas: all, serving (running and healthy),
    /// crashed, initializing.
    pub fn health_stats(&self) -> (r: PoolHealthStats)
        ensures
            stats_of(*self, r),
    {
        let mut healthy: usize = 0;
        let mut crashed_n: usize = 0;
        let mut init_n: usize = 0;
        let mut k: usize = 0;
        while k < self.cages.len()
            invariant
                k <= self.cages@.len(),
                healthy == count_cages(self.cages@.take(k as int), |c: Cage| serving(c)),
                crashed_n == count_cages(self.cages@.take(k as int), |c: Cage| crashed(c)),
                init_n == count_cages(self.cages@.take(k as int), |c: Cage| initializing(c)),
                healthy <= k, crashed_n <= k, init_n <= k,
            decreases self.cages@.len() - k,
        {
            proof {
                lemma_count_step(self.cages@, k as int, |c: Cage| serving(c));
                lemma_count_step(self.cages@, k as int, |c: Cage| crashed(c));
                lemma_count_step(self.cages@, k as int, |c: Cage| initializing(c));
            }
            match self.cages[k].state {
                CageState::Running => {
                    if self.cages[k].healthy {
                        healthy = healthy + 1;
                    }
                },
                CageState::Crashed => {
                    crashed_n = crashed_n + 1;
                },
                CageState::Initializing => {
                    init_n = init_n + 1;
                },
                _ => {},
            }
            k = k + 1;
        }
        assert(self.cages@.take(k as int) =~= self.cages@);
        PoolHealthStats {
            site_id: self.site_id.clone(),
            total_cages: self.cages.len(),
            healthy_cages: healthy,
            crashed_cages: crashed_n,
            initializing_cages: init_n,
        }
    }

    /// Drops every `Crashed` or `Terminated` Cage, keeping the order of the
    /// rest, and returns how many were dropped.
    pub fn remove_crashed_cages(&mut self) -> (r: usize)
        requires
            old(self).wf(),
        ensures
            final(self).wf(),
            final(self).cages@ == live_cages(old(self).cages@),
            forall|i: int| 0 <= i < final(self).cages@.len() ==> is_live(#[trigger] final(self).cages@[i]),
            r == old(self).cages@.len() - final(self).cages@.len(),
            final(self).site_id == old(self).site_id,
            final(self).config == old(self).config,
            final(self).target_replicas == old(self).target_replicas,
            final(self).next_cage_id == old(self).next_cage_id,
            final(self).round_robin_index == old(self).round_robin_index,
    {
        let ghost orig = self.cages@;
        let len_before = self.cages.len();
        let mut i: usize = 0;
        let ghost mut j: int = 0;
        while i < self.cages.len()
            invariant
                self.wf(),
                0 <= i <= j <= orig.len(),
                self.cages@.len() == i + (orig.len() - j),
                self.cages@.take(i as int) == live_cages(orig.take(j)),
                self.cages@.skip(i as int) == orig.skip(j),
                forall|k: int| 0 <= k < i ==> is_live(#[trigger] self.cages@[k]),
                self.site_id == old(self).site_id,
                self.config == old(self).config,
                self.target_replicas == old(self).target_replicas,
                self.next_cage_id == old(self).next_cage_id,
                self.round_robin_index == old(self).round_robin_index,
                len_before == orig.len(),
            decreases self.cages@.len() - i,
        {
            assert(self.cages@[i as int] == orig[j]) by {
                assert(self.cages@.skip(i as int)[0] == orig.skip(j)[0]);
            }
            assert(orig.take(j + 1).drop_last() =~= orig.take(j));
            let st = self.cages[i].state;
            if st != CageState::Crashed && st != CageState::Terminated {
                assert(self.cages@.take(i as int + 1) =~= self.cages@.take(i as int).push(orig[j]));
                assert(self.cages@.skip(i as int + 1) =~= orig.skip(j + 1)) by {
                    assert(self.cages@.skip(i as int + 1) =~= self.cages@.skip(i as int).skip(1));
                    assert(orig.skip(j + 1) =~= orig.skip(j).skip(1));
                }
                i = i + 1;
            } else {
                let ghost before = self.cages@;
                self.cages.remove(i);
                assert(self.cages@.take(i as int) =~= before.take(i as int));
                assert(self.cages@.skip(i as int) =~= orig.skip(j + 1)) by {
                    assert(self.cages@.skip(i as int) =~= before.skip(i as int).skip(1));
                    assert(orig.skip(j + 1) =~= orig.skip(j).skip(1));
                }
            }
            proof { j = j + 1; }
        }
        assert(j == orig.len());
        assert(orig.take(j) =~= orig);
        assert(self.cages@.take(i as int) =~= self.cages@);
        len_before - self.cages.len()
    }

    /// Brings the pool back to `target_replicas`: removes crashed Cages, then
    /// makes one spawn attempt for each missing replica, the k-th attempt
    /// taking `engine_results[k]` as the engine's report. A failed spawn is
    /// left for the next sweep. Returns how many attempts failed.
    pub fn maintain_replicas(&mut self, engine_results: &Vec<Result<(), CageError>>) -> (r: usize)
        requires
            old(self).wf(),
            engine_results@.len() >= old(self).target_replicas,
            old(self).next_cage_id + old(self).target_replicas <= u64::MAX,
        ensures
            maintain_post(*old(self), *final(self), engine_results@, r),
    {
        self.remove_crashed_cages();
        let ghost live = self.cages@;
        let ghost live_len = self.cages@.len();
        let mut failures: usize = 0;
        if self.cages.len() < self.target_replicas {
            let to_spawn = self.target_replicas - self.cages.len();
            let mut k: usize = 0;
            while k < to_spawn
                invariant
                    self.wf(),
                    k <= to_spawn,
                    to_spawn == shortfall(live_len, self.target_replicas as nat),
                    to_spawn <= engine_results@.len(),
                    self.cages@.len() == live_len + count_ok(engine_results@.take(k as int)),
                    self.cages@.take(live_len as int) == live,
                    live == live_cages(old(self).cages@),
                    live_len == live.len(),
                    failures + count_ok(engine_results@.take(k as int)) == k,
                    forall|i: int| 0 <= i < self.cages@.len() ==> is_live(#[trigger] self.cages@[i]),
                    forall|i: int| live_len <= i < self.cages@.len() ==> fresh_replica(#[trigger] self.cages@[i]),
                    forall|i: int| live_len <= i < self.cages@.len() ==> #[trigger] self.cages@[i].id >= old(self).next_cage_id,
                    self.next_cage_id == old(self).next_cage_id + k,
                    old(self).next_cage_id + old(self).target_replicas <= u64::MAX,
                    self.site_id == old(self).site_id,
                    self.config == old(self).config,
                    self.target_replicas == old(self).target_replicas,
                    self.round_robin_index == old(self).round_robin_index,
                decreases to_spawn - k,
            {
                proof {
                    assert(engine_results@.take(k as int + 1).drop_last() =~= engine_results@.take(k as int));
                    assert(engine_results@.take(k as int + 1).last() == engine_results@[k as int]);
                }
                let res = engine_results[k];
                let ghost prev = self.cages@;
                match self.spawn_cage(res) {
                    Ok(_) => {
                        assert(self.cages@.take(live_len as int) =~= prev.take(live_len as int)) by {
                            assert(self.cages@.drop_last() == prev);
                            assert forall|i: int| 0 <= i < live_len implies self.cages@[i] == prev[i] by {
                                assert(self.cages@.drop_last()[i] == self.cages@[i]);
                            }
                        }
                        assert forall|i: int| 0 <= i < self.cages@.len() implies is_live(#[trigger] self.cages@[i]) by {
                            if i < prev.len() {
                                assert(self.cages@.drop_last()[i] == self.cages@[i]);
                            }
                        }
                        assert forall|i: int| live_len <= i < self.cages@.len() implies fresh_replica(#[trigger] self.cages@[i])
                            && self.cages@[i].id >= old(self).next_cage_id by {
                            if i < prev.len() {
                                assert(self.cages@.drop_last()[i] == self.cages@[i]);
                            }
                        }
                    },
                    Err(_) => {
                        failures = failures + 1;
                    },
                }
                k = k + 1;
            }
        } else {
            assert(engine_results@.take(0) =~= Seq::<Result<(), CageError>>::empty());
            assert(self.cages@.take(live_len as int) =~= self.cages@);
        }
        failures
    }

    pub fn site_id(&self) -> (r: &str)
        ensures
            r@ == self.site_id@,
    {
        self.site_id.as_str()
    }

    /// Number of replicas in the pool.
    pub fn size(&self) -> (r: usize)
        ensures
            r == self.cages@.len(),
    {
        self.cages.len()
    }

    /// Admits a request on the Cage at `index` (see `Cage::begin_request`).
    pub fn begin_request(&mut self, index: usize) -> (r: Result<(), CageError>)
        requires
            old(self).wf(),
            index < old(self).cages@.len(),
        ensures
            final(self).wf(),
            final(self).cages@.len() == old(self).cages@.len(),
            final(self).cages@ == old(self).cages@.update(index as int, final(self).cages@[index as int]),
            begin_post(old(self).cages@[index as int], final(self).cages@[index as int], r),
            final(self).site_id == old(self).site_id,
            final(self).config == old(self).config,
            final(self).target_replicas == old(self).target_replicas,
            final(self).next_cage_id == old(self).next_cage_id,
            final(self).round_robin_index == old(self).round_robin_index,
    {
        let r = self.cages[index].begin_request();
        r
    }

    /// Closes a request on the Cage at `index` (see `Cage::finish_request`).
    pub fn finish_request(&mut self, index: usize, outcome: ExecOutcome) -> (r: Result<Vec<u8>, CageError>)
        requires
            old(self).wf(),
            index < old(self).cages@.len(),
            old(self).cages@[index as int].active_requests > 0,
        ensures
            final(self).wf(),
            final(self).cages@.len() == old(self).cages@.len(),
            final(self).cages@ == old(self).cages@.update(index as int, final(self).cages@[index as int]),
            finish_post(old(self).cages@[index as int], final(self).cages@[index as int], outcome, r),
            final(self).site_id == old(self).site_id,
            final(self).config == old(self).config,
            final(self).target_replicas == old(self).target_replicas,
            final(self).next_cage_id == old(self).next_cage_id,
            final(self).round_robin_index == old(self).round_robin_index,
    {
        let r = self.cages[index].finish_request(outcome);
        r
    }

    /// Marks the Cage at `index` crashed (see `Cage::mark_crashed`).
    pub fn mark_crashed(&mut self, index: usize)
        requires
            old(self).wf(),
            index < old(self).cages@.len(),
        ensures
            final(self).wf(),
            final(self).cages@ == old(self).cages@.update(index as int, (Cage {
                state: crate::cage::crashed_state(old(self).cages@[index as int].state),
                healthy: false,
                ..old(self).cages@[index as int]
            })),
            final(self).site_id == old(self).site_id,
            final(self).config == old(self).config,
            final(self).target_replicas == old(self).target_replicas,
            final(self).next_cage_id == old(self).next_cage_id,
            final(self).round_robin_index == old(self).round_robin_index,
    {
        self.cages[index].mark_crashed();
    }

    /// One step of graceful termination of the Cage at `index`, `elapsed_ms`
    /// after it began (see `Cage::terminate`); true once it is terminated.
    pub fn terminate_cage(&mut self, index: usize, elapsed_ms: u64) -> (r: bool)
        requires
            old(self).wf(),
            index < old(self).cages@.len(),
        ensures
            final(self).wf(),
            final(self).cages@.len() == old(self).cages@.len(),
            final(self).cages@ == old(self).cages@.update(index as int, final(self).cages@[index as int]),
            ({
                let c = old(self).cages@[index as int];
                let d = final(self).cages@[index as int];
                &&& !d.healthy
                &&& r <==> d.state == CageState::Terminated
                &&& r <==> (c.state == CageState::Terminated || c.active_requests == 0
                    || elapsed_ms > crate::cage::TERMINATION_GRACE_MS)
                &&& !r ==> d.state == CageState::Terminating
                &&& d == (Cage { state: d.state, healthy: false, ..c })
            }),
            final(self).site_id == old(self).site_id,
            final(self).config == old(self).config,
            final(self).target_replicas == old(self).target_replicas,
            final(self).next_cage_id == old(self).next_cage_id,
            final(self).round_robin_index == old(self).round_robin_index,
    {
        self.cages[index].terminate(elapsed_ms)
    }

    /// Probes every replica at time `now_ms` (see `Cage::health_check`) and
    /// returns how many answered healthy.
    pub fn health_check_all(&mut self, now_ms: u64) -> (r: usize)
        requires
            old(self).wf(),
        ensures
            final(self).wf(),
            final(self).cages@.len() == old(self).cages@.len(),
            forall|i: int| 0 <= i < final(self).cages@.len() ==> {
                let c = old(self).cages@[i];
                let d = #[trigger] final(self).cages@[i];
                &&& d.healthy <==> c.state == CageState::Running
                &&& d == (Cage { healthy: d.healthy, last_health_check_ms: d.last_health_check_ms, ..c })
            },
            r == count_cages(old(self).cages@, |c: Cage| c.state == CageState::Running),
            final(self).site_id == old(self).site_id,
            final(self).config == old(self).config,
            final(self).target_replicas == old(self).target_replicas,
            final(self).next_cage_id == old(self).next_cage_id,
            final(self).round_robin_index == old(self).round_robin_index,
    {
        let mut k: usize = 0;
        let mut healthy: usize = 0;
        while k < self.cages.len()
            invariant
                self.wf(),
                k <= self.cages@.len(),
                healthy <= k,
                healthy == count_cages(old(self).cages@.take(k as int), |c: Cage| c.state == CageState::Running),
                self.cages@.len() == old(self).cages@.len(),
                forall|i: int| 0 <= i < k ==> {
                    let c = old(self).cages@[i];
                    let d = #[trigger] self.cages@[i];
                    &&& d.healthy <==> c.state == CageState::Running
                    &&& d == (Cage { healthy: d.healthy, last_health_check_ms: d.last_health_check_ms, ..c })
                },
                forall|i: int| k <= i < self.cages@.len() ==> self.cages@[i] == old(self).cages@[i],
                self.site_id == old(self).site_id,
                self.config == old(self).config,
                self.target_replicas == old(self).target_replicas,
                self.next_cage_id == old(self).next_cage_id,
                self.round_robin_index == old(self).round_robin_index,
            decreases self.cages@.len() - k,
        {
            proof { lemma_count_step(old(self).cages@, k as int, |c: Cage| c.state == CageState::Running); }
            if self.cages[k].health_check(now_ms) {
                healthy = healthy + 1;
            }
            k = k + 1;
        }
        assert(old(self).cages@.take(k as int) =~= old(self).cages@);
        healthy
    }

    /// The first Cage with id `cage_id` that has a request in flight.
    pub fn find_admitted(&self, cage_id: u64) -> (r: Option<usize>)
        ensures
            r.is_none() ==> forall|i: int| 0 <= i < self.cages@.len()
                ==> !(#[trigger] self.cages@[i].id == cage_id && self.cages@[i].active_requests > 0),
            r.is_some() ==> {
                let i = r.unwrap() as int;
                &&& 0 <= i < self.cages@.len()
                &&& self.cages@[i].id == cage_id
                &&& self.cages@[i].active_requests > 0
                &&& forall|j: int| 0 <= j < i ==> !(#[trigger] self.cages@[j].id == cage_id && self.cages@[j].active_requests > 0)
            },
    {
        let mut i: usize = 0;
        while i < self.cages.len()
            invariant
                i <= self.cages@.len(),
                forall|k: int| 0 <= k < i ==> !(#[trigger] self.cages@[k].id == cage_id && self.cages@[k].active_requests > 0),
            decreases self.cages@.len() - i,
        {
            if self.cages[i].id == cage_id && self.cages[i].active_requests > 0 {
                return Some(i);
            }
            i = i + 1;
        }
        None
    }
}

/// The ensures of `maintain_replicas`, from pool `p` to pool `q` with the
/// engine's reports `results`, `failures` of the spawn attempts failing.
pub open spec fn maintain_post(p: CagePool, q: CagePool, results: Seq<Result<(), CageError>>, failures: usize) -> bool {
    let live = live_cages(p.cages@).len();
    let need = shortfall(live, p.target_replicas as nat);
    &&& q.wf()
    &&& q.site_id == p.site_id
    &&& q.config == p.config
    &&& q.target_replicas == p.target_replicas
    &&& q.round_robin_index == p.round_robin_index
    &&& q.cages@.take(live as int) == live_cages(p.cages@)
    &&& q.cages@.len() == live + count_ok(results.take(need as int))
    &&& failures + count_ok(results.take(need as int)) == need
    &&& forall|i: int| 0 <= i < q.cages@.len() ==> is_live(#[trigger] q.cages@[i])
    &&& forall|i: int| live <= i < q.cages@.len() ==> fresh_replica(#[trigger] q.cages@[i])
    &&& forall|i: int| live <= i < q.cages@.len() ==> #[trigger] q.cages@[i].id >= p.next_cage_id
    &&& q.next_cage_id == p.next_cage_id + need
}

/// A replica just spawned: running, healthy, idle, with no request served.
pub open spec fn fresh_replica(c: Cage) -> bool {
    &&& c.state == CageState::Running
    &&& c.healthy
    &&& c.active_requests == 0
    &&& c.request_count == 0
}

/// Counting one more element of `s` adds one exactly when it satisfies `p`.
pub proof fn lemma_count_step(s: Seq<Cage>, k: int, p: spec_fn(Cage) -> bool)
    requires
        0 <= k < s.len(),
    ensures
        count_cages(s.take(k + 1), p) == count_cages(s.take(k), p) + if p(s[k]) { 1nat } else { 0nat },
        count_cages(s.take(k), p) <= k,
    decreases k,
{
    assert(s.take(k + 1).drop_last() =~= s.take(k));
    if k > 0 {
        lemma_count_step(s, k - 1, p);
    } else {
        assert(s.take(0) =~= Seq::<Cage>::empty());
    }
}

/// A Cage that is neither crashed nor terminated everywhere in `s` leaves
/// `s` unchanged under crash removal.
pub proof fn lemma_all_live(s: Seq<Cage>)
    requires
        forall|i: int| 0 <= i < s.len() ==> is_live(#[trigger] s[i]),
    ensures
        live_cages(s) == s,
    decreases s.len(),
{
    if s.len() > 0 {
        assert forall|i: int| 0 <= i < s.drop_last().len() implies is_live(#[trigger] s.drop_last()[i]) by {
            assert(s.drop_last()[i] == s[i]);
        }
        lemma_all_live(s.drop_last());
        assert(s.drop_last().push(s.last()) =~= s);
    }
}

/// After `maintain_replicas` the pool holds at least `target_replicas`
/// Cages, or one of its spawn attempts failed.
pub proof fn maintain_reaches_target(p: CagePool, q: CagePool, results: Seq<Result<(), CageError>>, failures: usize)
    requires
        maintain_post(p, q, results, failures),
    ensures
        q.cages@.len() >= p.target_replicas || failures > 0,
{
}

/// `maintain_replicas` is idempotent: called on the pool that a first call
/// left with no failed spawn, with no crash in between, it keeps the size
/// and spawns nothing.
pub proof fn maintain_idempotent(
    p: CagePool,
    q: CagePool,
    first: Seq<Result<(), CageError>>,
    f1: usize,
    q2: CagePool,
    second: Seq<Result<(), CageError>>,
    f2: usize,
)
    requires
        maintain_post(p, q, first, f1),
        f1 == 0,
        maintain_post(q, q2, second, f2),
    ensures
        q2.cages@.len() == q.cages@.len(),
        f2 == 0,
{
    lemma_all_live(q.cages@);
    assert(second.take(0) =~= Seq::<Result<(), CageError>>::empty());
}

} // verus!
