//! The router: a registry from site key to pool, request dispatch under a
//! selection strategy and canary gating, and request counters.
//!
//! Routing is split around the module invocation: `route_request` picks and
//! admits a Cage, or answers at once with an error status; the caller runs
//! the module and hands the engine's report to `complete_request`.
use vstd::prelude::*;
use vstd::string::*;
use crate::cage::{Cage, CageError, ExecOutcome, finish_post};
use crate::ai::{RequestDecision, STATUS_FORBIDDEN, STATUS_TOO_MANY_REQUESTS};
use crate::deployment::{CanaryManager, FULL_TRAFFIC_BP, random_below, routes_to};
use crate::health::CircuitState;
use crate::pool::{CagePool, PoolHealthStats, lc_pick, maintain_post, rr_pick, stats_of};
use crate::sites::{fold_key, normalize_key, opt_text};

pub mod strategies;

verus! {

/// Status of a routed response.
pub const STATUS_OK: u16 = 200;
pub const STATUS_NOT_FOUND: u16 = 404;
pub const STATUS_INTERNAL_ERROR: u16 = 500;
pub const STATUS_UNAVAILABLE: u16 = 503;

/// Site key used when a request has no Host header.
pub const DEFAULT_SITE: &'static str = "default-site";

/// How a pool picks a Cage.
#[derive(Debug, Clone, Copy, PartialEq, Eq, Structural)]
pub enum LoadBalancingStrategy {
    RoundRobin,
    LeastConnected,
}

/// Router settings.
#[derive(Debug, Clone, Copy)]
pub struct RouterConfig {
    pub strategy: LoadBalancingStrategy,
    pub health_check_enabled: bool,
    pub health_check_interval_secs: u64,
}

impl Default for RouterConfig {
    /// Round robin, with health reports every five seconds.
    fn default() -> (r: Self)
        ensures
            r.strategy == LoadBalancingStrategy::RoundRobin,
            r.health_check_enabled,
            r.health_check_interval_secs == 5,
    {
        RouterConfig {
            strategy: LoadBalancingStrategy::RoundRobin,
            health_check_enabled: true,
            health_check_interval_secs: 5,
        }
    }
}

/// A decoded request as the transport hands it over.
#[derive(Debug, Clone)]
pub struct RouteRequest {
    pub method: String,
    pub uri: String,
    /// The Host header, if present.
    pub host: Option<String>,
    /// The beta cookie, if present.
    pub beta_cookie: Option<String>,
    /// The beta query parameter, if present.
    pub beta_query: Option<String>,
}

/// A response as the router forms it.
#[derive(Debug, Clone)]
pub struct RouteResponse {
    pub status: u16,
    pub body: Vec<u8>,
}

/// A Cage admitted to serve one request.
#[derive(Debug, Clone)]
pub struct Dispatch {
    pub site_id: String,
    /// Whether the canary pool of the site serves it.
    pub canary: bool,
    pub cage_id: u64,
    /// What the module receives.
    pub payload: String,
}

/// What `route_request` decided.
#[derive(Debug, Clone)]
pub enum RouteDecision {
    /// Answer at once, without running any module.
    Respond(RouteResponse),
    /// Run the module of the admitted Cage, then call `complete_request`.
    Dispatch(Dispatch),
}

/// Request counters of the router.
#[derive(Debug, Clone, Copy)]
pub struct RouterStats {
    pub total_requests: u64,
    pub successful_requests: u64,
    pub failed_requests: u64,
    pub active_pools: usize,
}

impl RouterStats {
    /// Successful requests per hundred, rounded down; zero before any
    /// request, and zero for counts that do not come from one router.
    pub fn success_rate(&self) -> (r: u64)
        ensures
            self.total_requests == 0 ==> r == 0,
            self.successful_requests > self.total_requests ==> r == 0,
            self.total_requests > 0 && self.successful_requests <= self.total_requests
                ==> r == (100 * self.successful_requests as int) / (self.total_requests as int),
    {
        if self.total_requests == 0 || self.successful_requests > self.total_requests {
            0
        } else {
            let s: u128 = self.successful_requests as u128;
            let t: u128 = self.total_requests as u128;
            assert((s * 100) as int / (t as int) <= 100) by (nonlinear_arith)
                requires s <= t, t > 0;
            ((s * 100) / t) as u64
        }
    }
}

/// The site key of a request: its Host header, else the default site.
pub open spec fn spec_site_of(req: RouteRequest) -> Seq<char> {
    match req.host {
        Some(h) => h@,
        None => DEFAULT_SITE@,
    }
}

/// The payload a module receives for a request.
pub open spec fn spec_payload(req: RouteRequest) -> Seq<char> {
    "{\"method\":\""@ + req.method@ + "\",\"uri\":\""@ + req.uri@ + "\"}"@
}

pub open spec fn opt_string_text(o: Option<String>) -> Option<Seq<char>> {
    match o {
        Some(s) => Some(s@),
        None => None,
    }
}

fn opt_str(o: &Option<String>) -> (r: Option<&str>)
    ensures
        opt_text(r) == opt_string_text(*o),
{
    match o {
        Some(s) => Some(s.as_str()),
        None => None,
    }
}

/// The error body of a status: a JSON object with the message and the code.
pub open spec fn spec_error_body(status: u16) -> Seq<char> {
    if status == STATUS_NOT_FOUND {
        "{\"error\":\"Site not found\",\"status\":404}"@
    } else if status == STATUS_UNAVAILABLE {
        "{\"error\":\"No healthy instances available\",\"status\":503}"@
    } else {
        "{\"error\":\"Request execution failed\",\"status\":500}"@
    }
}

/// An error response with its JSON body.
pub fn error_response(status: u16) -> (r: RouteResponse)
    ensures
        r.status == status,
        exists|s: &str| s@ == spec_error_body(status) && r.body@ == s.spec_bytes(),
{
    let text: &str = if status == STATUS_NOT_FOUND {
        "{\"error\":\"Site not found\",\"status\":404}"
    } else if status == STATUS_UNAVAILABLE {
        "{\"error\":\"No healthy instances available\",\"status\":503}"
    } else {
        "{\"error\":\"Request execution failed\",\"status\":500}"
    };
    proof {
        reveal_strlit("{\"error\":\"Site not found\",\"status\":404}");
        reveal_strlit("{\"error\":\"No healthy instances available\",\"status\":503}");
        reveal_strlit("{\"error\":\"Request execution failed\",\"status\":500}");
    }
    RouteResponse { status, body: text.as_bytes_vec() }
}

/// The site key of `req` (see `spec_site_of`).
pub fn extract_site_id(req: &RouteRequest) -> (r: String)
    ensures
        r@ == spec_site_of(*req),
{
    match &req.host {
        Some(h) => h.clone(),
        None => String::from_str(DEFAULT_SITE),
    }
}

/// The payload handed to the module: `{"method":"<method>","uri":"<uri>"}`.
pub fn serialize_request(req: &RouteRequest) -> (r: String)
    ensures
        r@ == spec_payload(*req),
{
    let mut s = String::from_str("{\"method\":\"");
    s.append(req.method.as_str());
    s.append("\",\"uri\":\"");
    s.append(req.uri.as_str());
    s.append("\"}");
    s
}

/// Pools by folded site key, in a `dashmap::DashMap`.
pub type PoolMap = dashmap::DashMap<String, CagePool>;

/// What a pool map holds.
pub uninterp spec fn pool_map(m: PoolMap) -> Map<Seq<char>, CagePool>;

/// Relies on `DashMap::new`: an empty map.
#[verifier::external_body]
fn pool_map_new() -> (r: PoolMap)
    ensures
        pool_map(r).dom() == Set::<Seq<char>>::empty(),
{
    dashmap::DashMap::new()
}

/// Relies on `DashMap::insert`: the key maps to the value afterwards, and
/// the value it replaced is returned.
#[verifier::external_body]
fn pool_map_insert(m: &mut PoolMap, key: String, value: CagePool) -> (r: Option<CagePool>)
    ensures
        pool_map(*final(m)) == pool_map(*old(m)).insert(key@, value),
        r == pool_map(*old(m)).get(key@),
{
    m.insert(key, value)
}

/// Relies on `DashMap::remove`: the key is gone afterwards, and its value is
/// handed back.
#[verifier::external_body]
fn pool_map_remove(m: &mut PoolMap, key: &str) -> (r: Option<CagePool>)
    ensures
        pool_map(*final(m)) == pool_map(*old(m)).remove(key@),
        r == pool_map(*old(m)).get(key@),
{
    m.remove(key).map(|(_, v)| v)
}

/// Relies on `DashMap::contains_key`.
#[verifier::external_body]
fn pool_map_contains(m: &PoolMap, key: &str) -> (r: bool)
    ensures
        r == pool_map(*m).dom().contains(key@),
{
    m.contains_key(key)
}

/// Relies on `DashMap::len`: the number of entries.
#[verifier::external_body]
fn pool_map_len(m: &PoolMap) -> (r: usize)
    ensures
        r == pool_map(*m).dom().len(),
{
    m.len()
}

/// Relies on `DashMap::iter`, which visits every entry once, in an order
/// that depends on hashing: the keys, each once.
#[verifier::external_body]
fn pool_map_keys(m: &PoolMap) -> (r: Vec<String>)
    ensures
        r@.len() == pool_map(*m).dom().len(),
        forall|i: int| 0 <= i < r@.len() ==> pool_map(*m).dom().contains(#[trigger] r@[i]@),
        forall|i: int, j: int| 0 <= i < r@.len() && 0 <= j < r@.len() && i != j ==> (#[trigger] r@[i])@ != (#[trigger] r@[j])@,
        forall|k: Seq<char>| pool_map(*m).dom().contains(k) ==> exists|i: int| 0 <= i < r@.len() && #[trigger] r@[i]@ == k,
{
    m.iter().map(|e| e.key().clone()).collect()
}

/// A pool map whose entries are all well formed.
pub open spec fn pools_wf(m: PoolMap) -> bool {
    &&& pool_map(m).dom().finite()
    &&& forall|k: Seq<char>| pool_map(m).dom().contains(k) ==> (#[trigger] pool_map(m)[k]).wf()
}

/// The traffic router.
#[derive(Debug)]
pub struct Router {
    /// Stable pools by site.
    pub pools: PoolMap,
    /// Canary pools by site, serving the new module version.
    pub canary_pools: PoolMap,
    pub config: RouterConfig,
    pub total_requests: u64,
    pub successful_requests: u64,
    pub failed_requests: u64,
    /// Requests dispatched and not yet completed.
    pub in_flight: u64,
}

impl Router {
    /// Pools well formed, and every request counted once: as a success, a
    /// failure, or in flight.
    pub open spec fn wf(&self) -> bool {
        &&& pools_wf(self.pools)
        &&& pools_wf(self.canary_pools)
        &&& self.total_requests == self.successful_requests + self.failed_requests + self.in_flight
    }

    /// The canary pools when `canary`, else the stable ones.
    pub open spec fn table(&self, canary: bool) -> PoolMap {
        if canary { self.canary_pools } else { self.pools }
    }

    /// The pool registered for `site` in the canary table when `canary`,
    /// else in the stable one.
    pub open spec fn pool(&self, canary: bool, site: Seq<char>) -> Option<CagePool> {
        pool_map(self.table(canary)).get(fold_key(site))
    }

    pub fn new(config: RouterConfig) -> (r: Self)
        ensures
            r.wf(),
            r.config == config,
            forall|canary: bool, site: Seq<char>| r.pool(canary, site).is_none(),
            r.total_requests == 0,
            r.successful_requests == 0,
            r.failed_requests == 0,
            r.in_flight == 0,
    {
        Router {
            pools: pool_map_new(),
            canary_pools: pool_map_new(),
            config,
            total_requests: 0,
            successful_requests: 0,
            failed_requests: 0,
            in_flight: 0,
        }
    }

    /// Registers or replaces a pool; a replaced pool is handed back to the
    /// caller, who owns its lifetime.
    fn register_in(&mut self, canary: bool, site_id: String, pool: CagePool) -> (r: Option<CagePool>)
        requires
            old(self).wf(),
            pool.wf(),
        ensures
            final(self).wf(),
            final(self).pool(canary, site_id@) == Some(pool),
            forall|k: Seq<char>| fold_key(k) != fold_key(site_id@) ==> final(self).pool(canary, k) == old(self).pool(canary, k),
            r == old(self).pool(canary, site_id@),
            final(self).table(!canary) == old(self).table(!canary),
            final(self).config == old(self).config,
            final(self).total_requests == old(self).total_requests,
            final(self).successful_requests == old(self).successful_requests,
            final(self).failed_requests == old(self).failed_requests,
            final(self).in_flight == old(self).in_flight,
    {
        let key = normalize_key(site_id.as_str());
        if canary {
            pool_map_insert(&mut self.canary_pools, key, pool)
        } else {
            pool_map_insert(&mut self.pools, key, pool)
        }
    }

    /// Registers or replaces the pool of `site_id` (see `register_in`).
    pub fn register_pool(&mut self, site_id: String, pool: CagePool) -> (r: Option<CagePool>)
        requires
            old(self).wf(),
            pool.wf(),
        ensures
            final(self).wf(),
            final(self).pool(false, site_id@) == Some(pool),
            forall|k: Seq<char>| fold_key(k) != fold_key(site_id@) ==> final(self).pool(false, k) == old(self).pool(false, k),
            r == old(self).pool(false, site_id@),
            final(self).canary_pools == old(self).canary_pools,
            final(self).config == old(self).config,
            final(self).total_requests == old(self).total_requests,
            final(self).successful_requests == old(self).successful_requests,
            final(self).failed_requests == old(self).failed_requests,
            final(self).in_flight == old(self).in_flight,
    {
        self.register_in(false, site_id, pool)
    }

    /// Registers or replaces the canary pool of `site_id`.
    pub fn register_canary_pool(&mut self, site_id: String, pool: CagePool) -> (r: Option<CagePool>)
        requires
            old(self).wf(),
            pool.wf(),
        ensures
            final(self).wf(),
            final(self).pool(true, site_id@) == Some(pool),
            forall|k: Seq<char>| fold_key(k) != fold_key(site_id@) ==> final(self).pool(true, k) == old(self).pool(true, k),
            r == old(self).pool(true, site_id@),
            final(self).pools == old(self).pools,
            final(self).config == old(self).config,
            final(self).total_requests == old(self).total_requests,
            final(self).successful_requests == old(self).successful_requests,
            final(self).failed_requests == old(self).failed_requests,
            final(self).in_flight == old(self).in_flight,
    {
        self.register_in(true, site_id, pool)
    }

    /// Removes the pool of `site_id` from the registry and hands it back,
    /// untouched.
    pub fn unregister_pool(&mut self, site_id: &str) -> (r: Option<CagePool>)
        requires
            old(self).wf(),
        ensures
            final(self).wf(),
            final(self).pool(false, site_id@).is_none(),
            forall|k: Seq<char>| fold_key(k) != fold_key(site_id@) ==> final(self).pool(false, k) == old(self).pool(false, k),
            r == old(self).pool(false, site_id@),
            final(self).canary_pools == old(self).canary_pools,
            final(self).config == old(self).config,
            final(self).total_requests == old(self).total_requests,
            final(self).successful_requests == old(self).successful_requests,
            final(self).failed_requests == old(self).failed_requests,
            final(self).in_flight == old(self).in_flight,
    {
        let key = normalize_key(site_id);
        pool_map_remove(&mut self.pools, key.as_str())
    }

    /// Number of registered stable pools.
    pub fn pool_count(&self) -> (r: usize)
        ensures
            r == pool_map(self.pools).dom().len(),
    {
        pool_map_len(&self.pools)
    }

    /// The counters and the number of registered pools.
    pub fn stats(&self) -> (r: RouterStats)
        ensures
            r.total_requests == self.total_requests,
            r.successful_requests == self.successful_requests,
            r.failed_requests == self.failed_requests,
            r.active_pools == pool_map(self.pools).dom().len(),
    {
        RouterStats {
            total_requests: self.total_requests,
            successful_requests: self.successful_requests,
            failed_requests: self.failed_requests,
            active_pools: pool_map_len(&self.pools),
        }
    }

    /// The health statistics of the stable pool of `site_id`.
    pub fn pool_health(&mut self, site_id: &str) -> (r: Option<PoolHealthStats>)
        requires
            old(self).wf(),
        ensures
            final(self).wf(),
            forall|canary: bool, k: Seq<char>| final(self).pool(canary, k) == old(self).pool(canary, k),
            final(self).canary_pools == old(self).canary_pools,
            r.is_some() == old(self).pool(false, site_id@).is_some(),
            r.is_some() ==> stats_of(old(self).pool(false, site_id@).unwrap(), r.unwrap()),
            final(self).config == old(self).config,
            final(self).total_requests == old(self).total_requests,
            final(self).successful_requests == old(self).successful_requests,
            final(self).failed_requests == old(self).failed_requests,
            final(self).in_flight == old(self).in_flight,
    {
        let key = normalize_key(site_id);
        self.stats_at(key.as_str())
    }

    /// The health statistics of the stable pool stored under exactly `key`.
    fn stats_at(&mut self, key: &str) -> (r: Option<PoolHealthStats>)
        requires
            old(self).wf(),
        ensures
            final(self).wf(),
            pool_map(final(self).pools) == pool_map(old(self).pools),
            final(self).canary_pools == old(self).canary_pools,
            r.is_some() == pool_map(old(self).pools).dom().contains(key@),
            r.is_some() ==> stats_of(pool_map(old(self).pools)[key@], r.unwrap()),
            final(self).config == old(self).config,
            final(self).total_requests == old(self).total_requests,
            final(self).successful_requests == old(self).successful_requests,
            final(self).failed_requests == old(self).failed_requests,
            final(self).in_flight == old(self).in_flight,
    {
        let ghost m0 = pool_map(self.pools);
        match pool_map_remove(&mut self.pools, key) {
            None => {
                assert(pool_map(self.pools) =~= m0);
                None
            },
            Some(pool) => {
                let stats = pool.health_stats();
                let owned = String::from_str(key);
                let _ = pool_map_insert(&mut self.pools, owned, pool);
                assert(pool_map(self.pools) =~= m0);
                Some(stats)
            },
        }
    }

    /// The health statistics of every stable pool, each once, in the map's
    /// order: what the periodic health report logs. It heals nothing.
    pub fn pool_health_report(&mut self) -> (r: Vec<PoolHealthStats>)
        requires
            old(self).wf(),
        ensures
            final(self).wf(),
            pool_map(final(self).pools) == pool_map(old(self).pools),
            final(self).canary_pools == old(self).canary_pools,
            r@.len() == pool_map(old(self).pools).dom().len(),
            exists|ks: Seq<Seq<char>>| {
                &&& ks.len() == r@.len()
                &&& ks.no_duplicates()
                &&& forall|i: int| 0 <= i < ks.len() ==> pool_map(old(self).pools).dom().contains(#[trigger] ks[i])
                    && stats_of(pool_map(old(self).pools)[ks[i]], r@[i])
            },
            final(self).config == old(self).config,
            final(self).total_requests == old(self).total_requests,
            final(self).successful_requests == old(self).successful_requests,
            final(self).failed_requests == old(self).failed_requests,
            final(self).in_flight == old(self).in_flight,
    {
        let keys = pool_map_keys(&self.pools);
        let ghost m0 = pool_map(self.pools);
        let ghost ks = keys@.map_values(|k: String| k@);
        let mut out: Vec<PoolHealthStats> = Vec::new();
        let mut i: usize = 0;
        while i < keys.len()
            invariant
                self.wf(),
                pool_map(self.pools) == m0,
                m0 == pool_map(old(self).pools),
                ks == keys@.map_values(|k: String| k@),
                forall|j: int| 0 <= j < keys@.len() ==> m0.dom().contains(#[trigger] keys@[j]@),
                self.canary_pools == old(self).canary_pools,
                self.config == old(self).config,
                self.total_requests == old(self).total_requests,
                self.successful_requests == old(self).successful_requests,
                self.failed_requests == old(self).failed_requests,
                self.in_flight == old(self).in_flight,
                i <= keys@.len(),
                out@.len() == i,
                forall|j: int| 0 <= j < i ==> stats_of(m0[#[trigger] ks[j]], out@[j]),
            decreases keys@.len() - i,
        {
            let st = self.stats_at(keys[i].as_str());
            match st {
                Some(stats) => { out.push(stats); },
                None => { assert(false); },
            }
            i = i + 1;
        }
        proof {
            assert(ks.len() == out@.len());
            assert forall|a: int, b: int| 0 <= a < ks.len() && 0 <= b < ks.len() && a != b implies ks[a] != ks[b] by {
                assert(keys@[a]@ != keys@[b]@);
            }
            assert forall|j: int| 0 <= j < ks.len() implies m0.dom().contains(#[trigger] ks[j])
                && stats_of(m0[ks[j]], out@[j]) by {
                assert(ks[j] == keys@[j]@);
            }
            assert(ks.no_duplicates());
            assert(ks.len() == out@.len() && ks.no_duplicates() && forall|j: int| 0 <= j < ks.len()
                ==> m0.dom().contains(#[trigger] ks[j]) && stats_of(m0[ks[j]], out@[j]));
        }
        out
    }

    /// Whether `req` goes to the canary pool of its site: the canary
    /// coordinator sends it there and such a pool is registered.
    pub open spec fn uses_canary(&self, canaries: CanaryManager, req: RouteRequest, roll_bp: u64) -> bool {
        let site = spec_site_of(req);
        &&& match canaries.canary(site) {
            Some(c) => routes_to(c, opt_string_text(req.beta_cookie), opt_string_text(req.beta_query), roll_bp),
            None => false,
        }
        &&& self.pool(true, site).is_some()
    }

    /// Counts the request and either dispatches it to an admitted Cage or
    /// answers at once: 404 when the site has no pool; 503 when the pool has
    /// no healthy Cage, when the chosen Cage's breaker is open, or when it is
    /// at its concurrency limit. `roll_bp` is the canary draw, in basis points.
    pub fn route_request(&mut self, req: &RouteRequest, canaries: &CanaryManager, roll_bp: u64) -> (r: RouteDecision)
        requires
            old(self).wf(),
            old(self).total_requests < u64::MAX,
        ensures
            route_post(*old(self), *final(self), *req, *canaries, roll_bp, r),
    {
        self.total_requests = self.total_requests + 1;
        let site = extract_site_id(req);
        let key = normalize_key(site.as_str());
        let wants = canaries.should_route_to_canary(site.as_str(), opt_str(&req.beta_cookie), opt_str(&req.beta_query), roll_bp);
        let canary = wants && pool_map_contains(&self.canary_pools, key.as_str());
        let ghost m0 = pool_map(self.table(canary));
        let taken = if canary {
            pool_map_remove(&mut self.canary_pools, key.as_str())
        } else {
            pool_map_remove(&mut self.pools, key.as_str())
        };
        match taken {
            None => {
                assert(pool_map(self.table(canary)) =~= m0);
                self.failed_requests = self.failed_requests + 1;
                RouteDecision::Respond(error_response(STATUS_NOT_FOUND))
            },
            Some(mut pool) => {
                let admitted = dispatch_in(&mut pool, self.config.strategy);
                let ghost k0 = key@;
                let ghost p2 = pool;
                if canary {
                    let _ = pool_map_insert(&mut self.canary_pools, key, pool);
                } else {
                    let _ = pool_map_insert(&mut self.pools, key, pool);
                }
                assert(pool_map(self.table(canary)) =~= m0.insert(k0, p2));
                match admitted {
                    None => {
                        self.failed_requests = self.failed_requests + 1;
                        RouteDecision::Respond(error_response(STATUS_UNAVAILABLE))
                    },
                    Some(cage_id) => {
                        self.in_flight = self.in_flight + 1;
                        RouteDecision::Dispatch(Dispatch {
                            site_id: site,
                            canary,
                            cage_id,
                            payload: serialize_request(req),
                        })
                    },
                }
            },
        }
    }

    /// Closes a dispatched request with the engine's report: 200 with the
    /// module's bytes on success; 500 when the module failed, or when the
    /// admitted Cage can no longer be found in its pool.
    pub fn complete_request(&mut self, d: &Dispatch, outcome: ExecOutcome) -> (r: RouteResponse)
        requires
            old(self).wf(),
        ensures
            final(self).wf(),
            final(self).config == old(self).config,
            final(self).total_requests == old(self).total_requests,
            old(self).in_flight == 0 ==> *final(self) == *old(self) && r.status == STATUS_INTERNAL_ERROR,
            old(self).in_flight > 0 ==> final(self).in_flight == old(self).in_flight - 1,
            r.status == STATUS_OK ==> final(self).successful_requests == old(self).successful_requests + 1
                && final(self).failed_requests == old(self).failed_requests
                && (outcome matches ExecOutcome::Completed(bytes) && r.body == bytes),
            old(self).in_flight > 0 && r.status != STATUS_OK ==> r.status == STATUS_INTERNAL_ERROR
                && final(self).failed_requests == old(self).failed_requests + 1
                && final(self).successful_requests == old(self).successful_requests,
            !(outcome is Completed) ==> r.status != STATUS_OK,
            old(self).in_flight > 0 && outcome is Completed && old(self).pool(d.canary, d.site_id@).is_some()
                && admits(old(self).pool(d.canary, d.site_id@).unwrap(), d.cage_id)
                ==> r.status == STATUS_OK,
            final(self).table(!d.canary) == old(self).table(!d.canary),
            forall|k: Seq<char>| fold_key(k) != fold_key(d.site_id@)
                ==> final(self).pool(d.canary, k) == old(self).pool(d.canary, k),
            ({
                let q = old(self).pool(d.canary, d.site_id@);
                let q2 = final(self).pool(d.canary, d.site_id@);
                if old(self).in_flight > 0 && q.is_some() && admits(q.unwrap(), d.cage_id) {
                    &&& q2.is_some()
                    &&& exists|res: Result<Vec<u8>, CageError>| #[trigger] finished(q.unwrap(), q2.unwrap(), d.cage_id, outcome, res)
                        && (r.status == STATUS_OK <==> res.is_ok())
                } else {
                    q2 == q
                }
            }),
    {
        if self.in_flight == 0 {
            return error_response(STATUS_INTERNAL_ERROR);
        }
        self.in_flight = self.in_flight - 1;
        let key = normalize_key(d.site_id.as_str());
        let ghost m0 = pool_map(self.table(d.canary));
        let taken = if d.canary {
            pool_map_remove(&mut self.canary_pools, key.as_str())
        } else {
            pool_map_remove(&mut self.pools, key.as_str())
        };
        let result = match taken {
            None => {
                assert(pool_map(self.table(d.canary)) =~= m0);
                None
            },
            Some(mut pool) => {
                let ghost q0 = pool;
                let res = finish_on(&mut pool, d.cage_id, outcome);
                let ghost k0 = key@;
                let ghost p2 = pool;
                if d.canary {
                    let _ = pool_map_insert(&mut self.canary_pools, key, pool);
                } else {
                    let _ = pool_map_insert(&mut self.pools, key, pool);
                }
                assert(pool_map(self.table(d.canary)) =~= m0.insert(k0, p2));
                proof {
                    assert(old(self).pool(d.canary, d.site_id@) == Some(q0));
                    assert(self.pool(d.canary, d.site_id@) == Some(p2));
                    if res.is_some() {
                        assert(finished(q0, p2, d.cage_id, outcome, res.unwrap()));
                        assert(finished(old(self).pool(d.canary, d.site_id@).unwrap(),
                            self.pool(d.canary, d.site_id@).unwrap(), d.cage_id, outcome, res.unwrap()));
                    }
                }
                res
            },
        };
        let ghost gres = result;
        let resp = match result {
            Some(Ok(bytes)) => {
                self.successful_requests = self.successful_requests + 1;
                RouteResponse { status: STATUS_OK, body: bytes }
            },
            _ => {
                self.failed_requests = self.failed_requests + 1;
                error_response(STATUS_INTERNAL_ERROR)
            },
        };
        proof {
            if gres.is_some() {
                assert(finished(old(self).pool(d.canary, d.site_id@).unwrap(),
                    self.pool(d.canary, d.site_id@).unwrap(), d.cage_id, outcome, gres.unwrap())
                    && (resp.status == STATUS_OK <==> gres.unwrap().is_ok()));
            }
        }
        resp
    }

    /// `route_request` with a uniform canary draw below `FULL_TRAFFIC_BP`.
    pub fn route_request_sampled(&mut self, req: &RouteRequest, canaries: &CanaryManager) -> (r: RouteDecision)
        requires
            old(self).wf(),
            old(self).total_requests < u64::MAX,
        ensures
            exists|roll: u64| roll < FULL_TRAFFIC_BP && route_post(*old(self), *final(self), *req, *canaries, roll, r),
    {
        let roll = random_below(FULL_TRAFFIC_BP);
        self.route_request(req, canaries, roll)
    }

    /// The early-return path for a classifier's veto: a rate-limited or
    /// banned request is counted as failed and answered with 429 or 403
    /// without selecting a Cage; an allowed one is left to `route_request`.
    pub fn screen_request(&mut self, decision: &RequestDecision) -> (r: Option<RouteResponse>)
        requires
            old(self).wf(),
            old(self).total_requests < u64::MAX,
        ensures
            final(self).wf(),
            decision is Allow ==> r.is_none() && *final(self) == *old(self),
            !(decision is Allow) ==> {
                &&& r.is_some()
                &&& r.unwrap().status == if decision is RateLimited { STATUS_TOO_MANY_REQUESTS } else { STATUS_FORBIDDEN }
                &&& r.unwrap().body@.len() == 0
                &&& *final(self) == (Router {
                    total_requests: (old(self).total_requests + 1) as u64,
                    failed_requests: (old(self).failed_requests + 1) as u64,
                    ..*old(self)
                })
            },
    {
        match decision.veto_status() {
            None => None,
            Some(status) => {
                self.total_requests = self.total_requests + 1;
                self.failed_requests = self.failed_requests + 1;
                Some(RouteResponse { status, body: Vec::new() })
            },
        }
    }

    /// Runs `maintain_replicas` on the stable pool of `site_id`, as the
    /// supervisor asks when it decides to heal; `None` without such a pool.
    pub fn maintain_pool(&mut self, site_id: &str, engine_results: &Vec<Result<(), CageError>>) -> (r: Option<usize>)
        requires
            old(self).wf(),
            old(self).pool(false, site_id@).is_some()
                ==> engine_results@.len() >= old(self).pool(false, site_id@).unwrap().target_replicas,
            old(self).pool(false, site_id@).is_some()
                ==> old(self).pool(false, site_id@).unwrap().next_cage_id
                    + old(self).pool(false, site_id@).unwrap().target_replicas <= u64::MAX,
        ensures
            final(self).wf(),
            r.is_none() <==> old(self).pool(false, site_id@).is_none(),
            r.is_none() ==> forall|canary: bool, k: Seq<char>| final(self).pool(canary, k) == old(self).pool(canary, k),
            r.is_some() ==> maintain_post(
                old(self).pool(false, site_id@).unwrap(),
                final(self).pool(false, site_id@).unwrap(),
                engine_results@,
                r.unwrap(),
            ),
            forall|k: Seq<char>| fold_key(k) != fold_key(site_id@) ==> final(self).pool(false, k) == old(self).pool(false, k),
            final(self).canary_pools == old(self).canary_pools,
            final(self).config == old(self).config,
            final(self).total_requests == old(self).total_requests,
            final(self).successful_requests == old(self).successful_requests,
            final(self).failed_requests == old(self).failed_requests,
            final(self).in_flight == old(self).in_flight,
    {
        let key = normalize_key(site_id);
        let ghost m0 = pool_map(self.pools);
        match pool_map_remove(&mut self.pools, key.as_str()) {
            None => {
                assert(pool_map(self.pools) =~= m0);
                None
            },
            Some(mut pool) => {
                let failures = pool.maintain_replicas(engine_results);
                let ghost k0 = key@;
                let ghost p2 = pool;
                let _ = pool_map_insert(&mut self.pools, key, pool);
                assert(pool_map(self.pools) =~= m0.insert(k0, p2));
                Some(failures)
            },
        }
    }
}

/// The ensures of `route_request` from router `s` to `t`, for request
/// `req`, canary coordinator `canaries` and draw `roll_bp`, deciding `r`.
pub open spec fn route_post(s: Router, t: Router, req: RouteRequest, canaries: CanaryManager, roll_bp: u64, r: RouteDecision) -> bool {
    let site = spec_site_of(req);
    let canary = s.uses_canary(canaries, req, roll_bp);
    let before = s.pool(canary, site);
    let after = t.pool(canary, site);
    &&& t.wf()
    &&& t.config == s.config
    &&& t.total_requests == s.total_requests + 1
    &&& t.successful_requests == s.successful_requests
    &&& t.table(!canary) == s.table(!canary)
    &&& forall|k: Seq<char>| fold_key(k) != fold_key(site) ==> t.pool(canary, k) == s.pool(canary, k)
    &&& before.is_none() ==> after.is_none()
    &&& before.is_some() ==> after.is_some() && selected(before.unwrap(), after.unwrap(), s.config.strategy, match r {
        RouteDecision::Dispatch(d) => Some(d.cage_id),
        RouteDecision::Respond(_) => None,
    })
    &&& match r {
        RouteDecision::Respond(resp) => {
            &&& t.failed_requests == s.failed_requests + 1
            &&& t.in_flight == s.in_flight
            &&& before.is_some() <==> resp.status == STATUS_UNAVAILABLE
            &&& before.is_none() <==> resp.status == STATUS_NOT_FOUND
        },
        RouteDecision::Dispatch(d) => {
            &&& t.failed_requests == s.failed_requests
            &&& t.in_flight == s.in_flight + 1
            &&& d.site_id@ == site
            &&& d.canary == canary
            &&& d.payload@ == spec_payload(req)
            &&& before.is_some()
        },
    }
}

/// The Cage `strategy` picks at index `i` of pool `q`.
pub open spec fn picks(q: CagePool, strategy: LoadBalancingStrategy, i: int) -> bool {
    match strategy {
        LoadBalancingStrategy::RoundRobin => rr_pick(q, i),
        LoadBalancingStrategy::LeastConnected => lc_pick(q, i),
    }
}

/// The cursor after one selection under `strategy`: round robin moves it
/// on a non-empty pool.
pub open spec fn next_cursor(q: CagePool, strategy: LoadBalancingStrategy) -> usize {
    if strategy == LoadBalancingStrategy::RoundRobin && q.cages@.len() > 0 {
        q.round_robin_index.wrapping_add(1)
    } else {
        q.round_robin_index
    }
}

/// Pool `q` became `q2` by one selection under `strategy` that admitted a
/// request on the Cage with id `admitted`, or admitted none: the picked Cage
/// is turned away only when its breaker is open or it is at its limit.
pub open spec fn selected(q: CagePool, q2: CagePool, strategy: LoadBalancingStrategy, admitted: Option<u64>) -> bool {
    &&& q2 == (CagePool { cages: q2.cages, round_robin_index: next_cursor(q, strategy), ..q })
    &&& admitted.is_none() ==> {
        &&& q2.cages@ == q.cages@
        &&& (forall|i: int| 0 <= i < q.cages@.len() ==> !q.cages@[i].healthy)
            || exists|i: int| picks(q, strategy, i) && refuses(#[trigger] q.cages@[i])
    }
    &&& admitted.is_some() ==> exists|i: int| picks(q, strategy, i)
        && !refuses(#[trigger] q.cages@[i])
        && q.cages@[i].id == admitted.unwrap()
        && q2.cages@ == q.cages@.update(i, Cage { active_requests: (q.cages@[i].active_requests + 1) as u64, ..q.cages@[i] })
}

/// Pool `q` became `q2` by closing a request on its first Cage with id
/// `cage_id` and a request in flight, as `Cage::finish_request` does with
/// the engine's `outcome`, answering `res`.
pub open spec fn finished(q: CagePool, q2: CagePool, cage_id: u64, outcome: ExecOutcome, res: Result<Vec<u8>, CageError>) -> bool {
    exists|i: int| {
        &&& 0 <= i < q.cages@.len()
        &&& #[trigger] q.cages@[i].id == cage_id
        &&& q.cages@[i].active_requests > 0
        &&& forall|j: int| 0 <= j < i ==> !(#[trigger] q.cages@[j].id == cage_id && q.cages@[j].active_requests > 0)
        &&& q2.cages@ == q.cages@.update(i, q2.cages@[i])
        &&& finish_post(q.cages@[i], q2.cages@[i], outcome, res)
        &&& q2 == (CagePool { cages: q2.cages, ..q })
    }
}

/// A healthy Cage that still turns a request away: its breaker is open or
/// it is at its concurrency limit.
pub open spec fn refuses(c: Cage) -> bool {
    c.breaker.state == CircuitState::Open || c.active_requests >= c.config.max_concurrent_requests
}

/// Selects a Cage of `pool` under `strategy` and admits the request on it;
/// returns the admitted Cage's id.
fn dispatch_in(pool: &mut CagePool, strategy: LoadBalancingStrategy) -> (r: Option<u64>)
    requires
        old(pool).wf(),
    ensures
        final(pool).wf(),
        selected(*old(pool), *final(pool), strategy, r),
{
    let sel = match strategy {
        LoadBalancingStrategy::RoundRobin => pool.get_cage_round_robin(),
        LoadBalancingStrategy::LeastConnected => pool.get_cage_least_connected(),
    };
    match sel {
        None => None,
        Some(i) => {
            if !pool.cages[i].breaker.should_allow_request() {
                None
            } else {
                let ghost before = pool.cages@;
                match pool.begin_request(i) {
                    Ok(()) => {
                        assert(pool.cages@ =~= before.update(i as int, pool.cages@[i as int]));
                        Some(pool.cages[i].id)
                    },
                    Err(_) => {
                        assert(pool.cages@ =~= before);
                        None
                    },
                }
            }
        },
    }
}

/// Closes the request on the first Cage of `pool` with id `cage_id` and a
/// request in flight; `None` when there is no such Cage.
fn finish_on(pool: &mut CagePool, cage_id: u64, outcome: ExecOutcome) -> (r: Option<Result<Vec<u8>, CageError>>)
    requires
        old(pool).wf(),
    ensures
        final(pool).wf(),
        r.is_none() <==> !admits(*old(pool), cage_id),
        r.is_none() ==> *final(pool) == *old(pool),
        r.is_some() ==> finished(*old(pool), *final(pool), cage_id, outcome, r.unwrap()),
        (r matches Some(Ok(bytes)) ==> outcome matches ExecOutcome::Completed(b) && b == bytes),
        (outcome is Completed && r.is_some()) ==> r.unwrap().is_ok(),
{
    match pool.find_admitted(cage_id) {
        None => None,
        Some(i) => {
            let ghost q = *pool;
            let res = pool.finish_request(i, outcome);
            assert(q.cages@[i as int].id == cage_id);
            Some(res)
        },
    }
}

/// Whether pool `q` has a Cage with id `cage_id` and a request in flight.
pub open spec fn admits(q: CagePool, cage_id: u64) -> bool {
    exists|i: int| 0 <= i < q.cages@.len() && #[trigger] q.cages@[i].id == cage_id && q.cages@[i].active_requests > 0
}

/// The router's counters balance: every counted request succeeded, failed,
/// or is in flight.
pub proof fn counters_balance(r: Router)
    requires
        r.wf(),
    ensures
        r.total_requests == r.successful_requests + r.failed_requests + r.in_flight,
{
}

} // verus!
