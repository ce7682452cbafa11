//! Canary deployments: a new module version per site, reachable by a beta
//! secret or by a share of traffic, promoted, completed or rolled back, with
//! an error-rate gate that triggers the rollback.
//!
//! Traffic shares are kept in basis points: 10000 is all traffic.
use vstd::prelude::*;
use vstd::string::*;
use rand::Rng;
use crate::sites::{fold_key, normalize_key, opt_text, same_text};

pub mod rollout;

verus! {

/// All traffic, in basis points.
pub const FULL_TRAFFIC_BP: u64 = 10000;
/// Share of traffic a canary gets when promoted: ten percent.
pub const PROMOTION_TRAFFIC_BP: u64 = 1000;
/// Error rate above which a canary is rolled back: five percent.
pub const MAX_ERROR_RATE_BP: u64 = 500;
/// Length of a beta secret.
pub const BETA_SECRET_LEN: usize = 16;
/// Alphabet of beta secrets: base 36, lower case.
pub const BETA_CHARSET: &'static str = "abcdefghijklmnopqrstuvwxyz0123456789";

pub open spec fn beta_charset() -> Seq<char> {
    "abcdefghijklmnopqrstuvwxyz0123456789"@
}

/// Relies on `uuid::Uuid::new_v4` for a random version-4 UUID, returned as
/// its 128-bit value by `Uuid::as_u128`.
#[verifier::external_body]
fn new_canary_id() -> (r: u128) {
    uuid::Uuid::new_v4().as_u128()
}

/// Relies on `rand::Rng::gen_range` over `thread_rng`: a value in `0..n`,
/// which is not empty since `n > 0`.
#[verifier::external_body]
pub(crate) fn random_below(n: u64) -> (r: u64)
    requires
        n > 0,
    ensures
        r < n,
{
    rand::thread_rng().gen_range(0..n)
}

/// Lifecycle of a canary.
#[derive(Debug, Clone, Copy, PartialEq, Eq, Structural)]
pub enum CanaryStatus {
    Testing,
    RollingOut,
    Completed,
    RolledBack,
}

/// Why a canary operation was refused.
#[derive(Debug, Clone, Copy, PartialEq, Eq, Structural)]
pub enum CanaryError {
    /// No canary is registered for the site.
    NotFound,
    /// The canary's status does not allow the transition.
    InvalidStatus,
}

/// A canary deployment of one site.
#[derive(Debug)]
pub struct CanaryDeployment {
    pub site_id: String,
    pub canary_id: u128,
    pub beta_secret: String,
    pub created_at_ms: u64,
    /// Share of traffic routed to the canary, in basis points.
    pub traffic_bp: u64,
    pub status: CanaryStatus,
    pub wasm_module: Vec<u8>,
}

impl CanaryDeployment {
    /// The traffic share stays within bounds and matches the status: none
    /// while testing or rolled back, all once completed.
    pub open spec fn wf(&self) -> bool {
        &&& self.traffic_bp <= FULL_TRAFFIC_BP
        &&& (self.status == CanaryStatus::Testing || self.status == CanaryStatus::RolledBack) ==> self.traffic_bp == 0
        &&& self.status == CanaryStatus::Completed ==> self.traffic_bp == FULL_TRAFFIC_BP
    }
}

/// Request counters of one canary.
#[derive(Debug, Clone, Copy)]
pub struct ErrorStats {
    pub total_requests: u64,
    pub error_count: u64,
    pub started_at_ms: u64,
}

/// Whether `stats` shows an error rate above the ceiling.
pub open spec fn rate_exceeded(stats: ErrorStats) -> bool {
    stats.total_requests > 0
        && stats.error_count as int * FULL_TRAFFIC_BP as int > MAX_ERROR_RATE_BP as int * stats.total_requests as int
}

/// Error counters by canary id, in a `dashmap::DashMap`.
pub type ErrorMap = dashmap::DashMap<u128, ErrorStats>;

/// What an error map holds.
pub uninterp spec fn error_map(m: ErrorMap) -> Map<u128, ErrorStats>;

/// Relies on `DashMap::new`: an empty map.
#[verifier::external_body]
fn error_map_new() -> (r: ErrorMap)
    ensures
        error_map(r).dom() == Set::<u128>::empty(),
{
    dashmap::DashMap::new()
}

/// Relies on `DashMap::insert`: the key maps to the value afterwards, and
/// the value it replaced is returned.
#[verifier::external_body]
fn error_map_insert(m: &mut ErrorMap, key: u128, value: ErrorStats) -> (r: Option<ErrorStats>)
    ensures
        error_map(*final(m)) == error_map(*old(m)).insert(key, value),
        r == error_map(*old(m)).get(key),
{
    m.insert(key, value)
}

/// Relies on `DashMap::get`: the value stored under the key, copied out of
/// the read guard.
#[verifier::external_body]
fn error_map_get(m: &ErrorMap, key: u128) -> (r: Option<ErrorStats>)
    ensures
        r == error_map(*m).get(key),
{
    m.get(&key).map(|e| *e.value())
}

/// Error counters keyed by canary id.
#[derive(Debug)]
pub struct ErrorRateTracker {
    pub errors: ErrorMap,
}

impl ErrorRateTracker {
    /// The record of canary `id`, if any.
    pub open spec fn stats_of(&self, id: u128) -> Option<ErrorStats> {
        error_map(self.errors).get(id)
    }

    pub fn new() -> (r: Self)
        ensures
            forall|id: u128| r.stats_of(id).is_none(),
    {
        ErrorRateTracker { errors: error_map_new() }
    }

    /// Starts counting for canary `id` from zero at `now_ms`.
    pub fn init_tracking(&mut self, id: u128, now_ms: u64)
        ensures
            final(self).stats_of(id) == Some(ErrorStats { total_requests: 0, error_count: 0, started_at_ms: now_ms }),
            forall|other: u128| other != id ==> final(self).stats_of(other) == old(self).stats_of(other),
    {
        let fresh = ErrorStats { total_requests: 0, error_count: 0, started_at_ms: now_ms };
        let _ = error_map_insert(&mut self.errors, id, fresh);
    }

    /// Counts one request of canary `id`, and one error if `is_error`;
    /// unknown ids are ignored. Counters stop at their maximum.
    pub fn record(&mut self, id: u128, is_error: bool)
        ensures
            old(self).stats_of(id).is_none() ==> final(self).stats_of(id).is_none(),
            old(self).stats_of(id).is_some() ==> {
                let s = old(self).stats_of(id).unwrap();
                final(self).stats_of(id) == Some(ErrorStats {
                    total_requests: crate::health::bump(s.total_requests),
                    error_count: if is_error { crate::health::bump(s.error_count) } else { s.error_count },
                    started_at_ms: s.started_at_ms,
                })
            },
            forall|other: u128| other != id ==> final(self).stats_of(other) == old(self).stats_of(other),
    {
        match error_map_get(&self.errors, id) {
            Some(s) => {
                let updated = ErrorStats {
                    total_requests: s.total_requests.saturating_add(1),
                    error_count: if is_error { s.error_count.saturating_add(1) } else { s.error_count },
                    started_at_ms: s.started_at_ms,
                };
                let _ = error_map_insert(&mut self.errors, id, updated);
            },
            None => {},
        }
    }

    /// The counters of canary `id`.
    pub fn stats_for(&self, id: u128) -> (r: Option<ErrorStats>)
        ensures
            r == self.stats_of(id),
    {
        error_map_get(&self.errors, id)
    }

    /// Whether canary `id` has exceeded the error-rate ceiling.
    pub fn rate_exceeded(&self, id: u128) -> (r: bool)
        ensures
            r <==> (self.stats_of(id).is_some() && rate_exceeded(self.stats_of(id).unwrap())),
    {
        match error_map_get(&self.errors, id) {
            Some(s) => {
                let e: u128 = s.error_count as u128;
                let t: u128 = s.total_requests as u128;
                assert(e * 10000 <= u64::MAX as u128 * 10000) by (nonlinear_arith)
                    requires e <= u64::MAX as u128;
                assert(t * 500 <= u64::MAX as u128 * 500) by (nonlinear_arith)
                    requires t <= u64::MAX as u128;
                let lhs: u128 = e * 10000;
                let rhs: u128 = t * 500;
                s.total_requests > 0 && lhs > rhs
            },
            None => false,
        }
    }
}

/// What a user gets back when a canary is created.
#[derive(Debug, Clone)]
pub struct CanaryInfo {
    pub canary_id: u128,
    pub beta_secret: String,
    pub test_url: String,
    pub cookie_header: String,
}

/// A random beta secret: sixteen characters of the base-36 alphabet.
pub fn generate_beta_secret() -> (r: String)
    ensures
        r@.len() == BETA_SECRET_LEN,
        forall|i: int| 0 <= i < r@.len() ==> beta_charset().contains(#[trigger] r@[i]),
{
    let mut s = String::new();
    let mut k: usize = 0;
    proof { reveal_strlit("abcdefghijklmnopqrstuvwxyz0123456789"); }
    assert(BETA_CHARSET@ == beta_charset());
    while k < BETA_SECRET_LEN
        invariant
            k <= BETA_SECRET_LEN,
            s@.len() == k,
            BETA_CHARSET@ == beta_charset(),
            beta_charset().len() == 36,
            forall|i: int| 0 <= i < s@.len() ==> beta_charset().contains(#[trigger] s@[i]),
        decreases BETA_SECRET_LEN - k,
    {
        let idx = random_below(36) as usize;
        let piece = BETA_CHARSET.substring_char(idx, idx + 1);
        let ghost before = s@;
        s.append(piece);
        assert forall|i: int| 0 <= i < s@.len() implies beta_charset().contains(#[trigger] s@[i]) by {
            if i < before.len() {
                assert(s@[i] == before[i]);
            } else {
                assert(s@[i] == beta_charset()[idx as int]);
            }
        }
        k = k + 1;
    }
    s
}

/// The URL that opens the canary of a site with its secret.
pub open spec fn spec_test_url(secret: Seq<char>) -> Seq<char> {
    "https://example.com/?beta="@ + secret
}

/// The header line that carries the secret.
pub open spec fn spec_cookie_header(secret: Seq<char>) -> Seq<char> {
    "X-Pear-Beta: "@ + secret
}

/// Whether a request with these beta attributes and the random draw `roll`
/// (in basis points) goes to canary `c`.
pub open spec fn routes_to(c: CanaryDeployment, cookie: Option<Seq<char>>, query: Option<Seq<char>>, roll: u64) -> bool {
    ||| cookie == Some(c.beta_secret@)
    ||| query == Some(c.beta_secret@)
    ||| (c.status == CanaryStatus::RollingOut && roll < c.traffic_bp)
}

/// Canaries by folded site key, in a `dashmap::DashMap`.
pub type CanaryMap = dashmap::DashMap<String, CanaryDeployment>;

/// What a canary map holds.
pub uninterp spec fn canary_map(m: CanaryMap) -> Map<Seq<char>, CanaryDeployment>;

/// Relies on `DashMap::new`: an empty map.
#[verifier::external_body]
fn canary_map_new() -> (r: CanaryMap)
    ensures
        canary_map(r).dom() == Set::<Seq<char>>::empty(),
{
    dashmap::DashMap::new()
}

/// Relies on `DashMap::insert`: the key maps to the value afterwards, and
/// the value it replaced is returned.
#[verifier::external_body]
fn canary_map_insert(m: &mut CanaryMap, key: String, value: CanaryDeployment) -> (r: Option<CanaryDeployment>)
    ensures
        canary_map(*final(m)) == canary_map(*old(m)).insert(key@, value),
        r == canary_map(*old(m)).get(key@),
{
    m.insert(key, value)
}

/// Relies on `DashMap::remove`: the key is gone afterwards, and its value is
/// handed back.
#[verifier::external_body]
fn canary_map_remove(m: &mut CanaryMap, key: &str) -> (r: Option<CanaryDeployment>)
    ensures
        canary_map(*final(m)) == canary_map(*old(m)).remove(key@),
        r == canary_map(*old(m)).get(key@),
{
    m.remove(key).map(|(_, v)| v)
}

/// Relies on `DashMap::get`: the routing view (`CanaryDeployment::routing`)
/// of the value stored under the key, taken under the read guard.
#[verifier::external_body]
fn canary_map_routing(m: &CanaryMap, key: &str) -> (r: Option<CanaryRouting>)
    ensures
        r.is_some() == canary_map(*m).dom().contains(key@),
        r.is_some() ==> routing_of(canary_map(*m)[key@], r.unwrap()),
{
    m.get(key).map(|e| e.value().routing())
}

/// What routing decisions read of a canary.
#[derive(Debug, Clone)]
pub struct CanaryRouting {
    pub canary_id: u128,
    pub beta_secret: String,
    pub status: CanaryStatus,
    pub traffic_bp: u64,
}

/// `v` holds the routing fields of canary `c`.
pub open spec fn routing_of(c: CanaryDeployment, v: CanaryRouting) -> bool {
    &&& v.canary_id == c.canary_id
    &&& v.beta_secret@ == c.beta_secret@
    &&& v.status == c.status
    &&& v.traffic_bp == c.traffic_bp
}

impl CanaryDeployment {
    /// The fields that routing decisions read.
    pub fn routing(&self) -> (r: CanaryRouting)
        ensures
            routing_of(*self, r),
    {
        CanaryRouting {
            canary_id: self.canary_id,
            beta_secret: self.beta_secret.clone(),
            status: self.status,
            traffic_bp: self.traffic_bp,
        }
    }
}

/// Canary deployments per site, with their error counters.
#[derive(Debug)]
pub struct CanaryManager {
    pub canaries: CanaryMap,
    pub error_tracker: ErrorRateTracker,
}

impl CanaryManager {
    /// Every canary keeps its traffic invariant.
    pub open spec fn wf(&self) -> bool {
        forall|k: Seq<char>| canary_map(self.canaries).dom().contains(k) ==> (#[trigger] canary_map(self.canaries)[k]).wf()
    }

    /// The canary of `site`, if any.
    pub open spec fn canary(&self, site: Seq<char>) -> Option<CanaryDeployment> {
        canary_map(self.canaries).get(fold_key(site))
    }

    pub fn new() -> (r: Self)
        ensures
            r.wf(),
            forall|site: Seq<char>| r.canary(site).is_none(),
    {
        CanaryManager { canaries: canary_map_new(), error_tracker: ErrorRateTracker::new() }
    }

    /// The routing view of the canary of `site_id`.
    pub fn routing(&self, site_id: &str) -> (r: Option<CanaryRouting>)
        ensures
            r.is_some() == self.canary(site_id@).is_some(),
            r.is_some() ==> routing_of(self.canary(site_id@).unwrap(), r.unwrap()),
    {
        let key = normalize_key(site_id);
        canary_map_routing(&self.canaries, key.as_str())
    }

    /// Registers a canary for `site_id` with the given id and secret, in
    /// `Testing` with no traffic, replacing an earlier canary of the site, and
    /// starts its error counters at `now_ms`.
    pub fn create_canary_with(
        &mut self,
        site_id: String,
        wasm_module: Vec<u8>,
        canary_id: u128,
        beta_secret: String,
        now_ms: u64,
    ) -> (r: CanaryInfo)
        requires
            old(self).wf(),
        ensures
            final(self).wf(),
            final(self).canary(site_id@) == Some(CanaryDeployment {
                site_id: final(self).canary(site_id@).unwrap().site_id,
                beta_secret: final(self).canary(site_id@).unwrap().beta_secret,
                canary_id,
                created_at_ms: now_ms,
                traffic_bp: 0,
                status: CanaryStatus::Testing,
                wasm_module,
            }),
            final(self).canary(site_id@).unwrap().site_id@ == site_id@,
            final(self).canary(site_id@).unwrap().beta_secret@ == beta_secret@,
            forall|k: Seq<char>| fold_key(k) != fold_key(site_id@) ==> final(self).canary(k) == old(self).canary(k),
            final(self).error_tracker.stats_of(canary_id) == Some(
                ErrorStats { total_requests: 0, error_count: 0, started_at_ms: now_ms },
            ),
            forall|other: u128| other != canary_id
                ==> final(self).error_tracker.stats_of(other) == old(self).error_tracker.stats_of(other),
            r.canary_id == canary_id,
            r.beta_secret@ == beta_secret@,
            r.test_url@ == spec_test_url(beta_secret@),
            r.cookie_header@ == spec_cookie_header(beta_secret@),
    {
        let key = normalize_key(site_id.as_str());
        let secret_copy = beta_secret.clone();
        let mut test_url = String::from_str("https://example.com/?beta=");
        test_url.append(beta_secret.as_str());
        let mut cookie_header = String::from_str("X-Pear-Beta: ");
        cookie_header.append(beta_secret.as_str());
        let canary = CanaryDeployment {
            site_id,
            canary_id,
            beta_secret,
            created_at_ms: now_ms,
            traffic_bp: 0,
            status: CanaryStatus::Testing,
            wasm_module,
        };
        let _ = canary_map_insert(&mut self.canaries, key, canary);
        self.error_tracker.init_tracking(canary_id, now_ms);
        CanaryInfo { canary_id, beta_secret: secret_copy, test_url, cookie_header }
    }

    /// Registers a canary for `site_id` under a fresh random id and a fresh
    /// sixteen-character base-36 secret (see `create_canary_with`).
    pub fn create_canary(&mut self, site_id: String, wasm_module: Vec<u8>, now_ms: u64) -> (r: Result<CanaryInfo, CanaryError>)
        requires
            old(self).wf(),
        ensures
            final(self).wf(),
            r.is_ok(),
            ({
                let info = r.unwrap();
                let c = final(self).canary(site_id@).unwrap();
                &&& final(self).canary(site_id@).is_some()
                &&& c.canary_id == info.canary_id
                &&& c.beta_secret@ == info.beta_secret@
                &&& c.status == CanaryStatus::Testing
                &&& c.traffic_bp == 0
                &&& c.created_at_ms == now_ms
                &&& c.wasm_module == wasm_module
                &&& info.beta_secret@.len() == BETA_SECRET_LEN
                &&& forall|i: int| 0 <= i < info.beta_secret@.len() ==> beta_charset().contains(#[trigger] info.beta_secret@[i])
                &&& info.test_url@ == spec_test_url(info.beta_secret@)
                &&& info.cookie_header@ == spec_cookie_header(info.beta_secret@)
            }),
            forall|k: Seq<char>| fold_key(k) != fold_key(site_id@) ==> final(self).canary(k) == old(self).canary(k),
            final(self).error_tracker.stats_of(r.unwrap().canary_id) == Some(
                ErrorStats { total_requests: 0, error_count: 0, started_at_ms: now_ms },
            ),
            forall|other: u128| other != r.unwrap().canary_id
                ==> final(self).error_tracker.stats_of(other) == old(self).error_tracker.stats_of(other),
    {
        let canary_id = new_canary_id();
        let beta_secret = generate_beta_secret();
        Ok(self.create_canary_with(site_id, wasm_module, canary_id, beta_secret, now_ms))
    }

    /// Whether a request to `site_id` goes to the canary: its cookie or query
    /// parameter carries the beta secret, or the canary is rolling out and the
    /// draw `roll_bp` falls below its traffic share. False without a canary.
    pub fn should_route_to_canary(
        &self,
        site_id: &str,
        beta_cookie: Option<&str>,
        beta_query: Option<&str>,
        roll_bp: u64,
    ) -> (r: bool)
        ensures
            r == match self.canary(site_id@) {
                Some(c) => routes_to(c, opt_text(beta_cookie), opt_text(beta_query), roll_bp),
                None => false,
            },
    {
        match self.routing(site_id) {
            None => false,
            Some(c) => {
                if let Some(cookie) = beta_cookie {
                    if same_text(cookie, c.beta_secret.as_str()) {
                        return true;
                    }
                }
                if let Some(query) = beta_query {
                    if same_text(query, c.beta_secret.as_str()) {
                        return true;
                    }
                }
                c.status == CanaryStatus::RollingOut && roll_bp < c.traffic_bp
            },
        }
    }

    /// `should_route_to_canary` with a uniform draw below `FULL_TRAFFIC_BP`.
    pub fn should_route_to_canary_sampled(&self, site_id: &str, beta_cookie: Option<&str>, beta_query: Option<&str>) -> (r: bool)
        ensures
            exists|roll: u64| roll < FULL_TRAFFIC_BP
                && r == #[trigger] canary_decision(*self, site_id@, opt_text(beta_cookie), opt_text(beta_query), roll),
    {
        let roll = random_below(FULL_TRAFFIC_BP);
        let r = self.should_route_to_canary(site_id, beta_cookie, beta_query, roll);
        assert(r == canary_decision(*self, site_id@, opt_text(beta_cookie), opt_text(beta_query), roll));
        r
    }


    /// Starts the rollout of a testing canary at ten percent of traffic.
    pub fn promote_to_production(&mut self, site_id: &str) -> (r: Result<(), CanaryError>)
        requires
            old(self).wf(),
        ensures
            final(self).wf(),
            final(self).error_tracker == old(self).error_tracker,
            old(self).canary(site_id@).is_none() ==> r == Err::<(), CanaryError>(CanaryError::NotFound),
            old(self).canary(site_id@).is_some() && old(self).canary(site_id@).unwrap().status != CanaryStatus::Testing
                ==> r == Err::<(), CanaryError>(CanaryError::InvalidStatus),
            r.is_err() ==> forall|k: Seq<char>| final(self).canary(k) == old(self).canary(k),
            r.is_ok() <==> (old(self).canary(site_id@).is_some() && !(old(self).canary(site_id@).unwrap().status != CanaryStatus::Testing)),
            r.is_ok() ==> final(self).canary(site_id@) == Some(CanaryDeployment {
                status: CanaryStatus::RollingOut,
                traffic_bp: PROMOTION_TRAFFIC_BP,
                ..old(self).canary(site_id@).unwrap()
            }),
            forall|k: Seq<char>| fold_key(k) != fold_key(site_id@) ==> final(self).canary(k) == old(self).canary(k),
    {
        let key = normalize_key(site_id);
        let ghost m0 = canary_map(self.canaries);
        match canary_map_remove(&mut self.canaries, key.as_str()) {
            None => {
                assert(canary_map(self.canaries) =~= m0);
                Err(CanaryError::NotFound)
            },
            Some(mut c) => {
                if c.status != CanaryStatus::Testing {
                    let _ = canary_map_insert(&mut self.canaries, key, c);
                    assert(canary_map(self.canaries) =~= m0);
                    return Err(CanaryError::InvalidStatus);
                }
                c.status = CanaryStatus::RollingOut;
                c.traffic_bp = PROMOTION_TRAFFIC_BP;
                let ghost k0 = key@;
                let ghost c2 = c;
                let _ = canary_map_insert(&mut self.canaries, key, c);
                assert(canary_map(self.canaries) =~= m0.insert(k0, c2));
                Ok(())
            },
        }
    }

    /// Sets the traffic share of a rolling-out canary, capped at all traffic.
    pub fn increase_traffic(&mut self, site_id: &str, traffic_bp: u64) -> (r: Result<(), CanaryError>)
        requires
            old(self).wf(),
        ensures
            final(self).wf(),
            final(self).error_tracker == old(self).error_tracker,
            old(self).canary(site_id@).is_none() ==> r == Err::<(), CanaryError>(CanaryError::NotFound),
            old(self).canary(site_id@).is_some() && old(self).canary(site_id@).unwrap().status != CanaryStatus::RollingOut
                ==> r == Err::<(), CanaryError>(CanaryError::InvalidStatus),
            r.is_err() ==> forall|k: Seq<char>| final(self).canary(k) == old(self).canary(k),
            r.is_ok() <==> (old(self).canary(site_id@).is_some() && !(old(self).canary(site_id@).unwrap().status != CanaryStatus::RollingOut)),
            r.is_ok() ==> final(self).canary(site_id@) == Some(CanaryDeployment {
                traffic_bp: if traffic_bp > FULL_TRAFFIC_BP { FULL_TRAFFIC_BP } else { traffic_bp },
                ..old(self).canary(site_id@).unwrap()
            }),
            forall|k: Seq<char>| fold_key(k) != fold_key(site_id@) ==> final(self).canary(k) == old(self).canary(k),
    {
        let key = normalize_key(site_id);
        let ghost m0 = canary_map(self.canaries);
        match canary_map_remove(&mut self.canaries, key.as_str()) {
            None => {
                assert(canary_map(self.canaries) =~= m0);
                Err(CanaryError::NotFound)
            },
            Some(mut c) => {
                if c.status != CanaryStatus::RollingOut {
                    let _ = canary_map_insert(&mut self.canaries, key, c);
                    assert(canary_map(self.canaries) =~= m0);
                    return Err(CanaryError::InvalidStatus);
                }
                c.traffic_bp = if traffic_bp > FULL_TRAFFIC_BP { FULL_TRAFFIC_BP } else { traffic_bp };
                let ghost k0 = key@;
                let ghost c2 = c;
                let _ = canary_map_insert(&mut self.canaries, key, c);
                assert(canary_map(self.canaries) =~= m0.insert(k0, c2));
                Ok(())
            },
        }
    }

    /// Finishes a rollout: the canary takes all traffic.
    pub fn complete_deployment(&mut self, site_id: &str) -> (r: Result<(), CanaryError>)
        requires
            old(self).wf(),
        ensures
            final(self).wf(),
            final(self).error_tracker == old(self).error_tracker,
            old(self).canary(site_id@).is_none() ==> r == Err::<(), CanaryError>(CanaryError::NotFound),
            old(self).canary(site_id@).is_some() && old(self).canary(site_id@).unwrap().status != CanaryStatus::RollingOut
                ==> r == Err::<(), CanaryError>(CanaryError::InvalidStatus),
            r.is_err() ==> forall|k: Seq<char>| final(self).canary(k) == old(self).canary(k),
            r.is_ok() <==> (old(self).canary(site_id@).is_some() && !(old(self).canary(site_id@).unwrap().status != CanaryStatus::RollingOut)),
            r.is_ok() ==> final(self).canary(site_id@) == Some(CanaryDeployment {
                status: CanaryStatus::Completed,
                traffic_bp: FULL_TRAFFIC_BP,
                ..old(self).canary(site_id@).unwrap()
            }),
            forall|k: Seq<char>| fold_key(k) != fold_key(site_id@) ==> final(self).canary(k) == old(self).canary(k),
    {
        let key = normalize_key(site_id);
        let ghost m0 = canary_map(self.canaries);
        match canary_map_remove(&mut self.canaries, key.as_str()) {
            None => {
                assert(canary_map(self.canaries) =~= m0);
                Err(CanaryError::NotFound)
            },
            Some(mut c) => {
                if c.status != CanaryStatus::RollingOut {
                    let _ = canary_map_insert(&mut self.canaries, key, c);
                    assert(canary_map(self.canaries) =~= m0);
                    return Err(CanaryError::InvalidStatus);
                }
                c.status = CanaryStatus::Completed;
                c.traffic_bp = FULL_TRAFFIC_BP;
                let ghost k0 = key@;
                let ghost c2 = c;
                let _ = canary_map_insert(&mut self.canaries, key, c);
                assert(canary_map(self.canaries) =~= m0.insert(k0, c2));
                Ok(())
            },
        }
    }

    /// Rolls a testing or rolling-out canary back: no traffic reaches it any
    /// more. A canary already rolled back stays so; a completed one cannot be
    /// rolled back. `reason` is for the caller's log.
    pub fn rollback(&mut self, site_id: &str, reason: &str) -> (r: Result<(), CanaryError>)
        requires
            old(self).wf(),
        ensures
            final(self).wf(),
            final(self).error_tracker == old(self).error_tracker,
            old(self).canary(site_id@).is_none() ==> r == Err::<(), CanaryError>(CanaryError::NotFound),
            old(self).canary(site_id@).is_some() && old(self).canary(site_id@).unwrap().status == CanaryStatus::Completed
                ==> r == Err::<(), CanaryError>(CanaryError::InvalidStatus),
            r.is_err() ==> forall|k: Seq<char>| final(self).canary(k) == old(self).canary(k),
            r.is_ok() <==> (old(self).canary(site_id@).is_some() && !(old(self).canary(site_id@).unwrap().status == CanaryStatus::Completed)),
            r.is_ok() ==> final(self).canary(site_id@) == Some(CanaryDeployment {
                status: CanaryStatus::RolledBack,
                traffic_bp: 0,
                ..old(self).canary(site_id@).unwrap()
            }),
            forall|k: Seq<char>| fold_key(k) != fold_key(site_id@) ==> final(self).canary(k) == old(self).canary(k),
    {
        let key = normalize_key(site_id);
        let ghost m0 = canary_map(self.canaries);
        match canary_map_remove(&mut self.canaries, key.as_str()) {
            None => {
                assert(canary_map(self.canaries) =~= m0);
                Err(CanaryError::NotFound)
            },
            Some(mut c) => {
                if c.status == CanaryStatus::Completed {
                    let _ = canary_map_insert(&mut self.canaries, key, c);
                    assert(canary_map(self.canaries) =~= m0);
                    return Err(CanaryError::InvalidStatus);
                }
                c.status = CanaryStatus::RolledBack;
                c.traffic_bp = 0;
                let ghost k0 = key@;
                let ghost c2 = c;
                let _ = canary_map_insert(&mut self.canaries, key, c);
                assert(canary_map(self.canaries) =~= m0.insert(k0, c2));
                Ok(())
            },
        }
    }

    /// Counts one request served by canary `canary_id`.
    pub fn record_request(&mut self, canary_id: u128, is_error: bool)
        requires
            old(self).wf(),
        ensures
            final(self).wf(),
            final(self).canaries == old(self).canaries,
            old(self).error_tracker.stats_of(canary_id).is_none() ==> final(self).error_tracker.stats_of(canary_id).is_none(),
            old(self).error_tracker.stats_of(canary_id).is_some() ==> {
                let s = old(self).error_tracker.stats_of(canary_id).unwrap();
                final(self).error_tracker.stats_of(canary_id) == Some(ErrorStats {
                    total_requests: crate::health::bump(s.total_requests),
                    error_count: if is_error { crate::health::bump(s.error_count) } else { s.error_count },
                    started_at_ms: s.started_at_ms,
                })
            },
            forall|other: u128| other != canary_id ==> final(self).error_tracker.stats_of(other) == old(self).error_tracker.stats_of(other),
    {
        self.error_tracker.record(canary_id, is_error);
    }

    /// The automatic rollback gate: when the canary of `site_id` is still
    /// active and more than five percent of its requests failed, it is rolled
    /// back and the answer is true.
    pub fn check_error_rate(&mut self, site_id: &str) -> (r: Result<bool, CanaryError>)
        requires
            old(self).wf(),
        ensures
            final(self).wf(),
            final(self).error_tracker == old(self).error_tracker,
            r.is_ok(),
            r == Ok::<bool, CanaryError>(error_gate_trips(*old(self), site_id@)),
            error_gate_trips(*old(self), site_id@) ==> final(self).canary(site_id@) == Some(CanaryDeployment {
                status: CanaryStatus::RolledBack,
                traffic_bp: 0,
                ..old(self).canary(site_id@).unwrap()
            }),
            !error_gate_trips(*old(self), site_id@) ==> final(self).canaries == old(self).canaries,
            forall|k: Seq<char>| fold_key(k) != fold_key(site_id@) ==> final(self).canary(k) == old(self).canary(k),
    {
        match self.routing(site_id) {
            None => Ok(false),
            Some(c) => {
                if (c.status == CanaryStatus::Testing || c.status == CanaryStatus::RollingOut)
                    && self.error_tracker.rate_exceeded(c.canary_id) {
                    let _ = self.rollback(site_id, "error rate above the ceiling");
                    Ok(true)
                } else {
                    Ok(false)
                }
            },
        }
    }
}

/// What `should_route_to_canary` answers in manager `m` for a request to
/// `site` with these beta attributes and draw `roll`.
pub open spec fn canary_decision(m: CanaryManager, site: Seq<char>, cookie: Option<Seq<char>>, query: Option<Seq<char>>, roll: u64) -> bool {
    match m.canary(site) {
        Some(c) => routes_to(c, cookie, query, roll),
        None => false,
    }
}

/// Whether `check_error_rate` rolls back the canary of `site` in manager `m`.
pub open spec fn error_gate_trips(m: CanaryManager, site: Seq<char>) -> bool {
    match m.canary(site) {
        Some(c) => (c.status == CanaryStatus::Testing || c.status == CanaryStatus::RollingOut)
            && m.error_tracker.stats_of(c.canary_id).is_some()
            && rate_exceeded(m.error_tracker.stats_of(c.canary_id).unwrap()),
        None => false,
    }
}

/// A canary's traffic share lies within all traffic; a testing canary gets
/// none and a completed one gets all.
pub proof fn canary_traffic_bounds(m: CanaryManager, site: Seq<char>)
    requires
        m.wf(),
        m.canary(site).is_some(),
    ensures
        ({
            let c = m.canary(site).unwrap();
            &&& 0 <= c.traffic_bp <= FULL_TRAFFIC_BP
            &&& c.status == CanaryStatus::Testing ==> c.traffic_bp == 0
            &&& c.status == CanaryStatus::Completed ==> c.traffic_bp == FULL_TRAFFIC_BP
        }),
{
    assert(canary_map(m.canaries).dom().contains(fold_key(site)));
}

} // verus!
