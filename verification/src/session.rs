//! The registry of pending Builder ID logins, keyed by login id.

use vstd::prelude::*;
use std::collections::HashMap;
use vstd::std_specs::iter::IteratorSpec;

verus! {

broadcast use vstd::std_specs::hash::group_hash_axioms;

/// Login ids stay below 2^53 - 1, the largest integer a JavaScript number
/// holds exactly, so that the web console reads them back unchanged.
pub const JS_SAFE_MAX: u64 = 0x1f_ffff_ffff_ffff;

/// The settings a login was started with; they end up in the credential
/// that a successful login adds.
pub struct OauthMeta {
    pub priority: u32,
    pub machine_id: Option<String>,
    pub auth_region: Option<String>,
    pub api_region: Option<String>,
    pub proxy_url: Option<String>,
    pub proxy_username: Option<String>,
    pub proxy_password: Option<String>,
    pub endpoint: Option<String>,
    pub email: Option<String>,
}

/// A pending device-code login. `expires_at` is a point of the monotonic
/// clock in milliseconds; `interval` is the polling interval in seconds.
pub struct OauthSession {
    pub client_id: String,
    pub client_secret: String,
    pub device_code: String,
    pub region: String,
    pub expires_at: u64,
    pub interval: u64,
    pub meta: OauthMeta,
}

/// A copy of an optional string.
pub fn clone_text_opt(o: &Option<String>) -> (r: Option<String>)
    ensures
        r == *o,
{
    match o {
        Some(s) => Some(s.clone()),
        None => None,
    }
}

impl Clone for OauthMeta {
    fn clone(&self) -> (r: Self)
        ensures
            r == *self,
    {
        OauthMeta {
            priority: self.priority,
            machine_id: clone_text_opt(&self.machine_id),
            auth_region: clone_text_opt(&self.auth_region),
            api_region: clone_text_opt(&self.api_region),
            proxy_url: clone_text_opt(&self.proxy_url),
            proxy_username: clone_text_opt(&self.proxy_username),
            proxy_password: clone_text_opt(&self.proxy_password),
            endpoint: clone_text_opt(&self.endpoint),
            email: clone_text_opt(&self.email),
        }
    }
}

impl Default for OauthMeta {
    fn default() -> (r: Self)
        ensures
            r.priority == 0,
            r.machine_id is None,
            r.auth_region is None,
            r.api_region is None,
            r.proxy_url is None,
            r.proxy_username is None,
            r.proxy_password is None,
            r.endpoint is None,
            r.email is None,
    {
        OauthMeta {
            priority: 0,
            machine_id: None,
            auth_region: None,
            api_region: None,
            proxy_url: None,
            proxy_username: None,
            proxy_password: None,
            endpoint: None,
            email: None,
        }
    }
}

impl Clone for OauthSession {
    fn clone(&self) -> (r: Self)
        ensures
            r == *self,
    {
        OauthSession {
            client_id: self.client_id.clone(),
            client_secret: self.client_secret.clone(),
            device_code: self.device_code.clone(),
            region: self.region.clone(),
            expires_at: self.expires_at,
            interval: self.interval,
            meta: self.meta.clone(),
        }
    }
}

/// The sessions of `m` that have not expired at `now`: those whose
/// deadline lies strictly after `now`.
pub open spec fn unexpired(m: Map<u64, OauthSession>, now: u64) -> Map<u64, OauthSession> {
    Map::new(|k: u64| m.contains_key(k) && m[k].expires_at > now, |k: u64| m[k])
}

/// `m` with the polling interval of session `id` raised by `extra` seconds
/// (saturating); `m` itself when there is no such session.
pub open spec fn interval_raised(m: Map<u64, OauthSession>, id: u64, extra: u64) -> Map<u64, OauthSession> {
    if m.contains_key(id) {
        let s = m[id];
        m.insert(id, OauthSession { interval: s.interval.saturating_add(extra), ..s })
    } else {
        m
    }
}

/// What a lookup of `id` in `m` gives.
pub open spec fn lookup(m: Map<u64, OauthSession>, id: u64) -> Option<OauthSession> {
    if m.contains_key(id) {
        Some(m[id])
    } else {
        None
    }
}

/// `fastrand::u64(low..high)`: a number drawn at random from `low..high`.
/// The crate panics on an empty range, which `requires` rules out.
#[verifier::external_body]
fn random_u64_in(low: u64, high: u64) -> (r: u64)
    requires
        low < high,
    ensures
        low <= r < high,
{
    fastrand::u64(low..high)
}

/// The integers `1..n` as a set of `u64`.
pub open spec fn ids_below(n: u64) -> Set<u64> {
    Set::new(|x: u64| 1 <= x < n)
}

proof fn lemma_ids_below_len(n: u64)
    ensures
        ids_below(n).finite(),
        ids_below(n).len() == (if n >= 1 { n - 1 } else { 0 }),
    decreases n,
{
    if n <= 1 {
        assert(ids_below(n) =~= Set::<u64>::empty());
    } else {
        let m = (n - 1) as u64;
        lemma_ids_below_len(m);
        assert(ids_below(n) =~= ids_below(m).insert(m));
    }
}

/// The registry of pending logins.
pub struct OauthSessions {
    inner: HashMap<u64, OauthSession>,
}

impl View for OauthSessions {
    type V = Map<u64, OauthSession>;

    closed spec fn view(&self) -> Map<u64, OauthSession> {
        self.inner@
    }
}

impl Default for OauthSessions {
    fn default() -> (r: Self)
        ensures
            r@ == Map::<u64, OauthSession>::empty(),
    {
        OauthSessions { inner: HashMap::new() }
    }
}

impl OauthSessions {
    /// An empty registry.
    pub fn new() -> (r: Self)
        ensures
            r@ == Map::<u64, OauthSession>::empty(),
    {
        OauthSessions { inner: HashMap::new() }
    }

    /// The number of pending logins.
    pub fn len(&self) -> (r: usize)
        ensures
            r == self@.len(),
    {
        self.inner.len()
    }

    /// Stores `session` under `id`, replacing what was there.
    pub fn insert(&mut self, id: u64, session: OauthSession)
        ensures
            final(self)@ == old(self)@.insert(id, session),
    {
        self.inner.insert(id, session);
    }

    /// A copy of the session stored under `id`.
    pub fn get(&self, id: u64) -> (r: Option<OauthSession>)
        ensures
            r == lookup(self@, id),
    {
        match self.inner.get(&id) {
            Some(s) => Some(s.clone()),
            None => None,
        }
    }

    /// Takes the session stored under `id` out of the registry.
    pub fn remove(&mut self, id: u64) -> (r: Option<OauthSession>)
        ensures
            final(self)@ == old(self)@.remove(id),
            r == lookup(old(self)@, id),
    {
        self.inner.remove(&id)
    }

    /// Raises the polling interval of session `id` by `extra_secs`,
    /// saturating at `u64::MAX`; does nothing when there is no such session.
    pub fn increase_interval(&mut self, id: u64, extra_secs: u64)
        ensures
            final(self)@ == interval_raised(old(self)@, id, extra_secs),
    {
        match self.inner.remove(&id) {
            Some(s) => {
                let mut s = s;
                s.interval = s.interval.saturating_add(extra_secs);
                self.inner.insert(id, s);
                proof {
                    assert(self@ =~= interval_raised(old(self)@, id, extra_secs));
                }
            },
            None => {
                proof {
                    assert(self@ =~= old(self)@);
                }
            },
        }
    }

    /// Drops every session whose deadline is not after `now`.
    pub fn gc_expired(&mut self, now: u64)
        ensures
            final(self)@ == unexpired(old(self)@, now),
    {
        let ghost start = self@;
        let ghost pairs = vstd::std_specs::hash::spec_hash_map_iter(&self.inner).remaining();
        let ghost mut done: int = 0;
        let mut expired: Vec<u64> = Vec::new();
        for (k, v) in it: self.inner.iter()
            invariant
                self@ == start,
                it.seq() == pairs,
                done == it.index(),
                forall|j: int| 0 <= j < expired.len() ==>
                    #[trigger] start.contains_key(expired@[j]) && start[expired@[j]].expires_at <= now,
                forall|j: int| 0 <= j < done ==>
                    (#[trigger] pairs[j]).1.expires_at <= now ==> expired@.contains(*pairs[j].0),
        {
            proof {
                assert((k, v) == pairs[done]);
                assert(start.contains_key(*pairs[done].0));
            }
            let ghost before = expired@;
            if v.expires_at <= now {
                expired.push(*k);
                proof {
                    assert(expired@[expired@.len() - 1] == *k);
                }
            }
            proof {
                assert forall|j: int| 0 <= j <= done && (#[trigger] pairs[j]).1.expires_at <= now
                    implies expired@.contains(*pairs[j].0) by {
                    if j < done {
                        let w = choose|w: int| 0 <= w < before.len() && before[w] == *pairs[j].0;
                        assert(expired@[w] == *pairs[j].0);
                    }
                }
                done = done + 1;
            }
        }
        proof {
            assert(done == pairs.len());
            assert forall|k: u64| #[trigger] start.contains_key(k) && start[k].expires_at <= now
                implies expired@.contains(k) by {
                assert(pairs.contains((&k, &start[k])));
                let j = choose|j: int| 0 <= j < pairs.len() && pairs[j] == (&k, &start[k]);
                assert(pairs[j].1.expires_at <= now);
            }
        }
        let mut i: usize = 0;
        while i < expired.len()
            invariant
                0 <= i <= expired.len(),
                forall|j: int| 0 <= j < expired.len() ==>
                    #[trigger] start.contains_key(expired@[j]) && start[expired@[j]].expires_at <= now,
                forall|k: u64| #[trigger] start.contains_key(k) && start[k].expires_at <= now
                    ==> expired@.contains(k),
                self@ == Map::new(
                    |k: u64| start.contains_key(k) && !expired@.subrange(0, i as int).contains(k),
                    |k: u64| start[k],
                ),
            decreases expired.len() - i,
        {
            let k = expired[i];
            self.inner.remove(&k);
            proof {
                let prev = expired@.subrange(0, i as int);
                assert(expired@.subrange(0, i + 1) =~= prev.push(k));
                assert forall|x: u64| prev.push(k).contains(x) <==> (prev.contains(x) || x == k) by {
                    if x == k {
                        assert(prev.push(k)[prev.len() as int] == k);
                    }
                    if prev.contains(x) {
                        let j = choose|j: int| 0 <= j < prev.len() && prev[j] == x;
                        assert(prev.push(k)[j] == x);
                    }
                }
                assert(self@ =~= Map::new(
                    |x: u64| start.contains_key(x) && !expired@.subrange(0, i + 1).contains(x),
                    |x: u64| start[x],
                ));
            }
            i = i + 1;
        }
        proof {
            assert(expired@.subrange(0, expired@.len() as int) =~= expired@);
            assert forall|k: u64| expired@.contains(k) implies
                start.contains_key(k) && start[k].expires_at <= now by {
                let j = choose|j: int| 0 <= j < expired@.len() && expired@[j] == k;
                assert(start.contains_key(expired@[j]));
            }
            assert(self@ =~= unexpired(start, now));
        }
    }

    /// A login id in `1..JS_SAFE_MAX` that no pending login uses, drawn at
    /// random until a free one comes up. Should `u64::MAX` draws all hit
    /// used ids, the smallest free id is taken, so the search ends.
    pub fn fresh_login_id(&self) -> (id: u64)
        requires
            self@.len() < JS_SAFE_MAX - 1,
        ensures
            1 <= id < JS_SAFE_MAX,
            !self@.contains_key(id),
    {
        let mut attempts: u64 = 0;
        while attempts < u64::MAX
            decreases u64::MAX - attempts,
        {
            let id = random_u64_in(1, JS_SAFE_MAX);
            if !self.inner.contains_key(&id) {
                return id;
            }
            attempts = attempts + 1;
        }
        let mut c: u64 = 1;
        while c < JS_SAFE_MAX
            invariant
                1 <= c <= JS_SAFE_MAX,
                forall|x: u64| 1 <= x < c ==> #[trigger] self@.contains_key(x),
            decreases JS_SAFE_MAX - c,
        {
            if !self.inner.contains_key(&c) {
                return c;
            }
            c = c + 1;
        }
        proof {
            lemma_ids_below_len(JS_SAFE_MAX);
            assert(ids_below(JS_SAFE_MAX).subset_of(self@.dom()));
            vstd::set_lib::lemma_len_subset(ids_below(JS_SAFE_MAX), self@.dom());
        }
        c
    }
}

} // verus!
