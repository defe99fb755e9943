//! The in-memory entity caches with their secondary indices, and the
//! bearer-token claim cache. Replacing a collection rebuilds its index in
//! the same exclusive section, so a reader never sees a collection and an
//! index that disagree; clearing empties both. None of these operations
//! can fail. Concurrency is the caller's affair: the surrounding layer
//! holds this state behind its locks and calls in with exclusive access
//! for writes.

use vstd::prelude::*;
use vstd::string::StringExecFns;
use crate::assoc::assoc_map;
use crate::assoc::assoc_unique;
use crate::assoc::assoc_get;
use crate::assoc::assoc_set;
use crate::assoc::assoc_remove;
use crate::store_model::Store;
use crate::store_model::StoreView;
use crate::promo_model::Promo;
use crate::promo_store_model::PromoStore;
use crate::promo_store_model::PromoStoreView;
use crate::promo_tenor_model::PromoTenor;
use crate::middleware::Claims;
use crate::middleware::clone_opt_claims;
use crate::uid::uuid_to_string;
use crate::uid::spec_uuid_str;

verus! {

/// One cached claim entry: the token text, the expiry instant (seconds),
/// and the verified claims.
pub struct Token {
    pub token: String,
    pub expiry: i64,
    pub claims: Option<Claims>,
}

pub struct AuthTokenCache {
    pub token: Vec<(String, Token)>,
}

impl AuthTokenCache {
    pub fn new() -> (r: Self)
        ensures
            r.token@ =~= Seq::<(String, Token)>::empty(),
            assoc_unique(r.token@),
    {
        AuthTokenCache { token: Vec::new() }
    }

    /// Whether a key holds an entry that has not expired at `now`.
    pub fn is_valid(&self, key: &str, now: i64) -> (r: bool)
        requires
            assoc_unique(self.token@),
        ensures
            r == (assoc_map(self.token@).contains_key(key@) && now < assoc_map(
                self.token@,
            )[key@].expiry),
    {
        match assoc_get(&self.token, key) {
            Some(t) => now < t.expiry,
            None => false,
        }
    }
}

/// The by-route index a store collection denotes: the last store carrying
/// each route wins, stores without a route are not indexed.
pub open spec fn spec_route_index(stores: Seq<StoreView>) -> Map<Seq<char>, StoreView>
    decreases stores.len(),
{
    if stores.len() == 0 {
        Map::empty()
    } else {
        let m = spec_route_index(stores.drop_last());
        match stores.last().route {
            Some(r) => m.insert(r, stores.last()),
            None => m,
        }
    }
}

/// The composite key of a relation: the two identifiers in canonical
/// form, joined by a hyphen.
pub open spec fn spec_ps_key(v: PromoStoreView) -> Seq<char> {
    spec_uuid_str(v.promo_id) + "-"@ + spec_uuid_str(v.store_id)
}

/// The by-key index a relation collection denotes.
pub open spec fn spec_ps_index(rels: Seq<PromoStoreView>) -> Map<Seq<char>, PromoStoreView>
    decreases rels.len(),
{
    if rels.len() == 0 {
        Map::empty()
    } else {
        spec_ps_index(rels.drop_last()).insert(spec_ps_key(rels.last()), rels.last())
    }
}

/// An executable store index agrees with the index its collection
/// denotes: same keys, and each held snapshot reads as the denoted one.
pub open spec fn route_index_ok(idx: Map<Seq<char>, Store>, stores: Seq<StoreView>) -> bool {
    let target = spec_route_index(stores);
    &&& forall|k: Seq<char>| #[trigger]
        idx.contains_key(k) ==> target.contains_key(k) && idx[k]@ == target[k]
    &&& forall|k: Seq<char>| #[trigger] target.contains_key(k) ==> idx.contains_key(k)
}

/// An executable relation index agrees with the index its collection
/// denotes.
pub open spec fn ps_index_ok(idx: Map<Seq<char>, PromoStore>, rels: Seq<PromoStoreView>) -> bool {
    let target = spec_ps_index(rels);
    &&& forall|k: Seq<char>| #[trigger]
        idx.contains_key(k) ==> target.contains_key(k) && idx[k]@ == target[k]
    &&& forall|k: Seq<char>| #[trigger] target.contains_key(k) ==> idx.contains_key(k)
}

/// The claim-cache map a repository holds.
pub open spec fn spec_auth_tokens(c: CacheRepository) -> Map<Seq<char>, Token> {
    match c.auth_token_cache {
        Some(a) => assoc_map(a.token@),
        None => Map::empty(),
    }
}

/// The one owned holder of every cache. Each collection and each index is
/// an independent field; the well-formedness predicate ties every index
/// to its collection.
pub struct CacheRepository {
    pub promo_cache_all: Vec<Promo>,
    pub store_cache_all: Vec<Store>,
    pub promo_store_cache_all: Vec<PromoStore>,
    pub promo_tenor_cache_all: Vec<PromoTenor>,
    pub store_cache_by_route: Vec<(String, Store)>,
    pub promo_store_cache_by_key: Vec<(String, PromoStore)>,
    pub auth_token_cache: Option<AuthTokenCache>,
}

impl CacheRepository {
    /// Cache and index always agree: this is the consistency the
    /// specification owes its readers, maintained by every operation.
    pub open spec fn wf(&self) -> bool {
        &&& assoc_unique(self.store_cache_by_route@)
        &&& route_index_ok(
            assoc_map(self.store_cache_by_route@),
            self.store_cache_all.deep_view(),
        )
        &&& assoc_unique(self.promo_store_cache_by_key@)
        &&& ps_index_ok(
            assoc_map(self.promo_store_cache_by_key@),
            self.promo_store_cache_all.deep_view(),
        )
        &&& match self.auth_token_cache {
            Some(a) => assoc_unique(a.token@),
            None => true,
        }
    }

    pub fn new() -> (r: Self)
        ensures
            r.wf(),
            r.promo_cache_all.deep_view() =~= Seq::<crate::promo_model::PromoView>::empty(),
            r.store_cache_all.deep_view() =~= Seq::<StoreView>::empty(),
            r.promo_store_cache_all.deep_view() =~= Seq::<PromoStoreView>::empty(),
            r.promo_tenor_cache_all.deep_view() =~= Seq::<
                crate::promo_tenor_model::PromoTenorView,
            >::empty(),
            spec_auth_tokens(r) =~= Map::<Seq<char>, Token>::empty(),
    {
        let r = CacheRepository {
            promo_cache_all: Vec::new(),
            store_cache_all: Vec::new(),
            promo_store_cache_all: Vec::new(),
            promo_tenor_cache_all: Vec::new(),
            store_cache_by_route: Vec::new(),
            promo_store_cache_by_key: Vec::new(),
            auth_token_cache: None,
        };
        proof {
            assert(route_index_ok(
                assoc_map(r.store_cache_by_route@),
                r.store_cache_all.deep_view(),
            )) by {
                assert(r.store_cache_all.deep_view() =~= Seq::<StoreView>::empty());
                assert(assoc_map(r.store_cache_by_route@) =~= Map::<Seq<char>, Store>::empty());
            }
            assert(ps_index_ok(
                assoc_map(r.promo_store_cache_by_key@),
                r.promo_store_cache_all.deep_view(),
            )) by {
                assert(r.promo_store_cache_all.deep_view() =~= Seq::<PromoStoreView>::empty());
                assert(assoc_map(r.promo_store_cache_by_key@) =~= Map::<
                    Seq<char>,
                    PromoStore,
                >::empty());
            }
        }
        r
    }

    /// Whether a token holds a valid, unexpired cache entry.
    pub fn get_auth_token_cache(&self, token: &str, now: i64) -> (r: bool)
        requires
            self.wf(),
        ensures
            r == (spec_auth_tokens(*self).contains_key(token@) && now < spec_auth_tokens(
                *self,
            )[token@].expiry),
    {
        match &self.auth_token_cache {
            Some(a) => a.is_valid(token, now),
            None => false,
        }
    }

    /// Returns the cached claims of a token that is still valid at `now`;
    /// an entry whose expiry has passed is evicted by the read that finds
    /// it, and nothing else changes either way.
    pub fn get_cached_claims(&mut self, token: &str, now: i64) -> (r: Option<Claims>)
        requires
            old(self).wf(),
        ensures
            final(self).wf(),
            ({
                let m = spec_auth_tokens(*old(self));
                if m.contains_key(token@) && now < m[token@].expiry {
                    r.deep_view() == m[token@].claims.deep_view() && *final(self) == *old(self)
                } else if m.contains_key(token@) {
                    r is None && spec_auth_tokens(*final(self)) == m.remove(token@)
                        && final(self).promo_cache_all == old(self).promo_cache_all
                        && final(self).store_cache_all == old(self).store_cache_all
                        && final(self).promo_store_cache_all == old(self).promo_store_cache_all
                        && final(self).promo_tenor_cache_all == old(self).promo_tenor_cache_all
                        && final(self).store_cache_by_route == old(self).store_cache_by_route
                        && final(self).promo_store_cache_by_key == old(
                            self,
                        ).promo_store_cache_by_key
                } else {
                    r is None && *final(self) == *old(self)
                }
            }),
    {
        let mut expired = false;
        let mut result: Option<Claims> = None;
        match &self.auth_token_cache {
            Some(a) => {
                match assoc_get(&a.token, token) {
                    Some(t) => {
                        if now < t.expiry {
                            result = clone_opt_claims(&t.claims);
                        } else {
                            expired = true;
                        }
                    },
                    None => {},
                }
            },
            None => {},
        }
        if expired {
            match &mut self.auth_token_cache {
                Some(a) => {
                    assoc_remove(&mut a.token, token);
                },
                None => {},
            }
        }
        result
    }

    /// Inserts or overwrites a token's claims unconditionally, with the
    /// expiry the caller derived from the token itself.
    pub fn save_token_claims(&mut self, token: String, claims: Option<Claims>, expiry: i64)
        requires
            old(self).wf(),
        ensures
            final(self).wf(),
            spec_auth_tokens(*final(self)) == spec_auth_tokens(*old(self)).insert(
                token@,
                Token { token, expiry, claims },
            ),
            final(self).promo_cache_all == old(self).promo_cache_all,
            final(self).store_cache_all == old(self).store_cache_all,
            final(self).promo_store_cache_all == old(self).promo_store_cache_all,
            final(self).promo_tenor_cache_all == old(self).promo_tenor_cache_all,
            final(self).store_cache_by_route == old(self).store_cache_by_route,
            final(self).promo_store_cache_by_key == old(self).promo_store_cache_by_key,
    {
        let key = token.clone();
        let entry = Token { token, expiry, claims };
        match &mut self.auth_token_cache {
            Some(a) => {
                assoc_set(&mut a.token, key, entry);
            },
            None => {
                let mut a = AuthTokenCache::new();
                assoc_set(&mut a.token, key, entry);
                self.auth_token_cache = Some(a);
            },
        }
    }

    /// Replaces the whole claim cache.
    pub fn save_auth_token_cache(&mut self, new_cache: AuthTokenCache)
        requires
            old(self).wf(),
            assoc_unique(new_cache.token@),
        ensures
            final(self).wf(),
            final(self).auth_token_cache == Some(new_cache),
            final(self).promo_cache_all == old(self).promo_cache_all,
            final(self).store_cache_all == old(self).store_cache_all,
            final(self).promo_store_cache_all == old(self).promo_store_cache_all,
            final(self).promo_tenor_cache_all == old(self).promo_tenor_cache_all,
            final(self).store_cache_by_route == old(self).store_cache_by_route,
            final(self).promo_store_cache_by_key == old(self).promo_store_cache_by_key,
    {
        self.auth_token_cache = Some(new_cache);
    }

    /// A borrowed handle to the full promotion collection.
    pub fn get_promo_cache_all(&self) -> (r: &Vec<Promo>)
        ensures
            r == &self.promo_cache_all,
    {
        &self.promo_cache_all
    }

    /// A borrowed handle to the full store collection.
    pub fn get_store_cache_all(&self) -> (r: &Vec<Store>)
        ensures
            r == &self.store_cache_all,
    {
        &self.store_cache_all
    }

    /// A borrowed handle to the full relation collection.
    pub fn get_promo_store_cache_all(&self) -> (r: &Vec<PromoStore>)
        ensures
            r == &self.promo_store_cache_all,
    {
        &self.promo_store_cache_all
    }

    /// A borrowed handle to the full tenor collection.
    pub fn get_promo_tenor_cache_all(&self) -> (r: &Vec<PromoTenor>)
        ensures
            r == &self.promo_tenor_cache_all,
    {
        &self.promo_tenor_cache_all
    }

    /// The indexed store under a route, cloned, exactly as the by-route
    /// index of the cached collection has it.
    pub fn get_store_cache_by_route(&self, route: &str) -> (r: Option<Store>)
        requires
            self.wf(),
        ensures
            ({
                let target = spec_route_index(self.store_cache_all.deep_view());
                match r {
                    Some(s) => target.contains_key(route@) && s@ == target[route@],
                    None => !target.contains_key(route@),
                }
            }),
    {
        match assoc_get(&self.store_cache_by_route, route) {
            Some(s) => Some(s.clone()),
            None => None,
        }
    }

    /// The indexed relation under a composite key, cloned, exactly as the
    /// by-key index of the cached collection has it.
    pub fn get_promo_store_cache_by_key(&self, promo_id: u128, store_id: u128) -> (r: Option<
        PromoStore,
    >)
        requires
            self.wf(),
        ensures
            ({
                let key = spec_uuid_str(promo_id) + "-"@ + spec_uuid_str(store_id);
                let target = spec_ps_index(self.promo_store_cache_all.deep_view());
                match r {
                    Some(v) => target.contains_key(key) && v@ == target[key],
                    None => !target.contains_key(key),
                }
            }),
    {
        let mut key = uuid_to_string(promo_id);
        key.append("-");
        let sid = uuid_to_string(store_id);
        key.append(sid.as_str());
        proof {
            assert(key@ =~= spec_uuid_str(promo_id) + "-"@ + spec_uuid_str(store_id));
        }
        match assoc_get(&self.promo_store_cache_by_key, key.as_str()) {
            Some(v) => Some(v.clone()),
            None => None,
        }
    }

    /// Replaces the full promotion collection.
    pub fn save_promo_cache_all(&mut self, promos: Vec<Promo>)
        requires
            old(self).wf(),
        ensures
            final(self).wf(),
            final(self).promo_cache_all == promos,
            final(self).store_cache_all == old(self).store_cache_all,
            final(self).promo_store_cache_all == old(self).promo_store_cache_all,
            final(self).promo_tenor_cache_all == old(self).promo_tenor_cache_all,
            final(self).store_cache_by_route == old(self).store_cache_by_route,
            final(self).promo_store_cache_by_key == old(self).promo_store_cache_by_key,
            final(self).auth_token_cache == old(self).auth_token_cache,
    {
        self.promo_cache_all = promos;
    }

    /// Replaces the full tenor collection.
    pub fn save_promo_tenor_cache_all(&mut self, promo_tenors: Vec<PromoTenor>)
        requires
            old(self).wf(),
        ensures
            final(self).wf(),
            final(self).promo_tenor_cache_all == promo_tenors,
            final(self).promo_cache_all == old(self).promo_cache_all,
            final(self).store_cache_all == old(self).store_cache_all,
            final(self).promo_store_cache_all == old(self).promo_store_cache_all,
            final(self).store_cache_by_route == old(self).store_cache_by_route,
            final(self).promo_store_cache_by_key == old(self).promo_store_cache_by_key,
            final(self).auth_token_cache == old(self).auth_token_cache,
    {
        self.promo_tenor_cache_all = promo_tenors;
    }

    /// Replaces the full store collection and rebuilds the by-route index
    /// from it in the same exclusive section.
    pub fn save_store_cache_all(&mut self, stores: Vec<Store>)
        requires
            old(self).wf(),
        ensures
            final(self).wf(),
            final(self).store_cache_all == stores,
            final(self).promo_cache_all == old(self).promo_cache_all,
            final(self).promo_store_cache_all == old(self).promo_store_cache_all,
            final(self).promo_tenor_cache_all == old(self).promo_tenor_cache_all,
            final(self).promo_store_cache_by_key == old(self).promo_store_cache_by_key,
            final(self).auth_token_cache == old(self).auth_token_cache,
    {
        let ghost svs = stores.deep_view();
        let mut idx: Vec<(String, Store)> = Vec::new();
        let mut i: usize = 0;
        proof {
            assert(svs.subrange(0, 0) =~= Seq::<StoreView>::empty());
            assert(assoc_map(idx@) =~= Map::<Seq<char>, Store>::empty());
        }
        while i < stores.len()
            invariant
                0 <= i <= stores@.len(),
                svs == stores.deep_view(),
                svs.len() == stores@.len(),
                assoc_unique(idx@),
                route_index_ok(assoc_map(idx@), svs.subrange(0, i as int)),
            decreases stores@.len() - i,
        {
            let ghost pre = svs.subrange(0, i as int);
            let ghost m_pre = assoc_map(idx@);
            proof {
                assert(svs[i as int] == stores@[i as int]@);
            }
            match &stores[i].route {
                Some(r) => {
                    let key = r.clone();
                    let val = stores[i].clone();
                    let ghost w = val;
                    proof {
                        assert(w@ == svs[i as int]);
                        assert(svs[i as int].route == Some(key@));
                    }
                    assoc_set(&mut idx, key, val);
                    proof {
                        lemma_route_index_step(assoc_map(idx@), m_pre, pre, svs[i as int], w);
                    }
                },
                None => {
                    proof {
                        assert(svs[i as int].route is None);
                        lemma_route_index_none(m_pre, pre, svs[i as int]);
                    }
                },
            }
            i += 1;
            proof {
                let post = svs.subrange(0, i as int);
                assert(post =~= pre.push(svs[i - 1]));
                assert(route_index_ok(assoc_map(idx@), post));
            }
        }
        proof {
            assert(svs.subrange(0, svs.len() as int) =~= svs);
        }
        self.store_cache_all = stores;
        self.store_cache_by_route = idx;
    }

    /// Replaces the full relation collection and rebuilds the by-key
    /// index from it in the same exclusive section.
    pub fn save_promo_store_cache_all(&mut self, promo_stores: Vec<PromoStore>)
        requires
            old(self).wf(),
        ensures
            final(self).wf(),
            final(self).promo_store_cache_all == promo_stores,
            final(self).promo_cache_all == old(self).promo_cache_all,
            final(self).store_cache_all == old(self).store_cache_all,
            final(self).promo_tenor_cache_all == old(self).promo_tenor_cache_all,
            final(self).store_cache_by_route == old(self).store_cache_by_route,
            final(self).auth_token_cache == old(self).auth_token_cache,
    {
        let ghost rvs = promo_stores.deep_view();
        let mut idx: Vec<(String, PromoStore)> = Vec::new();
        let mut i: usize = 0;
        proof {
            assert(rvs.subrange(0, 0) =~= Seq::<PromoStoreView>::empty());
            assert(assoc_map(idx@) =~= Map::<Seq<char>, PromoStore>::empty());
        }
        while i < promo_stores.len()
            invariant
                0 <= i <= promo_stores@.len(),
                rvs == promo_stores.deep_view(),
                rvs.len() == promo_stores@.len(),
                assoc_unique(idx@),
                ps_index_ok(assoc_map(idx@), rvs.subrange(0, i as int)),
            decreases promo_stores@.len() - i,
        {
            let ghost pre = rvs.subrange(0, i as int);
            let ghost m_pre = assoc_map(idx@);
            proof {
                assert(rvs[i as int] == promo_stores@[i as int]@);
            }
            let entry = &promo_stores[i];
            let mut key = uuid_to_string(entry.promo_id);
            key.append("-");
            let sid = uuid_to_string(entry.store_id);
            key.append(sid.as_str());
            proof {
                assert(key@ =~= spec_ps_key(rvs[i as int]));
            }
            let val = entry.clone();
            let ghost w = val;
            proof {
                assert(w@ == rvs[i as int]);
            }
            assoc_set(&mut idx, key, val);
            i += 1;
            proof {
                let post = rvs.subrange(0, i as int);
                assert(post =~= pre.push(rvs[i - 1]));
                lemma_ps_index_step(assoc_map(idx@), m_pre, pre, rvs[i - 1], w);
                assert(ps_index_ok(assoc_map(idx@), post));
            }
        }
        proof {
            assert(rvs.subrange(0, rvs.len() as int) =~= rvs);
        }
        self.promo_store_cache_all = promo_stores;
        self.promo_store_cache_by_key = idx;
    }

    /// Empties the promotion collection.
    pub fn clear_promo_cache_all(&mut self)
        requires
            old(self).wf(),
        ensures
            final(self).wf(),
            final(self).promo_cache_all@ =~= Seq::<Promo>::empty(),
            final(self).store_cache_all == old(self).store_cache_all,
            final(self).promo_store_cache_all == old(self).promo_store_cache_all,
            final(self).promo_tenor_cache_all == old(self).promo_tenor_cache_all,
            final(self).store_cache_by_route == old(self).store_cache_by_route,
            final(self).promo_store_cache_by_key == old(self).promo_store_cache_by_key,
            final(self).auth_token_cache == old(self).auth_token_cache,
    {
        self.promo_cache_all.clear();
    }

    /// Empties the store collection and its by-route index together.
    pub fn clear_store_cache_all(&mut self)
        requires
            old(self).wf(),
        ensures
            final(self).wf(),
            final(self).store_cache_all@ =~= Seq::<Store>::empty(),
            final(self).store_cache_by_route@ =~= Seq::<(String, Store)>::empty(),
            final(self).promo_cache_all == old(self).promo_cache_all,
            final(self).promo_store_cache_all == old(self).promo_store_cache_all,
            final(self).promo_tenor_cache_all == old(self).promo_tenor_cache_all,
            final(self).promo_store_cache_by_key == old(self).promo_store_cache_by_key,
            final(self).auth_token_cache == old(self).auth_token_cache,
    {
        self.store_cache_all.clear();
        self.store_cache_by_route.clear();
        proof {
            assert(self.store_cache_all.deep_view() =~= Seq::<StoreView>::empty());
            assert(assoc_map(self.store_cache_by_route@) =~= Map::<Seq<char>, Store>::empty());
        }
    }

    /// Empties the relation collection and its by-key index together.
    pub fn clear_promo_store_cache_all(&mut self)
        requires
            old(self).wf(),
        ensures
            final(self).wf(),
            final(self).promo_store_cache_all@ =~= Seq::<PromoStore>::empty(),
            final(self).promo_store_cache_by_key@ =~= Seq::<(String, PromoStore)>::empty(),
            final(self).promo_cache_all == old(self).promo_cache_all,
            final(self).store_cache_all == old(self).store_cache_all,
            final(self).promo_tenor_cache_all == old(self).promo_tenor_cache_all,
            final(self).store_cache_by_route == old(self).store_cache_by_route,
            final(self).auth_token_cache == old(self).auth_token_cache,
    {
        self.promo_store_cache_all.clear();
        self.promo_store_cache_by_key.clear();
        proof {
            assert(self.promo_store_cache_all.deep_view() =~= Seq::<PromoStoreView>::empty());
            assert(assoc_map(self.promo_store_cache_by_key@) =~= Map::<
                Seq<char>,
                PromoStore,
            >::empty());
        }
    }

    /// Empties the tenor collection.
    pub fn clear_promo_tenor_cache_all(&mut self)
        requires
            old(self).wf(),
        ensures
            final(self).wf(),
            final(self).promo_tenor_cache_all@ =~= Seq::<PromoTenor>::empty(),
            final(self).promo_cache_all == old(self).promo_cache_all,
            final(self).store_cache_all == old(self).store_cache_all,
            final(self).promo_store_cache_all == old(self).promo_store_cache_all,
            final(self).store_cache_by_route == old(self).store_cache_by_route,
            final(self).promo_store_cache_by_key == old(self).promo_store_cache_by_key,
            final(self).auth_token_cache == old(self).auth_token_cache,
    {
        self.promo_tenor_cache_all.clear();
    }
}

proof fn lemma_route_index_step(
    m_post: Map<Seq<char>, Store>,
    m_pre: Map<Seq<char>, Store>,
    pre: Seq<StoreView>,
    v: StoreView,
    s: Store,
)
    requires
        route_index_ok(m_pre, pre),
        v.route is Some,
        s@ == v,
        m_post == m_pre.insert(v.route->0, s),
    ensures
        route_index_ok(m_post, pre.push(v)),
{
    let r = v.route->0;
    let target_pre = spec_route_index(pre);
    let target_post = spec_route_index(pre.push(v));
    assert(pre.push(v).drop_last() =~= pre);
    assert(pre.push(v).last() == v);
    assert(target_post == target_pre.insert(r, v));
    assert forall|k: Seq<char>| #[trigger] m_post.contains_key(k)
        implies target_post.contains_key(k) && m_post[k]@ == target_post[k] by {
        if k != r {
            assert(m_pre.contains_key(k));
        }
    }
    assert forall|k: Seq<char>| #[trigger] target_post.contains_key(k)
        implies m_post.contains_key(k) by {
        if k != r {
            assert(target_pre.contains_key(k));
        }
    }
}

proof fn lemma_route_index_none(
    m: Map<Seq<char>, Store>,
    pre: Seq<StoreView>,
    v: StoreView,
)
    requires
        route_index_ok(m, pre),
        v.route is None,
    ensures
        route_index_ok(m, pre.push(v)),
{
    assert(pre.push(v).drop_last() =~= pre);
    assert(pre.push(v).last() == v);
    assert(spec_route_index(pre.push(v)) == spec_route_index(pre));
}

proof fn lemma_ps_index_step(
    m_post: Map<Seq<char>, PromoStore>,
    m_pre: Map<Seq<char>, PromoStore>,
    pre: Seq<PromoStoreView>,
    v: PromoStoreView,
    s: PromoStore,
)
    requires
        ps_index_ok(m_pre, pre),
        s@ == v,
        m_post == m_pre.insert(spec_ps_key(v), s),
    ensures
        ps_index_ok(m_post, pre.push(v)),
{
    let k0 = spec_ps_key(v);
    let target_pre = spec_ps_index(pre);
    let target_post = spec_ps_index(pre.push(v));
    assert(pre.push(v).drop_last() =~= pre);
    assert(pre.push(v).last() == v);
    assert(target_post == target_pre.insert(k0, v));
    assert forall|k: Seq<char>| #[trigger] m_post.contains_key(k)
        implies target_post.contains_key(k) && m_post[k]@ == target_post[k] by {
        if k != k0 {
            assert(m_pre.contains_key(k));
        }
    }
    assert forall|k: Seq<char>| #[trigger] target_post.contains_key(k)
        implies m_post.contains_key(k) by {
        if k != k0 {
            assert(target_pre.contains_key(k));
        }
    }
}

} // verus!
