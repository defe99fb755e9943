//! The laws this layer stands on, each proved from the specifications
//! its modules export: cache/index consistency, invalidation forcing the
//! next read onto the remote service, claim expiry, fingerprint
//! stability, query-builder call-order independence, and the cold-cache
//! round trip.

use vstd::prelude::*;
use crate::store_model::StoreView;
use crate::cache_repository::CacheRepository;
use crate::cache_repository::spec_route_index;
use crate::cache_repository::spec_ps_key;
use crate::promo_store_model::PromoStoreView;
use crate::uid::spec_uuid_str;
use crate::uid::spec_uuid_val;
use crate::uid::lemma_uuid_round_trip;
use crate::cache_repository::Token;
use crate::middleware::ClaimsView;
use crate::store_repository::spec_store_cache_lookup;
use crate::promo_repository::spec_promo_cache_lookup;
use crate::promo_store_repository::spec_promo_store_cache_lookup;
use crate::promo_tenor_repository::spec_promo_tenor_cache_lookup;
use crate::supabase_client::QueryView;
use crate::supabase_client::spec_with_filter;
use crate::rate_limiter::spec_fingerprint;
use crate::rate_limiter::spec_in_window;

verus! {

/// Cache/index consistency, soundness: every entry of the by-route index
/// is a store of the collection the index was built from — the one that
/// carries the route last — so the index never holds an entry from a
/// previous generation.
pub proof fn lemma_cache_index_consistency(stores: Seq<StoreView>, route: Seq<char>)
    requires
        spec_route_index(stores).contains_key(route),
    ensures
        exists|i: int|
            0 <= i < stores.len() && (#[trigger] stores[i]).route == Some(route)
                && spec_route_index(stores)[route] == stores[i],
    decreases stores.len(),
{
    if stores.len() > 0 {
        let pre = stores.drop_last();
        let last = stores.last();
        match last.route {
            Some(r) => {
                if r == route {
                    assert((stores[stores.len() - 1]).route == Some(route));
                    assert(spec_route_index(stores)[route] == stores[stores.len() - 1]);
                } else {
                    lemma_cache_index_consistency(pre, route);
                    let i = choose|i: int|
                        0 <= i < pre.len() && (#[trigger] pre[i]).route == Some(route)
                            && spec_route_index(pre)[route] == pre[i];
                    assert((stores[i]).route == Some(route));
                }
            },
            None => {
                lemma_cache_index_consistency(pre, route);
                let i = choose|i: int|
                    0 <= i < pre.len() && (#[trigger] pre[i]).route == Some(route)
                        && spec_route_index(pre)[route] == pre[i];
                assert((stores[i]).route == Some(route));
            },
        }
    }
}

/// Cache/index consistency, completeness: every store of the collection
/// that carries a route is reachable through the index under that route.
pub proof fn lemma_cache_index_complete(stores: Seq<StoreView>, i: int)
    requires
        0 <= i < stores.len(),
        stores[i].route is Some,
    ensures
        spec_route_index(stores).contains_key(stores[i].route->0),
    decreases stores.len(),
{
    if i < stores.len() - 1 {
        lemma_cache_index_complete(stores.drop_last(), i);
        assert(stores.drop_last()[i] == stores[i]);
    }
}

/// The index a store of the last-carried route resolves to: the store
/// itself, when nothing after it carries the same route.
pub proof fn lemma_route_index_last_holder(stores: Seq<StoreView>, route: Seq<char>, i: int)
    requires
        0 <= i < stores.len(),
        stores[i].route == Some(route),
        forall|j: int| i < j < stores.len() ==> (#[trigger] stores[j]).route != Some(route),
    ensures
        spec_route_index(stores).contains_key(route),
        spec_route_index(stores)[route] == stores[i],
    decreases stores.len(),
{
    if i == stores.len() - 1 {
        assert(spec_route_index(stores) == spec_route_index(stores.drop_last()).insert(
            route,
            stores[i],
        ));
    } else {
        let pre = stores.drop_last();
        assert(forall|j: int| i < j < pre.len() ==> (#[trigger] pre[j]).route != Some(route));
        assert(pre[i] == stores[i]);
        lemma_route_index_last_holder(pre, route, i);
        assert(stores.last().route != Some(route));
    }
}

/// Invalidate-then-refetch: a state any successful mutation leaves — the
/// entity's collection cleared — cannot answer the next full fetch from
/// memory; the fetch is forced onto the remote service.
pub proof fn lemma_invalidate_forces_refetch(c: CacheRepository)
    requires
        c.store_cache_all.deep_view().len() == 0,
        c.promo_cache_all.deep_view().len() == 0,
        c.promo_store_cache_all.deep_view().len() == 0,
        c.promo_tenor_cache_all.deep_view().len() == 0,
    ensures
        spec_store_cache_lookup(c) is None,
        spec_promo_cache_lookup(c) is None,
        spec_promo_store_cache_lookup(c) is None,
        spec_promo_tenor_cache_lookup(c) is None,
{
}

/// What a claim-cache read at one instant answers: the stored claims
/// while the entry's expiry lies ahead, nothing once it has passed.
pub open spec fn spec_claims_lookup(
    m: Map<Seq<char>, Token>,
    token: Seq<char>,
    now: i64,
) -> Option<ClaimsView> {
    if m.contains_key(token) && now < m[token].expiry {
        m[token].claims.deep_view()
    } else {
        None
    }
}

/// Claim-cache expiry: a claim saved with an expiry is readable at every
/// instant before it and absent — forcing full re-validation — at and
/// after it.
pub proof fn lemma_claim_cache_expiry(
    m: Map<Seq<char>, Token>,
    token: Seq<char>,
    entry: Token,
    now_before: i64,
    now_after: i64,
)
    requires
        now_before < entry.expiry,
        now_after >= entry.expiry,
    ensures
        spec_claims_lookup(m.insert(token, entry), token, now_before)
            == entry.claims.deep_view(),
        spec_claims_lookup(m.insert(token, entry), token, now_after) is None,
{
}

/// Fingerprint stability: the same address, user agent and accept
/// language always yield the same fingerprint.
pub proof fn lemma_fingerprint_stable(
    ip1: Seq<char>,
    ua1: Seq<char>,
    lang1: Seq<char>,
    ip2: Seq<char>,
    ua2: Seq<char>,
    lang2: Seq<char>,
)
    requires
        ip1 == ip2,
        ua1 == ua2,
        lang1 == lang2,
    ensures
        spec_fingerprint(ip1, ua1, lang1) == spec_fingerprint(ip2, ua2, lang2),
{
}

/// Query-builder call-order independence: adding a filter, setting the
/// ordering and setting the limit touch disjoint parts of a query, so
/// the three operations commute and any call order renders the same
/// request.
pub proof fn lemma_query_ops_commute(
    q: QueryView,
    f: Seq<char>,
    col: Seq<char>,
    asc: bool,
    n: usize,
)
    ensures
        (QueryView { limit_value: Some(n), ..(QueryView { order_by: Some((col, asc)), ..q }) })
            == (QueryView {
            order_by: Some((col, asc)),
            ..(QueryView { limit_value: Some(n), ..q })
        }),
        spec_with_filter(QueryView { order_by: Some((col, asc)), ..q }, f) == (QueryView {
            order_by: Some((col, asc)),
            ..spec_with_filter(q, f)
        }),
        spec_with_filter(QueryView { limit_value: Some(n), ..q }, f) == (QueryView {
            limit_value: Some(n),
            ..spec_with_filter(q, f)
        }),
{
}

/// The cold-cache round trip: an empty cache forces exactly one remote
/// fetch; saving what it returned makes the next full fetch a cache hit,
/// and resolves a known route through the by-route index with no further
/// remote call.
pub proof fn lemma_read_through_round_trip(
    cold: CacheRepository,
    warm: CacheRepository,
    stores: Seq<StoreView>,
    route: Seq<char>,
    i: int,
)
    requires
        cold.store_cache_all.deep_view().len() == 0,
        warm.store_cache_all.deep_view() == stores,
        stores.len() > 0,
        0 <= i < stores.len(),
        stores[i].route == Some(route),
        forall|j: int| i < j < stores.len() ==> (#[trigger] stores[j]).route != Some(route),
    ensures
        spec_store_cache_lookup(cold) is None,
        spec_store_cache_lookup(warm) == Some(stores),
        spec_route_index(stores).contains_key(route),
        spec_route_index(stores)[route] == stores[i],
{
    lemma_route_index_last_holder(stores, route, i);
}

/// Window elapse: once every instant stored for a fingerprint has left
/// the window, the pruned count is zero, so the next request under any
/// positive cap is admitted and the stored window holds that request's
/// instant alone. A zero cap is left out: the meets-or-exceeds rule then
/// rejects every request, pruned or not.
pub proof fn lemma_window_elapse_admits(prior: Seq<u64>, now: u64, window: u64, cap: usize)
    requires
        cap >= 1,
        forall|i: int| 0 <= i < prior.len() ==> !spec_in_window(#[trigger] prior[i], now, window),
    ensures
        ({
            let kept = prior.filter(|t: u64| spec_in_window(t, now, window));
            &&& kept.len() == 0
            &&& kept.len() < cap
            &&& kept.push(now) =~= seq![now]
        }),
{
    let pred = |t: u64| spec_in_window(t, now, window);
    assert(prior.all(|t: u64| !pred(t))) by {
        reveal(Seq::all);
        assert forall|i: int| 0 <= i < prior.len() implies !pred(#[trigger] prior[i]) by {
            assert(!spec_in_window(prior[i], now, window));
        }
    }
    prior.lemma_all_neg_filter_empty(pred);
}

/// Composite keys never conflate: two relations share the by-key index
/// key only when they tie the same promotion to the same store.
pub proof fn lemma_ps_key_injective(a: PromoStoreView, b: PromoStoreView)
    requires
        spec_ps_key(a) == spec_ps_key(b),
    ensures
        a.promo_id == b.promo_id,
        a.store_id == b.store_id,
{
    reveal_strlit("-");
    lemma_uuid_round_trip(a.promo_id);
    lemma_uuid_round_trip(b.promo_id);
    lemma_uuid_round_trip(a.store_id);
    lemma_uuid_round_trip(b.store_id);
    let ka = spec_ps_key(a);
    let kb = spec_ps_key(b);
    assert(spec_uuid_str(a.promo_id).len() == 36);
    assert(spec_uuid_str(b.promo_id).len() == 36);
    assert(ka.subrange(0, 36) =~= spec_uuid_str(a.promo_id));
    assert(kb.subrange(0, 36) =~= spec_uuid_str(b.promo_id));
    assert(ka.subrange(37, 73) =~= spec_uuid_str(a.store_id));
    assert(kb.subrange(37, 73) =~= spec_uuid_str(b.store_id));
    assert(spec_uuid_val(spec_uuid_str(a.promo_id)) == spec_uuid_val(spec_uuid_str(b.promo_id)));
    assert(spec_uuid_val(spec_uuid_str(a.store_id)) == spec_uuid_val(spec_uuid_str(b.store_id)));
}

} // verus!
