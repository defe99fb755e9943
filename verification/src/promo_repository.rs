//! The promotion repository: the read-through, invalidate-on-write
//! decisions for promotions, plus the cache-only join that lists the
//! promotions carried by one store.

use vstd::prelude::*;
use vstd::string::StringExecFns;
use crate::cache_repository::CacheRepository;
use crate::promo_model::Promo;
use crate::promo_model::PromoView;
use crate::promo_model::clone_promos;
use crate::promo_store_model::PromoStoreView;
use crate::supabase_error::SupabaseError;
use crate::supabase_error::spec_is_not_found;
use crate::supabase_error::spec_supabase_message;
use crate::uid::spec_uuid_str;
use crate::uid::uuid_to_string;
use crate::error::AppError;
use crate::error::PromoError;

verus! {

/// The cached snapshot a full fetch may answer with.
pub open spec fn spec_promo_cache_lookup(c: CacheRepository) -> Option<Seq<PromoView>> {
    if c.promo_cache_all.deep_view().len() > 0 {
        Some(c.promo_cache_all.deep_view())
    } else {
        None
    }
}

/// The cache side of a full fetch.
pub fn rep_fetch_all_cached(cache: &CacheRepository) -> (r: Option<Vec<Promo>>)
    requires
        cache.wf(),
    ensures
        match r {
            Some(v) => spec_promo_cache_lookup(*cache) == Some(v.deep_view()),
            None => spec_promo_cache_lookup(*cache) is None,
        },
{
    if cache.promo_cache_all.len() > 0 {
        Some(clone_promos(&cache.promo_cache_all))
    } else {
        None
    }
}

/// Completes a full fetch: errors map as for stores; zero raw rows are
/// an absence; raw rows that all failed to decode are an internal
/// failure; otherwise the decoded rows replace the cache.
pub fn rep_fetch_all_finish(
    cache: &mut CacheRepository,
    fetched: Result<Vec<Promo>, SupabaseError>,
    raw_count: usize,
) -> (r: Result<Vec<Promo>, AppError>)
    requires
        old(cache).wf(),
    ensures
        final(cache).wf(),
        match fetched {
            Err(e) => *final(cache) == *old(cache) && (if spec_is_not_found(e@) {
                r matches Err(AppError::Promo(PromoError::NotFound(m))) && m@
                    == "No promos found"@
            } else {
                r matches Err(AppError::Promo(PromoError::DatabaseError(m))) && m@
                    == "Supabase error: "@ + spec_supabase_message(e@)
            }),
            Ok(rows) => if raw_count == 0 {
                *final(cache) == *old(cache) && (r matches Err(
                    AppError::Promo(PromoError::NotFound(m)),
                ) && m@ == "No promos found"@)
            } else if rows.deep_view().len() == 0 {
                *final(cache) == *old(cache) && (r matches Err(AppError::Internal(m)) && m@
                    == "Failed to deserialize promos"@)
            } else {
                &&& (r matches Ok(v) && v.deep_view() == rows.deep_view())
                &&& final(cache).promo_cache_all.deep_view() == rows.deep_view()
                &&& final(cache).store_cache_all == old(cache).store_cache_all
                &&& final(cache).store_cache_by_route == old(cache).store_cache_by_route
                &&& final(cache).promo_store_cache_all == old(cache).promo_store_cache_all
                &&& final(cache).promo_store_cache_by_key == old(cache).promo_store_cache_by_key
                &&& final(cache).promo_tenor_cache_all == old(cache).promo_tenor_cache_all
                &&& final(cache).auth_token_cache == old(cache).auth_token_cache
            },
        },
{
    match fetched {
        Err(e) => {
            if e.is_not_found() {
                Err(AppError::Promo(PromoError::NotFound("No promos found".to_owned())))
            } else {
                let mut m = "Supabase error: ".to_owned();
                let em = e.message();
                m.append(em.as_str());
                Err(AppError::Promo(PromoError::DatabaseError(m)))
            }
        },
        Ok(rows) => {
            if raw_count == 0 {
                Err(AppError::Promo(PromoError::NotFound("No promos found".to_owned())))
            } else if rows.len() == 0 {
                Err(AppError::Internal("Failed to deserialize promos".to_owned()))
            } else {
                let out = clone_promos(&rows);
                cache.clear_promo_cache_all();
                cache.save_promo_cache_all(rows);
                Ok(out)
            }
        },
    }
}

fn promo_not_found_message(id_promo: u128) -> (r: String)
    ensures
        r@ == "Promo with id '"@ + spec_uuid_str(id_promo) + "' not found"@,
{
    let mut m = "Promo with id '".to_owned();
    let ids = uuid_to_string(id_promo);
    m.append(ids.as_str());
    m.append("' not found");
    proof {
        assert(m@ =~= "Promo with id '"@ + spec_uuid_str(id_promo) + "' not found"@);
    }
    m
}

/// Completes a by-identity fetch, a remote-only read: the first returned
/// row is the promotion, no row is the typed absence.
pub fn rep_get_by_id_finish(id_promo: u128, fetched: Result<Vec<Promo>, SupabaseError>) -> (r:
    Result<Promo, AppError>)
    ensures
        match fetched {
            Err(e) => if spec_is_not_found(e@) {
                r matches Err(AppError::Promo(PromoError::NotFound(m))) && m@
                    == "Promo with id '"@ + spec_uuid_str(id_promo) + "' not found"@
            } else {
                r matches Err(AppError::Promo(PromoError::DatabaseError(m))) && m@
                    == "Supabase error: "@ + spec_supabase_message(e@)
            },
            Ok(rows) => if rows.deep_view().len() == 0 {
                r matches Err(AppError::Promo(PromoError::NotFound(m))) && m@
                    == "Promo with id '"@ + spec_uuid_str(id_promo) + "' not found"@
            } else {
                r matches Ok(p) && p@ == rows.deep_view()[0]
            },
        },
{
    match fetched {
        Err(e) => {
            if e.is_not_found() {
                Err(AppError::Promo(PromoError::NotFound(promo_not_found_message(id_promo))))
            } else {
                let mut m = "Supabase error: ".to_owned();
                let em = e.message();
                m.append(em.as_str());
                Err(AppError::Promo(PromoError::DatabaseError(m)))
            }
        },
        Ok(mut rows) => {
            if rows.len() == 0 {
                Err(AppError::Promo(PromoError::NotFound(promo_not_found_message(id_promo))))
            } else {
                let ghost dv = rows.deep_view();
                let first = rows.remove(0);
                proof {
                    assert(first.deep_view() == dv[0]);
                }
                Ok(first)
            }
        },
    }
}

/// Completes an insertion: a created promotion invalidates the promotion
/// cache; a failure leaves everything alone.
pub fn rep_insert_finish(cache: &mut CacheRepository, inserted: Result<Promo, SupabaseError>) -> (r:
    Result<Promo, AppError>)
    requires
        old(cache).wf(),
    ensures
        final(cache).wf(),
        match inserted {
            Err(e) => *final(cache) == *old(cache) && (r matches Err(
                AppError::Promo(PromoError::DatabaseError(m)),
            ) && m@ == "Supabase insert error: "@ + spec_supabase_message(e@)),
            Ok(p) => {
                &&& (r matches Ok(v) && v == p)
                &&& final(cache).promo_cache_all@ =~= Seq::<Promo>::empty()
                &&& final(cache).store_cache_all == old(cache).store_cache_all
                &&& final(cache).store_cache_by_route == old(cache).store_cache_by_route
                &&& final(cache).promo_store_cache_all == old(cache).promo_store_cache_all
                &&& final(cache).promo_store_cache_by_key == old(cache).promo_store_cache_by_key
                &&& final(cache).promo_tenor_cache_all == old(cache).promo_tenor_cache_all
                &&& final(cache).auth_token_cache == old(cache).auth_token_cache
            },
        },
{
    match inserted {
        Err(e) => {
            let mut m = "Supabase insert error: ".to_owned();
            let em = e.message();
            m.append(em.as_str());
            Err(AppError::Promo(PromoError::DatabaseError(m)))
        },
        Ok(p) => {
            cache.clear_promo_cache_all();
            Ok(p)
        },
    }
}

/// Completes an update by identity: the cache is invalidated on every
/// successful remote call, even one that affected no row; no affected
/// row is then an internal failure.
pub fn rep_update_by_id_finish(
    cache: &mut CacheRepository,
    updated: Result<Vec<Promo>, SupabaseError>,
) -> (r: Result<Promo, AppError>)
    requires
        old(cache).wf(),
    ensures
        final(cache).wf(),
        match updated {
            Err(e) => *final(cache) == *old(cache) && (r matches Err(
                AppError::Promo(PromoError::DatabaseError(m)),
            ) && m@ == "Supabase update error: "@ + spec_supabase_message(e@)),
            Ok(rows) => {
                &&& final(cache).promo_cache_all@ =~= Seq::<Promo>::empty()
                &&& final(cache).store_cache_all == old(cache).store_cache_all
                &&& final(cache).store_cache_by_route == old(cache).store_cache_by_route
                &&& final(cache).promo_store_cache_all == old(cache).promo_store_cache_all
                &&& final(cache).promo_store_cache_by_key == old(cache).promo_store_cache_by_key
                &&& final(cache).promo_tenor_cache_all == old(cache).promo_tenor_cache_all
                &&& final(cache).auth_token_cache == old(cache).auth_token_cache
                &&& if rows.deep_view().len() == 0 {
                    r matches Err(AppError::Internal(m)) && m@ == "Failed to update promo"@
                } else {
                    r matches Ok(p) && p@ == rows.deep_view()[0]
                }
            },
        },
{
    match updated {
        Err(e) => {
            let mut m = "Supabase update error: ".to_owned();
            let em = e.message();
            m.append(em.as_str());
            Err(AppError::Promo(PromoError::DatabaseError(m)))
        },
        Ok(mut rows) => {
            cache.clear_promo_cache_all();
            if rows.len() == 0 {
                Err(AppError::Internal("Failed to update promo".to_owned()))
            } else {
                let ghost dv = rows.deep_view();
                let first = rows.remove(0);
                proof {
                    assert(first.deep_view() == dv[0]);
                }
                Ok(first)
            }
        },
    }
}

/// Completes a deletion by identity: the cache is invalidated on every
/// successful remote call.
pub fn rep_delete_by_id_finish(
    cache: &mut CacheRepository,
    deleted: Result<Vec<Promo>, SupabaseError>,
) -> (r: Result<(), AppError>)
    requires
        old(cache).wf(),
    ensures
        final(cache).wf(),
        match deleted {
            Err(e) => *final(cache) == *old(cache) && (r matches Err(
                AppError::Promo(PromoError::DatabaseError(m)),
            ) && m@ == "Supabase delete error: "@ + spec_supabase_message(e@)),
            Ok(_) => {
                &&& r is Ok
                &&& final(cache).promo_cache_all@ =~= Seq::<Promo>::empty()
                &&& final(cache).store_cache_all == old(cache).store_cache_all
                &&& final(cache).store_cache_by_route == old(cache).store_cache_by_route
                &&& final(cache).promo_store_cache_all == old(cache).promo_store_cache_all
                &&& final(cache).promo_store_cache_by_key == old(cache).promo_store_cache_by_key
                &&& final(cache).promo_tenor_cache_all == old(cache).promo_tenor_cache_all
                &&& final(cache).auth_token_cache == old(cache).auth_token_cache
            },
        },
{
    match deleted {
        Err(e) => {
            let mut m = "Supabase delete error: ".to_owned();
            let em = e.message();
            m.append(em.as_str());
            Err(AppError::Promo(PromoError::DatabaseError(m)))
        },
        Ok(_) => {
            cache.clear_promo_cache_all();
            Ok(())
        },
    }
}

/// Whether some cached relation ties this promotion to the store.
pub open spec fn spec_promo_on_store(
    pss: Seq<PromoStoreView>,
    store_id: u128,
    id_promo: u128,
) -> bool {
    exists|j: int|
        0 <= j < pss.len() && (#[trigger] pss[j]).store_id == store_id && pss[j].promo_id
            == id_promo
}

/// The promotions the cache ties to one store: a pure join of the two
/// cached collections, answered without any remote call.
pub fn rep_get_by_store_id(cache: &CacheRepository, store_id: u128) -> (r: Vec<Promo>)
    requires
        cache.wf(),
    ensures
        r.deep_view() == cache.promo_cache_all.deep_view().filter(
            |p: PromoView|
                spec_promo_on_store(
                    cache.promo_store_cache_all.deep_view(),
                    store_id,
                    p.id_promo,
                ),
        ),
{
    let ghost pss = cache.promo_store_cache_all.deep_view();
    let ghost pred = |p: PromoView| spec_promo_on_store(pss, store_id, p.id_promo);
    let mut promo_ids: Vec<u128> = Vec::new();
    let mut i: usize = 0;
    while i < cache.promo_store_cache_all.len()
        invariant
            0 <= i <= cache.promo_store_cache_all@.len(),
            pss == cache.promo_store_cache_all.deep_view(),
            pss.len() == cache.promo_store_cache_all@.len(),
            forall|x: u128|
                promo_ids@.contains(x) <==> exists|j: int|
                    0 <= j < i && (#[trigger] pss[j]).store_id == store_id && pss[j].promo_id
                        == x,
        decreases cache.promo_store_cache_all@.len() - i,
    {
        let entry = &cache.promo_store_cache_all[i];
        proof {
            assert(pss[i as int] == cache.promo_store_cache_all@[i as int]@);
        }
        let ghost pre_ids = promo_ids@;
        let hit = entry.store_id == store_id;
        if hit {
            promo_ids.push(entry.promo_id);
        }
        i += 1;
        proof {
            assert forall|x: u128| promo_ids@.contains(x) implies exists|j: int|
                0 <= j < i && (#[trigger] pss[j]).store_id == store_id && pss[j].promo_id
                    == x by {
                let k = choose|k: int| 0 <= k < promo_ids@.len() && promo_ids@[k] == x;
                if hit && k == promo_ids@.len() - 1 {
                    assert((pss[i - 1]).store_id == store_id && pss[i - 1].promo_id == x);
                } else {
                    assert(pre_ids[k] == x);
                    assert(pre_ids.contains(x));
                }
            }
            assert forall|x: u128| (exists|j: int|
                0 <= j < i && (#[trigger] pss[j]).store_id == store_id && pss[j].promo_id
                    == x) implies promo_ids@.contains(x) by {
                let j = choose|j: int|
                    0 <= j < i && (#[trigger] pss[j]).store_id == store_id && pss[j].promo_id
                        == x;
                if j < i - 1 {
                    assert(pre_ids.contains(x));
                    let k = choose|k: int| 0 <= k < pre_ids.len() && pre_ids[k] == x;
                    assert(promo_ids@[k] == x);
                } else {
                    assert(promo_ids@[promo_ids@.len() - 1] == x);
                }
            }
        }
    }
    proof {
        assert forall|x: u128| promo_ids@.contains(x) <==> spec_promo_on_store(
            pss,
            store_id,
            x,
        ) by {}
    }
    let mut result: Vec<Promo> = Vec::new();
    let ghost pvs = cache.promo_cache_all.deep_view();
    let mut k: usize = 0;
    proof {
        reveal(Seq::filter);
        assert(pvs.subrange(0, 0).filter(pred) =~= Seq::<PromoView>::empty());
    }
    while k < cache.promo_cache_all.len()
        invariant
            0 <= k <= cache.promo_cache_all@.len(),
            pvs == cache.promo_cache_all.deep_view(),
            pvs.len() == cache.promo_cache_all@.len(),
            pss == cache.promo_store_cache_all.deep_view(),
            pred == (|p: PromoView| spec_promo_on_store(pss, store_id, p.id_promo)),
            forall|x: u128|
                promo_ids@.contains(x) <==> spec_promo_on_store(pss, store_id, x),
            result.deep_view() == pvs.subrange(0, k as int).filter(pred),
        decreases cache.promo_cache_all@.len() - k,
    {
        let entry = &cache.promo_cache_all[k];
        proof {
            assert(pvs[k as int] == cache.promo_cache_all@[k as int]@);
        }
        let keep = ids_contains(&promo_ids, entry.id_promo);
        let ghost pre_dv = result.deep_view();
        if keep {
            result.push(entry.clone());
        }
        k += 1;
        proof {
            reveal(Seq::filter);
            let post = pvs.subrange(0, k as int);
            assert(post.drop_last() =~= pvs.subrange(0, k - 1));
            assert(post.last() == pvs[k - 1]);
            if keep {
                assert(pred(pvs[k - 1]));
                assert(result.deep_view() =~= pre_dv.push(pvs[k - 1])) by {
                    assert forall|j: int| 0 <= j < pre_dv.len() implies #[trigger] result.deep_view()[j]
                        == pre_dv[j] by {
                        assert(result.deep_view()[j] == result@[j].deep_view());
                    }
                    assert(result.deep_view()[pre_dv.len() as int] == pvs[k - 1]);
                }
            } else {
                assert(!pred(pvs[k - 1]));
            }
            assert(result.deep_view() =~= post.filter(pred));
        }
    }
    proof {
        assert(pvs.subrange(0, pvs.len() as int) =~= pvs);
    }
    result
}

/// Whether a plain identifier list holds a value.
pub fn ids_contains(v: &Vec<u128>, x: u128) -> (r: bool)
    ensures
        r == v@.contains(x),
{
    let mut i: usize = 0;
    while i < v.len()
        invariant
            0 <= i <= v@.len(),
            forall|j: int| 0 <= j < i ==> v@[j] != x,
        decreases v@.len() - i,
    {
        if v[i] == x {
            return true;
        }
        i += 1;
    }
    false
}

} // verus!
