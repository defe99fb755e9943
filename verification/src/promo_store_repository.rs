//! The relation repository: read-through and invalidate-on-write for the
//! promotion/store join. Mutating a relation invalidates the tenor cache
//! too, since the tenors a store offers are derived through relations.

use vstd::prelude::*;
use vstd::string::StringExecFns;
use crate::cache_repository::CacheRepository;
use crate::promo_store_model::PromoStore;
use crate::promo_store_model::PromoStoreView;
use crate::promo_store_model::clone_promo_stores;
use crate::promo_tenor_model::PromoTenor;
use crate::supabase_error::SupabaseError;
use crate::supabase_error::spec_is_not_found;
use crate::supabase_error::spec_supabase_message;
use crate::uid::spec_uuid_str;
use crate::uid::uuid_to_string;
use crate::error::AppError;
use crate::error::PromoStoreError;
use vstd::string::StrSliceExecFns;
use crate::uid::parse_uuid;
use crate::uid::spec_uuid_wf;
use crate::uid::spec_uuid_val;

verus! {

/// The composite path key of a relation: two canonical identifiers
/// separated by one character, 73 characters in all. `Ok` exactly when
/// both halves are well-formed, and then the denoted pair.
pub fn parse_promo_store_key(key: &str) -> (r: Result<(u128, u128), PromoStoreError>)
    ensures
        match r {
            Ok(ids) => {
                &&& key@.len() == 73
                &&& spec_uuid_wf(key@.subrange(0, 36))
                &&& spec_uuid_wf(key@.subrange(37, 73))
                &&& ids.0 as int == spec_uuid_val(key@.subrange(0, 36))
                &&& ids.1 as int == spec_uuid_val(key@.subrange(37, 73))
            },
            Err(e) => {
                &&& e is InvalidKey
                &&& (key@.len() != 73 || !spec_uuid_wf(key@.subrange(0, 36)) || !spec_uuid_wf(
                    key@.subrange(37, 73),
                ))
            },
        },
{
    if key.unicode_len() != 73 {
        return Err(PromoStoreError::InvalidKey(
            "Invalid key format. Expected: {uuid}-{uuid}".to_owned(),
        ));
    }
    let promo_id = match parse_uuid(key.substring_char(0, 36)) {
        Some(v) => v,
        None => {
            return Err(PromoStoreError::InvalidKey("Invalid promo_id format".to_owned()));
        },
    };
    let store_id = match parse_uuid(key.substring_char(37, 73)) {
        Some(v) => v,
        None => {
            return Err(PromoStoreError::InvalidKey("Invalid store_id format".to_owned()));
        },
    };
    Ok((promo_id, store_id))
}

/// The cached snapshot a full fetch may answer with.
pub open spec fn spec_promo_store_cache_lookup(c: CacheRepository) -> Option<
    Seq<PromoStoreView>,
> {
    if c.promo_store_cache_all.deep_view().len() > 0 {
        Some(c.promo_store_cache_all.deep_view())
    } else {
        None
    }
}

/// The cache side of a full fetch.
pub fn rep_fetch_all_cached(cache: &CacheRepository) -> (r: Option<Vec<PromoStore>>)
    requires
        cache.wf(),
    ensures
        match r {
            Some(v) => spec_promo_store_cache_lookup(*cache) == Some(v.deep_view()),
            None => spec_promo_store_cache_lookup(*cache) is None,
        },
{
    if cache.promo_store_cache_all.len() > 0 {
        Some(clone_promo_stores(&cache.promo_store_cache_all))
    } else {
        None
    }
}

/// Completes a full fetch: errors map onto the relation taxonomy; zero
/// raw rows are an absence; otherwise the decoded rows replace the cache
/// (collection and by-key index together).
pub fn rep_fetch_all_finish(
    cache: &mut CacheRepository,
    fetched: Result<Vec<PromoStore>, SupabaseError>,
    raw_count: usize,
) -> (r: Result<Vec<PromoStore>, AppError>)
    requires
        old(cache).wf(),
    ensures
        final(cache).wf(),
        match fetched {
            Err(e) => *final(cache) == *old(cache) && (if spec_is_not_found(e@) {
                r matches Err(AppError::PromoStore(PromoStoreError::NotFound(m))) && m@
                    == "No promo store relations found"@
            } else {
                r matches Err(AppError::PromoStore(PromoStoreError::DatabaseError(m))) && m@
                    == "Supabase error: "@ + spec_supabase_message(e@)
            }),
            Ok(rows) => if raw_count == 0 {
                *final(cache) == *old(cache) && (r matches Err(
                    AppError::PromoStore(PromoStoreError::NotFound(m)),
                ) && m@ == "No promo store relations found"@)
            } else {
                &&& (r matches Ok(v) && v.deep_view() == rows.deep_view())
                &&& final(cache).promo_store_cache_all.deep_view() == rows.deep_view()
                &&& final(cache).promo_cache_all == old(cache).promo_cache_all
                &&& final(cache).store_cache_all == old(cache).store_cache_all
                &&& final(cache).store_cache_by_route == old(cache).store_cache_by_route
                &&& final(cache).promo_tenor_cache_all == old(cache).promo_tenor_cache_all
                &&& final(cache).auth_token_cache == old(cache).auth_token_cache
            },
        },
{
    match fetched {
        Err(e) => {
            if e.is_not_found() {
                Err(AppError::PromoStore(PromoStoreError::NotFound(
                    "No promo store relations found".to_owned(),
                )))
            } else {
                let mut m = "Supabase error: ".to_owned();
                let em = e.message();
                m.append(em.as_str());
                Err(AppError::PromoStore(PromoStoreError::DatabaseError(m)))
            }
        },
        Ok(rows) => {
            if raw_count == 0 {
                Err(AppError::PromoStore(PromoStoreError::NotFound(
                    "No promo store relations found".to_owned(),
                )))
            } else {
                let out = clone_promo_stores(&rows);
                cache.clear_promo_store_cache_all();
                cache.save_promo_store_cache_all(rows);
                Ok(out)
            }
        },
    }
}

fn key_not_found_message(promo_id: u128, store_id: u128) -> (r: String)
    ensures
        r@ == "PromoStore with promo_id '"@ + spec_uuid_str(promo_id) + "' and store_id '"@
            + spec_uuid_str(store_id) + "' not found"@,
{
    let mut m = "PromoStore with promo_id '".to_owned();
    let p = uuid_to_string(promo_id);
    m.append(p.as_str());
    m.append("' and store_id '");
    let t = uuid_to_string(store_id);
    m.append(t.as_str());
    m.append("' not found");
    proof {
        assert(m@ =~= "PromoStore with promo_id '"@ + spec_uuid_str(promo_id)
            + "' and store_id '"@ + spec_uuid_str(store_id) + "' not found"@);
    }
    m
}

/// Completes a by-key fetch after a remote trip forced by an index miss:
/// the first row is the relation, no row the typed absence; the bulk
/// cache is left alone.
pub fn rep_fetch_by_key_finish(
    promo_id: u128,
    store_id: u128,
    fetched: Result<Vec<PromoStore>, SupabaseError>,
) -> (r: Result<PromoStore, AppError>)
    ensures
        match fetched {
            Err(e) => if spec_is_not_found(e@) {
                r matches Err(AppError::PromoStore(PromoStoreError::NotFound(m))) && m@
                    == "PromoStore with promo_id '"@ + spec_uuid_str(promo_id)
                    + "' and store_id '"@ + spec_uuid_str(store_id) + "' not found"@
            } else {
                r matches Err(AppError::PromoStore(PromoStoreError::DatabaseError(m))) && m@
                    == "Supabase error: "@ + spec_supabase_message(e@)
            },
            Ok(rows) => if rows.deep_view().len() == 0 {
                r matches Err(AppError::PromoStore(PromoStoreError::NotFound(m))) && m@
                    == "PromoStore with promo_id '"@ + spec_uuid_str(promo_id)
                    + "' and store_id '"@ + spec_uuid_str(store_id) + "' not found"@
            } else {
                r matches Ok(v) && v@ == rows.deep_view()[0]
            },
        },
{
    match fetched {
        Err(e) => {
            if e.is_not_found() {
                Err(AppError::PromoStore(PromoStoreError::NotFound(key_not_found_message(
                    promo_id,
                    store_id,
                ))))
            } else {
                let mut m = "Supabase error: ".to_owned();
                let em = e.message();
                m.append(em.as_str());
                Err(AppError::PromoStore(PromoStoreError::DatabaseError(m)))
            }
        },
        Ok(mut rows) => {
            if rows.len() == 0 {
                Err(AppError::PromoStore(PromoStoreError::NotFound(key_not_found_message(
                    promo_id,
                    store_id,
                ))))
            } else {
                let ghost dv = rows.deep_view();
                let first = rows.remove(0);
                proof {
                    assert(first.deep_view() == dv[0]);
                }
                Ok(first)
            }
        },
    }
}

/// Completes an insertion: a created relation invalidates both the
/// relation cache (with its index) and the tenor cache, whose by-store
/// view is derived through relations.
pub fn rep_insert_finish(
    cache: &mut CacheRepository,
    inserted: Result<PromoStore, SupabaseError>,
) -> (r: Result<PromoStore, AppError>)
    requires
        old(cache).wf(),
    ensures
        final(cache).wf(),
        match inserted {
            Err(e) => *final(cache) == *old(cache) && (r matches Err(
                AppError::PromoStore(PromoStoreError::DatabaseError(m)),
            ) && m@ == "Supabase insert error: "@ + spec_supabase_message(e@)),
            Ok(v) => {
                &&& (r matches Ok(w) && w == v)
                &&& final(cache).promo_store_cache_all@ =~= Seq::<PromoStore>::empty()
                &&& final(cache).promo_store_cache_by_key@ =~= Seq::<
                    (String, PromoStore),
                >::empty()
                &&& final(cache).promo_tenor_cache_all@ =~= Seq::<PromoTenor>::empty()
                &&& final(cache).promo_cache_all == old(cache).promo_cache_all
                &&& final(cache).store_cache_all == old(cache).store_cache_all
                &&& final(cache).store_cache_by_route == old(cache).store_cache_by_route
                &&& final(cache).auth_token_cache == old(cache).auth_token_cache
            },
        },
{
    match inserted {
        Err(e) => {
            let mut m = "Supabase insert error: ".to_owned();
            let em = e.message();
            m.append(em.as_str());
            Err(AppError::PromoStore(PromoStoreError::DatabaseError(m)))
        },
        Ok(v) => {
            cache.clear_promo_store_cache_all();
            cache.clear_promo_tenor_cache_all();
            Ok(v)
        },
    }
}

/// Completes an update by composite key: both dependent caches are
/// invalidated on every successful remote call; no affected row is then
/// an internal failure.
pub fn rep_update_by_key_finish(
    cache: &mut CacheRepository,
    updated: Result<Vec<PromoStore>, SupabaseError>,
) -> (r: Result<PromoStore, AppError>)
    requires
        old(cache).wf(),
    ensures
        final(cache).wf(),
        match updated {
            Err(e) => *final(cache) == *old(cache) && (r matches Err(
                AppError::PromoStore(PromoStoreError::DatabaseError(m)),
            ) && m@ == "Supabase update error: "@ + spec_supabase_message(e@)),
            Ok(rows) => {
                &&& final(cache).promo_store_cache_all@ =~= Seq::<PromoStore>::empty()
                &&& final(cache).promo_store_cache_by_key@ =~= Seq::<
                    (String, PromoStore),
                >::empty()
                &&& final(cache).promo_tenor_cache_all@ =~= Seq::<PromoTenor>::empty()
                &&& final(cache).promo_cache_all == old(cache).promo_cache_all
                &&& final(cache).store_cache_all == old(cache).store_cache_all
                &&& final(cache).store_cache_by_route == old(cache).store_cache_by_route
                &&& final(cache).auth_token_cache == old(cache).auth_token_cache
                &&& if rows.deep_view().len() == 0 {
                    r matches Err(AppError::Internal(m)) && m@ == "Failed to update promo_store"@
                } else {
                    r matches Ok(v) && v@ == rows.deep_view()[0]
                }
            },
        },
{
    match updated {
        Err(e) => {
            let mut m = "Supabase update error: ".to_owned();
            let em = e.message();
            m.append(em.as_str());
            Err(AppError::PromoStore(PromoStoreError::DatabaseError(m)))
        },
        Ok(mut rows) => {
            cache.clear_promo_store_cache_all();
            cache.clear_promo_tenor_cache_all();
            if rows.len() == 0 {
                Err(AppError::Internal("Failed to update promo_store".to_owned()))
            } else {
                let ghost dv = rows.deep_view();
                let first = rows.remove(0);
                proof {
                    assert(first.deep_view() == dv[0]);
                }
                Ok(first)
            }
        },
    }
}

/// Completes a deletion by composite key: both dependent caches are
/// invalidated on every successful remote call.
pub fn rep_delete_by_key_finish(
    cache: &mut CacheRepository,
    deleted: Result<Vec<PromoStore>, SupabaseError>,
) -> (r: Result<(), AppError>)
    requires
        old(cache).wf(),
    ensures
        final(cache).wf(),
        match deleted {
            Err(e) => *final(cache) == *old(cache) && (r matches Err(
                AppError::PromoStore(PromoStoreError::DatabaseError(m)),
            ) && m@ == "Supabase delete error: "@ + spec_supabase_message(e@)),
            Ok(_) => {
                &&& r is Ok
                &&& final(cache).promo_store_cache_all@ =~= Seq::<PromoStore>::empty()
                &&& final(cache).promo_store_cache_by_key@ =~= Seq::<
                    (String, PromoStore),
                >::empty()
                &&& final(cache).promo_tenor_cache_all@ =~= Seq::<PromoTenor>::empty()
                &&& final(cache).promo_cache_all == old(cache).promo_cache_all
                &&& final(cache).store_cache_all == old(cache).store_cache_all
                &&& final(cache).store_cache_by_route == old(cache).store_cache_by_route
                &&& final(cache).auth_token_cache == old(cache).auth_token_cache
            },
        },
{
    match deleted {
        Err(e) => {
            let mut m = "Supabase delete error: ".to_owned();
            let em = e.message();
            m.append(em.as_str());
            Err(AppError::PromoStore(PromoStoreError::DatabaseError(m)))
        },
        Ok(_) => {
            cache.clear_promo_store_cache_all();
            cache.clear_promo_tenor_cache_all();
            Ok(())
        },
    }
}

/// The cached relations of one promotion: a pure filter of the cached
/// collection, answered without any remote call.
pub fn rep_fetch_by_promo_id(cache: &CacheRepository, promo_id: u128) -> (r: Vec<PromoStore>)
    requires
        cache.wf(),
    ensures
        r.deep_view() == cache.promo_store_cache_all.deep_view().filter(
            |v: PromoStoreView| v.promo_id == promo_id,
        ),
{
    let ghost pred = |v: PromoStoreView| v.promo_id == promo_id;
    let mut result: Vec<PromoStore> = Vec::new();
    let ghost dvs = cache.promo_store_cache_all.deep_view();
    let mut i: usize = 0;
    proof {
        reveal(Seq::filter);
        assert(dvs.subrange(0, 0).filter(pred) =~= Seq::<PromoStoreView>::empty());
    }
    while i < cache.promo_store_cache_all.len()
        invariant
            0 <= i <= cache.promo_store_cache_all@.len(),
            dvs == cache.promo_store_cache_all.deep_view(),
            dvs.len() == cache.promo_store_cache_all@.len(),
            pred == (|v: PromoStoreView| v.promo_id == promo_id),
            result.deep_view() == dvs.subrange(0, i as int).filter(pred),
        decreases cache.promo_store_cache_all@.len() - i,
    {
        let entry = &cache.promo_store_cache_all[i];
        proof {
            assert(dvs[i as int] == cache.promo_store_cache_all@[i as int]@);
        }
        let ghost pre_dv = result.deep_view();
        if entry.promo_id == promo_id {
            result.push(entry.clone());
        }
        i += 1;
        proof {
            reveal(Seq::filter);
            let post = dvs.subrange(0, i as int);
            assert(post.drop_last() =~= dvs.subrange(0, i - 1));
            assert(post.last() == dvs[i - 1]);
            if dvs[i - 1].promo_id == promo_id {
                assert(result.deep_view() =~= pre_dv.push(dvs[i - 1])) by {
                    assert forall|j: int| 0 <= j < pre_dv.len() implies #[trigger] result.deep_view()[j]
                        == pre_dv[j] by {
                        assert(result.deep_view()[j] == result@[j].deep_view());
                    }
                    assert(result.deep_view()[pre_dv.len() as int] == dvs[i - 1]);
                }
            }
            assert(result.deep_view() =~= post.filter(pred));
        }
    }
    proof {
        assert(dvs.subrange(0, dvs.len() as int) =~= dvs);
    }
    result
}

/// The cached relations of one store: a pure filter of the cached
/// collection, answered without any remote call.
pub fn rep_fetch_by_store_id(cache: &CacheRepository, store_id: u128) -> (r: Vec<PromoStore>)
    requires
        cache.wf(),
    ensures
        r.deep_view() == cache.promo_store_cache_all.deep_view().filter(
            |v: PromoStoreView| v.store_id == store_id,
        ),
{
    let ghost pred = |v: PromoStoreView| v.store_id == store_id;
    let mut result: Vec<PromoStore> = Vec::new();
    let ghost dvs = cache.promo_store_cache_all.deep_view();
    let mut i: usize = 0;
    proof {
        reveal(Seq::filter);
        assert(dvs.subrange(0, 0).filter(pred) =~= Seq::<PromoStoreView>::empty());
    }
    while i < cache.promo_store_cache_all.len()
        invariant
            0 <= i <= cache.promo_store_cache_all@.len(),
            dvs == cache.promo_store_cache_all.deep_view(),
            dvs.len() == cache.promo_store_cache_all@.len(),
            pred == (|v: PromoStoreView| v.store_id == store_id),
            result.deep_view() == dvs.subrange(0, i as int).filter(pred),
        decreases cache.promo_store_cache_all@.len() - i,
    {
        let entry = &cache.promo_store_cache_all[i];
        proof {
            assert(dvs[i as int] == cache.promo_store_cache_all@[i as int]@);
        }
        let ghost pre_dv = result.deep_view();
        if entry.store_id == store_id {
            result.push(entry.clone());
        }
        i += 1;
        proof {
            reveal(Seq::filter);
            let post = dvs.subrange(0, i as int);
            assert(post.drop_last() =~= dvs.subrange(0, i - 1));
            assert(post.last() == dvs[i - 1]);
            if dvs[i - 1].store_id == store_id {
                assert(result.deep_view() =~= pre_dv.push(dvs[i - 1])) by {
                    assert forall|j: int| 0 <= j < pre_dv.len() implies #[trigger] result.deep_view()[j]
                        == pre_dv[j] by {
                        assert(result.deep_view()[j] == result@[j].deep_view());
                    }
                    assert(result.deep_view()[pre_dv.len() as int] == dvs[i - 1]);
                }
            }
            assert(result.deep_view() =~= post.filter(pred));
        }
    }
    proof {
        assert(dvs.subrange(0, dvs.len() as int) =~= dvs);
    }
    result
}

} // verus!
