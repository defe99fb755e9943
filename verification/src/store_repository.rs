//! The store repository: the decisions of the read-through,
//! invalidate-on-write cycle. Reads consult the cache first; the
//! surrounding transport performs the remote call only when these
//! functions say the cache cannot answer, and hands the outcome back to
//! the `..._finish` functions, which map errors, enforce the empty-result
//! rule, refill the cache after a full fetch, and clear it after any
//! successful mutation.

use vstd::prelude::*;
use vstd::string::StringExecFns;
use crate::cache_repository::CacheRepository;
use crate::store_model::Store;
use crate::store_model::StoreView;
use crate::store_model::clone_stores;
use crate::supabase_error::SupabaseError;
use crate::supabase_error::spec_is_not_found;
use crate::supabase_error::spec_supabase_message;
use crate::error::AppError;
use crate::error::StoreError;

verus! {

/// The cached snapshot a full fetch may answer with: the collection when
/// it is non-empty, else nothing, which obliges one remote round trip.
pub open spec fn spec_store_cache_lookup(c: CacheRepository) -> Option<Seq<StoreView>> {
    if c.store_cache_all.deep_view().len() > 0 {
        Some(c.store_cache_all.deep_view())
    } else {
        None
    }
}

/// The cache side of a full fetch: a non-empty collection is the answer,
/// an empty one demands the remote trip.
pub fn rep_fetch_all_cached(cache: &CacheRepository) -> (r: Option<Vec<Store>>)
    requires
        cache.wf(),
    ensures
        match r {
            Some(v) => spec_store_cache_lookup(*cache) == Some(v.deep_view()),
            None => spec_store_cache_lookup(*cache) is None,
        },
{
    if cache.store_cache_all.len() > 0 {
        Some(clone_stores(&cache.store_cache_all))
    } else {
        None
    }
}

/// Completes a full fetch after the remote trip: a transport absence is
/// the domain's absence, any other failure a database error; zero raw
/// rows are an absence; otherwise the decoded rows replace the cache
/// (collection and by-route index together) and come back to the caller.
pub fn rep_fetch_all_finish(
    cache: &mut CacheRepository,
    fetched: Result<Vec<Store>, SupabaseError>,
    raw_count: usize,
) -> (r: Result<Vec<Store>, AppError>)
    requires
        old(cache).wf(),
    ensures
        final(cache).wf(),
        match fetched {
            Err(e) => *final(cache) == *old(cache) && (if spec_is_not_found(e@) {
                r matches Err(AppError::Store(StoreError::NotFound(m))) && m@
                    == "No stores found"@
            } else {
                r matches Err(AppError::Store(StoreError::DatabaseError(m))) && m@
                    == "Supabase error: "@ + spec_supabase_message(e@)
            }),
            Ok(rows) => if raw_count == 0 {
                *final(cache) == *old(cache) && (r matches Err(
                    AppError::Store(StoreError::NotFound(m)),
                ) && m@ == "No stores found"@)
            } else {
                &&& (r matches Ok(v) && v.deep_view() == rows.deep_view())
                &&& final(cache).store_cache_all.deep_view() == rows.deep_view()
                &&& final(cache).promo_cache_all == old(cache).promo_cache_all
                &&& final(cache).promo_store_cache_all == old(cache).promo_store_cache_all
                &&& final(cache).promo_tenor_cache_all == old(cache).promo_tenor_cache_all
                &&& final(cache).auth_token_cache == old(cache).auth_token_cache
            },
        },
{
    match fetched {
        Err(e) => {
            if e.is_not_found() {
                Err(AppError::Store(StoreError::NotFound("No stores found".to_owned())))
            } else {
                let mut m = "Supabase error: ".to_owned();
                let em = e.message();
                m.append(em.as_str());
                Err(AppError::Store(StoreError::DatabaseError(m)))
            }
        },
        Ok(rows) => {
            if raw_count == 0 {
                Err(AppError::Store(StoreError::NotFound("No stores found".to_owned())))
            } else {
                let out = clone_stores(&rows);
                cache.clear_store_cache_all();
                cache.save_store_cache_all(rows);
                Ok(out)
            }
        },
    }
}

/// Completes a by-route fetch: the index answered already or the remote
/// rows are in hand; the first row is the store, no row is the typed
/// absence, and the bulk cache is left alone.
pub fn rep_fetch_by_route_finish(route: &str, fetched: Result<Vec<Store>, SupabaseError>) -> (r:
    Result<Store, AppError>)
    ensures
        match fetched {
            Err(e) => if spec_is_not_found(e@) {
                r matches Err(AppError::Store(StoreError::NotFound(m))) && m@ == "Store with route '"@
                    + route@ + "' not found"@
            } else {
                r matches Err(AppError::Store(StoreError::DatabaseError(m))) && m@
                    == "Supabase error: "@ + spec_supabase_message(e@)
            },
            Ok(rows) => if rows.deep_view().len() == 0 {
                r matches Err(AppError::Store(StoreError::NotFound(m))) && m@
                    == "Store with route '"@ + route@ + "' not found"@
            } else {
                r matches Ok(s) && s@ == rows.deep_view()[0]
            },
        },
{
    match fetched {
        Err(e) => {
            if e.is_not_found() {
                Err(AppError::Store(StoreError::NotFound(route_not_found_message(route))))
            } else {
                let mut m = "Supabase error: ".to_owned();
                let em = e.message();
                m.append(em.as_str());
                Err(AppError::Store(StoreError::DatabaseError(m)))
            }
        },
        Ok(mut rows) => {
            if rows.len() == 0 {
                Err(AppError::Store(StoreError::NotFound(route_not_found_message(route))))
            } else {
                let ghost dv = rows.deep_view();
                let first = rows.remove(0);
                proof {
                    assert(first.deep_view() == dv[0]);
                }
                Ok(first)
            }
        },
    }
}

fn route_not_found_message(route: &str) -> (r: String)
    ensures
        r@ == "Store with route '"@ + route@ + "' not found"@,
{
    let mut m = "Store with route '".to_owned();
    m.append(route);
    m.append("' not found");
    proof {
        assert(m@ =~= "Store with route '"@ + route@ + "' not found"@);
    }
    m
}

/// Completes a creation: a remote failure is a database error and leaves
/// the cache alone; a created row invalidates the store cache, forcing
/// the next read to refetch.
pub fn rep_create_finish(cache: &mut CacheRepository, created: Result<Store, SupabaseError>) -> (r:
    Result<Store, AppError>)
    requires
        old(cache).wf(),
    ensures
        final(cache).wf(),
        match created {
            Err(e) => *final(cache) == *old(cache) && (r matches Err(
                AppError::Store(StoreError::DatabaseError(m)),
            ) && m@ == "Supabase error during create: "@ + spec_supabase_message(e@)),
            Ok(s) => {
                &&& (r matches Ok(v) && v == s)
                &&& final(cache).store_cache_all@ =~= Seq::<Store>::empty()
                &&& final(cache).store_cache_by_route@ =~= Seq::<(String, Store)>::empty()
                &&& final(cache).promo_cache_all == old(cache).promo_cache_all
                &&& final(cache).promo_store_cache_all == old(cache).promo_store_cache_all
                &&& final(cache).promo_tenor_cache_all == old(cache).promo_tenor_cache_all
                &&& final(cache).auth_token_cache == old(cache).auth_token_cache
            },
        },
{
    match created {
        Err(e) => {
            let mut m = "Supabase error during create: ".to_owned();
            let em = e.message();
            m.append(em.as_str());
            Err(AppError::Store(StoreError::DatabaseError(m)))
        },
        Ok(s) => {
            cache.clear_store_cache_all();
            Ok(s)
        },
    }
}

/// Completes an update scoped by route: error mapping as for reads, an
/// empty affected-row set is an internal failure, and a successful
/// update invalidates the store cache.
pub fn rep_update_finish(
    cache: &mut CacheRepository,
    route: &str,
    updated: Result<Vec<Store>, SupabaseError>,
) -> (r: Result<Store, AppError>)
    requires
        old(cache).wf(),
    ensures
        final(cache).wf(),
        match updated {
            Err(e) => *final(cache) == *old(cache) && (if spec_is_not_found(e@) {
                r matches Err(AppError::Store(StoreError::NotFound(m))) && m@
                    == "Store with route '"@ + route@ + "' not found"@
            } else {
                r matches Err(AppError::Store(StoreError::DatabaseError(m))) && m@
                    == "Supabase error during update: "@ + spec_supabase_message(e@)
            }),
            Ok(rows) => if rows.deep_view().len() == 0 {
                *final(cache) == *old(cache) && (r matches Err(AppError::Internal(m)) && m@
                    == "Gagal memperbarui store."@)
            } else {
                &&& (r matches Ok(s) && s@ == rows.deep_view()[0])
                &&& final(cache).store_cache_all@ =~= Seq::<Store>::empty()
                &&& final(cache).store_cache_by_route@ =~= Seq::<(String, Store)>::empty()
                &&& final(cache).promo_cache_all == old(cache).promo_cache_all
                &&& final(cache).promo_store_cache_all == old(cache).promo_store_cache_all
                &&& final(cache).promo_tenor_cache_all == old(cache).promo_tenor_cache_all
                &&& final(cache).auth_token_cache == old(cache).auth_token_cache
            },
        },
{
    match updated {
        Err(e) => {
            if e.is_not_found() {
                Err(AppError::Store(StoreError::NotFound(route_not_found_message(route))))
            } else {
                let mut m = "Supabase error during update: ".to_owned();
                let em = e.message();
                m.append(em.as_str());
                Err(AppError::Store(StoreError::DatabaseError(m)))
            }
        },
        Ok(mut rows) => {
            if rows.len() == 0 {
                Err(AppError::Internal("Gagal memperbarui store.".to_owned()))
            } else {
                let ghost dv = rows.deep_view();
                let first = rows.remove(0);
                proof {
                    assert(first.deep_view() == dv[0]);
                }
                cache.clear_store_cache_all();
                Ok(first)
            }
        },
    }
}

/// Completes a deletion scoped by route: an empty affected-row set is an
/// internal failure, and a successful deletion invalidates the store
/// cache.
pub fn rep_delete_finish(
    cache: &mut CacheRepository,
    route: &str,
    deleted: Result<Vec<Store>, SupabaseError>,
) -> (r: Result<(), AppError>)
    requires
        old(cache).wf(),
    ensures
        final(cache).wf(),
        match deleted {
            Err(e) => *final(cache) == *old(cache) && (if spec_is_not_found(e@) {
                r matches Err(AppError::Store(StoreError::NotFound(m))) && m@
                    == "Store with route '"@ + route@ + "' not found"@
            } else {
                r matches Err(AppError::Store(StoreError::DatabaseError(m))) && m@
                    == "Supabase error during delete: "@ + spec_supabase_message(e@)
            }),
            Ok(rows) => if rows.deep_view().len() == 0 {
                *final(cache) == *old(cache) && (r matches Err(AppError::Internal(m)) && m@
                    == "Gagal menghapus store."@)
            } else {
                &&& r is Ok
                &&& final(cache).store_cache_all@ =~= Seq::<Store>::empty()
                &&& final(cache).store_cache_by_route@ =~= Seq::<(String, Store)>::empty()
                &&& final(cache).promo_cache_all == old(cache).promo_cache_all
                &&& final(cache).promo_store_cache_all == old(cache).promo_store_cache_all
                &&& final(cache).promo_tenor_cache_all == old(cache).promo_tenor_cache_all
                &&& final(cache).auth_token_cache == old(cache).auth_token_cache
            },
        },
{
    match deleted {
        Err(e) => {
            if e.is_not_found() {
                Err(AppError::Store(StoreError::NotFound(route_not_found_message(route))))
            } else {
                let mut m = "Supabase error during delete: ".to_owned();
                let em = e.message();
                m.append(em.as_str());
                Err(AppError::Store(StoreError::DatabaseError(m)))
            }
        },
        Ok(rows) => {
            if rows.len() == 0 {
                Err(AppError::Internal("Gagal menghapus store.".to_owned()))
            } else {
                cache.clear_store_cache_all();
                Ok(())
            }
        },
    }
}

} // verus!
