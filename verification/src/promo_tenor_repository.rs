//! The tenor repository: read-through and invalidate-on-write for
//! promotion tenors, the cache-only filters over the tenor collection,
//! and the derived view that joins relations and tenors to list what one
//! store offers.

use vstd::prelude::*;
use vstd::string::StringExecFns;
use crate::strutil::str_eq;
use crate::cache_repository::CacheRepository;
use crate::promo_tenor_model::PromoTenor;
use crate::promo_tenor_model::PromoTenorView;
use crate::promo_tenor_model::clone_promo_tenors;
use crate::promo_store_model::PromoStoreView;
use crate::supabase_error::SupabaseError;
use crate::supabase_error::spec_is_not_found;
use crate::supabase_error::spec_supabase_message;
use crate::uid::spec_uuid_str;
use crate::uid::uuid_to_string;
use crate::error::AppError;
use crate::error::PromoTenorError;

verus! {

/// The cached snapshot a full fetch may answer with.
pub open spec fn spec_promo_tenor_cache_lookup(c: CacheRepository) -> Option<
    Seq<PromoTenorView>,
> {
    if c.promo_tenor_cache_all.deep_view().len() > 0 {
        Some(c.promo_tenor_cache_all.deep_view())
    } else {
        None
    }
}

/// The cache side of a full fetch.
pub fn rep_fetch_all_cached(cache: &CacheRepository) -> (r: Option<Vec<PromoTenor>>)
    requires
        cache.wf(),
    ensures
        match r {
            Some(v) => spec_promo_tenor_cache_lookup(*cache) == Some(v.deep_view()),
            None => spec_promo_tenor_cache_lookup(*cache) is None,
        },
{
    if cache.promo_tenor_cache_all.len() > 0 {
        Some(clone_promo_tenors(&cache.promo_tenor_cache_all))
    } else {
        None
    }
}

/// Completes a full fetch: errors map onto the tenor taxonomy; zero raw
/// rows are an absence; otherwise the decoded rows replace the cache.
pub fn rep_fetch_all_finish(
    cache: &mut CacheRepository,
    fetched: Result<Vec<PromoTenor>, SupabaseError>,
    raw_count: usize,
) -> (r: Result<Vec<PromoTenor>, AppError>)
    requires
        old(cache).wf(),
    ensures
        final(cache).wf(),
        match fetched {
            Err(e) => *final(cache) == *old(cache) && (if spec_is_not_found(e@) {
                r matches Err(AppError::PromoTenor(PromoTenorError::NotFound(m))) && m@
                    == "No promo tenors found"@
            } else {
                r matches Err(AppError::PromoTenor(PromoTenorError::DatabaseError(m))) && m@
                    == "Supabase error: "@ + spec_supabase_message(e@)
            }),
            Ok(rows) => if raw_count == 0 {
                *final(cache) == *old(cache) && (r matches Err(
                    AppError::PromoTenor(PromoTenorError::NotFound(m)),
                ) && m@ == "No promo tenors found"@)
            } else {
                &&& (r matches Ok(v) && v.deep_view() == rows.deep_view())
                &&& final(cache).promo_tenor_cache_all.deep_view() == rows.deep_view()
                &&& final(cache).promo_cache_all == old(cache).promo_cache_all
                &&& final(cache).store_cache_all == old(cache).store_cache_all
                &&& final(cache).store_cache_by_route == old(cache).store_cache_by_route
                &&& final(cache).promo_store_cache_all == old(cache).promo_store_cache_all
                &&& final(cache).promo_store_cache_by_key == old(cache).promo_store_cache_by_key
                &&& final(cache).auth_token_cache == old(cache).auth_token_cache
            },
        },
{
    match fetched {
        Err(e) => {
            if e.is_not_found() {
                Err(AppError::PromoTenor(PromoTenorError::NotFound(
                    "No promo tenors found".to_owned(),
                )))
            } else {
                let mut m = "Supabase error: ".to_owned();
                let em = e.message();
                m.append(em.as_str());
                Err(AppError::PromoTenor(PromoTenorError::DatabaseError(m)))
            }
        },
        Ok(rows) => {
            if raw_count == 0 {
                Err(AppError::PromoTenor(PromoTenorError::NotFound(
                    "No promo tenors found".to_owned(),
                )))
            } else {
                let out = clone_promo_tenors(&rows);
                cache.clear_promo_tenor_cache_all();
                cache.save_promo_tenor_cache_all(rows);
                Ok(out)
            }
        },
    }
}

fn tenor_not_found_message(id: u128) -> (r: String)
    ensures
        r@ == "PromoTenor with id '"@ + spec_uuid_str(id) + "' not found"@,
{
    let mut m = "PromoTenor with id '".to_owned();
    let ids = uuid_to_string(id);
    m.append(ids.as_str());
    m.append("' not found");
    proof {
        assert(m@ =~= "PromoTenor with id '"@ + spec_uuid_str(id) + "' not found"@);
    }
    m
}

/// Completes a by-identity fetch, a remote-only read.
pub fn rep_fetch_by_id_finish(id: u128, fetched: Result<Vec<PromoTenor>, SupabaseError>) -> (r:
    Result<PromoTenor, AppError>)
    ensures
        match fetched {
            Err(e) => if spec_is_not_found(e@) {
                r matches Err(AppError::PromoTenor(PromoTenorError::NotFound(m))) && m@
                    == "PromoTenor with id '"@ + spec_uuid_str(id) + "' not found"@
            } else {
                r matches Err(AppError::PromoTenor(PromoTenorError::DatabaseError(m))) && m@
                    == "Supabase error: "@ + spec_supabase_message(e@)
            },
            Ok(rows) => if rows.deep_view().len() == 0 {
                r matches Err(AppError::PromoTenor(PromoTenorError::NotFound(m))) && m@
                    == "PromoTenor with id '"@ + spec_uuid_str(id) + "' not found"@
            } else {
                r matches Ok(t) && t@ == rows.deep_view()[0]
            },
        },
{
    match fetched {
        Err(e) => {
            if e.is_not_found() {
                Err(AppError::PromoTenor(PromoTenorError::NotFound(tenor_not_found_message(id))))
            } else {
                let mut m = "Supabase error: ".to_owned();
                let em = e.message();
                m.append(em.as_str());
                Err(AppError::PromoTenor(PromoTenorError::DatabaseError(m)))
            }
        },
        Ok(mut rows) => {
            if rows.len() == 0 {
                Err(AppError::PromoTenor(PromoTenorError::NotFound(tenor_not_found_message(id))))
            } else {
                let ghost dv = rows.deep_view();
                let first = rows.remove(0);
                proof {
                    assert(first.deep_view() == dv[0]);
                }
                Ok(first)
            }
        },
    }
}

/// Completes an insertion: a created tenor invalidates the tenor cache.
pub fn rep_insert_finish(
    cache: &mut CacheRepository,
    inserted: Result<PromoTenor, SupabaseError>,
) -> (r: Result<PromoTenor, AppError>)
    requires
        old(cache).wf(),
    ensures
        final(cache).wf(),
        match inserted {
            Err(e) => *final(cache) == *old(cache) && (r matches Err(
                AppError::PromoTenor(PromoTenorError::DatabaseError(m)),
            ) && m@ == "Supabase insert error: "@ + spec_supabase_message(e@)),
            Ok(t) => {
                &&& (r matches Ok(v) && v == t)
                &&& final(cache).promo_tenor_cache_all@ =~= Seq::<PromoTenor>::empty()
                &&& final(cache).promo_cache_all == old(cache).promo_cache_all
                &&& final(cache).store_cache_all == old(cache).store_cache_all
                &&& final(cache).store_cache_by_route == old(cache).store_cache_by_route
                &&& final(cache).promo_store_cache_all == old(cache).promo_store_cache_all
                &&& final(cache).promo_store_cache_by_key == old(cache).promo_store_cache_by_key
                &&& final(cache).auth_token_cache == old(cache).auth_token_cache
            },
        },
{
    match inserted {
        Err(e) => {
            let mut m = "Supabase insert error: ".to_owned();
            let em = e.message();
            m.append(em.as_str());
            Err(AppError::PromoTenor(PromoTenorError::DatabaseError(m)))
        },
        Ok(t) => {
            cache.clear_promo_tenor_cache_all();
            Ok(t)
        },
    }
}

/// Completes an update by identity: the tenor cache is invalidated on
/// every successful remote call; no affected row is then an internal
/// failure.
pub fn rep_update_by_id_finish(
    cache: &mut CacheRepository,
    updated: Result<Vec<PromoTenor>, SupabaseError>,
) -> (r: Result<PromoTenor, AppError>)
    requires
        old(cache).wf(),
    ensures
        final(cache).wf(),
        match updated {
            Err(e) => *final(cache) == *old(cache) && (r matches Err(
                AppError::PromoTenor(PromoTenorError::DatabaseError(m)),
            ) && m@ == "Supabase update error: "@ + spec_supabase_message(e@)),
            Ok(rows) => {
                &&& final(cache).promo_tenor_cache_all@ =~= Seq::<PromoTenor>::empty()
                &&& final(cache).promo_cache_all == old(cache).promo_cache_all
                &&& final(cache).store_cache_all == old(cache).store_cache_all
                &&& final(cache).store_cache_by_route == old(cache).store_cache_by_route
                &&& final(cache).promo_store_cache_all == old(cache).promo_store_cache_all
                &&& final(cache).promo_store_cache_by_key == old(cache).promo_store_cache_by_key
                &&& final(cache).auth_token_cache == old(cache).auth_token_cache
                &&& if rows.deep_view().len() == 0 {
                    r matches Err(AppError::Internal(m)) && m@ == "Failed to update promo_tenor"@
                } else {
                    r matches Ok(t) && t@ == rows.deep_view()[0]
                }
            },
        },
{
    match updated {
        Err(e) => {
            let mut m = "Supabase update error: ".to_owned();
            let em = e.message();
            m.append(em.as_str());
            Err(AppError::PromoTenor(PromoTenorError::DatabaseError(m)))
        },
        Ok(mut rows) => {
            cache.clear_promo_tenor_cache_all();
            if rows.len() == 0 {
                Err(AppError::Internal("Failed to update promo_tenor".to_owned()))
            } else {
                let ghost dv = rows.deep_view();
                let first = rows.remove(0);
                proof {
                    assert(first.deep_view() == dv[0]);
                }
                Ok(first)
            }
        },
    }
}

/// Completes a deletion by identity: the tenor cache is invalidated on
/// every successful remote call.
pub fn rep_delete_by_id_finish(
    cache: &mut CacheRepository,
    deleted: Result<Vec<PromoTenor>, SupabaseError>,
) -> (r: Result<(), AppError>)
    requires
        old(cache).wf(),
    ensures
        final(cache).wf(),
        match deleted {
            Err(e) => *final(cache) == *old(cache) && (r matches Err(
                AppError::PromoTenor(PromoTenorError::DatabaseError(m)),
            ) && m@ == "Supabase delete error: "@ + spec_supabase_message(e@)),
            Ok(_) => {
                &&& r is Ok
                &&& final(cache).promo_tenor_cache_all@ =~= Seq::<PromoTenor>::empty()
                &&& final(cache).promo_cache_all == old(cache).promo_cache_all
                &&& final(cache).store_cache_all == old(cache).store_cache_all
                &&& final(cache).store_cache_by_route == old(cache).store_cache_by_route
                &&& final(cache).promo_store_cache_all == old(cache).promo_store_cache_all
                &&& final(cache).promo_store_cache_by_key == old(cache).promo_store_cache_by_key
                &&& final(cache).auth_token_cache == old(cache).auth_token_cache
            },
        },
{
    match deleted {
        Err(e) => {
            let mut m = "Supabase delete error: ".to_owned();
            let em = e.message();
            m.append(em.as_str());
            Err(AppError::PromoTenor(PromoTenorError::DatabaseError(m)))
        },
        Ok(_) => {
            cache.clear_promo_tenor_cache_all();
            Ok(())
        },
    }
}

/// The cached tenors of one promotion: a pure filter.
pub fn rep_fetch_by_promo_id(cache: &CacheRepository, promo_id: u128) -> (r: Vec<PromoTenor>)
    requires
        cache.wf(),
    ensures
        r.deep_view() == cache.promo_tenor_cache_all.deep_view().filter(
            |t: PromoTenorView| t.promo_id == promo_id,
        ),
{
    let r = filter_tenors(&cache.promo_tenor_cache_all, FilterKey::ByPromo(promo_id));
    proof {
        lemma_filter_congruence(
            cache.promo_tenor_cache_all.deep_view(),
            FilterKey::ByPromo(promo_id).spec_pred(),
            |t: PromoTenorView| t.promo_id == promo_id,
        );
    }
    r
}

/// The cached tenors of one term length: a pure filter.
pub fn rep_fetch_by_tenor(cache: &CacheRepository, tenor: i32) -> (r: Vec<PromoTenor>)
    requires
        cache.wf(),
    ensures
        r.deep_view() == cache.promo_tenor_cache_all.deep_view().filter(
            |t: PromoTenorView| t.tenor == tenor,
        ),
{
    let r = filter_tenors(&cache.promo_tenor_cache_all, FilterKey::ByTenor(tenor));
    proof {
        lemma_filter_congruence(
            cache.promo_tenor_cache_all.deep_view(),
            FilterKey::ByTenor(tenor).spec_pred(),
            |t: PromoTenorView| t.tenor == tenor,
        );
    }
    r
}

/// The cached tenors carrying one voucher code: a pure filter.
pub fn rep_fetch_by_voucher(cache: &CacheRepository, voucher: &str) -> (r: Vec<PromoTenor>)
    requires
        cache.wf(),
    ensures
        r.deep_view() == cache.promo_tenor_cache_all.deep_view().filter(
            |t: PromoTenorView| t.voucher_code == Some(voucher@),
        ),
{
    let v = voucher.to_owned();
    let r = filter_tenors(&cache.promo_tenor_cache_all, FilterKey::ByVoucher(v.clone()));
    proof {
        lemma_filter_congruence(
            cache.promo_tenor_cache_all.deep_view(),
            FilterKey::ByVoucher(v).spec_pred(),
            |t: PromoTenorView| t.voucher_code == Some(voucher@),
        );
    }
    r
}

/// One cache-side filter key over tenors.
enum FilterKey {
    ByPromo(u128),
    ByTenor(i32),
    ByVoucher(String),
    AvailableOfPromo(u128),
}

impl FilterKey {
    spec fn spec_pred(&self) -> spec_fn(PromoTenorView) -> bool {
        match self {
            FilterKey::ByPromo(p) => {
                let pv = *p;
                |t: PromoTenorView| t.promo_id == pv
            },
            FilterKey::ByTenor(n) => {
                let nv = *n;
                |t: PromoTenorView| t.tenor == nv
            },
            FilterKey::ByVoucher(v) => {
                let vv = v@;
                |t: PromoTenorView| t.voucher_code == Some(vv)
            },
            FilterKey::AvailableOfPromo(p) => {
                let pv = *p;
                |t: PromoTenorView| t.promo_id == pv && t.is_available
            },
        }
    }

    fn matches(&self, t: &PromoTenor) -> (r: bool)
        ensures
            r == self.spec_pred()(t@),
    {
        match self {
            FilterKey::ByPromo(p) => t.promo_id == *p,
            FilterKey::ByTenor(n) => t.tenor == *n,
            FilterKey::ByVoucher(v) => {
                match &t.voucher_code {
                    Some(vc) => str_eq(vc.as_str(), v.as_str()),
                    None => false,
                }
            },
            FilterKey::AvailableOfPromo(p) => t.promo_id == *p && t.is_available,
        }
    }
}

/// Two pointwise-equal predicates keep the same elements.
proof fn lemma_filter_congruence<A>(
    s: Seq<A>,
    p: spec_fn(A) -> bool,
    q: spec_fn(A) -> bool,
)
    requires
        forall|x: A| #[trigger] p(x) == q(x),
    ensures
        s.filter(p) == s.filter(q),
    decreases s.len(),
{
    reveal(Seq::filter);
    if s.len() > 0 {
        lemma_filter_congruence(s.drop_last(), p, q);
    }
}

/// Filters a tenor collection by one key, cloning the kept snapshots.
fn filter_tenors(tenors: &Vec<PromoTenor>, key: FilterKey) -> (r: Vec<PromoTenor>)
    ensures
        r.deep_view() == tenors.deep_view().filter(key.spec_pred()),
{
    let ghost pred = key.spec_pred();
    let ghost dvs = tenors.deep_view();
    let mut result: Vec<PromoTenor> = Vec::new();
    let mut i: usize = 0;
    proof {
        reveal(Seq::filter);
        assert(dvs.subrange(0, 0).filter(pred) =~= Seq::<PromoTenorView>::empty());
    }
    while i < tenors.len()
        invariant
            0 <= i <= tenors@.len(),
            dvs == tenors.deep_view(),
            dvs.len() == tenors@.len(),
            pred == key.spec_pred(),
            result.deep_view() == dvs.subrange(0, i as int).filter(pred),
        decreases tenors@.len() - i,
    {
        let entry = &tenors[i];
        proof {
            assert(dvs[i as int] == tenors@[i as int]@);
        }
        let ghost pre_dv = result.deep_view();
        let keep = key.matches(entry);
        if keep {
            result.push(entry.clone());
        }
        i += 1;
        proof {
            reveal(Seq::filter);
            let post = dvs.subrange(0, i as int);
            assert(post.drop_last() =~= dvs.subrange(0, i - 1));
            assert(post.last() == dvs[i - 1]);
            if keep {
                assert(result.deep_view() =~= pre_dv.push(dvs[i - 1])) by {
                    assert forall|j: int| 0 <= j < pre_dv.len() implies #[trigger] result.deep_view()[j]
                        == pre_dv[j] by {
                        assert(result.deep_view()[j] == result@[j].deep_view());
                    }
                    assert(result.deep_view()[pre_dv.len() as int] == dvs[i - 1]);
                }
            }
            assert(result.deep_view() =~= post.filter(pred));
        }
    }
    proof {
        assert(dvs.subrange(0, dvs.len() as int) =~= dvs);
    }
    result
}

/// The available tenors one store offers through its cached relations:
/// for every relation of the store, in collection order, the available
/// tenors of that relation's promotion.
pub open spec fn spec_tenors_for_store(
    pss: Seq<PromoStoreView>,
    tenors: Seq<PromoTenorView>,
    store_id: u128,
) -> Seq<PromoTenorView>
    decreases pss.len(),
{
    if pss.len() == 0 {
        Seq::empty()
    } else {
        spec_tenors_for_store(pss.drop_last(), tenors, store_id) + (
        if pss.last().store_id == store_id {
            tenors.filter(
                |t: PromoTenorView| t.promo_id == pss.last().promo_id && t.is_available,
            )
        } else {
            Seq::empty()
        })
    }
}

/// The derived by-store view: a pure join of the relation and tenor
/// caches, answered without any remote call.
pub fn rep_fetch_by_store_id(cache: &CacheRepository, store_id: u128) -> (r: Vec<PromoTenor>)
    requires
        cache.wf(),
    ensures
        r.deep_view() == spec_tenors_for_store(
            cache.promo_store_cache_all.deep_view(),
            cache.promo_tenor_cache_all.deep_view(),
            store_id,
        ),
{
    let ghost pss = cache.promo_store_cache_all.deep_view();
    let ghost tvs = cache.promo_tenor_cache_all.deep_view();
    let mut result: Vec<PromoTenor> = Vec::new();
    let mut i: usize = 0;
    proof {
        assert(pss.subrange(0, 0) =~= Seq::<PromoStoreView>::empty());
        assert(result.deep_view() =~= spec_tenors_for_store(pss.subrange(0, 0), tvs, store_id));
    }
    while i < cache.promo_store_cache_all.len()
        invariant
            0 <= i <= cache.promo_store_cache_all@.len(),
            pss == cache.promo_store_cache_all.deep_view(),
            pss.len() == cache.promo_store_cache_all@.len(),
            tvs == cache.promo_tenor_cache_all.deep_view(),
            result.deep_view() == spec_tenors_for_store(pss.subrange(0, i as int), tvs, store_id),
        decreases cache.promo_store_cache_all@.len() - i,
    {
        let entry = &cache.promo_store_cache_all[i];
        proof {
            assert(pss[i as int] == cache.promo_store_cache_all@[i as int]@);
        }
        let ghost pre_dv = result.deep_view();
        if entry.store_id == store_id {
            let part = filter_tenors(
                &cache.promo_tenor_cache_all,
                FilterKey::AvailableOfPromo(entry.promo_id),
            );
            let ghost part_dv = part.deep_view();
            proof {
                lemma_filter_congruence(
                    tvs,
                    FilterKey::AvailableOfPromo(pss[i as int].promo_id).spec_pred(),
                    |t: PromoTenorView| t.promo_id == pss[i as int].promo_id && t.is_available,
                );
            }
            append_tenors(&mut result, part);
            proof {
                assert(result.deep_view() =~= pre_dv + part_dv);
            }
        }
        i += 1;
        proof {
            let post = pss.subrange(0, i as int);
            assert(post.drop_last() =~= pss.subrange(0, i - 1));
            assert(post.last() == pss[i - 1]);
            if pss[i - 1].store_id == store_id {
                assert(result.deep_view() =~= spec_tenors_for_store(post, tvs, store_id));
            } else {
                assert(result.deep_view() =~= pre_dv + Seq::<PromoTenorView>::empty());
                assert(result.deep_view() =~= spec_tenors_for_store(post, tvs, store_id));
            }
        }
    }
    proof {
        assert(pss.subrange(0, pss.len() as int) =~= pss);
    }
    result
}

/// Moves every element of `part` onto the end of `acc`.
fn append_tenors(acc: &mut Vec<PromoTenor>, part: Vec<PromoTenor>)
    ensures
        final(acc).deep_view() == old(acc).deep_view() + part.deep_view(),
{
    let ghost base = acc.deep_view();
    let ghost part_dv = part.deep_view();
    let mut part = part;
    let mut moved: usize = 0;
    let n: usize = part.len();
    proof {
        assert(part_dv.subrange(0, 0) =~= Seq::<PromoTenorView>::empty());
        assert(acc.deep_view() =~= base + part_dv.subrange(0, 0));
    }
    while moved < n
        invariant
            0 <= moved <= n,
            n == part_dv.len(),
            part@.len() == n - moved,
            part.deep_view() == part_dv.subrange(moved as int, n as int),
            acc.deep_view() == base + part_dv.subrange(0, moved as int),
        decreases n - moved,
    {
        let ghost acc_pre = acc.deep_view();
        let ghost part_pre = part.deep_view();
        let ghost raw_pre = part@;
        let e = part.remove(0);
        proof {
            assert(e.deep_view() == part_pre[0]);
            assert forall|j: int| 0 <= j < part@.len() implies #[trigger] part.deep_view()[j]
                == part_pre[j + 1] by {
                assert(part.deep_view()[j] == part@[j].deep_view());
                assert(part@[j] == raw_pre[j + 1]);
                assert(part_pre[j + 1] == raw_pre[j + 1].deep_view());
            }
            assert(part.deep_view() =~= part_dv.subrange(moved + 1, n as int));
        }
        acc.push(e);
        moved += 1;
        proof {
            assert(acc.deep_view() =~= acc_pre.push(e.deep_view())) by {
                assert forall|j: int| 0 <= j < acc_pre.len() implies #[trigger] acc.deep_view()[j]
                    == acc_pre[j] by {
                    assert(acc.deep_view()[j] == acc@[j].deep_view());
                }
                assert(acc.deep_view()[acc_pre.len() as int] == e.deep_view());
            }
            assert(acc.deep_view() =~= base + part_dv.subrange(0, moved as int));
        }
    }
    proof {
        assert(part_dv.subrange(0, n as int) =~= part_dv);
    }
}

} // verus!
