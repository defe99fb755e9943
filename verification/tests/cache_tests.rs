//! The entity caches: index consistency, idempotent clearing, claim
//! expiry, invalidation after mutations, and the cold-cache round trip.

use promo_cache::cache_repository::CacheRepository;
use promo_cache::middleware::Claims;
use promo_cache::store_model::Store;
use promo_cache::store_model::StoreType;
use promo_cache::promo_store_model::PromoStore;
use promo_cache::store_repository;
use promo_cache::promo_store_repository;
use promo_cache::supabase_error::SupabaseError;

fn store(id: u128, name: &str, route: Option<&str>) -> Store {
    Store {
        id,
        name: name.to_string(),
        company: "acme".to_string(),
        address: None,
        route: route.map(|r| r.to_string()),
        store_type: Some(StoreType::KA),
        created_at: None,
        updated_at: None,
    }
}

fn relation(id: u128, promo_id: u128, store_id: u128) -> PromoStore {
    PromoStore { id, promo_id, store_id, tenor_ids: None, created_at: None, updated_at: None }
}

#[test]
fn save_all_builds_route_index() {
    let mut cache = CacheRepository::new();
    cache.save_store_cache_all(vec![
        store(1, "first", Some("jkt-01")),
        store(2, "second", None),
        store(3, "third", Some("jkt-02")),
    ]);
    let hit = cache.get_store_cache_by_route("jkt-01").expect("indexed route");
    assert_eq!(hit.id, 1);
    let hit2 = cache.get_store_cache_by_route("jkt-02").expect("indexed route");
    assert_eq!(hit2.id, 3);
    assert!(cache.get_store_cache_by_route("jkt-03").is_none());
}

#[test]
fn save_all_last_route_holder_wins() {
    let mut cache = CacheRepository::new();
    cache.save_store_cache_all(vec![
        store(1, "old", Some("jkt-01")),
        store(2, "new", Some("jkt-01")),
    ]);
    let hit = cache.get_store_cache_by_route("jkt-01").expect("indexed route");
    assert_eq!(hit.id, 2);
}

#[test]
fn save_all_drops_previous_generation_from_index() {
    let mut cache = CacheRepository::new();
    cache.save_store_cache_all(vec![store(1, "first", Some("jkt-01"))]);
    cache.save_store_cache_all(vec![store(2, "second", Some("jkt-02"))]);
    assert!(cache.get_store_cache_by_route("jkt-01").is_none());
    assert_eq!(cache.get_store_cache_by_route("jkt-02").unwrap().id, 2);
}

#[test]
fn clear_twice_leaves_collection_empty_both_times() {
    let mut cache = CacheRepository::new();
    cache.save_store_cache_all(vec![store(1, "first", Some("jkt-01"))]);
    cache.clear_store_cache_all();
    assert_eq!(cache.get_store_cache_all().len(), 0);
    assert!(cache.get_store_cache_by_route("jkt-01").is_none());
    cache.clear_store_cache_all();
    assert_eq!(cache.get_store_cache_all().len(), 0);
    assert!(cache.get_store_cache_by_route("jkt-01").is_none());
}

#[test]
fn promo_store_index_by_composite_key() {
    let mut cache = CacheRepository::new();
    cache.save_promo_store_cache_all(vec![relation(9, 0x11, 0x22), relation(10, 0x11, 0x33)]);
    let hit = cache.get_promo_store_cache_by_key(0x11, 0x22).expect("indexed pair");
    assert_eq!(hit.id, 9);
    assert!(cache.get_promo_store_cache_by_key(0x11, 0x44).is_none());
}

#[test]
fn claim_saved_with_expiry_is_gone_at_expiry() {
    let mut cache = CacheRepository::new();
    let claims = Claims { sub: "u".to_string(), aud: "authenticated".to_string(), exp: 100 };
    cache.save_token_claims("tok".to_string(), Some(claims), 100);
    let before = cache.get_cached_claims("tok", 99);
    assert_eq!(before.expect("valid before expiry").sub, "u");
    let at = cache.get_cached_claims("tok", 100);
    assert!(at.is_none());
    // the expired entry was evicted by the read that found it
    assert!(!cache.get_auth_token_cache("tok", 99));
}

#[test]
fn claim_overwrite_is_unconditional() {
    let mut cache = CacheRepository::new();
    let c1 = Claims { sub: "a".to_string(), aud: "authenticated".to_string(), exp: 50 };
    let c2 = Claims { sub: "b".to_string(), aud: "authenticated".to_string(), exp: 90 };
    cache.save_token_claims("tok".to_string(), Some(c1), 50);
    cache.save_token_claims("tok".to_string(), Some(c2), 90);
    assert_eq!(cache.get_cached_claims("tok", 60).expect("still valid").sub, "b");
}

#[test]
fn cold_cache_round_trip_populates_bulk_and_route_index() {
    let mut cache = CacheRepository::new();
    // a cold cache cannot answer: exactly one remote fetch is owed
    assert!(store_repository::rep_fetch_all_cached(&cache).is_none());
    let rows = vec![store(1, "first", Some("jkt-01")), store(2, "second", Some("jkt-02"))];
    let got = store_repository::rep_fetch_all_finish(&mut cache, Ok(rows), 2).expect("saved");
    assert_eq!(got.len(), 2);
    // the next full fetch is a hit: no further remote call
    let hit = store_repository::rep_fetch_all_cached(&cache).expect("warm cache");
    assert_eq!(hit.len(), 2);
    // and the by-route index resolves without any remote call
    assert_eq!(cache.get_store_cache_by_route("jkt-01").unwrap().id, 1);
}

#[test]
fn successful_mutation_forces_next_fetch_remote() {
    let mut cache = CacheRepository::new();
    let rows = vec![store(1, "first", Some("jkt-01"))];
    store_repository::rep_fetch_all_finish(&mut cache, Ok(rows), 1).expect("saved");
    assert!(store_repository::rep_fetch_all_cached(&cache).is_some());
    let created = store(5, "fresh", Some("jkt-05"));
    store_repository::rep_create_finish(&mut cache, Ok(created)).expect("created");
    // the pre-mutation snapshot is gone: the next read must refetch
    assert!(store_repository::rep_fetch_all_cached(&cache).is_none());
    assert!(cache.get_store_cache_by_route("jkt-01").is_none());
}

#[test]
fn relation_mutation_invalidates_tenor_cache_too() {
    let mut cache = CacheRepository::new();
    cache.save_promo_store_cache_all(vec![relation(1, 0xa, 0xb)]);
    promo_store_repository::rep_delete_by_key_finish(&mut cache, Ok(vec![relation(1, 0xa, 0xb)]))
        .expect("deleted");
    assert_eq!(cache.get_promo_store_cache_all().len(), 0);
    assert_eq!(cache.get_promo_tenor_cache_all().len(), 0);
    assert!(cache.get_promo_store_cache_by_key(0xa, 0xb).is_none());
}

#[test]
fn fetch_all_finish_maps_absence_and_failures() {
    let mut cache = CacheRepository::new();
    let r = store_repository::rep_fetch_all_finish(&mut cache, Ok(vec![]), 0);
    match r {
        Err(promo_cache::error::AppError::Store(promo_cache::error::StoreError::NotFound(m))) => {
            assert_eq!(m, "No stores found");
        },
        _ => panic!("raw-empty result must be the typed absence"),
    }
    let r2 = store_repository::rep_fetch_all_finish(
        &mut cache,
        Err(SupabaseError::NotFound),
        0,
    );
    assert!(matches!(
        r2,
        Err(promo_cache::error::AppError::Store(promo_cache::error::StoreError::NotFound(_)))
    ));
    let r3 = store_repository::rep_fetch_all_finish(
        &mut cache,
        Err(SupabaseError::RateLimited { message: "Rate limit exceeded".to_string() }),
        0,
    );
    match r3 {
        Err(promo_cache::error::AppError::Store(
            promo_cache::error::StoreError::DatabaseError(m),
        )) => {
            assert_eq!(m, "Supabase error: Rate limited: Rate limit exceeded");
        },
        _ => panic!("other failures must map to a database error"),
    }
}

#[test]
fn by_route_finish_takes_first_row_or_the_typed_absence() {
    let rows = vec![store(4, "hit", Some("jkt-04")), store(5, "extra", Some("jkt-04"))];
    let got = store_repository::rep_fetch_by_route_finish("jkt-04", Ok(rows)).expect("first row");
    assert_eq!(got.id, 4);
    let missing = store_repository::rep_fetch_by_route_finish("jkt-09", Ok(vec![]));
    match missing {
        Err(promo_cache::error::AppError::Store(promo_cache::error::StoreError::NotFound(m))) => {
            assert_eq!(m, "Store with route 'jkt-09' not found");
        },
        _ => panic!("an empty row set must be the typed absence"),
    }
}

#[test]
fn update_with_no_affected_rows_is_internal_and_keeps_the_cache() {
    let mut cache = CacheRepository::new();
    cache.save_store_cache_all(vec![store(1, "first", Some("jkt-01"))]);
    let r = store_repository::rep_update_finish(&mut cache, "jkt-01", Ok(vec![]));
    match r {
        Err(promo_cache::error::AppError::Internal(m)) => {
            assert_eq!(m, "Gagal memperbarui store.");
        },
        _ => panic!("no affected row must be an internal failure"),
    }
    // the failed update did not invalidate anything
    assert_eq!(cache.get_store_cache_all().len(), 1);
}

#[test]
fn delete_invalidates_only_on_affected_rows() {
    let mut cache = CacheRepository::new();
    cache.save_store_cache_all(vec![store(1, "first", Some("jkt-01"))]);
    let ok = store_repository::rep_delete_finish(
        &mut cache,
        "jkt-01",
        Ok(vec![store(1, "first", Some("jkt-01"))]),
    );
    assert!(ok.is_ok());
    assert_eq!(cache.get_store_cache_all().len(), 0);
}
