//! Domain errors and their HTTP mapping, the health surface, and the
//! cache-only joins of the repositories.

use promo_cache::error::AppError;
use promo_cache::error::StoreError;
use promo_cache::error::PromoError;
use promo_cache::error::PromoTenorError;
use promo_cache::error::PromoStoreError;
use promo_cache::cache_repository::CacheRepository;
use promo_cache::health_handler;
use promo_cache::promo_model::Promo;
use promo_cache::promo_model::AdminPromoType;
use promo_cache::promo_model::DiscountPromoType;
use promo_cache::promo_store_model::PromoStore;
use promo_cache::promo_tenor_model::PromoTenor;
use promo_cache::promo_repository;
use promo_cache::promo_store_repository;
use promo_cache::promo_tenor_repository;

fn promo(id: u128, title: &str) -> Promo {
    Promo {
        id_promo: id,
        title_promo: title.to_string(),
        admin_promo_type: AdminPromoType::FIX,
        interest_rate: "0.05".to_string(),
        discount_type: DiscountPromoType::PERCENT,
        is_active: true,
        start_date_promo: None,
        end_date_promo: None,
        created_at: None,
        updated_at: None,
    }
}

fn relation(id: u128, promo_id: u128, store_id: u128) -> PromoStore {
    PromoStore { id, promo_id, store_id, tenor_ids: None, created_at: None, updated_at: None }
}

fn tenor(id: u128, promo_id: u128, months: i32, available: bool, voucher: Option<&str>) -> PromoTenor {
    PromoTenor {
        id,
        promo_id,
        tenor: months,
        min_transaction: 0,
        subsidi: "0".to_string(),
        admin: "0".to_string(),
        discount: 0,
        max_discount: 0,
        voucher_code: voucher.map(|v| v.to_string()),
        free_installment: 0,
        is_available: available,
        created_at: None,
        updated_at: None,
    }
}

#[test]
fn status_codes_follow_the_documented_mapping() {
    assert_eq!(AppError::Store(StoreError::NotFound("x".to_string())).status_code(), 404);
    assert_eq!(AppError::Store(StoreError::AlreadyExists("x".to_string())).status_code(), 409);
    assert_eq!(AppError::Store(StoreError::InvalidRoute("x".to_string())).status_code(), 400);
    assert_eq!(AppError::Store(StoreError::DatabaseError("x".to_string())).status_code(), 500);
    assert_eq!(AppError::Promo(PromoError::InvalidId("x".to_string())).status_code(), 400);
    assert_eq!(
        AppError::PromoTenor(PromoTenorError::InvalidVoucher("x".to_string())).status_code(),
        400
    );
    assert_eq!(
        AppError::PromoStore(PromoStoreError::InvalidKey("x".to_string())).status_code(),
        400
    );
    assert_eq!(AppError::Unauthorized.status_code(), 401);
    assert_eq!(AppError::InvalidToken("x".to_string()).status_code(), 401);
    assert_eq!(AppError::BadRequest("x".to_string()).status_code(), 400);
    assert_eq!(AppError::Internal("x".to_string()).status_code(), 500);
}

#[test]
fn response_parts_carry_the_bare_payload() {
    let (status, body) = AppError::Store(StoreError::NotFound("gone".to_string()))
        .response_parts();
    assert_eq!(status, 404);
    assert_eq!(body, "gone");
    let (s2, b2) = AppError::Unauthorized.response_parts();
    assert_eq!(s2, 401);
    assert_eq!(b2, "Unauthorized");
}

#[test]
fn error_messages_render_their_prefixes() {
    assert_eq!(
        StoreError::NotFound("no row".to_string()).message(),
        "Store not found: no row"
    );
    assert_eq!(
        PromoError::DatabaseError("boom".to_string()).message(),
        "Promo database error: boom"
    );
    assert_eq!(
        PromoTenorError::InvalidTenor("9".to_string()).message(),
        "Invalid tenor value: 9"
    );
    assert_eq!(
        PromoStoreError::AlreadyExists("pair".to_string()).message(),
        "Promo store relation already exists: pair"
    );
    assert_eq!(
        AppError::InvalidToken("expired".to_string()).message(),
        "Invalid token: expired"
    );
}

#[test]
fn health_surface_counts_and_readiness() {
    let mut cache = CacheRepository::new();
    let cold = health_handler::health_check(&cache, "t0".to_string());
    assert_eq!(cold.status, "healthy");
    assert_eq!(cold.checks.cache.status, "warming");
    assert_eq!(cold.checks.cache.items, 0);
    assert!(!health_handler::ready_check(&cache, "t0".to_string()).ready);

    cache.save_promo_cache_all(vec![promo(1, "p")]);
    assert!(!health_handler::ready_check(&cache, "t1".to_string()).ready);
    cache.save_store_cache_all(vec![]);
    cache.save_promo_store_cache_all(vec![relation(1, 1, 2)]);
    let warm = health_handler::health_check(&cache, "t2".to_string());
    assert_eq!(warm.checks.cache.status, "up");
    assert_eq!(warm.checks.cache.items, 2);
    let m = health_handler::metrics(&cache);
    assert_eq!(m.cache_promo_count, 1);
    assert_eq!(m.cache_store_count, 0);
    assert_eq!(m.cache_promo_store_count, 1);
    assert_eq!(m.cache_promo_tenor_count, 0);
}

#[test]
fn promos_of_a_store_join_through_relations() {
    let mut cache = CacheRepository::new();
    cache.save_promo_cache_all(vec![promo(1, "a"), promo(2, "b"), promo(3, "c")]);
    cache.save_promo_store_cache_all(vec![relation(10, 1, 77), relation(11, 3, 77),
        relation(12, 2, 88)]);
    let promos = promo_repository::rep_get_by_store_id(&cache, 77);
    let titles: Vec<String> = promos.iter().map(|p| p.title_promo.clone()).collect();
    assert_eq!(titles, vec!["a".to_string(), "c".to_string()]);
    assert!(promo_repository::rep_get_by_store_id(&cache, 99).is_empty());
}

#[test]
fn relations_filter_by_either_side() {
    let mut cache = CacheRepository::new();
    cache.save_promo_store_cache_all(vec![relation(1, 7, 8), relation(2, 7, 9),
        relation(3, 6, 8)]);
    let by_promo = promo_store_repository::rep_fetch_by_promo_id(&cache, 7);
    assert_eq!(by_promo.len(), 2);
    let by_store = promo_store_repository::rep_fetch_by_store_id(&cache, 8);
    assert_eq!(by_store.len(), 2);
    assert_eq!(by_store[0].id, 1);
    assert_eq!(by_store[1].id, 3);
}

#[test]
fn tenors_filter_by_promo_term_and_voucher() {
    let mut cache = CacheRepository::new();
    cache.save_promo_tenor_cache_all(vec![
        tenor(1, 7, 3, true, Some("V1")),
        tenor(2, 7, 6, false, None),
        tenor(3, 6, 3, true, Some("V1")),
    ]);
    assert_eq!(promo_tenor_repository::rep_fetch_by_promo_id(&cache, 7).len(), 2);
    assert_eq!(promo_tenor_repository::rep_fetch_by_tenor(&cache, 3).len(), 2);
    let by_voucher = promo_tenor_repository::rep_fetch_by_voucher(&cache, "V1");
    assert_eq!(by_voucher.len(), 2);
    assert!(promo_tenor_repository::rep_fetch_by_voucher(&cache, "V2").is_empty());
}

#[test]
fn store_tenor_view_joins_available_tenors_only() {
    let mut cache = CacheRepository::new();
    cache.save_promo_store_cache_all(vec![relation(1, 7, 77), relation(2, 6, 77)]);
    cache.save_promo_tenor_cache_all(vec![
        tenor(1, 7, 3, true, None),
        tenor(2, 7, 6, false, None),
        tenor(3, 6, 12, true, None),
        tenor(4, 5, 3, true, None),
    ]);
    let offered = promo_tenor_repository::rep_fetch_by_store_id(&cache, 77);
    let ids: Vec<u128> = offered.iter().map(|t| t.id).collect();
    assert_eq!(ids, vec![1, 3]);
    assert!(promo_tenor_repository::rep_fetch_by_store_id(&cache, 99).is_empty());
}
