//! The readiness, liveness and metrics surface over the caches: item
//! counts per entity, readiness once the store and promotion caches are
//! both warm, and a liveness snapshot. The surrounding layer supplies
//! the timestamp text and serializes the answers.

use vstd::prelude::*;
use vstd::string::StringExecFns;
use crate::cache_repository::CacheRepository;

verus! {

pub struct HealthResponse {
    pub status: String,
    pub timestamp: String,
    pub checks: HealthChecks,
}

pub struct HealthChecks {
    pub cache: CheckStatus,
}

pub struct CheckStatus {
    pub status: String,
    pub items: usize,
}

pub struct ReadyResponse {
    pub ready: bool,
    pub timestamp: String,
}

pub struct MetricsResponse {
    pub cache_promo_count: usize,
    pub cache_store_count: usize,
    pub cache_promo_store_count: usize,
    pub cache_promo_tenor_count: usize,
}

/// The total cached item count, saturating at the machine bound.
pub open spec fn spec_total_items(c: CacheRepository) -> int {
    let total = c.promo_cache_all@.len() + c.store_cache_all@.len()
        + c.promo_store_cache_all@.len() + c.promo_tenor_cache_all@.len();
    if total > usize::MAX {
        usize::MAX as int
    } else {
        total as int
    }
}

/// The liveness snapshot: healthy always, with the cache reported `up`
/// once anything at all is cached and `warming` before that.
pub fn health_check(cache: &CacheRepository, timestamp: String) -> (r: HealthResponse)
    ensures
        r.status@ == "healthy"@,
        r.timestamp == timestamp,
        r.checks.cache.items == spec_total_items(*cache),
        r.checks.cache.status@ == (if spec_total_items(*cache) > 0 {
            "up"@
        } else {
            "warming"@
        }),
{
    let promo_count = cache.get_promo_cache_all().len();
    let store_count = cache.get_store_cache_all().len();
    let promo_store_count = cache.get_promo_store_cache_all().len();
    let promo_tenor_count = cache.get_promo_tenor_cache_all().len();
    let total = promo_count.saturating_add(store_count).saturating_add(
        promo_store_count,
    ).saturating_add(promo_tenor_count);
    let cache_status = if total > 0 {
        "up".to_owned()
    } else {
        "warming".to_owned()
    };
    HealthResponse {
        status: "healthy".to_owned(),
        timestamp,
        checks: HealthChecks { cache: CheckStatus { status: cache_status, items: total } },
    }
}

/// The readiness probe: ready only once the store and promotion caches
/// are both non-empty.
pub fn ready_check(cache: &CacheRepository, timestamp: String) -> (r: ReadyResponse)
    ensures
        r.ready == (cache.promo_cache_all@.len() > 0 && cache.store_cache_all@.len() > 0),
        r.timestamp == timestamp,
{
    let promo_count = cache.get_promo_cache_all().len();
    let store_count = cache.get_store_cache_all().len();
    ReadyResponse { ready: promo_count > 0 && store_count > 0, timestamp }
}

/// The per-entity cache item counts.
pub fn metrics(cache: &CacheRepository) -> (r: MetricsResponse)
    ensures
        r.cache_promo_count == cache.promo_cache_all@.len(),
        r.cache_store_count == cache.store_cache_all@.len(),
        r.cache_promo_store_count == cache.promo_store_cache_all@.len(),
        r.cache_promo_tenor_count == cache.promo_tenor_cache_all@.len(),
{
    MetricsResponse {
        cache_promo_count: cache.get_promo_cache_all().len(),
        cache_store_count: cache.get_store_cache_all().len(),
        cache_promo_store_count: cache.get_promo_store_cache_all().len(),
        cache_promo_tenor_count: cache.get_promo_tenor_cache_all().len(),
    }
}

} // verus!
