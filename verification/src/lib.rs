//! A verified access layer for a small relational domain (stores, promotions,
//! promotion tenors, and the store/promotion relation) held behind a remote,
//! REST-style data service.
//!
//! The crate owns the logic with engineering weight: the read-through,
//! invalidate-on-write entity caches with their secondary indices, the query
//! builder that renders typed filters into the remote service's URL grammar,
//! the classifier that maps remote failures into a typed error taxonomy, the
//! bearer-token claim cache, and the sliding-window rate limiter. Transport,
//! routing and other plumbing live outside, and talk to this crate through
//! plain values.

pub mod assoc;
pub mod cache_repository;
pub mod error;
pub mod health_handler;
pub mod laws;
pub mod middleware;
pub mod supabase_client;
pub mod supabase_error;
pub mod strutil;
pub mod uid;
pub mod store_model;
pub mod store_repository;
pub mod promo_model;
pub mod promo_repository;
pub mod promo_tenor_model;
pub mod promo_tenor_repository;
pub mod rate_limiter;
pub mod promo_store_model;
pub mod promo_store_repository;
