//! The failure classifier: each status and each body shape lands on its
//! typed variant, and nothing unmatched ever reads as success.

use promo_cache::supabase_client::classify_failure;
use promo_cache::supabase_client::check_auth_outcome;
use promo_cache::supabase_client::health_check_outcome;
use promo_cache::supabase_error::SupabaseError;
use promo_cache::supabase_error::extract_table_name;
use promo_cache::supabase_error::extract_table_and_column;

#[test]
fn missing_relation_names_the_table() {
    let body = "{\"message\":\"relation \\\"public.store\\\" does not exist\"}";
    match classify_failure(400, body, "store") {
        SupabaseError::TableNotFound { table } => assert_eq!(table, "store"),
        _ => panic!("a missing relation must classify as a missing table"),
    }
}

#[test]
fn missing_column_names_table_and_column() {
    let body = "{\"message\":\"column \\\"price\\\" of table \\\"public.store\\\" does not exist\"}";
    match classify_failure(400, body, "store") {
        SupabaseError::ColumnNotFound { table, column } => {
            assert_eq!(table, "store");
            assert_eq!(column, "price");
        },
        _ => panic!("a missing column must classify as a missing column"),
    }
}

#[test]
fn filter_complaints_classify_as_query_errors() {
    match classify_failure(400, "failed to parse filter (x)", "t") {
        SupabaseError::QueryError { message } => assert_eq!(message, "Invalid filter syntax"),
        _ => panic!("a filter complaint must classify as a query error"),
    }
    let body = "{\"message\":\"failed to parse filter (y)\"}";
    match classify_failure(422, body, "t") {
        SupabaseError::QueryError { message } => assert_eq!(message, "Invalid filter syntax"),
        _ => panic!("a filter complaint must classify as a query error"),
    }
}

#[test]
fn unmatched_bad_request_is_a_generic_query_error() {
    match classify_failure(400, "something odd", "t") {
        SupabaseError::QueryError { message } => assert_eq!(message, "something odd"),
        _ => panic!("an unmatched shape must fall into the generic variant"),
    }
}

#[test]
fn auth_statuses_classify_as_auth_errors() {
    assert!(matches!(classify_failure(401, "", "t"), SupabaseError::AuthError { .. }));
    assert!(matches!(classify_failure(403, "", "t"), SupabaseError::AuthError { .. }));
}

#[test]
fn not_found_takes_the_table_from_the_path() {
    match classify_failure(404, "", "store?route=eq.x") {
        SupabaseError::TableNotFound { table } => assert_eq!(table, "store"),
        _ => panic!("a missing path must name its table"),
    }
}

#[test]
fn conflict_and_throttle_statuses() {
    assert!(matches!(classify_failure(409, "", "t"), SupabaseError::InsertConflict { .. }));
    assert!(matches!(classify_failure(429, "", "t"), SupabaseError::RateLimited { .. }));
}

#[test]
fn unprocessable_entity_defaults_to_validation() {
    match classify_failure(422, "bad field", "t") {
        SupabaseError::ValidationError { field, reason } => {
            assert_eq!(field, "unknown");
            assert_eq!(reason, "bad field");
        },
        _ => panic!("an unmatched unprocessable body must classify as validation"),
    }
}

#[test]
fn server_and_unknown_statuses_stay_http_errors() {
    match classify_failure(503, "boom", "t") {
        SupabaseError::HttpError { status, message } => {
            assert_eq!(status, 503);
            assert_eq!(message, "Server error");
        },
        _ => panic!("a server breakdown must stay an HTTP error"),
    }
    match classify_failure(418, "teapot", "t") {
        SupabaseError::HttpError { status, message } => {
            assert_eq!(status, 418);
            assert_eq!(message, "teapot");
        },
        _ => panic!("an unknown status must stay an HTTP error"),
    }
}

#[test]
fn table_name_extraction_reads_quoted_text() {
    assert_eq!(
        extract_table_name("relation \"public.store\" does not exist"),
        Some("store".to_string())
    );
    assert_eq!(
        extract_table_name("relation \"store\" does not exist"),
        Some("store".to_string())
    );
    assert_eq!(extract_table_name("no quotes here"), None);
}

#[test]
fn table_and_column_extraction_needs_two_quoted_pieces() {
    assert_eq!(
        extract_table_and_column("column \"price\" of table \"public.store\" is gone"),
        Some(("store".to_string(), "price".to_string()))
    );
    assert_eq!(extract_table_and_column("column \"price\" only"), None);
}

#[test]
fn error_predicates_follow_the_taxonomy() {
    assert!(SupabaseError::NotFound.is_not_found());
    assert!(SupabaseError::TableNotFound { table: "t".to_string() }.is_not_found());
    assert!(!SupabaseError::MultipleResults.is_not_found());
    assert!(SupabaseError::NotFound.is_client_error());
    assert!(
        SupabaseError::HttpError { status: 500, message: "x".to_string() }.is_server_error()
    );
    assert!(
        !SupabaseError::HttpError { status: 404, message: "x".to_string() }.is_server_error()
    );
    assert!(SupabaseError::NetworkError { message: "x".to_string() }.is_network_error());
    assert!(SupabaseError::AuthError { message: "x".to_string() }.is_auth_error());
}

#[test]
fn failure_messages_render_fixed_phrases() {
    let e = SupabaseError::HttpError { status: 503, message: "Server error".to_string() };
    assert_eq!(e.message(), "HTTP error 503: Server error");
    assert_eq!(SupabaseError::NotFound.message(), "No results found");
    let c = SupabaseError::ColumnNotFound { table: "store".to_string(), column: "p".to_string() };
    assert_eq!(c.message(), "Column not found: p in table store");
}

#[test]
fn connectivity_probe_reads_client_answers_as_reachable() {
    assert!(health_check_outcome(Ok(())).is_ok());
    assert!(health_check_outcome(Err(SupabaseError::AuthError { message: "x".to_string() }))
        .is_ok());
    assert!(health_check_outcome(Err(SupabaseError::TableNotFound { table: "t".to_string() }))
        .is_ok());
    assert!(health_check_outcome(Err(SupabaseError::HttpError {
        status: 404,
        message: "x".to_string()
    }))
    .is_ok());
    assert!(health_check_outcome(Err(SupabaseError::HttpError {
        status: 503,
        message: "x".to_string()
    }))
    .is_err());
    assert!(health_check_outcome(Err(SupabaseError::NetworkError { message: "x".to_string() }))
        .is_err());
}

#[test]
fn auth_probe_passes_failures_through() {
    assert!(check_auth_outcome(Ok(())).is_ok());
    let r = check_auth_outcome(Err(SupabaseError::AuthError { message: "bad key".to_string() }));
    match r {
        Err(SupabaseError::AuthError { message }) => assert_eq!(message, "bad key"),
        _ => panic!("an authentication failure must come back unchanged"),
    }
}
