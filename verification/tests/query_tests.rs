//! The query builder's rendering into the remote filter grammar, its
//! call-order independence, identifier rendering and parsing, and the
//! client's base-address handling.

use promo_cache::supabase_client::SupabaseClient;
use promo_cache::supabase_client::single_of;
use promo_cache::supabase_client::first_of;
use promo_cache::supabase_error::SupabaseError;
use promo_cache::uid::uuid_to_string;
use promo_cache::uid::parse_uuid;
use promo_cache::strutil::u64_to_dec;
use promo_cache::strutil::i64_to_dec;
use promo_cache::strutil::bytes_to_hex;
use promo_cache::strutil::str_contains;
use promo_cache::strutil::str_split;

fn client() -> SupabaseClient {
    SupabaseClient::new("http://localhost:4000".to_string(), "key".to_string())
}

#[test]
fn query_round_trip_renders_documented_grammar() {
    let path = client()
        .from("store")
        .eq("route", "jkt-01")
        .order("name", true)
        .limit(10)
        .execute_path();
    assert_eq!(path, "store?route=eq.jkt-01&limit=10&order=name.asc");
    assert!(str_contains(&path, "route=eq.jkt-01"));
    assert!(str_contains(&path, "order=name.asc"));
    assert!(str_contains(&path, "limit=10"));
}

#[test]
fn query_rendering_is_call_order_independent() {
    let a = client().from("store").eq("route", "jkt-01").order("name", true).limit(10)
        .execute_path();
    let b = client().from("store").limit(10).order("name", true).eq("route", "jkt-01")
        .execute_path();
    let c = client().from("store").order("name", true).eq("route", "jkt-01").limit(10)
        .execute_path();
    assert_eq!(a, b);
    assert_eq!(a, c);
}

#[test]
fn values_are_percent_encoded() {
    let path = client().from("store").eq("name", "a b&c").execute_path();
    assert_eq!(path, "store?name=eq.a%20b%26c");
}

#[test]
fn filter_operators_render() {
    let c = client();
    assert_eq!(c.from("t").neq("a", "x").execute_path(), "t?a=neq.x");
    assert_eq!(c.from("t").gt("a", 5).execute_path(), "t?a=gt.5");
    assert_eq!(c.from("t").gte("a", 5).execute_path(), "t?a=gte.5");
    assert_eq!(c.from("t").lt("a", -5).execute_path(), "t?a=lt.-5");
    assert_eq!(c.from("t").lte("a", 0).execute_path(), "t?a=lte.0");
    assert_eq!(c.from("t").like("a", "x%").execute_path(), "t?a=like.x%25");
    assert_eq!(c.from("t").ilike("a", "x%").execute_path(), "t?a=ilike.x%25");
    assert_eq!(c.from("t").eq_bool("a", true).execute_path(), "t?a=eq.true");
    assert_eq!(c.from("t").eq_num("a", -42).execute_path(), "t?a=eq.-42");
    assert_eq!(c.from("t").is_null("a").execute_path(), "t?a=is.null");
    assert_eq!(c.from("t").is_not_null("a").execute_path(), "t?a=not.is.null");
    assert_eq!(c.from("t").offset(3).execute_path(), "t?offset=3");
    assert_eq!(c.from("t").select("a,b").execute_path(), "t?select=a,b");
    assert_eq!(c.from("t").id("7").execute_path(), "t?id=eq.7");
    assert_eq!(c.from("t").id_num(7).execute_path(), "t?id=eq.7");
    assert_eq!(c.from("t").is_verified(false).execute_path(), "t?verified=eq.false");
    assert_eq!(c.from("t").order_desc("a").execute_path(), "t?order=a.desc");
    assert_eq!(c.from("t").order_asc("a").execute_path(), "t?order=a.asc");
}

#[test]
fn in_list_renders_parenthesized_members() {
    let values = vec!["a".to_string(), "b c".to_string()];
    let path = client().from("t").in_list("k", &values).execute_path();
    assert_eq!(path, "t?k=in.(a,b%20c)");
}

#[test]
fn bare_table_renders_without_parameters() {
    assert_eq!(client().from("store").execute_path(), "store");
    assert_eq!(client().from("store").insert_path(), "store");
}

#[test]
fn mutation_scope_uses_filters_only() {
    let path = client().from("store").eq("id", "7").limit(10).update_path();
    assert_eq!(path, "store?id=eq.7");
    let path2 = client().from("store").eq("id", "7").delete_path();
    assert_eq!(path2, "store?id=eq.7");
}

#[test]
fn count_path_prepends_exact_count() {
    assert_eq!(client().from("t").eq("a", "x").count_path(), "t?count=exact&a=eq.x");
    assert_eq!(client().from("t").count_path(), "t?count=exact");
}

#[test]
fn base_url_is_normalized() {
    let c = SupabaseClient::new("http://h.example//".to_string(), "k".to_string());
    assert_eq!(c.base_url, "http://h.example/rest/v1");
    let d = SupabaseClient::new("http://h.example/rest/v1".to_string(), "k".to_string());
    assert_eq!(d.base_url, "http://h.example/rest/v1");
    assert_eq!(c.build_url("/store?x=1"), "http://h.example/rest/v1/store?x=1");
}

#[test]
fn single_of_demands_exactly_one_row() {
    assert!(matches!(single_of::<i32>(vec![]), Err(SupabaseError::NotFound)));
    assert_eq!(single_of::<i32>(vec![7]).unwrap(), 7);
    assert!(matches!(single_of::<i32>(vec![1, 2]), Err(SupabaseError::MultipleResults)));
}

#[test]
fn first_of_takes_the_created_row_or_the_typed_absence() {
    assert!(matches!(first_of::<i32>(vec![]), Err(SupabaseError::NotFound)));
    assert_eq!(first_of::<i32>(vec![7]).unwrap(), 7);
    assert_eq!(first_of::<i32>(vec![4, 5]).unwrap(), 4);
}

#[test]
fn identifiers_render_canonically() {
    let id: u128 = 0x123e4567e89b12d3a456426614174000;
    assert_eq!(uuid_to_string(id), "123e4567-e89b-12d3-a456-426614174000");
    assert_eq!(uuid_to_string(0), "00000000-0000-0000-0000-000000000000");
}

#[test]
fn identifiers_parse_back() {
    let id: u128 = 0x123e4567e89b12d3a456426614174000;
    assert_eq!(parse_uuid("123e4567-e89b-12d3-a456-426614174000"), Some(id));
    assert_eq!(parse_uuid("123E4567-E89B-12D3-A456-426614174000"), Some(id));
    assert_eq!(parse_uuid("123e4567e89b12d3a456426614174000"), None);
    assert_eq!(parse_uuid("123e4567-e89b-12d3-a456-42661417400z"), None);
    assert_eq!(parse_uuid(""), None);
}

#[test]
fn decimal_and_hex_rendering() {
    assert_eq!(u64_to_dec(0), "0");
    assert_eq!(u64_to_dec(12345), "12345");
    assert_eq!(i64_to_dec(-7), "-7");
    assert_eq!(i64_to_dec(i64::MIN), "-9223372036854775808");
    assert_eq!(i64_to_dec(i64::MAX), "9223372036854775807");
    assert_eq!(bytes_to_hex(&vec![0x0f, 0xa0, 0x00]), "0fa000");
    assert_eq!(bytes_to_hex(&vec![]), "");
}

#[test]
fn split_keeps_every_segment() {
    let parts = str_split("a,,b,", ',');
    assert_eq!(parts, vec!["a".to_string(), "".to_string(), "b".to_string(), "".to_string()]);
    let whole = str_split("abc", ',');
    assert_eq!(whole, vec!["abc".to_string()]);
}
