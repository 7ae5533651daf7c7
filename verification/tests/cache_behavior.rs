use ddapi_rs::api::{DDApi, TransportOutcome};
use ddapi_rs::cache::{cache_key, ResponseCache, TypeTag};
use ddapi_rs::error::ApiError;
use std::time::{Duration, Instant};

/// Runs one pipeline call the way the embedding application does: cache
/// lookup first, and only on a miss one "fetch", counted by the caller.
fn execute(
    api: &DDApi,
    tag: TypeTag,
    uri: &str,
    use_cache: bool,
    fetches: &mut u32,
    body: &str,
) -> Result<String, ApiError> {
    match api.cache_lookup(&tag, uri, use_cache) {
        Some(hit) => DDApi::conclude_body(hit),
        None => {
            *fetches += 1;
            let outcome = TransportOutcome::Completed { status: 200, body: body.to_string() };
            api.absorb_response(&tag, uri, use_cache, outcome)
        }
    }
}

#[test]
fn cache_idempotence_second_call_hits() {
    let mut api = DDApi::new();
    api.set_cache(100, 60);
    let mut fetches: u32 = 0;
    let uri = "https://example.test/a";
    let body = "{\"points\":1,\"name\":\"A\"}";
    let r1 = execute(&api, TypeTag::Query, uri, true, &mut fetches, body);
    let r2 = execute(&api, TypeTag::Query, uri, true, &mut fetches, body);
    assert_eq!(fetches, 1);
    assert_eq!(r1, Ok(body.to_string()));
    assert_eq!(r2, Ok(body.to_string()));
}

#[test]
fn cache_isolation_by_type() {
    let mut api = DDApi::new();
    api.set_cache(100, 60);
    let mut fetches: u32 = 0;
    let uri = "https://example.test/same";
    let body = "{\"points\":1,\"name\":\"A\"}";
    let _ = execute(&api, TypeTag::Query, uri, true, &mut fetches, body);
    let _ = execute(&api, TypeTag::StatsProfile, uri, true, &mut fetches, body);
    assert_eq!(fetches, 2);
}

#[test]
fn cache_ttl_expiry_refetches() {
    let mut api = DDApi::new();
    api.set_cache(100, 1);
    let mut fetches: u32 = 0;
    let uri = "https://example.test/ttl";
    let body = "{\"points\":1,\"name\":\"A\"}";
    let _ = execute(&api, TypeTag::Query, uri, true, &mut fetches, body);
    assert_eq!(fetches, 1);
    let start = Instant::now();
    while start.elapsed() < Duration::from_millis(1500) {}
    let _ = execute(&api, TypeTag::Query, uri, true, &mut fetches, body);
    assert_eq!(fetches, 2);
}

#[test]
fn no_cache_configured_always_fetches() {
    let api = DDApi::new();
    let mut fetches: u32 = 0;
    let uri = "https://example.test/none";
    let body = "{\"points\":1,\"name\":\"A\"}";
    let _ = execute(&api, TypeTag::Query, uri, true, &mut fetches, body);
    let _ = execute(&api, TypeTag::Query, uri, true, &mut fetches, body);
    assert_eq!(fetches, 2);
}

#[test]
fn cache_declined_by_caller_always_fetches() {
    let mut api = DDApi::new();
    api.set_cache(100, 60);
    let mut fetches: u32 = 0;
    let uri = "https://example.test/declined";
    let body = "{\"points\":1,\"name\":\"A\"}";
    let _ = execute(&api, TypeTag::Query, uri, false, &mut fetches, body);
    let _ = execute(&api, TypeTag::Query, uri, false, &mut fetches, body);
    assert_eq!(fetches, 2);
}

#[test]
fn cached_semantic_error_body_classifies_on_every_hit() {
    let mut api = DDApi::new();
    api.set_cache(100, 60);
    let mut fetches: u32 = 0;
    let uri = "https://example.test/gone";
    let body = "{\"error\":\"player not found\"}";
    let r1 = execute(&api, TypeTag::Player, uri, true, &mut fetches, body);
    let r2 = execute(&api, TypeTag::Player, uri, true, &mut fetches, body);
    assert_eq!(fetches, 1);
    assert_eq!(r1, Err(ApiError::NotFound));
    assert_eq!(r2, Err(ApiError::NotFound));
}

#[test]
fn cache_key_composes_ident_and_uri() {
    assert_eq!(cache_key(&TypeTag::Query, "https://x"), "Query:https://x");
    assert_eq!(
        cache_key(&TypeTag::StatsProfile, "https://x"),
        "StatsProfile:https://x"
    );
    assert_ne!(
        cache_key(&TypeTag::Query, "https://x"),
        cache_key(&TypeTag::QueryMap, "https://x")
    );
}

#[test]
fn response_cache_stores_and_serves() {
    let cache = ResponseCache::new(10, 60);
    assert_eq!(cache.capacity(), 10);
    assert_eq!(cache.ttl_secs(), 60);
    assert_eq!(cache.get("k"), None);
    cache.put("k".to_string(), "v".to_string());
    assert_eq!(cache.get("k"), Some("v".to_string()));
    assert_eq!(cache.get("other"), None);
}
