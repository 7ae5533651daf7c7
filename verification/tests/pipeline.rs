use ddapi_rs::api::{DDApi, TransportOutcome};
use ddapi_rs::cache::TypeTag;
use ddapi_rs::ddnet::Query;
use ddapi_rs::error::ApiError;

fn completed(status: u16, body: &str) -> TransportOutcome {
    TransportOutcome::Completed { status, body: body.to_string() }
}

#[test]
fn classify_not_found_lowercase() {
    let r = DDApi::conclude_body("{\"error\":\"player not found\"}".to_string());
    assert_eq!(r, Err(ApiError::NotFound));
}

#[test]
fn classify_not_found_mixed_case() {
    let r = DDApi::conclude_body("{\"error\":\"Player Not Found\"}".to_string());
    assert_eq!(r, Err(ApiError::NotFound));
}

#[test]
fn classify_not_found_upper_case() {
    let r = DDApi::conclude_body("{\"error\":\"PLAYER NOT FOUND\"}".to_string());
    assert_eq!(r, Err(ApiError::NotFound));
}

#[test]
fn classify_other_message_verbatim() {
    let r = DDApi::conclude_body("{\"error\":\"database down\"}".to_string());
    assert_eq!(r, Err(ApiError::Other("database down".to_string())));
}

#[test]
fn classify_other_keeps_casing() {
    let r = DDApi::conclude_body("{\"error\":\"Rate Limited\"}".to_string());
    assert_eq!(r, Err(ApiError::Other("Rate Limited".to_string())));
}

#[test]
fn classify_no_error_field_defers() {
    let body = "{\"points\":5,\"name\":\"Foo\"}";
    let r = DDApi::conclude_body(body.to_string());
    assert_eq!(r, Ok(body.to_string()));
}

#[test]
fn classify_non_json_body_defers() {
    let body = "not json at all";
    let r = DDApi::conclude_body(body.to_string());
    assert_eq!(r, Ok(body.to_string()));
}

#[test]
fn classify_bare_array_defers() {
    let body = "[1,2,3]";
    let r = DDApi::conclude_body(body.to_string());
    assert_eq!(r, Ok(body.to_string()));
}

#[test]
fn classify_non_string_error_field_defers() {
    let body = "{\"error\":5}";
    let r = DDApi::conclude_body(body.to_string());
    assert_eq!(r, Ok(body.to_string()));
}

#[test]
fn absorb_network_failure_is_transport_error() {
    let api = DDApi::new();
    let outcome = TransportOutcome::Failed { message: "connection reset".to_string() };
    let r = api.absorb_response(&TypeTag::Query, "https://example.test", false, outcome);
    assert_eq!(r, Err(ApiError::Transport("connection reset".to_string())));
}

#[test]
fn absorb_non_success_status_is_status_error() {
    let api = DDApi::new();
    let r = api.absorb_response(
        &TypeTag::Query,
        "https://example.test",
        false,
        completed(404, "{\"points\":5}"),
    );
    assert_eq!(r, Err(ApiError::Status(404)));
}

#[test]
fn absorb_empty_body_is_empty_response_error() {
    let api = DDApi::new();
    let r = api.absorb_response(&TypeTag::Query, "https://example.test", false, completed(200, ""));
    assert_eq!(r, Err(ApiError::EmptyResponse));
}

#[test]
fn absorb_semantic_error_wins_over_decode() {
    let api = DDApi::new();
    let r = api.absorb_response(
        &TypeTag::Query,
        "https://example.test",
        false,
        completed(200, "{\"error\":\"Player not found\"}"),
    );
    assert_eq!(r, Err(ApiError::NotFound));
}

#[test]
fn end_to_end_body_decodes_into_target() {
    let api = DDApi::new();
    let r = api.absorb_response(
        &TypeTag::Query,
        "https://example.test",
        false,
        completed(200, "{\"points\":5,\"name\":\"Foo\"}"),
    );
    let body = r.expect("classification should pass the body through");
    let v: serde_json::Value = serde_json::from_str(&body).expect("body should stay valid JSON");
    let decoded = Query {
        points: v.get("points").and_then(|p| p.as_i64()).expect("points should be an integer"),
        name: v.get("name").and_then(|n| n.as_str()).expect("name should be a string").to_string(),
    };
    assert_eq!(decoded, Query { points: 5, name: "Foo".to_string() });
}

#[test]
fn error_messages_render() {
    assert_eq!(ApiError::NotFound.message(), "Player not found");
    assert_eq!(ApiError::EmptyResponse.message(), "API returned empty response");
    assert_eq!(ApiError::Status(404).message(), "HTTP status 404");
    assert_eq!(ApiError::Other("oops".to_string()).message(), "oops");
    assert_eq!(
        ApiError::Transport("boom".to_string()).message(),
        "Failed to send request: boom"
    );
    assert_eq!(
        ApiError::Decode("bad shape".to_string()).message(),
        "Failed to decode response: bad shape"
    );
}
