use ddapi_rs::error::ApiError;
use ddapi_rs::timestamp::{
    decode_epoch, decode_timestamp, encode_epoch, DecodedTimestamp, Timestamp, MAX_CALENDAR_SECS,
};

#[test]
fn decode_in_range_epoch_is_exact() {
    let r = decode_epoch(1700000000, 0);
    assert_eq!(r, Ok(DecodedTimestamp::Exact(Timestamp { epoch_secs: 1700000000 })));
}

#[test]
fn decode_zero_epoch_is_exact() {
    let r = decode_epoch(0, 12345);
    assert_eq!(r, Ok(DecodedTimestamp::Exact(Timestamp { epoch_secs: 0 })));
}

#[test]
fn decode_negative_epoch_is_rejected() {
    let r = decode_epoch(-5, 0);
    assert_eq!(
        r,
        Err(ApiError::Decode("invalid timestamp: must be non-negative".to_string()))
    );
}

#[test]
fn decode_out_of_range_epoch_falls_back_to_now() {
    let r = decode_epoch(MAX_CALENDAR_SECS + 1, 424242);
    assert_eq!(r, Ok(DecodedTimestamp::FabricatedNow(Timestamp { epoch_secs: 424242 })));
}

#[test]
fn encode_decode_round_trip() {
    let t = Timestamp { epoch_secs: 1700000000 };
    let encoded = encode_epoch(&t);
    assert_eq!(encoded, 1700000000);
    let r = decode_epoch(encoded, 0);
    assert_eq!(r, Ok(DecodedTimestamp::Exact(t)));
}

#[test]
fn decode_scalar_integer() {
    let v: serde_json::Value = serde_json::from_str("1700000000").unwrap();
    let r = decode_timestamp(&v);
    assert_eq!(r, Ok(DecodedTimestamp::Exact(Timestamp { epoch_secs: 1700000000 })));
}

#[test]
fn decode_scalar_float_truncates_toward_zero() {
    let v: serde_json::Value = serde_json::from_str("1700000000.9").unwrap();
    let r = decode_timestamp(&v);
    assert_eq!(r, Ok(DecodedTimestamp::Exact(Timestamp { epoch_secs: 1700000000 })));
}

#[test]
fn decode_scalar_negative_fails_with_non_negativity_error() {
    let v: serde_json::Value = serde_json::from_str("-5").unwrap();
    let r = decode_timestamp(&v);
    assert_eq!(
        r,
        Err(ApiError::Decode("invalid timestamp: must be non-negative".to_string()))
    );
}

#[test]
fn decode_scalar_non_number_fails() {
    let v: serde_json::Value = serde_json::from_str("\"yesterday\"").unwrap();
    let r = decode_timestamp(&v);
    assert_eq!(
        r,
        Err(ApiError::Decode("invalid timestamp: expected a number".to_string()))
    );
}

#[test]
fn decode_scalar_null_fails() {
    let v: serde_json::Value = serde_json::from_str("null").unwrap();
    let r = decode_timestamp(&v);
    assert!(matches!(r, Err(ApiError::Decode(_))));
}
