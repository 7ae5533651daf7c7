//! The timestamp codec: decoding a JSON scalar holding Unix epoch seconds
//! into a calendar-representable instant, and encoding it back.
//!
//! Decoding is deliberately lenient about epochs beyond the representable
//! calendar range: such values fall back to the current time instead of
//! failing.  The fallback is marked by its own variant so that callers can
//! tell a fabricated instant from a decoded one.

use vstd::prelude::*;
use crate::error::ApiError;
use crate::json::{scalar_whole_seconds, whole_seconds_of};

verus! {

/// The least epoch second count that the calendar backend can represent.
pub const MIN_CALENDAR_SECS: i64 = -8334601228800;

/// The greatest epoch second count that the calendar backend can represent.
pub const MAX_CALENDAR_SECS: i64 = 8210266876799;

/// An instant, held as a count of non-leap seconds since the Unix epoch.
/// No sub-second component is kept anywhere in this crate.
#[derive(Default, Debug, Clone, Copy, PartialEq, Eq, Structural)]
pub struct Timestamp {
    pub epoch_secs: i64,
}

/// The outcome of a successful decode: either the instant the scalar named,
/// or the current time substituted for an out-of-range scalar.
#[derive(Debug, Clone, Copy, PartialEq, Eq, Structural)]
pub enum DecodedTimestamp {
    /// The scalar named a representable instant.
    Exact(Timestamp),
    /// The scalar was out of calendar range; the instant is the time at
    /// decode, fabricated by policy rather than read from the input.
    FabricatedNow(Timestamp),
}

/// What decoding non-negative whole seconds yields, given the current time.
pub open spec fn spec_decode_epoch(secs: int, now: int) -> DecodedTimestamp {
    if secs <= MAX_CALENDAR_SECS {
        DecodedTimestamp::Exact(Timestamp { epoch_secs: secs as i64 })
    } else {
        DecodedTimestamp::FabricatedNow(Timestamp { epoch_secs: now as i64 })
    }
}

/// The integer epoch form of an instant.
pub open spec fn spec_encode_epoch(t: Timestamp) -> int {
    t.epoch_secs as int
}

/// Relies on `chrono::DateTime::<Utc>::from_timestamp`: it returns `Some`
/// exactly when the second count lies in the representable calendar range,
/// that of `DateTime::<Utc>::MIN_UTC` to `DateTime::<Utc>::MAX_UTC`.
#[verifier::external_body]
fn epoch_in_calendar_range(secs: i64) -> (r: bool)
    ensures
        r == (MIN_CALENDAR_SECS <= secs <= MAX_CALENDAR_SECS),
{
    chrono::DateTime::<chrono::Utc>::from_timestamp(secs, 0).is_some()
}

/// Relies on `chrono::Utc::now` and `DateTime::timestamp`: the clock yields
/// a representable instant, so its epoch count lies in calendar range.
/// Nothing more is promised of it; the result depends on the wall clock.
/// `Utc::now` panics when the system clock is set before the Unix epoch,
/// an environmental failure this crate does not guard against.
#[verifier::external_body]
fn now_epoch() -> (r: i64)
    ensures
        MIN_CALENDAR_SECS <= r <= MAX_CALENDAR_SECS,
{
    chrono::Utc::now().timestamp()
}

/// Decodes whole epoch seconds into an instant, given the current time for
/// the out-of-range fallback.  Negative seconds are rejected; seconds past
/// the calendar range fall back to `now`, marked as fabricated.
pub fn decode_epoch(secs: i64, now: i64) -> (r: Result<DecodedTimestamp, ApiError>)
    ensures
        secs >= 0 ==> r == Ok::<DecodedTimestamp, ApiError>(
            spec_decode_epoch(secs as int, now as int),
        ),
        secs < 0 ==> (r matches Err(e) && e matches ApiError::Decode(m) && m@
            == "invalid timestamp: must be non-negative"@),
{
    if secs < 0 {
        Err(ApiError::Decode("invalid timestamp: must be non-negative".to_owned()))
    } else if epoch_in_calendar_range(secs) {
        Ok(DecodedTimestamp::Exact(Timestamp { epoch_secs: secs }))
    } else {
        Ok(DecodedTimestamp::FabricatedNow(Timestamp { epoch_secs: now }))
    }
}

/// Decodes a JSON scalar holding epoch seconds.  An integer yields itself;
/// a floating-point number is truncated toward zero first; any other JSON
/// shape, and any negative second count, is a decode error.  An in-range
/// count decodes exactly; one past the calendar range falls back to the
/// current time, marked as fabricated.  The clock is consulted only for
/// that fallback.
pub fn decode_timestamp(v: &serde_json::Value) -> (r: Result<DecodedTimestamp, ApiError>)
    ensures
        whole_seconds_of(*v) is None ==> (r matches Err(e) && e matches ApiError::Decode(m) && m@
            == "invalid timestamp: expected a number"@),
        whole_seconds_of(*v) matches Some(s) ==> {
            if s < 0 {
                r matches Err(e) && e matches ApiError::Decode(m) && m@
                    == "invalid timestamp: must be non-negative"@
            } else if s <= MAX_CALENDAR_SECS {
                r == Ok::<DecodedTimestamp, ApiError>(
                    DecodedTimestamp::Exact(Timestamp { epoch_secs: s }),
                )
            } else {
                r matches Ok(d) && d matches DecodedTimestamp::FabricatedNow(t)
                    && MIN_CALENDAR_SECS <= t.epoch_secs <= MAX_CALENDAR_SECS
            }
        },
{
    match scalar_whole_seconds(v) {
        Some(secs) => {
            if secs < 0 {
                Err(ApiError::Decode("invalid timestamp: must be non-negative".to_owned()))
            } else if epoch_in_calendar_range(secs) {
                Ok(DecodedTimestamp::Exact(Timestamp { epoch_secs: secs }))
            } else {
                let now = now_epoch();
                Ok(DecodedTimestamp::FabricatedNow(Timestamp { epoch_secs: now }))
            }
        },
        None => Err(ApiError::Decode("invalid timestamp: expected a number".to_owned())),
    }
}

/// Encodes an instant back to its integer epoch-second form.
pub fn encode_epoch(t: &Timestamp) -> (r: i64)
    ensures
        r as int == spec_encode_epoch(*t),
{
    t.epoch_secs
}

/// Law: decoding an encoded in-range, non-negative instant gives back the
/// same instant exactly, at second precision, whatever the current time.
pub proof fn lemma_epoch_round_trip(t: Timestamp, now: int)
    requires
        0 <= t.epoch_secs <= MAX_CALENDAR_SECS,
    ensures
        spec_decode_epoch(spec_encode_epoch(t), now) == DecodedTimestamp::Exact(t),
{
}

} // verus!
