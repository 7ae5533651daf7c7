//! The response classifier: before a body is decoded into its target type,
//! its text is inspected for an embedded application-level error field.
//! The upstream APIs report "no such entity" through a success-status JSON
//! body carrying an `error` field, not through the HTTP status.

use vstd::prelude::*;
use crate::error::ApiError;
use crate::json::{json_string_field, json_string_field_of};

verus! {

/// ASCII lower-casing of one code point.
pub open spec fn lower_code(n: u32) -> u32 {
    if 65 <= n <= 90 {
        (n + 32) as u32
    } else {
        n
    }
}

/// Whether a message reads "player not found" under ASCII case folding.
pub open spec fn spec_is_not_found(m: Seq<char>) -> bool {
    let sentinel = "player not found"@;
    m.len() == sentinel.len() && forall|i: int|
        0 <= i < m.len() ==> lower_code(#[trigger] m[i] as u32) == sentinel[i] as u32
}

/// How a classification result must relate to the body it was drawn from:
/// a body without a top-level string `error` field is clean; the sentinel
/// message maps to `NotFound`; any other message is carried verbatim.
pub open spec fn classification_matches(body: Seq<char>, r: Result<(), ApiError>) -> bool {
    match json_string_field_of(body, "error"@) {
        Option::None => r is Ok,
        Option::Some(m) => if spec_is_not_found(m) {
            r == Err::<(), ApiError>(ApiError::NotFound)
        } else {
            r matches Err(e) && e matches ApiError::Other(mm) && mm@ == m
        },
    }
}

fn is_not_found_message(m: &str) -> (r: bool)
    ensures
        r == spec_is_not_found(m@),
{
    let sentinel = "player not found";
    proof {
        reveal_strlit("player not found");
    }
    let n = m.unicode_len();
    if n != sentinel.unicode_len() {
        return false;
    }
    let mut i: usize = 0;
    while i < n
        invariant
            n == m@.len(),
            n == sentinel@.len(),
            sentinel@ == "player not found"@,
            0 <= i <= n,
            forall|j: int|
                0 <= j < i ==> lower_code(#[trigger] m@[j] as u32) == sentinel@[j] as u32,
        decreases n - i,
    {
        let c = m.get_char(i) as u32;
        let t = sentinel.get_char(i) as u32;
        let folded = if 65 <= c && c <= 90 {
            c + 32
        } else {
            c
        };
        if folded != t {
            return false;
        }
        i += 1;
    }
    true
}

/// Classifies a raw body before structural decoding.  A body whose JSON
/// form carries a top-level string field named `error` is a semantic error:
/// the sentinel message "player not found", in any letter casing, means the
/// queried entity does not exist, and any other message is passed through
/// verbatim.  Every other body — including one that is not JSON at all —
/// is left to the structural decoder.
pub fn classify_body(body: &str) -> (r: Result<(), ApiError>)
    ensures
        classification_matches(body@, r),
{
    match json_string_field(body, "error") {
        Option::None => Ok(()),
        Option::Some(m) => {
            if is_not_found_message(m.as_str()) {
                Err(ApiError::NotFound)
            } else {
                Err(ApiError::Other(m))
            }
        },
    }
}

} // verus!
