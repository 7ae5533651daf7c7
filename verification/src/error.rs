//! The typed error that every pipeline call can end in.

use vstd::prelude::*;
use crate::digits::{decimal_digits, u64_to_decimal};

verus! {

/// Terminal outcome of a failed pipeline call.  Errors are returned to the
/// caller as values and never retried by the library.
#[derive(Debug, Clone, PartialEq, Eq)]
pub enum ApiError {
    /// The request itself failed at the network level; the cause is kept
    /// as text.
    Transport(String),
    /// The request completed, but with a non-success HTTP status.
    Status(u16),
    /// The request succeeded and the body had zero length; an empty body is
    /// never valid data for any endpoint.
    EmptyResponse,
    /// The upstream reported that the queried entity does not exist.
    NotFound,
    /// The upstream reported some other application-level error; the message
    /// is kept verbatim.
    Other(String),
    /// The body did not match the expected structural shape.
    Decode(String),
}

/// The text that `ApiError::message` renders for each variant.
pub open spec fn spec_message(e: ApiError) -> Seq<char> {
    match e {
        ApiError::Transport(c) => "Failed to send request: "@ + c@,
        ApiError::Status(s) => "HTTP status "@ + decimal_digits(s as nat),
        ApiError::EmptyResponse => "API returned empty response"@,
        ApiError::NotFound => "Player not found"@,
        ApiError::Other(m) => m@,
        ApiError::Decode(m) => "Failed to decode response: "@ + m@,
    }
}

impl ApiError {
    /// A human-readable description of the error.
    pub fn message(&self) -> (r: String)
        ensures
            r@ == spec_message(*self),
    {
        match self {
            ApiError::Transport(c) => {
                let mut s = "Failed to send request: ".to_owned();
                s.append(c.as_str());
                s
            },
            ApiError::Status(code) => {
                let mut s = "HTTP status ".to_owned();
                let digits = u64_to_decimal(*code as u64);
                s.append(digits.as_str());
                s
            },
            ApiError::EmptyResponse => "API returned empty response".to_owned(),
            ApiError::NotFound => "Player not found".to_owned(),
            ApiError::Other(m) => m.clone(),
            ApiError::Decode(m) => {
                let mut s = "Failed to decode response: ".to_owned();
                s.append(m.as_str());
                s
            },
        }
    }
}

} // verus!
