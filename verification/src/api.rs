//! The fetch-cache-parse pipeline.
//!
//! One call runs in a straight line: look the request up in the cache when
//! that is asked for and configured, otherwise have the transport perform
//! one GET, assess its outcome, store the body best-effort, inspect it for
//! an embedded semantic error, and only then hand it to the structural
//! decoder of the target type.
//!
//! The network call itself cannot run under the verifier, so the pipeline
//! is split at that one point: `cache_lookup` decides whether a fetch is
//! needed, the embedding application performs the GET and reports a
//! `TransportOutcome`, and `absorb_response` carries the call to its
//! conclusion.  Everything either side of the GET is verified.

use vstd::prelude::*;
use crate::cache::{cache_key, ResponseCache, TypeTag, MAX_TTL_SECS};
use crate::classify::{classify_body, spec_is_not_found};
use crate::error::ApiError;
use crate::json::json_string_field_of;

verus! {

/// What the transport reports for one GET: either the final status with the
/// decoded text body, or a network-level failure with its cause.
pub enum TransportOutcome {
    Completed { status: u16, body: String },
    Failed { message: String },
}

/// Whether an HTTP status counts as success.
pub open spec fn spec_status_success(status: u16) -> bool {
    200 <= status < 300
}

/// How the pipeline's conclusion must relate to the body it read: a body
/// whose JSON form carries a top-level string `error` field ends the call
/// with the matching semantic error, and every other body is passed on to
/// the structural decoder unchanged.
pub open spec fn body_conclusion_matches(body: Seq<char>, r: Result<String, ApiError>) -> bool {
    match json_string_field_of(body, "error"@) {
        Option::None => r matches Ok(b) && b@ == body,
        Option::Some(m) => if spec_is_not_found(m) {
            r == Err::<String, ApiError>(ApiError::NotFound)
        } else {
            r matches Err(e) && e matches ApiError::Other(mm) && mm@ == m
        },
    }
}

/// The client: an optional bounded cache, and the decision logic of the
/// pipeline.  The transport lives outside; it hands its outcome in.
#[derive(Clone, Default)]
pub struct DDApi {
    cache: Option<ResponseCache>,
}

impl DDApi {
    /// Whether a cache is configured.
    pub closed spec fn spec_cache_enabled(&self) -> bool {
        self.cache is Some
    }

    /// The configured entry bound and time to live, when a cache is there.
    pub closed spec fn spec_cache_config(&self) -> Option<(u64, u64)> {
        match self.cache {
            Option::Some(c) => Some((c.spec_capacity(), c.spec_ttl_secs())),
            Option::None => None,
        }
    }

    /// A client without a cache: every lookup is a pass-through miss.
    pub fn new() -> (r: Self)
        ensures
            !r.spec_cache_enabled(),
    {
        DDApi { cache: None }
    }

    /// Configures the cache: at most `capacity` entries, each served for
    /// `ttl_secs` seconds after insertion.
    pub fn set_cache(&mut self, capacity: u64, ttl_secs: u64)
        requires
            ttl_secs <= MAX_TTL_SECS,
        ensures
            final(self).spec_cache_enabled(),
            final(self).spec_cache_config() == Some((capacity, ttl_secs)),
    {
        self.cache = Some(ResponseCache::new(capacity, ttl_secs));
    }

    /// Step one of a call: the cache lookup.  Without a configured cache,
    /// or when the caller declines caching, this is always a miss; a hit
    /// returns a body stored earlier under exactly this type and URI.  On
    /// a miss the caller performs the GET and hands its outcome to
    /// `absorb_response`; on a hit it concludes with `conclude_body`.
    pub fn cache_lookup(&self, tag: &TypeTag, uri: &str, use_cache: bool) -> (r: Option<String>)
        ensures
            !(use_cache && self.spec_cache_enabled()) ==> r is None,
    {
        if use_cache {
            match &self.cache {
                Option::Some(c) => {
                    let key = cache_key(tag, uri);
                    c.get(key.as_str())
                },
                Option::None => None,
            }
        } else {
            None
        }
    }

    /// Steps two to four of a call, after the transport has reported: a
    /// network failure or a non-success status ends the call; an empty body
    /// is a protocol anomaly of its own; any other body is stored in the
    /// cache (best-effort, when caching is on) and then concluded.
    pub fn absorb_response(
        &self,
        tag: &TypeTag,
        uri: &str,
        use_cache: bool,
        outcome: TransportOutcome,
    ) -> (r: Result<String, ApiError>)
        ensures
            outcome matches TransportOutcome::Failed { message } ==> (r matches Err(e)
                && e matches ApiError::Transport(c) && c@ == message@),
            outcome matches TransportOutcome::Completed { status, body } ==> {
                if !spec_status_success(status) {
                    r == Err::<String, ApiError>(ApiError::Status(status))
                } else if body@.len() == 0 {
                    r == Err::<String, ApiError>(ApiError::EmptyResponse)
                } else {
                    body_conclusion_matches(body@, r)
                }
            },
    {
        match outcome {
            TransportOutcome::Failed { message } => Err(ApiError::Transport(message)),
            TransportOutcome::Completed { status, body } => {
                if !(200 <= status && status < 300) {
                    return Err(ApiError::Status(status));
                }
                if body.as_str().is_empty() {
                    return Err(ApiError::EmptyResponse);
                }
                if use_cache {
                    if let Option::Some(c) = &self.cache {
                        let key = cache_key(tag, uri);
                        c.put(key, body.clone());
                    }
                }
                Self::conclude_body(body)
            },
        }
    }

    /// The final step of a call, shared by the hit and the miss path: the
    /// classifier inspects the body, and only a body without an embedded
    /// error field goes on to the structural decoder.
    pub fn conclude_body(body: String) -> (r: Result<String, ApiError>)
        ensures
            body_conclusion_matches(body@, r),
    {
        match classify_body(body.as_str()) {
            Ok(()) => Ok(body),
            Err(e) => Err(e),
        }
    }
}

} // verus!
