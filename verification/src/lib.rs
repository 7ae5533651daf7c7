//! Typed client core for two public JSON HTTP game-statistics APIs.
//!
//! The crate is organised around a fetch-cache-parse pipeline: request URLs
//! are built from player and map names, raw response bodies are optionally
//! cached under a key that combines the target type with the request URI,
//! bodies are inspected for an embedded application-level `error` field
//! before structural decoding, and Unix-epoch timestamps are decoded with a
//! lenient out-of-range policy.  All decision logic is verified; the network
//! call itself is left to the embedding application.

pub mod api;
pub mod cache;
pub mod classify;
pub mod ddnet;
pub mod ddstats;
pub mod digits;
pub mod encoding;
pub mod error;
pub mod json;
pub mod timestamp;
