//! Rust-native request envelope (no JSON-RPC wrapper bytes).

use vstd::prelude::*;

verus! {

/// A request from the front end to a native backend.
#[derive(Debug, Clone, PartialEq)]
pub enum NativeRequest {
    /// Liveness check.
    Ping,
    /// Full-text search for `query`, at most `limit` hits.
    SearchQuery { query: String, limit: u32 },
}

} // verus!
