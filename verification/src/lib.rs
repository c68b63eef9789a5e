//! A multi-pipeline scraping worker library.
//!
//! Scraping jobs arrive as JSON payloads on a store-backed request queue,
//! are de-duplicated by a hash of the target URL, fetched over HTTP with a
//! bounded retry budget, run through a pluggable HTML parser, and written
//! back to a result hash together with per-job completion tracking.
//!
//! This crate holds the verified core of that worker: the request and
//! response codec, the de-duplication identifier, the decision logic of the
//! four pipeline stages, the retry schedules, and models of the store
//! effects and of the back-pressure and cancellation behaviour of a path.
//! The surrounding process (store connections, HTTP transport, task
//! spawning) drives these functions from plain Rust.

pub mod builders;
pub mod encode;
pub mod ident;
pub mod json;
pub mod model;
pub mod parser;
pub mod pipeline_model;
pub mod request;
pub mod retry;
pub mod stages;
pub mod store_model;
mod strutil;

use vstd::prelude::*;

verus! {

/// Half-again growth of a backoff delay in milliseconds, rounding down:
/// the default schedule between connection-acquire attempts.
pub fn temp_backoff_next(current: u64) -> (next: u64)
    requires
        current + current / 2 <= u64::MAX,
    ensures
        next == current + current / 2,
{
    current + current / 2
}

} // verus!
