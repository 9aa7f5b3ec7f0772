//! Notification ingestion core: distributed rate limiting, at-most-once
//! enqueue under client retries, routed publishing and status records.
//!
//! The store and the broker are reached by the caller: each component here
//! decides which operation to run next and what a reply means, and the caller
//! performs it.
pub mod types;
pub mod keys;
pub mod rate_limit;
pub mod publisher;
pub mod status;
pub mod pipeline;
pub mod idempotency;
