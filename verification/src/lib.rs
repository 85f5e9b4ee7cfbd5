//! Bulk retrieval of numbered records from a remote item store.
//!
//! The store is reachable only through per-ID lookups, so the crate builds a
//! descending ID range, overlaps up to `C` lookups at a time while emitting
//! their outcomes in input order, filters the ordered record stream by a time
//! window and a row limit, and counts failed lookups on the side.

pub mod fetch;
pub mod filters;
pub mod item;
pub mod pipeline;
pub mod range;
pub mod stream;
