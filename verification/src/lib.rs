//! Bulk loader for line-oriented datasets into a wide-column store.
//!
//! The crate decodes JSON-lines and CSV sources into dynamically typed
//! records, groups them into bounded batches, converts each record into
//! column bindings, and drives a bounded window of concurrent batch writes.

pub mod batch;
pub mod config;
pub mod decode;
pub mod orchestrator;
pub mod value;
pub mod writer;
