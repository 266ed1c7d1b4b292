//! Ingestion of timestamped URL lists into resource records.
//!
//! The library parses tab-separated input lines, builds one record per
//! accepted line with a content-derived identifier, schedules fetches under a
//! concurrency cap, and enriches each record from the outcome of its fetch.
//! Reading files, talking to the network and writing to a store are left to
//! the caller.

pub mod resource;
pub mod parser;
pub mod extract;
pub mod pipeline;
pub mod fetch_pool;
pub mod laws;
