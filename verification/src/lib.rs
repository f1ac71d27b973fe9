//! A verified extract-transform-load core for migrating provenance-tagged
//! product documents from a schemaless source collection into a normalized
//! target collection.
//!
//! The store itself (connection, cursors, inserts) is driven by an
//! unverified shell; this crate holds the logic: filter semantics, record
//! extraction with explicit defaulting, run accounting, the bounded writer
//! pool, and the server-side aggregation strategy modeled client-side.
pub mod config;
pub mod errors;
pub mod extract;
pub mod filter;
pub mod model;
pub mod pipeline;
pub mod reader;
pub mod writer;
