//! Driver-side handle substrate for an ODBC-style database driver.
//!
//! The library models the three-level object hierarchy every entry point of
//! such a driver works against — Environment, Connection and Statement — as a
//! tagged union of entity payloads ([`handle::MongoHandle`]), together with
//! the attribute records and their documented defaults, the lifecycle state
//! of each node, and the per-node diagnostics log in which failed operations
//! accumulate error records in FIFO order.
//!
//! Sharing a node between threads goes through [`shared::SharedHandle`],
//! which wraps one node in a reader/writer lock: shared acquisition for
//! reads, exclusive acquisition for any mutation, one lock per node.

pub mod attributes;
pub mod diag;
pub mod handle;
pub mod shared;
