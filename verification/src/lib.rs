//! Verified core of a NEAR "fast data" indexer: the row model that is written
//! to ScyllaDB, the parsing of vote memos out of function-call arguments, the
//! per-key deduplication and batch layout of key/value rows, and the decisions
//! that drive the block loop.

pub mod batch;
pub mod chain;
pub mod config;
pub mod indexer;
pub mod json;
pub mod kv;
pub mod schema;
pub mod store;
pub mod vote_memo;
