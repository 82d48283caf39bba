//! An in-memory metadata catalog of collections, segments and per-tenant
//! compaction counters, with filtered queries and an atomic compaction flush.
pub mod types;
pub mod store;
pub mod laws;
