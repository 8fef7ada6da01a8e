//! Wire-protocol adapter for a graph-database RPC layer.
//!
//! The crate translates between a compact binary message schema (the "wire
//! form", modelled here by plain data structures carrying the logical fields
//! of each message) and the in-memory graph query algebra (the "native form")
//! consumed by the query-serving engine. Decoding is fallible and returns a
//! structured [`errors::AdapterError`]; encoding is total. All conversions
//! are pure: no state is shared between calls.

pub mod entity;
pub mod errors;
pub mod laws;
pub mod query;
pub mod scalar;
