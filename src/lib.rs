//! A sharded in-memory key-value store with a small Redis-style command set.

pub mod entries;
pub mod kv;
pub mod frame;
pub mod command;
pub mod shard;
pub mod store;
pub mod connection;
pub mod laws;
