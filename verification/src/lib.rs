//! A sharded in-memory key-value store: value types, frame decoding,
//! shard routing and the storage operations behind each protocol.

pub mod sharding;
pub mod shared;
pub mod storage;
pub mod types;
pub mod config;
pub mod handler;
pub mod protocol;
