//! The raw binary protocol.

pub mod server;
