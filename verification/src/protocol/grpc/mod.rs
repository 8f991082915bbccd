//! The gRPC key-value service.

pub mod handler;
