//! The logic behind each network protocol that the server speaks.

pub mod binpro;
pub mod grpc;
pub mod http;
