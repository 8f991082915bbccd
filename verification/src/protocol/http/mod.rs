//! The HTTP/JSON interface.

pub mod handler;
