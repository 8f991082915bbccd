//! The value model and the shared key-value storage.

pub mod storage;
