//! The HTTP/JSON interface: its request bodies and its answers.

use std::sync::Arc;

use vstd::prelude::*;

use crate::shared::storage::{self, lookup, Storage, Types};

verus! {

/// A key with its value.
pub struct DataJson {
    pub key: String,
    pub value: Types,
}

/// The body of a request that stores a value.
pub struct SetData {
    pub key: String,
    pub value: Types,
}

/// The body of a request that reads a value.
pub struct GetData {
    pub key: String,
}

/// The answer to a read.
pub enum GetReply {
    /// The value stored under the key, answered with status 200 and the value as JSON.
    Found(Arc<Types>),
    /// No value is stored under the key: status 404 with [`not_found_body`].
    NotFound,
}

impl GetReply {
    /// The HTTP status of the answer.
    pub fn status(&self) -> (code: u16)
        ensures
            self is Found ==> code == 200,
            self is NotFound ==> code == 404,
    {
        match self {
            GetReply::Found(_) => 200,
            GetReply::NotFound => 404,
        }
    }
}

/// The body of the answer to a read of a key that holds nothing.
pub fn not_found_body() -> (body: String)
    ensures
        body@ == "data not found"@,
{
    "data not found".to_string()
}

/// Serves a write: stores the value under the key and answers `success`.
pub fn set(storage: &mut Storage, req: SetData) -> (body: String)
    ensures
        final(storage)@ == old(storage)@.insert(req.key@, req.value),
        body@ == "success"@,
{
    storage::set(storage, req.key, req.value);
    "success".to_string()
}

/// Serves a read: the value stored under the key, or the not-found answer.
pub fn get(storage: &Storage, req: &GetData) -> (reply: GetReply)
    ensures
        (reply is Found) <==> lookup(storage@, req.key@) is Some,
        reply matches GetReply::Found(v) ==> lookup(storage@, req.key@) == Some(*v),
        (reply is Found) <==> storage@.contains_key(req.key@),
        reply matches GetReply::Found(v) ==> *v == storage@[req.key@],
{
    match storage::get(storage, &req.key) {
        Some(data) => GetReply::Found(data),
        None => GetReply::NotFound,
    }
}

} // verus!
