//! Requests and responses exchanged between the cores.

use vstd::prelude::*;

verus! {

/// The kind of a request, with its key and, for a put (a set), its value.
pub enum RequestType {
    Get(Vec<u8>),
    Put(Vec<u8>, Vec<u8>),
}

/// A response that one core sends back to another.
pub struct CoreResponse {
    request_type: RequestType,
}

/// A request that one core forwards to the core owning the key.
pub struct CoreRequest {
    request_type: RequestType,
}

} // verus!
