//! Decoding of the binary client protocol and routing of each frame.
//!
//! A frame is a header of four bytes (operation code, key length, value
//! length as a big-endian `u16`) followed by the key and the value.

use vstd::prelude::*;

use crate::sharding::{default_hash_of, get_shard_id, shard_of};
use crate::storage::Request;

verus! {

/// The largest payload (key and value together) that a frame may carry.
pub const MAX_PAYLOAD_BUFFER: usize = 1024;

/// The message that a core sends to the core owning a key it cannot serve.
pub const FORWARD_MESSAGE: u8 = 125;

/// The decoded header of a frame.
pub struct FrameHeader {
    pub op: u8,
    pub key_len: usize,
    pub val_len: usize,
}

impl FrameHeader {
    /// The lengths fit the header's fields.
    pub open spec fn bounded(&self) -> bool {
        self.key_len <= 255 && self.val_len <= 65535
    }

    /// The number of payload bytes that follow the header.
    pub open spec fn total(&self) -> int {
        self.key_len + self.val_len
    }

    /// Decodes the four header bytes.
    pub fn parse(header: [u8; 4]) -> (h: FrameHeader)
        ensures
            h.op == header@[0],
            h.key_len == header@[1],
            h.val_len == header@[2] * 256 + header@[3],
            h.bounded(),
    {
        let key_len = header[1] as usize;
        let val_len = (header[2] as usize) * 256 + (header[3] as usize);
        FrameHeader { op: header[0], key_len, val_len }
    }

    /// The number of payload bytes that follow the header.
    pub fn total_len(&self) -> (n: usize)
        requires
            self.bounded(),
        ensures
            n == self.total(),
            n == self.key_len + self.val_len,
    {
        self.key_len + self.val_len
    }
}

/// What a connection does once it has read a header.
#[derive(Debug, PartialEq, Eq)]
pub enum HeaderStep {
    /// Read this many payload bytes next.
    ReadPayload(usize),
    /// The payload would not fit the buffer: close the connection.
    Close,
}

/// Decides, from a header, whether to read its payload or to close.
pub fn on_header(h: &FrameHeader) -> (step: HeaderStep)
    requires
        h.bounded(),
    ensures
        h.total() > MAX_PAYLOAD_BUFFER ==> step == HeaderStep::Close,
        h.total() <= MAX_PAYLOAD_BUFFER ==> step == HeaderStep::ReadPayload(h.total() as usize),
        h.key_len + h.val_len > 1024 ==> step == HeaderStep::Close,
        h.key_len + h.val_len <= 1024 ==> step == HeaderStep::ReadPayload((h.key_len + h.val_len) as usize),
{
    let total_len = h.total_len();
    if total_len > MAX_PAYLOAD_BUFFER {
        HeaderStep::Close
    } else {
        HeaderStep::ReadPayload(total_len)
    }
}

/// What a connection does with a complete frame.
pub enum FrameAction {
    /// Another core owns the key: notify it and answer the client with
    /// [`shard_refusal`].
    Forward { shard: usize },
    /// This core owns the key: serve the request from its own store.
    Serve(Request),
}

/// The shard that owns the key of a frame whose payload is `payload`.
pub open spec fn frame_shard(h: FrameHeader, payload: Seq<u8>, num_shards: usize) -> int {
    shard_of(default_hash_of(payload.subrange(0, h.key_len as int)), num_shards)
}

/// Whether `req` is the request that a frame with header `h` and payload
/// `payload` carries: its operation code, its key (the first `key_len`
/// payload bytes) and its value (the rest, none when there are no value bytes).
pub open spec fn carries(h: FrameHeader, payload: Seq<u8>, req: Request) -> bool {
    &&& req.op == h.op
    &&& req.key@ == payload.subrange(0, h.key_len as int)
    &&& (h.val_len == 0 ==> req.value is None)
    &&& (h.val_len > 0 ==> (req.value matches Some(v) && v@ == payload.subrange(h.key_len as int, h.key_len + h.val_len)))
}

/// Routes a complete frame: forwarded when another core owns its key, served
/// here otherwise.
pub fn on_payload(h: &FrameHeader, payload: &[u8], num_shards: usize, core_id: usize) -> (action: FrameAction)
    requires
        h.bounded(),
        payload@.len() == h.total(),
        num_shards > 0,
    ensures
        frame_shard(*h, payload@, num_shards) != core_id ==> action == (FrameAction::Forward {
            shard: frame_shard(*h, payload@, num_shards) as usize,
        }),
        frame_shard(*h, payload@, num_shards) == core_id ==> (action matches FrameAction::Serve(req)
            && carries(*h, payload@, req)),
        frame_shard(*h, payload@, num_shards) == core_id ==> (action matches FrameAction::Serve(req)
            && req.op == h.op && req.key@ == payload@.subrange(0, h.key_len as int)),
        frame_shard(*h, payload@, num_shards) == core_id && h.val_len == 0 ==> (action matches FrameAction::Serve(req)
            && (req.value is None)),
        frame_shard(*h, payload@, num_shards) == core_id && h.val_len > 0 ==> (action matches FrameAction::Serve(req)
            && req.value matches Some(v) && v@.len() == h.val_len
            && v@ == payload@.subrange(h.key_len as int, h.key_len + h.val_len)),
        action matches FrameAction::Forward { shard } ==> shard < num_shards && shard != core_id,
{
    let total_len = h.total_len();
    let key_buf = vstd::slice::slice_subrange(payload, 0, h.key_len);
    let shard_id = get_shard_id(key_buf, num_shards);
    if shard_id != core_id {
        FrameAction::Forward { shard: shard_id }
    } else {
        let key = vstd::slice::slice_to_vec(key_buf);
        let value = if h.val_len == 0 {
            None
        } else {
            Some(vstd::slice::slice_to_vec(vstd::slice::slice_subrange(payload, h.key_len, total_len)))
        };
        FrameAction::Serve(Request { op: h.op, key, value })
    }
}

/// The answer to a client whose key another core owns: the bytes `ES`.
pub fn shard_refusal() -> (reply: Vec<u8>)
    ensures
        reply@ == seq![69u8, 83u8],
{
    let mut reply: Vec<u8> = Vec::new();
    reply.push(69u8);
    reply.push(83u8);
    reply
}

/// The payload that follows a header is as long as its key and its value together.
pub proof fn lemma_total_is_sum(h: FrameHeader)
    ensures
        h.total() == h.key_len + h.val_len,
{
}

/// The shard of a frame is the remainder of its key's digest by the number of
/// shards, and so is one of the shards; the key is the first `key_len` payload bytes.
pub proof fn lemma_frame_shard_is_key_digest_remainder(h: FrameHeader, payload: Seq<u8>, num_shards: usize)
    requires
        num_shards > 0,
    ensures
        frame_shard(h, payload, num_shards) == (default_hash_of(payload.subrange(0, h.key_len as int))
            as usize) as int % num_shards as int,
        0 <= frame_shard(h, payload, num_shards) < num_shards,
{
}

/// A frame carries exactly its operation code, its first `key_len` payload
/// bytes as the key and, when `val_len` is not zero, the `val_len` bytes after
/// the key as the value.
pub proof fn lemma_carries_key_and_whole_value(h: FrameHeader, payload: Seq<u8>, req: Request)
    requires
        carries(h, payload, req),
        h.key_len + h.val_len <= payload.len(),
    ensures
        req.op == h.op,
        req.key@ == payload.subrange(0, h.key_len as int),
        req.key@.len() == h.key_len,
        h.val_len == 0 ==> (req.value is None),
        h.val_len > 0 ==> (req.value matches Some(v) && v@.len() == h.val_len
            && forall|i: int| 0 <= i < h.val_len ==> v@[i] == payload[h.key_len + i]),
{
}

} // verus!
