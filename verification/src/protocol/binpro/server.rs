//! The raw binary protocol: a reader takes the stream four bytes at a time.

use vstd::prelude::*;

verus! {

/// The longest key that the protocol admits.
pub const MAX_KEY_LENGTH: usize = 1000;

/// The longest value that the protocol admits.
pub const MAX_VALUE_LENGTH: usize = 1000;

/// The number of bytes that the reader takes at a time.
pub const CHUNK_LEN: usize = 4;

/// What the reader does with the bytes that its buffer holds.
#[derive(Debug, PartialEq, Eq)]
pub enum ChunkStep {
    /// The stream has ended: stop reading.
    Stop,
    /// Take the first [`CHUNK_LEN`] bytes and consume them.
    Take,
    /// Fewer than [`CHUNK_LEN`] bytes: fill the buffer again.
    Refill,
}

/// Decides from the number of buffered bytes what the reader does next.
pub fn next_chunk(buffered: usize) -> (step: ChunkStep)
    ensures
        buffered == 0 ==> step == ChunkStep::Stop,
        buffered >= CHUNK_LEN ==> step == ChunkStep::Take,
        0 < buffered < CHUNK_LEN ==> step == ChunkStep::Refill,
{
    if buffered == 0 {
        ChunkStep::Stop
    } else if buffered >= CHUNK_LEN {
        ChunkStep::Take
    } else {
        ChunkStep::Refill
    }
}

} // verus!
