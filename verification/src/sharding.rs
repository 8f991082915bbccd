//! Routing of keys to shards.

use vstd::prelude::*;

verus! {

/// The 64-bit digest that a fresh `std::collections::hash_map::DefaultHasher`
/// (the hasher built by `DefaultHasher::new`, whose keys are fixed) finishes
/// with after a byte string was fed to it through `Hash`.
pub uninterp spec fn default_hash_of(key: Seq<u8>) -> u64;

/// Hashes `key` with a fresh `DefaultHasher` through
/// `std::hash::BuildHasher::hash_one`, which builds the hasher, feeds the value
/// through `Hash` and calls `finish`.
/// Claimed: the digest depends on the bytes alone; it is named, not computed here.
#[verifier::external_body]
fn default_hash(key: &[u8]) -> (digest: u64)
    ensures
        digest == default_hash_of(key@),
{
    std::hash::BuildHasher::hash_one(
        &std::hash::BuildHasherDefault::<std::collections::hash_map::DefaultHasher>::default(),
        key,
    )
}

/// The shard that a digest selects among `num_shards` shards.
pub open spec fn shard_of(digest: u64, num_shards: usize) -> int {
    (digest as usize) as int % num_shards as int
}

/// Maps a key digest onto one of `num_shards` shards.
pub fn shard_of_digest(digest: u64, num_shards: usize) -> (shard: usize)
    requires
        num_shards > 0,
    ensures
        shard == shard_of(digest, num_shards),
        shard < num_shards,
{
    (digest as usize) % num_shards
}

/// The shard that owns `key` among `num_shards` shards.
pub fn get_shard_id(key: &[u8], num_shards: usize) -> (shard: usize)
    requires
        num_shards > 0,
    ensures
        shard == shard_of(default_hash_of(key@), num_shards),
        shard < num_shards,
{
    let digest = default_hash(key);
    shard_of_digest(digest, num_shards)
}

} // verus!
