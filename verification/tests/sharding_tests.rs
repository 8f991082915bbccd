use std::collections::hash_map::DefaultHasher;
use std::hash::{Hash, Hasher};

use keyra::sharding::{get_shard_id, shard_of_digest};

fn expected_shard(key: &[u8], num_shards: usize) -> usize {
    let mut hasher = DefaultHasher::new();
    key.hash(&mut hasher);
    (hasher.finish() as usize) % num_shards
}

#[test]
fn shard_of_digest_exact_values() {
    assert_eq!(shard_of_digest(10, 3), 1);
    assert_eq!(shard_of_digest(7, 7), 0);
    assert_eq!(shard_of_digest(u64::MAX, 1), 0);
    assert_eq!(shard_of_digest(1_000_003, 1000), 3);
}

#[test]
fn get_shard_id_matches_default_hasher() {
    let keys: Vec<&[u8]> = vec![b"", b"a", b"user:42", b"\x00\xff\x10", b"a much longer key than the others"];
    for key in keys {
        for n in [1usize, 2, 3, 8, 17] {
            assert_eq!(get_shard_id(key, n), expected_shard(key, n));
        }
    }
}

#[test]
fn get_shard_id_is_in_range_and_stable() {
    for i in 0u32..200 {
        let key = i.to_be_bytes();
        let first = get_shard_id(&key, 5);
        assert!(first < 5);
        assert_eq!(get_shard_id(&key, 5), first);
    }
}

#[test]
fn single_shard_owns_every_key() {
    assert_eq!(get_shard_id(b"anything", 1), 0);
    assert_eq!(get_shard_id(b"", 1), 0);
}

#[test]
fn get_shard_id_is_not_the_raw_length() {
    // The digest mixes the bytes: keys of one length spread over the shards.
    let mut seen = std::collections::HashSet::new();
    for i in 0u8..64 {
        seen.insert(get_shard_id(&[i, i, i], 8));
    }
    assert!(seen.len() > 1);
}
