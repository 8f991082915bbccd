use std::collections::hash_map::DefaultHasher;
use std::hash::{Hash, Hasher};

use keyra::handler::{
    on_header, on_payload, shard_refusal, FrameAction, FrameHeader, HeaderStep, FORWARD_MESSAGE,
    MAX_PAYLOAD_BUFFER,
};

fn shard_for(key: &[u8], n: usize) -> usize {
    let mut hasher = DefaultHasher::new();
    key.hash(&mut hasher);
    (hasher.finish() as usize) % n
}

#[test]
fn parse_reads_the_four_header_bytes() {
    let h = FrameHeader::parse([1, 3, 1, 2]);
    assert_eq!(h.op, 1);
    assert_eq!(h.key_len, 3);
    assert_eq!(h.val_len, 258);
    assert_eq!(h.total_len(), 261);
    let max = FrameHeader::parse([2, 255, 255, 255]);
    assert_eq!(max.key_len, 255);
    assert_eq!(max.val_len, 65535);
    assert_eq!(max.total_len(), 65790);
}

#[test]
fn constants() {
    assert_eq!(MAX_PAYLOAD_BUFFER, 1024);
    assert_eq!(FORWARD_MESSAGE, 125);
    assert_eq!(shard_refusal(), b"ES".to_vec());
}

#[test]
fn header_close_only_when_payload_exceeds_buffer() {
    let fits = FrameHeader { op: 1, key_len: 24, val_len: 1000 };
    assert_eq!(on_header(&fits), HeaderStep::ReadPayload(1024));
    let over = FrameHeader { op: 1, key_len: 25, val_len: 1000 };
    assert_eq!(on_header(&over), HeaderStep::Close);
    let empty = FrameHeader::parse([2, 0, 0, 0]);
    assert_eq!(on_header(&empty), HeaderStep::ReadPayload(0));
}

#[test]
fn local_frame_is_served_with_key_and_value() {
    let h = FrameHeader::parse([1, 2, 0, 3]);
    let payload = b"kyval";
    match on_payload(&h, payload, 1, 0) {
        FrameAction::Serve(req) => {
            assert_eq!(req.op, 1);
            assert_eq!(req.key, b"ky".to_vec());
            assert_eq!(req.value, Some(b"val".to_vec()));
        }
        FrameAction::Forward { .. } => panic!("a single shard serves every frame"),
    }
}

#[test]
fn frame_without_value_bytes_carries_no_value() {
    let h = FrameHeader::parse([2, 3, 0, 0]);
    match on_payload(&h, b"key", 1, 0) {
        FrameAction::Serve(req) => {
            assert_eq!(req.op, 2);
            assert_eq!(req.key, b"key".to_vec());
            assert_eq!(req.value, None);
        }
        FrameAction::Forward { .. } => panic!("a single shard serves every frame"),
    }
}

#[test]
fn foreign_frame_is_forwarded_to_its_shard() {
    let h = FrameHeader::parse([1, 1, 0, 1]);
    match on_payload(&h, b"kv", 1, 3) {
        FrameAction::Forward { shard } => assert_eq!(shard, 0),
        FrameAction::Serve(_) => panic!("core 3 does not own shard 0"),
    }
}

#[test]
fn routing_follows_the_key_digest() {
    for i in 0u8..32 {
        let key = [b'k', i];
        let payload = [b'k', i, b'v'];
        let h = FrameHeader::parse([1, 2, 0, 1]);
        let owner = shard_for(&key, 4);
        for core in 0..4usize {
            match on_payload(&h, &payload, 4, core) {
                FrameAction::Forward { shard } => {
                    assert_ne!(core, owner);
                    assert_eq!(shard, owner);
                }
                FrameAction::Serve(req) => {
                    assert_eq!(core, owner);
                    assert_eq!(req.key, key.to_vec());
                    assert_eq!(req.value, Some(b"v".to_vec()));
                }
            }
        }
    }
}
