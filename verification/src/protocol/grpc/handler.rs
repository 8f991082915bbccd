//! The gRPC key-value service: its own storage and the answers of its calls.
//!
//! The service keeps each value as the protobuf encoding of the `Types`
//! message that a client sent, and answers a read with those bytes.

use dashmap::DashMap;
use vstd::prelude::*;

verus! {

/// The entries of a gRPC storage map: each key, by its characters, with the
/// encoded message it holds.
pub uninterp spec fn stored_messages(m: DashMap<String, Vec<u8>>) -> Map<Seq<char>, Seq<u8>>;

/// `DashMap::new`: claimed to give a map with no entries.
#[verifier::external_body]
fn new_message_map() -> (fresh: DashMap<String, Vec<u8>>)
    ensures
        stored_messages(fresh).is_empty(),
{
    DashMap::new()
}

/// `DashMap::insert`: claimed to map `key` to `value`, keep every other entry,
/// and hand back the bytes that `key` held before, if any.
#[verifier::external_body]
fn insert_message(m: &mut DashMap<String, Vec<u8>>, key: String, value: Vec<u8>) -> (previous: Option<Vec<u8>>)
    ensures
        stored_messages(*final(m)) == stored_messages(*old(m)).insert(key@, value@),
        (previous is Some) <==> stored_messages(*old(m)).contains_key(key@),
        previous matches Some(p) ==> p@ == stored_messages(*old(m))[key@],
{
    m.insert(key, value)
}

/// `DashMap::get` followed by `Vec::clone` of the entry's value: claimed to
/// give a copy of the bytes that `key` holds, `None` when `key` has no entry.
#[verifier::external_body]
fn lookup_message(m: &DashMap<String, Vec<u8>>, key: &String) -> (found: Option<Vec<u8>>)
    ensures
        (found is Some) <==> stored_messages(*m).contains_key(key@),
        found matches Some(v) ==> v@ == stored_messages(*m)[key@],
{
    match m.get(key) {
        Some(entry) => Some(entry.value().clone()),
        None => None,
    }
}

/// The storage of the gRPC service: string keys mapped to encoded messages.
pub struct GrpcStore {
    map: DashMap<String, Vec<u8>>,
}

impl View for GrpcStore {
    type V = Map<Seq<char>, Seq<u8>>;

    closed spec fn view(&self) -> Map<Seq<char>, Seq<u8>> {
        stored_messages(self.map)
    }
}

impl GrpcStore {
    /// An empty storage.
    pub fn new() -> (s: GrpcStore)
        ensures
            s@ == Map::<Seq<char>, Seq<u8>>::empty(),
    {
        GrpcStore { map: new_message_map() }
    }
}

/// A copy of the message stored under `key`.
pub fn get(store: &GrpcStore, key: &String) -> (r: Option<Vec<u8>>)
    ensures
        (r is Some) <==> store@.contains_key(key@),
        r matches Some(v) ==> v@ == store@[key@],
{
    if let Some(data) = lookup_message(&store.map, key) {
        return Some(data);
    }
    return None;
}

/// Stores the message `value` under `key`, replacing what `key` held.
pub fn set(store: &mut GrpcStore, key: String, value: Vec<u8>)
    ensures
        final(store)@ == old(store)@.insert(key@, value@),
{
    let _ = insert_message(&mut store.map, key, value);
}

/// Why the service refuses a call.
#[derive(Debug, PartialEq, Eq)]
pub enum GrpcRefusal {
    /// A read of a key that has no entry.
    NotFound,
    /// A write whose request carries no value.
    MissingValue,
}

impl GrpcRefusal {
    /// The message that the refusal's status carries.
    pub fn message(&self) -> (m: String)
        ensures
            *self == GrpcRefusal::NotFound ==> m@ == "not found"@,
            *self == GrpcRefusal::MissingValue ==> m@ == "test"@,
    {
        match self {
            GrpcRefusal::NotFound => "not found".to_string(),
            GrpcRefusal::MissingValue => "test".to_string(),
        }
    }
}

/// The gRPC key-value service.
pub struct DataGrpc;

impl Default for DataGrpc {
    fn default() -> (s: DataGrpc)
        ensures
            s == DataGrpc,
    {
        DataGrpc
    }
}

impl DataGrpc {
    /// Answers a read: the message stored under `key`, refused when there is none.
    pub fn serve_get(&self, store: &GrpcStore, key: &String) -> (r: Result<Vec<u8>, GrpcRefusal>)
        ensures
            (r is Ok) <==> store@.contains_key(key@),
            r matches Ok(v) ==> v@ == store@[key@],
            r matches Err(e) ==> e == GrpcRefusal::NotFound,
    {
        if let Some(data) = get(store, key) {
            return Ok(data);
        }
        Err(GrpcRefusal::NotFound)
    }

    /// Answers a write: stores `value` under `key`, refused when the request
    /// carries no value, in which case nothing changes.
    pub fn serve_set(&self, store: &mut GrpcStore, key: String, value: Option<Vec<u8>>) -> (r: Result<(), GrpcRefusal>)
        ensures
            (r is Ok) <==> value is Some,
            value matches Some(v) ==> final(store)@ == old(store)@.insert(key@, v@),
            value is None ==> final(store)@ == old(store)@ && r == Err::<(), GrpcRefusal>(GrpcRefusal::MissingValue),
    {
        if let Some(data) = value {
            set(store, key, data);
            return Ok(());
        }
        Err(GrpcRefusal::MissingValue)
    }
}

/// A message that a write stored under a key is what a later read of that key
/// answers; a write under one key leaves the answer for every other key as it was.
pub proof fn lemma_read_after_write(m: Map<Seq<char>, Seq<u8>>, key: Seq<char>, value: Seq<u8>, other: Seq<char>)
    ensures
        m.insert(key, value).contains_key(key),
        m.insert(key, value)[key] == value,
        other != key ==> (m.insert(key, value).contains_key(other) <==> m.contains_key(other)),
        other != key && m.contains_key(other) ==> m.insert(key, value)[other] == m[other],
{
}

} // verus!
