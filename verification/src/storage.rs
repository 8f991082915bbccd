//! The byte-keyed store that each shard owns, and the requests it serves.

use vstd::prelude::*;

verus! {

/// Operation code of a request that stores a value.
pub const OP_SET: u8 = 1;

/// Operation code of a request that looks a value up.
pub const OP_GET: u8 = 2;

/// A request addressed to the store of one shard.
pub struct Request {
    pub op: u8,
    pub key: Vec<u8>,
    pub value: Option<Vec<u8>>,
}

/// What serving a request did.
#[derive(Debug, PartialEq, Eq)]
pub enum Outcome {
    /// A set request stored its value.
    Stored,
    /// A set request carried no value; nothing changed.
    NoValue,
    /// A get request found this value.
    Found(Vec<u8>),
    /// A get request found no entry for its key.
    NotFound,
    /// The operation code is none that the store implements.
    Unsupported(u8),
}

/// Whether `a` and `b` hold the same bytes.
pub fn same_bytes(a: &[u8], b: &[u8]) -> (same: bool)
    ensures
        same == (a@ == b@),
{
    if a.len() != b.len() {
        return false;
    }
    let mut i: usize = 0;
    while i < a.len()
        invariant
            a.len() == b.len(),
            i <= a.len(),
            forall|j: int| 0 <= j < i ==> a@[j] == b@[j],
        decreases a.len() - i,
    {
        if a[i] != b[i] {
            return false;
        }
        i = i + 1;
    }
    assert(a@ =~= b@);
    true
}

/// The store of one shard: each key at most once, with its value.
pub struct ShardStore {
    entries: Vec<(Vec<u8>, Vec<u8>)>,
}

impl ShardStore {
    /// The key of the entry at position `i`.
    pub closed spec fn key_at(&self, i: int) -> Seq<u8> {
        self.entries@[i].0@
    }

    /// No key occurs in two entries.
    pub closed spec fn wf(&self) -> bool {
        forall|i: int, j: int|
            0 <= i < self.entries@.len() && 0 <= j < self.entries@.len() && i != j
                ==> #[trigger] self.key_at(i) != #[trigger] self.key_at(j)
    }

    /// Whether some entry has key `k`.
    pub closed spec fn has_key(&self, k: Seq<u8>) -> bool {
        exists|i: int| 0 <= i < self.entries@.len() && #[trigger] self.key_at(i) == k
    }

    /// The position of the entry with key `k`.
    pub closed spec fn index_of(&self, k: Seq<u8>) -> int {
        choose|i: int| 0 <= i < self.entries@.len() && #[trigger] self.key_at(i) == k
    }
}

impl View for ShardStore {
    type V = Map<Seq<u8>, Seq<u8>>;

    closed spec fn view(&self) -> Map<Seq<u8>, Seq<u8>> {
        Map::new(|k: Seq<u8>| self.has_key(k), |k: Seq<u8>| self.entries@[self.index_of(k)].1@)
    }
}

impl ShardStore {
    /// An empty store.
    pub fn new() -> (s: ShardStore)
        ensures
            s.wf(),
            s@ == Map::<Seq<u8>, Seq<u8>>::empty(),
    {
        let s = ShardStore { entries: Vec::new() };
        assert(s@ =~= Map::<Seq<u8>, Seq<u8>>::empty());
        s
    }

    /// The position of the entry with key `key`, if there is one.
    fn position(&self, key: &[u8]) -> (pos: Option<usize>)
        requires
            self.wf(),
        ensures
            match pos {
                Some(i) => i < self.entries@.len() && self.key_at(i as int) == key@,
                None => !self.has_key(key@),
            },
    {
        let mut i: usize = 0;
        while i < self.entries.len()
            invariant
                i <= self.entries@.len(),
                forall|j: int| 0 <= j < i ==> #[trigger] self.key_at(j) != key@,
            decreases self.entries@.len() - i,
        {
            if same_bytes(self.entries[i].0.as_slice(), key) {
                return Some(i);
            }
            i = i + 1;
        }
        None
    }

    /// The value stored under `key`.
    pub fn get(&self, key: &[u8]) -> (found: Option<Vec<u8>>)
        requires
            self.wf(),
        ensures
            (found is Some) <==> self@.contains_key(key@),
            found matches Some(v) ==> v@ == self@[key@],
    {
        match self.position(key) {
            Some(i) => {
                proof {
                    assert(self.has_key(key@));
                    let k = self.index_of(key@);
                    assert(self.key_at(k) == self.key_at(i as int));
                }
                Some(self.entries[i].1.clone())
            },
            None => None,
        }
    }

    /// Stores `value` under `key`, replacing what `key` held.
    pub fn insert(&mut self, key: Vec<u8>, value: Vec<u8>)
        requires
            old(self).wf(),
        ensures
            final(self).wf(),
            final(self)@ == old(self)@.insert(key@, value@),
    {
        let ghost old_self = *self;
        match self.position(key.as_slice()) {
            Some(i) => {
                let ghost kv = key@;
                let ghost vv = value@;
                self.entries.set(i, (key, value));
                proof {
                    assert forall|a: int, b: int|
                        0 <= a < self.entries@.len() && 0 <= b < self.entries@.len() && a != b
                        implies #[trigger] self.key_at(a) != #[trigger] self.key_at(b) by {
                        assert(old_self.key_at(a) != old_self.key_at(b));
                    }
                    assert forall|k: Seq<u8>| #[trigger] self.has_key(k) == old_self.has_key(k) by {
                        if old_self.has_key(k) {
                            let j = old_self.index_of(k);
                            assert(self.key_at(j) == k);
                        }
                        if self.has_key(k) {
                            let j = self.index_of(k);
                            assert(old_self.key_at(j) == k);
                        }
                    }
                    assert forall|k: Seq<u8>| self.has_key(k) implies
                        self.entries@[self.index_of(k)].1@ == old_self@.insert(kv, vv)[k] by {
                        let j = self.index_of(k);
                        assert(self.key_at(i as int) == kv);
                        if k != kv {
                            let m = old_self.index_of(k);
                            assert(old_self.key_at(m) == k);
                            assert(self.key_at(m) == k);
                            assert(j == m);
                        } else {
                            assert(j == i);
                        }
                    }
                    assert(self@ =~= old_self@.insert(kv, vv));
                }
            },
            None => {
                let ghost kv = key@;
                let ghost vv = value@;
                self.entries.push((key, value));
                proof {
                    let n = old_self.entries@.len() as int;
                    assert(self.key_at(n) == kv);
                    assert forall|a: int, b: int|
                        0 <= a < self.entries@.len() && 0 <= b < self.entries@.len() && a != b
                        implies #[trigger] self.key_at(a) != #[trigger] self.key_at(b) by {
                        if a < n && b < n {
                            assert(old_self.key_at(a) != old_self.key_at(b));
                        } else if a < n {
                            assert(old_self.key_at(a) == self.key_at(a));
                        } else {
                            assert(old_self.key_at(b) == self.key_at(b));
                        }
                    }
                    assert forall|k: Seq<u8>| #[trigger] self.has_key(k) == (old_self.has_key(k) || k == kv) by {
                        if old_self.has_key(k) {
                            let j = old_self.index_of(k);
                            assert(self.key_at(j) == k);
                        }
                        if self.has_key(k) && k != kv {
                            let j = self.index_of(k);
                            assert(j != n);
                            assert(old_self.key_at(j) == k);
                        }
                    }
                    assert forall|k: Seq<u8>| self.has_key(k) implies
                        self.entries@[self.index_of(k)].1@ == old_self@.insert(kv, vv)[k] by {
                        let j = self.index_of(k);
                        if k != kv {
                            let m = old_self.index_of(k);
                            assert(old_self.key_at(m) == k);
                            assert(self.key_at(m) == k);
                        } else {
                            assert(self.key_at(n) == k);
                        }
                    }
                    assert(self@ =~= old_self@.insert(kv, vv));
                }
            },
        }
    }
}

/// Serves one request against the store of its shard.
///
/// A set request with a value stores it; one without a value changes nothing.
/// A get request looks its key up and changes nothing. Any other operation
/// code is unsupported and changes nothing.
pub fn process(storage: &mut ShardStore, req: Request) -> (outcome: Outcome)
    requires
        old(storage).wf(),
    ensures
        final(storage).wf(),
        req.op == OP_SET && req.value is Some ==> {
            &&& final(storage)@ == old(storage)@.insert(req.key@, req.value->0@)
            &&& outcome == Outcome::Stored
        },
        req.op == OP_SET && req.value is None ==> final(storage)@ == old(storage)@ && outcome == Outcome::NoValue,
        req.op == OP_GET ==> {
            &&& final(storage)@ == old(storage)@
            &&& (outcome is Found) <==> old(storage)@.contains_key(req.key@)
            &&& outcome matches Outcome::Found(v) ==> v@ == old(storage)@[req.key@]
            &&& !(outcome is Found) ==> outcome == Outcome::NotFound
        },
        req.op != OP_SET && req.op != OP_GET ==> final(storage)@ == old(storage)@ && outcome == Outcome::Unsupported(req.op),
{
    match req.op {
        OP_SET => {
            if let Some(value) = req.value {
                storage.insert(req.key, value);
                Outcome::Stored
            } else {
                Outcome::NoValue
            }
        },
        OP_GET => {
            match storage.get(req.key.as_slice()) {
                Some(data) => Outcome::Found(data),
                None => Outcome::NotFound,
            }
        },
        _ => Outcome::Unsupported(req.op),
    }
}

/// A set request followed by a get request for the same key finds the value
/// that was set; a set request for one key leaves what a get request for any
/// other key finds as it was.
pub proof fn lemma_get_after_set(m: Map<Seq<u8>, Seq<u8>>, key: Seq<u8>, value: Seq<u8>, other: Seq<u8>)
    ensures
        m.insert(key, value).contains_key(key),
        m.insert(key, value)[key] == value,
        other != key ==> (m.insert(key, value).contains_key(other) <==> m.contains_key(other)),
        other != key && m.contains_key(other) ==> m.insert(key, value)[other] == m[other],
{
}

/// Of two set requests for one key the later wins, and repeating a set
/// request leaves the store as one request left it.
pub proof fn lemma_last_set_wins(m: Map<Seq<u8>, Seq<u8>>, key: Seq<u8>, first: Seq<u8>, second: Seq<u8>)
    ensures
        m.insert(key, first).insert(key, second) == m.insert(key, second),
        m.insert(key, second).insert(key, second) == m.insert(key, second),
{
    assert(m.insert(key, first).insert(key, second) =~= m.insert(key, second));
    assert(m.insert(key, second).insert(key, second) =~= m.insert(key, second));
}

} // verus!
