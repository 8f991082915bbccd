//! Dynamically typed values and the shared storage that maps string keys to them.

use std::collections::HashMap;
use std::sync::Arc;

use dashmap::DashMap;
use vstd::prelude::*;

verus! {

/// A dynamically typed value as the store keeps it.
///
/// The two floating-point variants carry the IEEE 754 bit pattern of the
/// number (`f64::to_bits` / `f32::to_bits`), so that every value is kept exactly.
#[derive(Debug)]
pub enum Types {
    STRING(String),
    I64(i64),
    I32(i32),
    I16(i16),
    I8(i8),
    U64(u64),
    U32(u32),
    U16(u16),
    U8(u8),
    F64(u64),
    F32(u32),
    MAP(HashMap<String, Types>),
    ARRAY(Vec<Types>),
}

/// Conversion out of a [`Types`] value into a concrete Rust type.
pub trait FromTypes: Sized {
    /// Whether `t` holds a value that converts into this type.
    spec fn holds(t: Types) -> bool;

    /// Whether `v` is what converting `t` gives.
    spec fn converted(t: Types, v: Self) -> bool;

    /// The message of a refused conversion.
    spec fn refusal() -> Seq<char>;

    fn from_types(t: Types) -> (r: Result<Self, String>)
        ensures
            (r is Ok) <==> Self::holds(t),
            r matches Ok(v) ==> Self::converted(t, v),
            r matches Err(e) ==> e@ == Self::refusal(),
    ;
}

impl Types {
    /// The element list of an `ARRAY` value, `None` for every other variant.
    pub fn is_array(self) -> (r: Option<Vec<Types>>)
        ensures
            r == (match self {
                Types::ARRAY(data) => Some(data),
                _ => None,
            }),
    {
        if let Types::ARRAY(data) = self {
            return Some(data);
        }
        return None;
    }

    /// Converts this value into `T`, as `T::from_types` does.
    pub fn to<T: FromTypes>(self) -> (r: Result<T, String>)
        ensures
            (r is Ok) <==> T::holds(self),
            r matches Ok(v) ==> T::converted(self, v),
            r matches Err(e) ==> e@ == T::refusal(),
    {
        return T::from_types(self);
    }
}

impl FromTypes for String {
    open spec fn holds(t: Types) -> bool {
        t is STRING
    }

    open spec fn converted(t: Types, v: String) -> bool {
        t == Types::STRING(v)
    }

    open spec fn refusal() -> Seq<char> {
        "cannot convert to string"@
    }

    fn from_types(t: Types) -> (r: Result<String, String>)
        ensures
            (t matches Types::STRING(x) ==> r == Ok::<String, String>(x)),
            (r is Ok) <==> (t is STRING),
    {
        if let Types::STRING(s) = t {
            return Ok(s);
        }
        return Err("cannot convert to string".to_string());
    }
}

impl FromTypes for i64 {
    open spec fn holds(t: Types) -> bool {
        t is I64
    }

    open spec fn converted(t: Types, v: i64) -> bool {
        t == Types::I64(v)
    }

    open spec fn refusal() -> Seq<char> {
        "cannot convert to i64"@
    }

    fn from_types(t: Types) -> (r: Result<i64, String>)
        ensures
            (t matches Types::I64(x) ==> r == Ok::<i64, String>(x)),
            (r is Ok) <==> (t is I64),
    {
        if let Types::I64(s) = t {
            return Ok(s);
        }
        return Err("cannot convert to i64".to_string());
    }
}

impl FromTypes for HashMap<String, Types> {
    open spec fn holds(t: Types) -> bool {
        t is MAP
    }

    open spec fn converted(t: Types, v: HashMap<String, Types>) -> bool {
        t == Types::MAP(v)
    }

    open spec fn refusal() -> Seq<char> {
        "cannot convert to hash-map"@
    }

    fn from_types(t: Types) -> (r: Result<HashMap<String, Types>, String>)
        ensures
            (t matches Types::MAP(x) ==> r == Ok::<HashMap<String, Types>, String>(x)),
            (r is Ok) <==> (t is MAP),
    {
        if let Types::MAP(s) = t {
            return Ok(s);
        }
        return Err("cannot convert to hash-map".to_string());
    }
}

impl FromTypes for Vec<Types> {
    open spec fn holds(t: Types) -> bool {
        t is ARRAY
    }

    open spec fn converted(t: Types, v: Vec<Types>) -> bool {
        t == Types::ARRAY(v)
    }

    open spec fn refusal() -> Seq<char> {
        "cannot convert to array"@
    }

    fn from_types(t: Types) -> (r: Result<Vec<Types>, String>)
        ensures
            (t matches Types::ARRAY(x) ==> r == Ok::<Vec<Types>, String>(x)),
            (r is Ok) <==> (t is ARRAY),
    {
        if let Types::ARRAY(s) = t {
            return Ok(s);
        }
        return Err("cannot convert to array".to_string());
    }
}

/// The entries of a storage map: each key, by its characters, with the value it holds.
pub uninterp spec fn stored_values(m: DashMap<String, Arc<Types>>) -> Map<Seq<char>, Types>;

/// `dashmap::DashMap`, a concurrent hash map sharded over read-write locks.
#[verifier::external_type_specification]
#[verifier::external_body]
#[verifier::reject_recursive_types(K)]
#[verifier::reject_recursive_types(V)]
#[verifier::reject_recursive_types(S)]
pub struct ExDashMap<K, V, S>(DashMap<K, V, S>);

/// `DashMap::new`: claimed to give a map with no entries.
#[verifier::external_body]
fn new_value_map() -> (fresh: DashMap<String, Arc<Types>>)
    ensures
        stored_values(fresh).is_empty(),
{
    DashMap::new()
}

/// `DashMap::insert`: claimed to map `key` to `value`, keep every other entry,
/// and hand back the value that `key` held before, if any.
#[verifier::external_body]
fn insert_value(m: &mut DashMap<String, Arc<Types>>, key: String, value: Arc<Types>) -> (previous: Option<Arc<Types>>)
    ensures
        stored_values(*final(m)) == stored_values(*old(m)).insert(key@, *value),
        (previous is Some) <==> stored_values(*old(m)).contains_key(key@),
        previous matches Some(p) ==> *p == stored_values(*old(m))[key@],
{
    m.insert(key, value)
}

/// `DashMap::get` followed by `Arc::clone` of the entry's value: claimed to
/// give the value that `key` holds, `None` when `key` has no entry.
#[verifier::external_body]
fn lookup_value(m: &DashMap<String, Arc<Types>>, key: &String) -> (found: Option<Arc<Types>>)
    ensures
        (found is Some) <==> stored_values(*m).contains_key(key@),
        found matches Some(v) ==> *v == stored_values(*m)[key@],
{
    match m.get(key) {
        Some(entry) => Some(Arc::clone(entry.value())),
        None => None,
    }
}

/// The shared storage: string keys mapped to shared values.
pub struct Storage {
    map: DashMap<String, Arc<Types>>,
}

impl View for Storage {
    type V = Map<Seq<char>, Types>;

    closed spec fn view(&self) -> Map<Seq<char>, Types> {
        stored_values(self.map)
    }
}

/// What a lookup of `key` in a storage with entries `m` gives.
pub open spec fn lookup(m: Map<Seq<char>, Types>, key: Seq<char>) -> Option<Types> {
    if m.contains_key(key) {
        Some(m[key])
    } else {
        None
    }
}

impl Storage {
    /// An empty storage.
    pub fn new() -> (s: Storage)
        ensures
            s@ == Map::<Seq<char>, Types>::empty(),
    {
        Storage { map: new_value_map() }
    }
}

/// The value stored under `key`, shared with the storage.
pub fn get(storage: &Storage, key: &String) -> (r: Option<Arc<Types>>)
    ensures
        (r is Some) <==> lookup(storage@, key@) is Some,
        r matches Some(v) ==> lookup(storage@, key@) == Some(*v),
        (r is Some) <==> storage@.contains_key(key@),
        r matches Some(v) ==> *v == storage@[key@],
{
    let value = lookup_value(&storage.map, key);
    if let Some(data) = value {
        return Some(data);
    }
    return None;
}

/// Stores `value` under `key`, replacing what `key` held.
pub fn set(storage: &mut Storage, key: String, value: Types)
    ensures
        final(storage)@ == old(storage)@.insert(key@, value),
{
    let _ = insert_value(&mut storage.map, key, Arc::new(value));
}

/// A value stored under a key is what a later read of that key gives, and
/// storing under one key leaves what every other key gives as it was.
pub proof fn lemma_read_after_set(m: Map<Seq<char>, Types>, key: Seq<char>, value: Types, other: Seq<char>)
    ensures
        lookup(m.insert(key, value), key) == Some(value),
        other != key ==> lookup(m.insert(key, value), other) == lookup(m, other),
{
}

/// `is_array` accepts exactly the values that convert into a `Vec<Types>`,
/// and gives the same elements.
pub proof fn lemma_is_array_agrees_with_conversion(t: Types, v: Vec<Types>)
    ensures
        (t is ARRAY) <==> <Vec<Types> as FromTypes>::holds(t),
        <Vec<Types> as FromTypes>::converted(t, v) <==> (t matches Types::ARRAY(d) && d == v),
{
}

/// A read gives the value stored under its key, and nothing for a key that
/// has no entry.
pub proof fn lemma_lookup_reads_the_entry(m: Map<Seq<char>, Types>, key: Seq<char>)
    ensures
        !m.contains_key(key) ==> lookup(m, key) is None,
        m.contains_key(key) ==> lookup(m, key) == Some(m[key]),
{
}

/// Each conversion accepts exactly its own variant and gives that variant's
/// payload unchanged.
pub proof fn lemma_conversions_give_the_payload(
    t: Types,
    s: String,
    i: i64,
    m: HashMap<String, Types>,
    a: Vec<Types>,
)
    ensures
        <String as FromTypes>::holds(t) <==> (t is STRING),
        <String as FromTypes>::converted(t, s) <==> t == Types::STRING(s),
        <i64 as FromTypes>::holds(t) <==> (t is I64),
        <i64 as FromTypes>::converted(t, i) <==> t == Types::I64(i),
        <HashMap<String, Types> as FromTypes>::holds(t) <==> (t is MAP),
        <HashMap<String, Types> as FromTypes>::converted(t, m) <==> t == Types::MAP(m),
        <Vec<Types> as FromTypes>::holds(t) <==> (t is ARRAY),
        <Vec<Types> as FromTypes>::converted(t, a) <==> t == Types::ARRAY(a),
{
}

} // verus!
