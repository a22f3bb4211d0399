//! The storage engine adapter: atomic, durable, transaction-scoped access to
//! one on-disk key-value store, modelled as a map from key characters to
//! value bytes.

use vstd::prelude::*;
use vstd::string::StringExecFns;

verus! {

/// How many bytes the on-disk environment may grow to, fixed generously at
/// open time and never resized; writes that would pass it simply fail.
pub const STORE_MAP_SIZE: u64 = 10 * 1024 * 1024 * 1024;

/// A failure reported by the storage engine. Each variant carries a
/// human-readable message; absence of a key is never an error.
#[derive(Debug)]
pub enum StorageError {
    /// The environment could not be created or opened.
    EngineOpen(String),
    /// A read transaction failed to start, read, or iterate.
    EngineRead(String),
    /// A write transaction failed to start, write, or commit.
    EngineWrite(String),
}

impl StorageError {
    /// The message carried by any variant.
    pub open spec fn message_view(self) -> Seq<char> {
        match self {
            StorageError::EngineOpen(m) => m@,
            StorageError::EngineRead(m) => m@,
            StorageError::EngineWrite(m) => m@,
        }
    }

    /// Hands out the carried message.
    pub fn into_message(self) -> (m: String)
        ensures
            m@ == self.message_view(),
    {
        match self {
            StorageError::EngineOpen(m) => m,
            StorageError::EngineRead(m) => m,
            StorageError::EngineWrite(m) => m,
        }
    }
}

/// The open environment together with its single named database. Opaque:
/// everything known of its contents comes through `db_contents` and the
/// trusted operations below, whose contracts assume this is the process's
/// only handle to that environment — nothing else in this crate opens a
/// second one at the same path.
#[verifier::external_body]
pub struct DbHandle {
    env: heed::Env,
    db: heed::Database<heed::types::Str, heed::types::ByteSlice>,
}

/// The committed contents of the store behind a handle: which keys are
/// present and what bytes each holds.
pub uninterp spec fn db_contents(h: DbHandle) -> Map<Seq<char>, Seq<u8>>;

/// Strict lexicographic order on keys by character value. Over UTF-8 encoded
/// keys this coincides with byte-wise lexicographic order, the engine's
/// native key order.
pub open spec fn key_lt(a: Seq<char>, b: Seq<char>) -> bool
    decreases a.len(),
{
    if b.len() == 0 {
        false
    } else if a.len() == 0 {
        true
    } else if a[0] == b[0] {
        key_lt(a.skip(1), b.skip(1))
    } else {
        (a[0] as u32) < (b[0] as u32)
    }
}

/// `keys` names every key of `m`, only keys of `m`, in strictly ascending
/// `key_lt` order (so each exactly once).
pub open spec fn lists_exactly(keys: Seq<Seq<char>>, m: Map<Seq<char>, Seq<u8>>) -> bool {
    &&& forall|i: int| 0 <= i < keys.len() ==> m.contains_key(#[trigger] keys[i])
    &&& forall|k: Seq<char>| #[trigger] m.contains_key(k) ==> keys.contains(k)
    &&& forall|i: int, j: int| 0 <= i < j < keys.len() ==> #[trigger] key_lt(keys[i], keys[j])
}

/// Relies on heed's `EnvOpenOptions::{new, map_size, max_dbs}` and
/// `EnvOpenOptions::open`, and on `Env::create_database`: opens (or
/// initializes) the LMDB environment at `path` with the given size ceiling
/// and room for one named database, then creates the database named
/// `db_name` inside its own committed write transaction if it is not
/// already there. `create_database` turns the name into a C string and
/// panics on an interior NUL character, so those names are excluded; a bad
/// `path` only comes back as an error.
#[verifier::external_body]
fn open_store(path: &str, map_size: u64, db_name: &str) -> (r: Result<DbHandle, String>)
    requires
        forall|i: int| 0 <= i < db_name@.len() ==> db_name@[i] as u32 != 0,
{
    let mut options = heed::EnvOpenOptions::new();
    options.map_size(map_size as usize).max_dbs(1);
    let env = match options.open(path) {
        Ok(env) => env,
        Err(e) => return Err(e.to_string()),
    };
    let db = match env.create_database(Some(db_name)) {
        Ok(db) => db,
        Err(e) => return Err(e.to_string()),
    };
    Ok(DbHandle { env, db })
}

/// Relies on heed's `Env::write_txn`, `Database::put` and `RwTxn::commit`:
/// one write transaction that maps `key` to `value` and commits. A
/// transaction that fails before its commit is aborted on drop and leaves
/// the committed contents exactly as they were.
#[verifier::external_body]
fn raw_put(h: &mut DbHandle, key: &str, value: &[u8]) -> (r: Result<(), String>)
    ensures
        r is Ok ==> db_contents(*final(h)) == db_contents(*old(h)).insert(key@, value@),
        r is Err ==> db_contents(*final(h)) == db_contents(*old(h)),
{
    let mut wtxn = match h.env.write_txn() {
        Ok(t) => t,
        Err(e) => return Err(e.to_string()),
    };
    if let Err(e) = h.db.put(&mut wtxn, key, value) {
        return Err(e.to_string());
    }
    match wtxn.commit() {
        Ok(()) => Ok(()),
        Err(e) => Err(e.to_string()),
    }
}

/// Relies on heed's `Env::read_txn` and `Database::get`: one read
/// transaction observing a consistent snapshot; the lookup returns the bytes
/// committed under `key`, or nothing when the key is absent.
#[verifier::external_body]
fn raw_get(h: &DbHandle, key: &str) -> (r: Result<Option<Vec<u8>>, String>)
    ensures
        r matches Ok(Some(v)) ==> db_contents(*h).contains_key(key@) && v@ == db_contents(*h)[key@],
        r matches Ok(None) ==> !db_contents(*h).contains_key(key@),
{
    let rtxn = match h.env.read_txn() {
        Ok(t) => t,
        Err(e) => return Err(e.to_string()),
    };
    match h.db.get(&rtxn, key) {
        Ok(v) => Ok(v.map(|b| b.to_vec())),
        Err(e) => Err(e.to_string()),
    }
}

/// Relies on heed's `Env::write_txn`, `Database::delete` and
/// `RwTxn::commit`: one committed write transaction that removes `key` and
/// reports whether a value was there. A transaction that fails before its
/// commit leaves the committed contents unchanged.
#[verifier::external_body]
fn raw_delete(h: &mut DbHandle, key: &str) -> (r: Result<bool, String>)
    ensures
        r matches Ok(existed) ==> existed == db_contents(*old(h)).contains_key(key@)
            && db_contents(*final(h)) == db_contents(*old(h)).remove(key@),
        r is Err ==> db_contents(*final(h)) == db_contents(*old(h)),
{
    let mut wtxn = match h.env.write_txn() {
        Ok(t) => t,
        Err(e) => return Err(e.to_string()),
    };
    let existed = match h.db.delete(&mut wtxn, key) {
        Ok(b) => b,
        Err(e) => return Err(e.to_string()),
    };
    match wtxn.commit() {
        Ok(()) => Ok(existed),
        Err(e) => Err(e.to_string()),
    }
}

/// Relies on heed's `Env::read_txn` and `Database::iter`: one read
/// transaction observing a single consistent snapshot, iterated in the
/// engine's byte-wise lexicographic key order, which over UTF-8 keys is the
/// character-wise order `key_lt`.
#[verifier::external_body]
fn raw_list_keys(h: &DbHandle) -> (r: Result<Vec<String>, String>)
    ensures
        r matches Ok(keys) ==> lists_exactly(keys@.map_values(|s: String| s@), db_contents(*h)),
{
    let rtxn = match h.env.read_txn() {
        Ok(t) => t,
        Err(e) => return Err(e.to_string()),
    };
    let iter = match h.db.iter(&rtxn) { Ok(it) => it, Err(e) => return Err(e.to_string()) };
    let mut keys = Vec::new();
    for item in iter {
        match item {
            Ok((key, _value)) => keys.push(key.to_string()),
            Err(e) => return Err(e.to_string()),
        }
    }
    Ok(keys)
}

/// Prefixes an engine failure message with what the operation was doing.
fn with_context(context: &str, detail: String) -> (r: String)
    ensures
        r@ == context@ + detail@,
{
    let mut message = context.to_owned();
    message.append(detail.as_str());
    message
}

/// The durable store: at most one value per key, every operation one
/// committed transaction. Its view is the committed key-to-bytes map.
pub struct Storage {
    handle: DbHandle,
}

impl View for Storage {
    type V = Map<Seq<char>, Seq<u8>>;

    closed spec fn view(&self) -> Map<Seq<char>, Seq<u8>> {
        db_contents(self.handle)
    }
}

impl Storage {
    /// Opens (or initializes) the store at an existing directory path, with
    /// the fixed `STORE_MAP_SIZE` ceiling. On failure nothing is usable and
    /// the error says why the environment could not be opened.
    pub fn new(path: &str) -> (r: Result<Storage, StorageError>)
        ensures
            r matches Err(e) ==> e is EngineOpen,
    {
        Storage::with_map_size(path, STORE_MAP_SIZE)
    }

    /// As `new`, but with the environment's size ceiling chosen by the
    /// caller — still chosen once, at open time, and never resized.
    pub fn with_map_size(path: &str, map_size: u64) -> (r: Result<Storage, StorageError>)
        ensures
            r matches Err(e) ==> e is EngineOpen,
    {
        proof {
            reveal_strlit("data");
        }
        match open_store(path, map_size, "data") {
            Ok(handle) => Ok(Storage { handle }),
            Err(detail) => Err(StorageError::EngineOpen(
                with_context("Failed to open storage environment: ", detail),
            )),
        }
    }

    /// Stores `value` under `key` in one committed transaction: afterwards
    /// the store maps `key` to `value` and every other key is untouched. On
    /// failure the committed contents are exactly as before.
    pub fn put(&mut self, key: &str, value: &[u8]) -> (r: Result<(), StorageError>)
        requires
            key@.len() > 0,
        ensures
            r is Ok ==> final(self)@ == old(self)@.insert(key@, value@),
            r matches Err(e) ==> final(self)@ == old(self)@ && e is EngineWrite,
    {
        match raw_put(&mut self.handle, key, value) {
            Ok(()) => Ok(()),
            Err(detail) => Err(StorageError::EngineWrite(
                with_context("Failed to store key: ", detail),
            )),
        }
    }

    /// Looks up `key` in one read transaction: the bytes stored under it,
    /// or nothing exactly when the key is absent. Absence is not an error.
    pub fn get(&self, key: &str) -> (r: Result<Option<Vec<u8>>, StorageError>)
        ensures
            r matches Ok(Some(v)) ==> self@.contains_key(key@) && v@ == self@[key@],
            r matches Ok(None) ==> !self@.contains_key(key@),
            r matches Err(e) ==> e is EngineRead,
    {
        match raw_get(&self.handle, key) {
            Ok(v) => Ok(v),
            Err(detail) => Err(StorageError::EngineRead(
                with_context("Failed to read key: ", detail),
            )),
        }
    }

    /// Removes `key` in one committed transaction and reports whether a
    /// value was there; removing an absent key reports `false` and is not
    /// an error. On failure the committed contents are exactly as before.
    pub fn delete(&mut self, key: &str) -> (r: Result<bool, StorageError>)
        ensures
            r matches Ok(existed) ==> existed == old(self)@.contains_key(key@)
                && final(self)@ == old(self)@.remove(key@),
            r matches Err(e) ==> final(self)@ == old(self)@ && e is EngineWrite,
    {
        match raw_delete(&mut self.handle, key) {
            Ok(existed) => Ok(existed),
            Err(detail) => Err(StorageError::EngineWrite(
                with_context("Failed to delete key: ", detail),
            )),
        }
    }

    /// Lists, from one consistent snapshot, every key currently holding a
    /// value — each exactly once, in ascending lexicographic order.
    pub fn list_keys(&self) -> (r: Result<Vec<String>, StorageError>)
        ensures
            r matches Ok(keys) ==> lists_exactly(keys@.map_values(|s: String| s@), self@),
            r matches Err(e) ==> e is EngineRead,
    {
        match raw_list_keys(&self.handle) {
            Ok(keys) => Ok(keys),
            Err(detail) => Err(StorageError::EngineRead(
                with_context("Failed to list keys: ", detail),
            )),
        }
    }
}

/// Law: storing a value and then looking the key up returns exactly that
/// value. `put` ends with the view `insert`ed and `get` returns what the
/// view holds, so this holds of the operations themselves.
pub proof fn lemma_put_then_get(m: Map<Seq<char>, Seq<u8>>, k: Seq<char>, v: Seq<u8>)
    ensures
        m.insert(k, v).contains_key(k),
        m.insert(k, v)[k] == v,
{
}

/// Law: storing twice under one key keeps only the second value — the
/// store afterwards is exactly what storing the second value alone gives,
/// so no trace of the first remains under any key.
pub proof fn lemma_overwrite(
    m: Map<Seq<char>, Seq<u8>>,
    k: Seq<char>,
    v1: Seq<u8>,
    v2: Seq<u8>,
)
    ensures
        m.insert(k, v1).insert(k, v2) == m.insert(k, v2),
        m.insert(k, v1).insert(k, v2)[k] == v2,
{
    assert(m.insert(k, v1).insert(k, v2) =~= m.insert(k, v2));
}

/// Law: deleting an absent key changes nothing (and `delete` then returns
/// `false`, by its own contract — not an error); after deleting any key a
/// lookup of it misses.
pub proof fn lemma_delete_semantics(m: Map<Seq<char>, Seq<u8>>, k: Seq<char>)
    ensures
        !m.contains_key(k) ==> m.remove(k) == m,
        !m.remove(k).contains_key(k),
{
    if !m.contains_key(k) {
        assert(m.remove(k) =~= m);
    }
}

/// `key_lt` never relates a key to itself.
pub proof fn lemma_key_lt_irreflexive(a: Seq<char>)
    ensures
        !key_lt(a, a),
    decreases a.len(),
{
    if a.len() > 0 {
        lemma_key_lt_irreflexive(a.skip(1));
    }
}

/// Law: however the store was built up, a listing that satisfies
/// `lists_exactly` — as every successful `list_keys` does — names exactly
/// the keys currently present, each exactly once.
pub proof fn lemma_enumeration_complete(keys: Seq<Seq<char>>, m: Map<Seq<char>, Seq<u8>>)
    requires
        lists_exactly(keys, m),
    ensures
        keys.to_set() == m.dom(),
        forall|i: int, j: int|
            0 <= i < keys.len() && 0 <= j < keys.len() && i != j ==> keys[i] != keys[j],
{
    assert forall|i: int, j: int|
        0 <= i < keys.len() && 0 <= j < keys.len() && i != j implies keys[i] != keys[j] by {
        if keys[i] == keys[j] {
            if i < j {
                assert(key_lt(keys[i], keys[j]));
            } else {
                assert(key_lt(keys[j], keys[i]));
            }
            lemma_key_lt_irreflexive(keys[i]);
        }
    }
    assert forall|k: Seq<char>| #[trigger] keys.to_set().contains(k) implies m.contains_key(k) by {
        assert(keys.contains(k));
        let i = choose|i: int| 0 <= i < keys.len() && keys[i] == k;
        assert(m.contains_key(keys[i]));
    }
    assert forall|k: Seq<char>| #[trigger] m.contains_key(k) implies keys.to_set().contains(k) by {
        assert(keys.contains(k));
    }
    assert(keys.to_set() =~= m.dom());
}

/// Law: when two stores of `va` and `vb` under one key are serialized in
/// either order, the key afterwards holds exactly the later of the two —
/// always one of them in full, never an interleaving of both.
pub proof fn lemma_concurrent_puts_last_writer_wins(
    m: Map<Seq<char>, Seq<u8>>,
    k: Seq<char>,
    va: Seq<u8>,
    vb: Seq<u8>,
)
    ensures
        m.insert(k, va).insert(k, vb)[k] == vb,
        m.insert(k, vb).insert(k, va)[k] == va,
{
}

} // verus!
