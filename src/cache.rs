use vstd::prelude::*;
use crate::urls::{crate_key, crate_key_of, index_key, index_key_of};

verus! {

#[verifier::external_type_specification]
#[verifier::external_body]
pub struct ExDb(sled::Db);

/// What a store holds: the text of each key mapped to the bytes stored under it.
pub uninterp spec fn db_contents(db: sled::Db) -> Map<Seq<char>, Seq<u8>>;

/// A store that holds nothing.
pub open spec fn empty_contents() -> Map<Seq<char>, Seq<u8>> {
    Map::empty()
}

/// Relies on `sled::Tree::get`: `Ok(Some(v))` with the bytes stored under the
/// key, `Ok(None)` when none are; an error is read as a miss.
#[verifier::external_body]
fn db_get(db: &sled::Db, key: &str) -> (r: Option<Vec<u8>>)
    ensures
        r matches Some(v) ==> db_contents(*db).contains_key(key@)
            && db_contents(*db)[key@] == v@,
        !db_contents(*db).contains_key(key@) ==> r is None,
{
    match db.get(key) {
        Ok(Some(v)) => Some(v.to_vec()),
        _ => None,
    }
}

/// Relies on `sled::Tree::insert`: on success the key maps to the new bytes,
/// whatever it held before, and the other keys are untouched.
#[verifier::external_body]
fn db_insert(db: &mut sled::Db, key: &str, value: &[u8]) -> (r: bool)
    ensures
        r ==> db_contents(*final(db)) == db_contents(*old(db)).insert(key@, value@),
{
    db.insert(key, value).is_ok()
}

/// Relies on `sled::Tree::clear`: it removes the keys one by one, so on
/// success nothing is left, and on failure only removals have been made.
#[verifier::external_body]
fn db_clear(db: &mut sled::Db) -> (r: bool)
    ensures
        r ==> db_contents(*final(db)) == empty_contents(),
        !r ==> db_contents(*final(db)).submap_of(db_contents(*old(db))),
{
    db.clear().is_ok()
}

/// A write to the cache store failed.
#[derive(Debug, Clone, Copy, PartialEq, Eq)]
pub enum CacheError {
    WriteFailed,
    ClearFailed,
}

/// A persistent cache of fetched data, keyed by query.
pub struct DocsRs {
    pub db: sled::Db,
}

impl DocsRs {
    /// The entries of the cache.
    pub open spec fn contents(&self) -> Map<Seq<char>, Seq<u8>> {
        db_contents(self.db)
    }

    /// A cache over an opened store.
    pub fn new(db: sled::Db) -> (r: DocsRs)
        ensures
            r.contents() == db_contents(db),
    {
        DocsRs { db }
    }

    /// Removes every entry. Safe on an empty store and when repeated.
    pub fn clear(&mut self) -> (r: Result<(), CacheError>)
        ensures
            r is Ok ==> final(self).contents() == empty_contents(),
            r is Err ==> final(self).contents().submap_of(old(self).contents()),
    {
        if db_clear(&mut self.db) {
            Ok(())
        } else {
            Err(CacheError::ClearFailed)
        }
    }

    /// The bytes stored under `key`; a read that fails is a miss.
    pub fn get(&self, key: &str) -> (r: Option<Vec<u8>>)
        ensures
            r matches Some(v) ==> self.contents().contains_key(key@)
                && self.contents()[key@] == v@,
            !self.contents().contains_key(key@) ==> r is None,
    {
        db_get(&self.db, key)
    }

    /// Stores `value` under `key`, replacing what was there.
    pub fn set(&mut self, key: &str, value: &[u8]) -> (r: Result<(), CacheError>)
        ensures
            r is Ok ==> final(self).contents() == old(self).contents().insert(
                key@,
                value@,
            ),
    {
        if db_insert(&mut self.db, key, value) {
            Ok(())
        } else {
            Err(CacheError::WriteFailed)
        }
    }

    /// The cached crate list for `crate_name`, as stored.
    pub fn cached_crates(&self, crate_name: &str) -> (r: Option<Vec<u8>>)
        ensures
            r matches Some(v) ==> self.contents().contains_key(crate_key_of(crate_name@))
                && self.contents()[crate_key_of(crate_name@)] == v@,
            !self.contents().contains_key(crate_key_of(crate_name@)) ==> r is None,
    {
        let key = crate_key(crate_name);
        self.get(key.as_str())
    }

    /// Stores the crate list for `crate_name`.
    pub fn store_crates(&mut self, crate_name: &str, value: &[u8]) -> (r: Result<(), CacheError>)
        ensures
            r is Ok ==> final(self).contents() == old(self).contents().insert(
                crate_key_of(crate_name@),
                value@,
            ),
    {
        let key = crate_key(crate_name);
        self.set(key.as_str(), value)
    }

    /// The cached documentation index text of a crate version, as stored.
    pub fn cached_index(&self, crate_name: &str, version: &str) -> (r: Option<Vec<u8>>)
        ensures
            r matches Some(v) ==> self.contents().contains_key(index_key_of(crate_name@, version@))
                && self.contents()[index_key_of(crate_name@, version@)] == v@,
            !self.contents().contains_key(index_key_of(crate_name@, version@)) ==> r is None,
    {
        let key = index_key(crate_name, version);
        self.get(key.as_str())
    }

    /// Stores the documentation index text of a crate version.
    pub fn store_index(&mut self, crate_name: &str, version: &str, value: &[u8]) -> (r: Result<
        (),
        CacheError,
    >)
        ensures
            r is Ok ==> final(self).contents() == old(self).contents().insert(
                index_key_of(crate_name@, version@),
                value@,
            ),
    {
        let key = index_key(crate_name, version);
        self.set(key.as_str(), value)
    }
}

/// After a crate list for `name` is stored, the entry under its key is exactly
/// what was stored, whatever the cache held before; storing a documentation
/// index afterwards leaves that entry as it is. So a second search for the
/// same name finds the first one's result in the cache.
pub proof fn lemma_stored_crates_found_again(
    before: Map<Seq<char>, Seq<u8>>,
    name: Seq<char>,
    bytes: Seq<u8>,
    other: Seq<char>,
    version: Seq<char>,
    index: Seq<u8>,
)
    ensures
        before.insert(crate_key_of(name), bytes).contains_key(crate_key_of(name)),
        before.insert(crate_key_of(name), bytes)[crate_key_of(name)] == bytes,
        before.insert(crate_key_of(name), bytes).insert(index_key_of(other, version), index)[
            crate_key_of(name)] == bytes,
{
    lemma_keys_distinct(name, other, version);
}

/// A crate-list key and an index key are never the same.
pub proof fn lemma_keys_distinct(name: Seq<char>, other: Seq<char>, version: Seq<char>)
    ensures
        crate_key_of(name) != index_key_of(other, version),
{
    reveal_strlit("crate:");
    reveal_strlit("crate-search-index:");
    reveal_strlit(":");
    assert(crate_key_of(name)[5] == ':');
    assert(index_key_of(other, version)[5] == '-');
}

/// Once `clear` has succeeded the cache holds no key, so `get` (which returns
/// nothing for a key the cache does not hold) misses on every key.
pub proof fn lemma_cleared_misses(c: &DocsRs, key: Seq<char>)
    requires
        c.contents() == empty_contents(),
    ensures
        !c.contents().contains_key(key),
{
}

} // verus!
