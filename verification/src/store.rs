//! Session store: persistence of opaque per-session artifacts under the
//! composed storage key of (owner id, session id, artifact kind).
//!
//! The `Db` trait is the storage contract the orchestrator is verified
//! against: any implementation must behave as a key-value map with
//! last-write-wins overwrite, and may fail with `StoreError::Unavailable`
//! only without having persisted anything. The store knows nothing of
//! protocol semantics; the guard that freezes a finalized session lives
//! in the orchestrator. `SessionStore` is the in-memory implementation
//! of this contract.

use vstd::prelude::*;
use vstd::hash_map::StringHashMap;
use vstd::string::StrSliceExecFns;
use crate::errors::StoreError;
use crate::ident::ArtifactKind;
use crate::ident::idify;
use crate::ident::storage_key;

verus! {

/// Composite index of an artifact: the tenant the session belongs to and
/// the caller-opaque session id.
#[derive(Clone, Debug)]
pub struct DbIndex {
    pub customer_id: String,
    pub id: String,
}

/// The storage contract of the session layer.
///
/// `contents` is the abstract state: a map from composed storage key to
/// the stored payload. A failed operation must leave the contents
/// unchanged, so a round that fails on storage is safe to retry.
pub trait Db: Sized {
    /// The stored artifacts, keyed by composed storage key.
    spec fn contents(&self) -> Map<Seq<char>, Seq<char>>;

    /// Persists `value` under (owner, session id, kind), overwriting any
    /// previous payload at that key. On failure nothing was persisted.
    fn insert(&mut self, key: &DbIndex, kind: ArtifactKind, value: &String) -> (r: Result<
        (),
        StoreError,
    >)
        ensures
            r is Ok ==> final(self).contents() == old(self).contents().insert(
                storage_key(key.customer_id@, key.id@, kind),
                value@,
            ),
            r is Err ==> final(self).contents() == old(self).contents() && r == Err::<
                (),
                StoreError,
            >(StoreError::Unavailable),
    ;

    /// Returns the most recently stored payload at (owner, session id,
    /// kind), or absence.
    fn get(&self, key: &DbIndex, kind: ArtifactKind) -> (r: Result<Option<String>, StoreError>)
        ensures
            match r {
                Result::Ok(Option::Some(v)) => self.contents().contains_key(
                    storage_key(key.customer_id@, key.id@, kind),
                ) && v@ == self.contents()[storage_key(key.customer_id@, key.id@, kind)],
                Result::Ok(Option::None) => !self.contents().contains_key(
                    storage_key(key.customer_id@, key.id@, kind),
                ),
                Result::Err(e) => e == StoreError::Unavailable || e == StoreError::Corrupt,
            },
    ;
}

/// In-memory session store: a hash map from composed storage key to the
/// opaque serialized artifact. Unlike the trait it implements, this
/// backend cannot fail: both operations always return `Ok`.
pub struct SessionStore {
    entries: StringHashMap<String>,
}

impl SessionStore {
    /// Creates an empty store.
    pub fn new() -> (r: SessionStore)
        ensures
            r.contents() == Map::<Seq<char>, Seq<char>>::empty(),
    {
        let s = SessionStore { entries: StringHashMap::new() };
        proof {
            assert(s.contents() =~= Map::<Seq<char>, Seq<char>>::empty());
        }
        s
    }

    /// Whether any share is active for the given user; this deployment
    /// reports none.
    pub fn has_active_share(&self, user_id: &str) -> (r: Result<bool, String>)
        ensures
            r == Ok::<bool, String>(false),
    {
        Ok(false)
    }
}

impl Db for SessionStore {
    closed spec fn contents(&self) -> Map<Seq<char>, Seq<char>> {
        self.entries@.map_values(|v: String| v@)
    }

    fn insert(&mut self, key: &DbIndex, kind: ArtifactKind, value: &String) -> (r: Result<
        (),
        StoreError,
    >)
        ensures
            r is Ok,
    {
        let k = idify(&key.customer_id, &key.id, kind);
        self.entries.insert(k, value.clone());
        proof {
            assert(self.contents() =~= old(self).contents().insert(
                storage_key(key.customer_id@, key.id@, kind),
                value@,
            ));
        }
        Ok(())
    }

    fn get(&self, key: &DbIndex, kind: ArtifactKind) -> (r: Result<Option<String>, StoreError>)
        ensures
            r is Ok,
    {
        let k = idify(&key.customer_id, &key.id, kind);
        match self.entries.get(k.as_str()) {
            Some(v) => Ok(Some(v.clone())),
            None => Ok(None),
        }
    }
}


/// An ASCII alphanumeric character.
pub open spec fn is_alnum(c: char) -> bool {
    ||| ('0' as u32) <= (c as u32) && (c as u32) <= ('9' as u32)
    ||| ('a' as u32) <= (c as u32) && (c as u32) <= ('z' as u32)
    ||| ('A' as u32) <= (c as u32) && (c as u32) <= ('Z' as u32)
}

/// A storage-location identifier is acceptable when it is made of ASCII
/// alphanumeric characters only.
pub open spec fn db_name_valid(s: Seq<char>) -> bool {
    forall|i: int| 0 <= i < s.len() ==> is_alnum(#[trigger] s[i])
}

/// Whether a storage-location identifier is restricted to alphanumeric
/// characters; an invalid identifier is a fatal configuration error for
/// the process that hosts the store.
pub fn db_name_ok(name: &str) -> (r: bool)
    ensures
        r == db_name_valid(name@),
{
    let n: usize = name.unicode_len();
    for i in 0..n
        invariant
            n == name@.len(),
            forall|j: int| 0 <= j < i ==> is_alnum(#[trigger] name@[j]),
    {
        let c = name.get_char(i);
        let u = c as u32;
        if !((u >= 48 && u <= 57) || (u >= 97 && u <= 122) || (u >= 65 && u <= 90)) {
            return false;
        }
    }
    true
}

} // verus!
