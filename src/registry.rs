//! The device token registry: a durable map from user tokens to device tokens.
use vstd::prelude::*;
use vstd::utf8::{decode_utf8, encode_utf8, valid_utf8};
use crate::keys::{any_match, has_prefix, first_match, is_first_match, lemma_exact_key_first, lemma_first_match_is, lemma_no_match};
use crate::store::{db_first_with_prefix, db_insert, db_remove, describe_error, stored, text_from_bytes};

verus! {

broadcast use vstd::utf8::group_utf8_lib;

/// The registry's pairs: UTF-8 bytes of a user token to UTF-8 bytes of a
/// device token.
pub type Entries = Map<Seq<u8>, Seq<u8>>;

/// The device token that a lookup of `user` yields in `m`: the value of the
/// first key, in byte order, that starts with `user`, if that value is text.
pub open spec fn resolve(m: Entries, user: Seq<char>) -> Option<Seq<char>> {
    match first_match(m, encode_utf8(user)) {
        Some(k) => if valid_utf8(m[k]) {
            Some(decode_utf8(m[k]))
        } else {
            None
        },
        None => None,
    }
}

/// The pairs after `user` is registered with `device`.
pub open spec fn registered(m: Entries, user: Seq<char>, device: Seq<char>) -> Entries {
    m.insert(encode_utf8(user), encode_utf8(device))
}

/// The pairs after the entry keyed by `key` is removed.
pub open spec fn removed(m: Entries, key: Seq<char>) -> Entries {
    m.remove(encode_utf8(key))
}

/// The characters of an optional string.
pub open spec fn text_view(o: Option<String>) -> Option<Seq<char>> {
    match o {
        Some(s) => Some(s@),
        None => None,
    }
}

/// A failure of the underlying store, with its cause in words.
#[derive(Debug)]
pub struct StorageError {
    pub detail: String,
}

/// A registration as a client submits it.
#[derive(Debug)]
pub struct DeviceInfo {
    pub device_token: String,
    pub user_token: String,
}

/// What became of a removal.
#[derive(Debug)]
pub enum RemoveOutcome {
    Removed,
    NotFound,
    Failed(StorageError),
}

/// The registry, which owns its store handle: no other handle writes to it.
pub struct Registry {
    db: sled::Db,
}

impl Registry {
    pub closed spec fn entries(&self) -> Entries {
        stored(self.db)
    }

    /// Takes over an open store.
    pub fn new(db: sled::Db) -> (r: Registry)
        ensures
            r.entries() == stored(db),
    {
        Registry { db }
    }

    /// Binds `user_token` to `device_token`, replacing any earlier binding.
    pub fn register(&mut self, user_token: &str, device_token: &str) -> (r: Result<(), StorageError>)
        ensures
            r is Ok ==> final(self).entries() == registered(old(self).entries(), user_token@, device_token@),
            r is Ok ==> resolve(final(self).entries(), user_token@) == Some(device_token@),
    {
        match db_insert(&mut self.db, user_token.as_bytes(), device_token.as_bytes()) {
            Ok(()) => {
                proof {
                    lemma_round_trip(old(self).entries(), user_token@, device_token@);
                }
                Ok(())
            },
            Err(e) => Err(StorageError { detail: describe_error(&e) }),
        }
    }

    /// Removes the entry whose key is `key`; `Ok(true)` when there was one.
    pub fn remove(&mut self, key: &str) -> (r: Result<bool, StorageError>)
        ensures
            r matches Ok(found) ==> {
                &&& final(self).entries() == removed(old(self).entries(), key@)
                &&& found == old(self).entries().contains_key(encode_utf8(key@))
            },
    {
        match db_remove(&mut self.db, key.as_bytes()) {
            Ok(prev) => Ok(prev.is_some()),
            Err(e) => Err(StorageError { detail: describe_error(&e) }),
        }
    }

    /// The device token of the first entry whose key starts with
    /// `user_token`; none where there is no such entry or its value is not
    /// text.
    pub fn lookup(&self, user_token: &str) -> (r: Result<Option<String>, StorageError>)
        ensures
            r matches Ok(found) ==> text_view(found) == resolve(self.entries(), user_token@),
    {
        match db_first_with_prefix(&self.db, user_token.as_bytes()) {
            Ok(None) => {
                proof {
                    lemma_no_match(self.entries(), encode_utf8(user_token@));
                }
                Ok(None)
            },
            Ok(Some(v)) => {
                proof {
                    let k = choose|k: Seq<u8>|
                        is_first_match(self.entries(), encode_utf8(user_token@), k)
                        && #[trigger] self.entries()[k] == v@;
                    lemma_first_match_is(self.entries(), encode_utf8(user_token@), k);
                }
                Ok(text_from_bytes(v))
            },
            Err(e) => Err(StorageError { detail: describe_error(&e) }),
        }
    }
}

/// Stores a registration.
pub fn register_device(registry: &mut Registry, info: &DeviceInfo) -> (r: Result<(), StorageError>)
    ensures
        r is Ok ==> final(registry).entries() == registered(
            old(registry).entries(),
            info.user_token@,
            info.device_token@,
        ),
        r is Ok ==> resolve(final(registry).entries(), info.user_token@) == Some(info.device_token@),
{
    registry.register(info.user_token.as_str(), info.device_token.as_str())
}

impl RemoveOutcome {
    /// The HTTP status that reports this outcome.
    pub fn status(&self) -> (r: u16)
        ensures
            r == match self {
                RemoveOutcome::Removed => 200u16,
                RemoveOutcome::NotFound => 404u16,
                RemoveOutcome::Failed(_) => 500u16,
            },
    {
        match self {
            RemoveOutcome::Removed => 200,
            RemoveOutcome::NotFound => 404,
            RemoveOutcome::Failed(_) => 500,
        }
    }
}

/// Removes the entry keyed by `device_token`.
pub fn remove_device(registry: &mut Registry, device_token: &str) -> (r: RemoveOutcome)
    ensures
        !(r is Failed) ==> final(registry).entries() == removed(old(registry).entries(), device_token@),
        r is Removed ==> old(registry).entries().contains_key(encode_utf8(device_token@)),
        r is NotFound ==> !old(registry).entries().contains_key(encode_utf8(device_token@)),
{
    match registry.remove(device_token) {
        Ok(true) => RemoveOutcome::Removed,
        Ok(false) => RemoveOutcome::NotFound,
        Err(e) => RemoveOutcome::Failed(e),
    }
}

/// The device token registered for `user_token`; none where there is none,
/// where it is not text, or where the store fails.
pub fn get_device_token(registry: &Registry, user_token: &str) -> (r: Option<String>)
    ensures
        r is Some ==> text_view(r) == resolve(registry.entries(), user_token@),
        resolve(registry.entries(), user_token@) is None ==> r is None,
{
    match registry.lookup(user_token) {
        Ok(found) => found,
        Err(_) => None,
    }
}

/// A pair registered and then looked up by its user token gives back its
/// device token exactly.
pub proof fn lemma_round_trip(m: Entries, user: Seq<char>, device: Seq<char>)
    ensures
        resolve(registered(m, user, device), user) == Some(device),
{
    lemma_exact_key_first(registered(m, user, device), encode_utf8(user));
}

/// Nothing is found in an empty registry.
pub proof fn lemma_empty_lookup(user: Seq<char>)
    ensures
        resolve(Map::empty(), user) is None,
{
    lemma_no_match(Map::empty(), encode_utf8(user));
}

/// Registering the same pair twice leaves the same pairs, and so the same
/// lookups, as registering it once.
pub proof fn lemma_register_idempotent(m: Entries, user: Seq<char>, device: Seq<char>, query: Seq<char>)
    ensures
        registered(registered(m, user, device), user, device) == registered(m, user, device),
        resolve(registered(registered(m, user, device), user, device), query) == resolve(
            registered(m, user, device),
            query,
        ),
{
    assert(registered(registered(m, user, device), user, device) =~= registered(m, user, device));
}

/// A later registration of a user replaces the earlier one: the lookup gives
/// the later device token.
pub proof fn lemma_register_overwrites(m: Entries, user: Seq<char>, first: Seq<char>, second: Seq<char>)
    ensures
        resolve(registered(registered(m, user, first), user, second), user) == Some(second),
{
    lemma_round_trip(registered(m, user, first), user, second);
}

/// Once the entry keyed by `key` is removed, it no longer answers a lookup of
/// `key`; where no other key starts with `key`, that lookup finds nothing.
pub proof fn lemma_removal(m: Entries, key: Seq<char>)
    ensures
        first_match(removed(m, key), encode_utf8(key)) != Some(encode_utf8(key)),
        (forall|k: Seq<u8>| #[trigger] m.contains_key(k) && has_prefix(k, encode_utf8(key)) ==> k == encode_utf8(key))
            ==> resolve(removed(m, key), key) is None,
{
    let p = encode_utf8(key);
    let r = removed(m, key);
    if first_match(r, p) == Some(p) {
        let c = choose|k: Seq<u8>| is_first_match(r, p, k);
        assert(is_first_match(r, p, c));
    }
    if forall|k: Seq<u8>| #[trigger] m.contains_key(k) && has_prefix(k, p) ==> k == p {
        assert(!any_match(r, p));
        lemma_no_match(r, p);
    }
}

} // verus!
