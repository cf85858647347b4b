//! The embedded key-value store behind the registry: sled's `Db`, seen as a
//! map from byte keys to byte values.
use vstd::prelude::*;
use crate::keys::{any_match, is_first_match};

verus! {

#[verifier::external_type_specification]
#[verifier::external_body]
pub struct ExDb(sled::Db);

#[verifier::external_type_specification]
#[verifier::external_body]
pub struct ExError(sled::Error);

/// The pairs that a store holds.
pub uninterp spec fn stored(db: sled::Db) -> Map<Seq<u8>, Seq<u8>>;

/// Relies on sled's `Tree::insert`: on success the key is bound to the value.
#[verifier::external_body]
pub(crate) fn db_insert(db: &mut sled::Db, key: &[u8], value: &[u8]) -> (r: Result<(), sled::Error>)
    ensures
        r is Ok ==> stored(*final(db)) == stored(*old(db)).insert(key@, value@),
{
    db.insert(key, value).map(|_| ())
}

/// Relies on sled's `Tree::remove`: on success the key is unbound, and the
/// value it had, if any, comes back.
#[verifier::external_body]
pub(crate) fn db_remove(db: &mut sled::Db, key: &[u8]) -> (r: Result<Option<Vec<u8>>, sled::Error>)
    ensures
        r matches Ok(prev) ==> {
            &&& stored(*final(db)) == stored(*old(db)).remove(key@)
            &&& (prev is Some <==> stored(*old(db)).contains_key(key@))
            &&& (prev matches Some(v) ==> v@ == stored(*old(db))[key@])
        },
{
    db.remove(key).map(|prev| prev.map(|v| v.to_vec()))
}

/// Relies on sled's `Tree::scan_prefix`, which walks the keys that start with
/// the prefix in ascending order: the value of the first one, if any.
#[verifier::external_body]
pub(crate) fn db_first_with_prefix(db: &sled::Db, prefix: &[u8]) -> (r: Result<Option<Vec<u8>>, sled::Error>)
    ensures
        r matches Ok(None) ==> !any_match(stored(*db), prefix@),
        r matches Ok(Some(v)) ==> exists|k: Seq<u8>|
            is_first_match(stored(*db), prefix@, k) && #[trigger] stored(*db)[k] == v@,
{
    db.scan_prefix(prefix).values().next().transpose().map(|v| v.map(|v| v.to_vec()))
}

/// Relies on the `Display` impl of `sled::Error` for a readable cause.
#[verifier::external_body]
pub(crate) fn describe_error(e: &sled::Error) -> String {
    e.to_string()
}

/// Relies on `String::from_utf8`: it succeeds exactly on valid UTF-8, and then
/// holds the decoded characters.
#[verifier::external_body]
pub(crate) fn text_from_bytes(b: Vec<u8>) -> (r: Option<String>)
    ensures
        r is Some <==> vstd::utf8::valid_utf8(b@),
        r matches Some(s) ==> s@ == vstd::utf8::decode_utf8(b@),
{
    String::from_utf8(b).ok()
}

} // verus!
