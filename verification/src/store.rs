//! The client's persistent key-value store (a sled database) and the UTF-8
//! text it holds.
use vstd::prelude::*;
use vstd::utf8::{decode_utf8, encode_utf8, valid_utf8};

verus! {

/// The embedded database the settings and tokens live in.
#[verifier::external_type_specification]
#[verifier::external_body]
pub struct ExDb(sled::Db);

/// The entries of the database's default tree: key bytes to value bytes.
pub uninterp spec fn db_entries(db: sled::Db) -> Map<Seq<u8>, Seq<u8>>;

/// The value stored under the text key `key`, if any.
pub open spec fn entry_at(entries: Map<Seq<u8>, Seq<u8>>, key: Seq<char>) -> Option<Seq<u8>> {
    if entries.contains_key(encode_utf8(key)) {
        Some(entries[encode_utf8(key)])
    } else {
        None
    }
}

/// Reads the value under `key` with sled's `Tree::get` (through `Db`'s deref).
/// A successful read gives the value the entries hold under the key's UTF-8
/// bytes; a failed read (an I/O error of the store) gives the error's text,
/// about which nothing is stated.
#[verifier::external_body]
pub(crate) fn db_get(db: &sled::Db, key: &str) -> (r: Result<Option<Vec<u8>>, String>)
    ensures
        r matches Ok(v) ==> match v {
            Some(b) => entry_at(db_entries(*db), key@) == Some(b@),
            None => entry_at(db_entries(*db), key@) == None::<Seq<u8>>,
        },
{
    match db.get(key.as_bytes()) {
        Ok(Some(v)) => Ok(Some(v.to_vec())),
        Ok(None) => Ok(None),
        Err(e) => Err(e.to_string()),
    }
}

/// Stores `value`'s UTF-8 bytes under `key` with sled's `Tree::insert`.
/// On success the entries are the old ones with that one entry set. On failure
/// the error's text comes back and nothing is stated of the entries.
/// The database is taken by `&mut` although sled writes through a shared
/// handle: the library holds the only handle it writes through.
#[verifier::external_body]
pub(crate) fn db_insert(db: &mut sled::Db, key: &str, value: &str) -> (r: Result<(), String>)
    ensures
        r is Ok ==> db_entries(*final(db)) == db_entries(*old(db)).insert(
            encode_utf8(key@),
            encode_utf8(value@),
        ),
{
    match db.insert(key.as_bytes(), value.as_bytes()) {
        Ok(_) => Ok(()),
        Err(e) => Err(e.to_string()),
    }
}

/// Deletes the entry under `key` with sled's `Tree::remove`. On success the
/// entries are the old ones without that key. On failure the error's text
/// comes back and nothing is stated of the entries.
#[verifier::external_body]
pub(crate) fn db_remove(db: &mut sled::Db, key: &str) -> (r: Result<(), String>)
    ensures
        r is Ok ==> db_entries(*final(db)) == db_entries(*old(db)).remove(encode_utf8(key@)),
{
    match db.remove(key.as_bytes()) {
        Ok(_) => Ok(()),
        Err(e) => Err(e.to_string()),
    }
}

/// Decodes `bytes` as UTF-8 with std's `String::from_utf8`: the text when the
/// bytes are valid UTF-8, the error's text otherwise (nothing is stated of it).
#[verifier::external_body]
pub(crate) fn utf8_to_string(bytes: Vec<u8>) -> (r: Result<String, String>)
    ensures
        r is Ok <==> valid_utf8(bytes@),
        r matches Ok(s) ==> s@ == decode_utf8(bytes@),
{
    match String::from_utf8(bytes) {
        Ok(s) => Ok(s),
        Err(e) => Err(e.to_string()),
    }
}

} // verus!
