//! JSON objects, as `serde_json` holds them, seen through their members.
//!
//! The object type is `serde_json`'s own. Verus does not look inside it; this
//! module gives its contents a name, [`members`], and wraps the few calls the
//! claims codec makes. The contracts of those wrappers are assumed.

use vstd::prelude::*;

verus! {

/// `serde_json::Map`, carried through as a value Verus does not look into.
#[verifier::external_type_specification]
#[verifier::external_body]
#[verifier::reject_recursive_types(K)]
#[verifier::reject_recursive_types(V)]
pub struct ExJsonMap<K, V>(serde_json::Map<K, V>);

/// `serde_json::Value`, which the objects hold; never read directly here.
#[verifier::external_type_specification]
#[verifier::external_body]
pub struct ExJsonValue(serde_json::Value);

/// A JSON object: string keys, JSON values.
pub type JsonObject = serde_json::Map<String, serde_json::Value>;

/// What one member of a JSON object holds, as far as this library reads it.
pub enum Member {
    /// A JSON string.
    Text(Seq<char>),
    /// A JSON boolean.
    Flag(bool),
    /// A JSON number that is a whole number in the range of `u64`.
    Number(nat),
    /// Anything else: null, an array, an object, a negative or fractional number.
    Other,
}

/// The members of a JSON object, by key.
pub uninterp spec fn members(object: JsonObject) -> Map<Seq<char>, Member>;

/// The members of an object that has none.
pub open spec fn no_members() -> Map<Seq<char>, Member> {
    Map::empty()
}

/// `serde_json::Map::new`: an object without members.
#[verifier::external_body]
pub(crate) fn empty_object() -> (object: JsonObject)
    ensures
        members(object) == no_members(),
{
    serde_json::Map::new()
}

/// `serde_json::Map::insert` of a JSON string: the member `key` now holds the
/// text `value`, whether or not it was there before; no other member changes.
#[verifier::external_body]
pub(crate) fn put_text(object: &mut JsonObject, key: &str, value: &str)
    ensures
        members(*final(object)) == members(*old(object)).insert(key@, Member::Text(value@)),
{
    object.insert(key.to_owned(), serde_json::Value::String(value.to_owned()));
}

/// `serde_json::Map::insert` of a JSON boolean: the member `key` now holds
/// `value`; no other member changes.
#[verifier::external_body]
pub(crate) fn put_flag(object: &mut JsonObject, key: &str, value: bool)
    ensures
        members(*final(object)) == members(*old(object)).insert(key@, Member::Flag(value)),
{
    object.insert(key.to_owned(), serde_json::Value::Bool(value));
}

/// `serde_json::Map::insert` of a JSON number made from a `u64`: the member
/// `key` now holds that whole number; no other member changes.
#[verifier::external_body]
pub(crate) fn put_number(object: &mut JsonObject, key: &str, value: u64)
    ensures
        members(*final(object)) == members(*old(object)).insert(key@, Member::Number(value as nat)),
{
    object.insert(key.to_owned(), serde_json::Value::from(value));
}

/// `serde_json::Map::get` followed by `Value::as_str`: the text of the member
/// `key`, if the object has that member and it is a JSON string.
#[verifier::external_body]
pub(crate) fn get_text(object: &JsonObject, key: &str) -> (text: Option<String>)
    ensures
        match text {
            Some(s) => members(*object).contains_key(key@) && members(*object)[key@]
                == Member::Text(s@),
            None => !(members(*object).contains_key(key@) && members(*object)[key@] is Text),
        },
{
    Some(object.get(key)?.as_str()?.to_owned())
}

/// `serde_json::Map::get` followed by `Value::as_bool`: the boolean of the
/// member `key`, if the object has that member and it is a JSON boolean.
#[verifier::external_body]
pub(crate) fn get_flag(object: &JsonObject, key: &str) -> (flag: Option<bool>)
    ensures
        match flag {
            Some(b) => members(*object).contains_key(key@) && members(*object)[key@]
                == Member::Flag(b),
            None => !(members(*object).contains_key(key@) && members(*object)[key@] is Flag),
        },
{
    object.get(key)?.as_bool()
}

/// `serde_json::Map::get` followed by `Value::as_u64`: the number of the member
/// `key`, if the object has that member and it is a whole JSON number in the
/// range of `u64`.
#[verifier::external_body]
pub(crate) fn get_number(object: &JsonObject, key: &str) -> (number: Option<u64>)
    ensures
        match number {
            Some(n) => members(*object).contains_key(key@) && members(*object)[key@]
                == Member::Number(n as nat),
            None => !(members(*object).contains_key(key@) && members(*object)[key@] is Number),
        },
{
    object.get(key)?.as_u64()
}

} // verus!
