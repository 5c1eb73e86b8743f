//! JSON values of the DevTools protocol: a model of what a
//! [`serde_json::Value`] holds, and the few calls that build and read one.

use serde_json::Value;
use vstd::prelude::*;

verus! {

/// What a JSON value holds, as far as this library builds or reads one.
pub enum Json {
    Bool(bool),
    /// A number that is held as an integer.
    Integer(int),
    Text(Seq<char>),
    Object(Map<Seq<char>, Json>),
    /// `null`, an array, or a number that is held as a floating-point one.
    Other,
}

impl Json {
    /// The member `key`, where the value is an object that has one.
    pub open spec fn member(self, key: Seq<char>) -> Option<Json> {
        match self {
            Json::Object(members) => if members.dom().contains(key) {
                Some(members[key])
            } else {
                None
            },
            _ => None,
        }
    }

    /// The characters, where the value is a string.
    pub open spec fn text(self) -> Option<Seq<char>> {
        match self {
            Json::Text(chars) => Some(chars),
            _ => None,
        }
    }

    /// The integer, where the value is one that an `i64` can hold.
    pub open spec fn small_integer(self) -> Option<int> {
        match self {
            Json::Integer(n) => if i64::MIN <= n <= i64::MAX {
                Some(n)
            } else {
                None
            },
            _ => None,
        }
    }
}

/// Any JSON value.
#[verifier::external_type_specification]
#[verifier::external_body]
pub struct ExValue(serde_json::Value);

/// The members of a JSON object, by key.
#[verifier::external_type_specification]
#[verifier::external_body]
#[verifier::reject_recursive_types(K)]
#[verifier::reject_recursive_types(V)]
pub struct ExObjectMembers<K, V>(serde_json::Map<K, V>);

/// What a JSON value holds.
pub uninterp spec fn json_of(value: Value) -> Json;

/// What the members of a JSON object hold.
pub uninterp spec fn members_of(members: serde_json::Map<String, Value>) -> Map<Seq<char>, Json>;

/// An object without members.
pub open spec fn no_json() -> Map<Seq<char>, Json> {
    Map::empty()
}

/// `serde_json::Map::new`: an object without members.
#[verifier::external_body]
pub(crate) fn no_members() -> (members: serde_json::Map<String, Value>)
    ensures
        members_of(members) == no_json(),
{
    serde_json::Map::new()
}

/// `serde_json::Map::insert`: `key` now has `value`, whatever it had before,
/// and the other members are as they were. What `key` had before is dropped.
#[verifier::external_body]
pub(crate) fn insert_member(members: &mut serde_json::Map<String, Value>, key: &str, value: Value)
    ensures
        members_of(*final(members)) == members_of(*old(members)).insert(key@, json_of(value)),
{
    members.insert(String::from(key), value);
}

/// `serde_json::Value::Object`: the object with these members.
#[verifier::external_body]
pub(crate) fn object_value(members: serde_json::Map<String, Value>) -> (value: Value)
    ensures
        json_of(value) == Json::Object(members_of(members)),
{
    Value::Object(members)
}

/// `serde_json::Value::Bool`: the JSON boolean `flag`.
#[verifier::external_body]
pub(crate) fn bool_value(flag: bool) -> (value: Value)
    ensures
        json_of(value) == Json::Bool(flag),
{
    Value::Bool(flag)
}

/// `serde_json::Value::from` on a string slice: the JSON string with the same
/// characters.
#[verifier::external_body]
pub(crate) fn text_value(text: &str) -> (value: Value)
    ensures
        json_of(value) == Json::Text(text@),
{
    Value::from(text)
}

/// `serde_json::Value::from` on a `u64`: the JSON number `n`, held as an
/// integer.
#[verifier::external_body]
pub(crate) fn unsigned_value(n: u64) -> (value: Value)
    ensures
        json_of(value) == Json::Integer(n as int),
{
    Value::from(n)
}

/// `serde_json::Value::from` on an `i64`: the JSON number `n`, held as an
/// integer.
#[verifier::external_body]
pub(crate) fn signed_value(n: i64) -> (value: Value)
    ensures
        json_of(value) == Json::Integer(n as int),
{
    Value::from(n)
}

/// `serde_json::Value::get` with a string: the member of that name, and `None`
/// where there is none or where the value is no object.
#[verifier::external_body]
pub(crate) fn member<'a>(value: &'a Value, key: &str) -> (found: Option<&'a Value>)
    ensures
        match found {
            Some(inner) => json_of(*value).member(key@) == Some(json_of(*inner)),
            None => json_of(*value).member(key@) is None,
        },
{
    value.get(key)
}

/// `serde_json::Value::as_str`: the characters of a JSON string, and `None` for
/// any other value.
#[verifier::external_body]
pub(crate) fn as_text(value: &Value) -> (text: Option<&str>)
    ensures
        match text {
            Some(chars) => json_of(*value).text() == Some(chars@),
            None => json_of(*value).text() is None,
        },
{
    value.as_str()
}

/// `serde_json::Value::as_i64`: the integer that a JSON number is held as, where
/// an `i64` can hold it, and `None` for any other value.
#[verifier::external_body]
pub(crate) fn as_integer(value: &Value) -> (integer: Option<i64>)
    ensures
        match integer {
            Some(n) => json_of(*value).small_integer() == Some(n as int),
            None => json_of(*value).small_integer() is None,
        },
{
    value.as_i64()
}

/// An object gives each of its members under its own key, and no other; any
/// other value has no members.
pub proof fn objects_give_their_members(members: Map<Seq<char>, Json>, key: Seq<char>, value: Json)
    ensures
        members.dom().contains(key) ==> Json::Object(members).member(key) == Some(members[key]),
        !members.dom().contains(key) ==> Json::Object(members).member(key) is None,
        !(value is Object) ==> value.member(key) is None,
{
}

/// A string gives its characters, and any other value none.
pub proof fn strings_give_their_characters(chars: Seq<char>, value: Json)
    ensures
        Json::Text(chars).text() == Some(chars),
        !(value is Text) ==> value.text() is None,
{
}

/// An integer of sixty-four bits gives itself, and any other value none.
pub proof fn integers_give_themselves(n: int, value: Json)
    ensures
        -0x8000_0000_0000_0000 <= n <= 0x7fff_ffff_ffff_ffff ==> Json::Integer(n).small_integer()
            == Some(n),
        n < -0x8000_0000_0000_0000 || n > 0x7fff_ffff_ffff_ffff ==> Json::Integer(
            n,
        ).small_integer() is None,
        !(value is Integer) ==> value.small_integer() is None,
{
}

/// An object without members has no member under any key.
pub proof fn no_json_has_no_members(key: Seq<char>)
    ensures
        !no_json().dom().contains(key),
{
}

} // verus!
