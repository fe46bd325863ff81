//! JSON documents, as `serde_json` holds them.

use serde_json::Value;
use vstd::prelude::*;

verus! {

/// What a JSON value holds.
pub enum Json {
    Null,
    Bool(bool),
    /// A number: how it is written, and its value where that is an unsigned 64-bit integer.
    Number { written: Seq<char>, unsigned: Option<u64> },
    Text(Seq<char>),
    Array(Seq<Json>),
    Object(Map<Seq<char>, Json>),
}

impl Json {
    /// The member `key`, where this is an object that has one.
    pub open spec fn member(self, key: Seq<char>) -> Option<Json> {
        match self {
            Json::Object(members) => if members.dom().contains(key) {
                Some(members[key])
            } else {
                None
            },
            _ => None,
        }
    }

    /// The text, where this is one.
    pub open spec fn text(self) -> Option<Seq<char>> {
        match self {
            Json::Text(text) => Some(text),
            _ => None,
        }
    }

    /// The number, where this is one that an unsigned 64-bit integer can hold.
    pub open spec fn unsigned(self) -> Option<u64> {
        match self {
            Json::Number { written: _, unsigned } => unsigned,
            _ => None,
        }
    }

    /// The truth value, where this is one.
    pub open spec fn boolean(self) -> Option<bool> {
        match self {
            Json::Bool(value) => Some(value),
            _ => None,
        }
    }
}

/// `serde_json::Value`, known by what it holds.
#[verifier::external_type_specification]
#[verifier::external_body]
pub struct ExValue(Value);

/// `serde_json::Error`, of which nothing is known.
#[verifier::external_type_specification]
#[verifier::external_body]
pub struct ExJsonError(serde_json::Error);

/// What a `serde_json::Value` holds, members of members included.
pub uninterp spec fn json_content(value: Value) -> Json;

/// The JSON document that `bytes` spell, where they spell one.
pub uninterp spec fn parsed_json(bytes: Seq<u8>) -> Option<Json>;

/// The compact notation of a JSON value.
pub uninterp spec fn json_notation(value: Json) -> Seq<char>;

/// Calls `serde_json::from_slice`: whether `bytes` are a JSON document, and which, depends on
/// the bytes alone.
#[verifier::external_body]
pub(crate) fn parse_json(bytes: &[u8]) -> (parsed: Result<Value, serde_json::Error>)
    ensures
        parsed is Ok <==> parsed_json(bytes@) is Some,
        parsed matches Ok(value) ==> parsed_json(bytes@) == Some(json_content(value)),
{
    serde_json::from_slice(bytes)
}

/// Calls the `Display` of `serde_json::Value`: the notation depends on what the value holds and
/// on nothing else.
#[verifier::external_body]
pub(crate) fn write_json(value: &Value) -> (notation: String)
    ensures
        notation@ == json_notation(json_content(*value)),
{
    value.to_string()
}

/// `serde_json::Value::is_object` tells whether the value is an object.
pub assume_specification[ Value::is_object ](value: &Value) -> (answer: bool)
    ensures
        answer == (json_content(*value) is Object),
;

/// `serde_json::Value::is_null` tells whether the value is null.
pub assume_specification[ Value::is_null ](value: &Value) -> (answer: bool)
    ensures
        answer == (json_content(*value) is Null),
;

/// `serde_json::Value::as_str` gives the text of a string, and `None` for any other value.
pub assume_specification[ Value::as_str ](value: &Value) -> (text: Option<&str>)
    ensures
        text is Some <==> json_content(*value) is Text,
        text matches Some(characters) ==> json_content(*value).text() == Some(characters@),
;

/// `serde_json::Value::as_u64` gives a number that an unsigned 64-bit integer can hold, and
/// `None` for any other value.
pub assume_specification[ Value::as_u64 ](value: &Value) -> (number: Option<u64>)
    ensures
        number == json_content(*value).unsigned(),
;

/// `serde_json::Value::as_bool` gives the truth value of a boolean, and `None` for any other
/// value.
pub assume_specification[ Value::as_bool ](value: &Value) -> (truth: Option<bool>)
    ensures
        truth == json_content(*value).boolean(),
;

/// Calls `serde_json::Value::get` with a string index: the member of that name, and `None` where
/// the object has none or the value is no object.
#[verifier::external_body]
pub(crate) fn get_member<'a>(value: &'a Value, key: &str) -> (member: Option<&'a Value>)
    ensures
        member is Some <==> json_content(*value).member(key@) is Some,
        member matches Some(found) ==> json_content(*value).member(key@) == Some(
            json_content(*found),
        ),
{
    value.get(key)
}

/// Calls `serde_json::Map::remove` on the members of an object: the member of that name, if there
/// is one, leaves the object and is handed out; the other members stay.
#[verifier::external_body]
pub(crate) fn remove_member(value: &mut Value, key: &str) -> (member: Option<Value>)
    requires
        json_content(*old(value)) is Object,
    ensures
        member is Some <==> json_content(*old(value)).member(key@) is Some,
        member matches Some(taken) ==> json_content(*old(value)).member(key@) == Some(
            json_content(taken),
        ),
        json_content(*final(value)) == Json::Object(
            json_content(*old(value))->Object_0.remove(key@),
        ),
{
    value.as_object_mut()?.remove(key)
}

} // verus!
