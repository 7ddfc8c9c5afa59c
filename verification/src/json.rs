//! Reading JSON documents with `serde_json`.
//!
//! Parsing is `serde_json`'s work. The library walks the parsed value through
//! the few accessors declared here, whose contracts speak of a model of the
//! document, and proves its own reading rules against that model.

use vstd::prelude::*;

verus! {

/// A JSON document as contracts see it.
pub enum JsonModel {
    Null,
    Bool(bool),
    /// A number; `Some(n)` where it is an integer from 0 to 2^64 - 1.
    Number(Option<u64>),
    Text(Seq<char>),
    Array(Seq<JsonModel>),
    Object(Map<Seq<char>, JsonModel>),
}

impl JsonModel {
    /// The member of an object under a key.
    pub open spec fn member(self, key: Seq<char>) -> Option<JsonModel> {
        match self {
            JsonModel::Object(members) => if members.contains_key(key) {
                Some(members[key])
            } else {
                None
            },
            _ => None,
        }
    }

    /// The text of a JSON string.
    pub open spec fn text(self) -> Option<Seq<char>> {
        match self {
            JsonModel::Text(text) => Some(text),
            _ => None,
        }
    }

    /// The value of a number that is an unsigned 64-bit integer.
    pub open spec fn unsigned(self) -> Option<u64> {
        match self {
            JsonModel::Number(n) => n,
            _ => None,
        }
    }

    /// The value of `true` or `false`.
    pub open spec fn boolean(self) -> Option<bool> {
        match self {
            JsonModel::Bool(b) => Some(b),
            _ => None,
        }
    }

    /// The text of the member under a key, where that member is a string.
    pub open spec fn text_member(self, key: Seq<char>) -> Option<Seq<char>> {
        match self.member(key) {
            Some(member) => member.text(),
            None => None,
        }
    }

    /// The number under a key, where that member is an unsigned integer.
    pub open spec fn unsigned_member(self, key: Seq<char>) -> Option<u64> {
        match self.member(key) {
            Some(member) => member.unsigned(),
            None => None,
        }
    }

    /// The truth value under a key, where that member is `true` or `false`.
    pub open spec fn boolean_member(self, key: Seq<char>) -> Option<bool> {
        match self.member(key) {
            Some(member) => member.boolean(),
            None => None,
        }
    }
}

/// `serde_json::Value`, a parsed JSON document. Nothing inside a value is
/// known to the library but through the accessors below.
#[verifier::external_type_specification]
#[verifier::external_body]
pub struct ExJsonValue(serde_json::Value);

/// `serde_json::Error`, the failure of parsing. Nothing inside a value is
/// known to the library.
#[verifier::external_type_specification]
#[verifier::external_body]
pub struct ExJsonError(serde_json::Error);

/// What a parsed `serde_json::Value` holds.
pub uninterp spec fn json_model(value: serde_json::Value) -> JsonModel;

/// The document that `serde_json` reads from a text, `None` where it reads
/// none.
pub uninterp spec fn json_parse(text: Seq<u8>) -> Option<JsonModel>;

/// Parses with `serde_json::from_slice::<Value>`. Not proved: that the value
/// returned holds the document named `json_parse`, and that an error comes
/// exactly where that name is `None`.
#[verifier::external_body]
pub(crate) fn parse_value(text: &[u8]) -> (parsed: Result<serde_json::Value, serde_json::Error>)
    ensures
        parsed is Ok == json_parse(text@) is Some,
        parsed matches Ok(value) ==> json_parse(text@) == Some(json_model(value)),
{
    serde_json::from_slice::<serde_json::Value>(text)
}

/// Looks a key up with `Value::get`. Not proved: that an object yields its
/// member under the key, and that an object without the key, or a value that
/// is no object, yields `None`.
#[verifier::external_body]
pub(crate) fn value_member<'a>(value: &'a serde_json::Value, key: &str) -> (found: Option<
    &'a serde_json::Value,
>)
    ensures
        found is Some == json_model(*value).member(key@) is Some,
        found matches Some(member) ==> json_model(*value).member(key@) == Some(json_model(*member)),
{
    value.get(key)
}

/// Reads a string with `Value::as_str`. Not proved: that a JSON string yields
/// its text and any other value `None`.
#[verifier::external_body]
pub(crate) fn value_text<'a>(value: &'a serde_json::Value) -> (text: Option<&'a str>)
    ensures
        text is Some == json_model(*value).text() is Some,
        text matches Some(t) ==> json_model(*value).text() == Some(t@),
{
    value.as_str()
}

/// Reads a number with `Value::as_u64`. Not proved: that the result is the
/// model's unsigned value.
#[verifier::external_body]
pub(crate) fn value_unsigned(value: &serde_json::Value) -> (n: Option<u64>)
    ensures
        n == json_model(*value).unsigned(),
{
    value.as_u64()
}

/// Reads a truth value with `Value::as_bool`. Not proved: that `true` and
/// `false` yield themselves and any other value `None`.
#[verifier::external_body]
pub(crate) fn value_boolean(value: &serde_json::Value) -> (b: Option<bool>)
    ensures
        b == json_model(*value).boolean(),
{
    value.as_bool()
}

/// The text of the member under a key, where the value is an object and that
/// member a string.
pub(crate) fn text_member(value: &serde_json::Value, key: &str) -> (text: Option<String>)
    ensures
        text.deep_view() == json_model(*value).text_member(key@),
{
    match value_member(value, key) {
        Some(member) => match value_text(member) {
            Some(text) => Some(text.to_owned()),
            None => None,
        },
        None => None,
    }
}

/// The number under a key, where the value is an object and that member an
/// unsigned integer.
pub(crate) fn unsigned_member(value: &serde_json::Value, key: &str) -> (n: Option<u64>)
    ensures
        n == json_model(*value).unsigned_member(key@),
{
    match value_member(value, key) {
        Some(member) => value_unsigned(member),
        None => None,
    }
}

/// The truth value under a key, where the value is an object and that member
/// `true` or `false`.
pub(crate) fn boolean_member(value: &serde_json::Value, key: &str) -> (b: Option<bool>)
    ensures
        b == json_model(*value).boolean_member(key@),
{
    match value_member(value, key) {
        Some(member) => value_boolean(member),
        None => None,
    }
}

} // verus!
