use vstd::prelude::*;

verus! {

/// A JSON document as a mathematical value. Of a number only the fact that
/// it is one is kept.
pub enum Json {
    Null,
    Bool(bool),
    Number,
    String(Seq<char>),
    Array(Seq<Json>),
    Object(Map<Seq<char>, Json>),
}

impl Json {
    /// The value that an object holds under `key`; none where `self` is not
    /// an object or has no such key.
    pub open spec fn member(self, key: Seq<char>) -> Option<Json> {
        match self {
            Json::Object(fields) => if fields.contains_key(key) {
                Some(fields[key])
            } else {
                None
            },
            _ => None,
        }
    }

    /// The characters of a JSON string; none where `self` is not a string.
    pub open spec fn text(self) -> Option<Seq<char>> {
        match self {
            Json::String(characters) => Some(characters),
            _ => None,
        }
    }

    /// The characters of the string that an object holds under `key`.
    pub open spec fn text_member(self, key: Seq<char>) -> Option<Seq<char>> {
        match self.member(key) {
            Some(value) => value.text(),
            None => None,
        }
    }
}

#[verifier::external_type_specification]
#[verifier::external_body]
pub struct ExValue(serde_json::Value);

#[verifier::external_type_specification]
#[verifier::external_body]
pub struct ExError(serde_json::Error);

/// The document that a `serde_json::Value` holds.
pub uninterp spec fn json_view(value: serde_json::Value) -> Json;

/// The document that `serde_json::from_str` decodes a text to; none where it
/// rejects the text.
pub uninterp spec fn json_parse(text: Seq<char>) -> Option<Json>;

/// Calls `serde_json::from_str` to decode a whole text as one JSON value. The
/// contract only names the outcome: the call succeeds on the texts that
/// `json_parse` maps to a document, and the value returned holds that
/// document.
#[verifier::external_body]
pub(crate) fn parse(text: &str) -> (result: Result<serde_json::Value, serde_json::Error>)
    ensures
        match result {
            Ok(value) => json_parse(text@) == Some(json_view(value)),
            Err(_) => json_parse(text@) is None,
        },
{
    serde_json::from_str::<serde_json::Value>(text)
}

/// Calls `serde_json::Value::get` with a string index: the value stored
/// under `key` where `value` is an object that has the key, nothing for an
/// object without the key and for every other kind of value.
#[verifier::external_body]
pub(crate) fn member<'a>(value: &'a serde_json::Value, key: &str) -> (result: Option<
    &'a serde_json::Value,
>)
    ensures
        match result {
            Some(found) => json_view(*value).member(key@) == Some(json_view(*found)),
            None => json_view(*value).member(key@) is None,
        },
{
    value.get(key)
}

/// Calls `serde_json::Value::as_str`: the characters of a JSON string,
/// nothing for every other kind of value.
#[verifier::external_body]
pub(crate) fn text<'a>(value: &'a serde_json::Value) -> (result: Option<&'a str>)
    ensures
        match result {
            Some(characters) => json_view(*value).text() == Some(characters@),
            None => json_view(*value).text() is None,
        },
{
    value.as_str()
}

} // verus!
