//! JSON documents, read with `serde_json`.
//!
//! The parser and the accessors of `serde_json::Value` are used as they are.
//! What they are taken to do is stated here over [`Json`], a mathematical
//! picture of a document; none of those statements is proved.

use vstd::prelude::*;

verus! {

/// A JSON document as a mathematical value.
pub enum Json {
    Null,
    Bool(bool),
    /// A number that was written as an integer.
    Integer(int),
    /// Any other number; its value is not kept.
    Fraction,
    Text(Seq<char>),
    Array(Seq<Json>),
    Object(Map<Seq<char>, Json>),
}

impl Json {
    /// The value under `key`, where this is an object that has the key.
    pub open spec fn member(self, key: Seq<char>) -> Option<Json> {
        match self {
            Json::Object(fields) => if fields.contains_key(key) {
                Some(fields[key])
            } else {
                None
            },
            _ => None,
        }
    }

    /// The characters of a JSON string.
    pub open spec fn text(self) -> Option<Seq<char>> {
        match self {
            Json::Text(chars) => Some(chars),
            _ => None,
        }
    }

    /// The value of an integer that fits in sixty-four signed bits.
    pub open spec fn int64(self) -> Option<i64> {
        match self {
            Json::Integer(i) => if i64::MIN <= i <= i64::MAX {
                Some(i as i64)
            } else {
                None
            },
            _ => None,
        }
    }
}

/// Why a text was not read as the expected document.
#[derive(Debug, Clone, Copy, PartialEq, Eq, Structural)]
pub enum Failure {
    /// Bytes could not be read or written.
    Io,
    /// The text is not JSON.
    Syntax,
    /// The text is JSON of another shape than was asked for.
    Data,
    /// The text ends too early.
    Eof,
}

/// `serde_json::Value`, a parsed document.
#[verifier::external_type_specification]
#[verifier::external_body]
pub struct ExValue(serde_json::Value);

/// `serde_json::Error`, the parser's error.
#[verifier::external_type_specification]
#[verifier::external_body]
pub struct ExError(serde_json::Error);

/// The document that a `serde_json::Value` holds.
pub uninterp spec fn json_of(value: serde_json::Value) -> Json;

/// The category that `serde_json::Error::classify` gives an error.
pub uninterp spec fn failure_of(error: serde_json::Error) -> Failure;

/// What `serde_json::from_str` makes of a text when it is asked for a list of
/// values: the elements of the top-level array, or the category of its error.
pub uninterp spec fn array_of_text(text: Seq<char>) -> Result<Seq<Json>, Failure>;

/// The documents that a list of values holds, in order.
pub open spec fn documents(values: Seq<serde_json::Value>) -> Seq<Json> {
    Seq::new(values.len(), |i: int| json_of(values[i]))
}

/// Calls `serde_json::from_str` for a `Vec<serde_json::Value>`. The result is
/// taken to depend on the text alone: the same text gives the same elements,
/// or an error of the same category.
#[verifier::external_body]
pub(crate) fn parse_array(text: &str) -> (parsed: Result<Vec<serde_json::Value>, serde_json::Error>)
    ensures
        match parsed {
            Ok(values) => array_of_text(text@) == Ok::<Seq<Json>, Failure>(documents(values@)),
            Err(error) => array_of_text(text@) == Err::<Seq<Json>, Failure>(failure_of(error)),
        },
{
    serde_json::from_str::<Vec<serde_json::Value>>(text)
}

/// Calls `serde_json::Error::classify` and names the category it returns.
#[verifier::external_body]
pub(crate) fn classify(error: &serde_json::Error) -> (failure: Failure)
    ensures
        failure == failure_of(*error),
{
    match error.classify() {
        serde_json::error::Category::Io => Failure::Io,
        serde_json::error::Category::Syntax => Failure::Syntax,
        serde_json::error::Category::Data => Failure::Data,
        serde_json::error::Category::Eof => Failure::Eof,
    }
}

/// Calls `serde_json::Value::get` with a string index: the value under `key`
/// where `value` is an object that has the key, and nothing otherwise.
#[verifier::external_body]
pub(crate) fn member<'a>(value: &'a serde_json::Value, key: &str) -> (found: Option<
    &'a serde_json::Value,
>)
    ensures
        match found {
            Some(inner) => json_of(*value).member(key@) == Some(json_of(*inner)),
            None => json_of(*value).member(key@) is None,
        },
{
    value.get(key)
}

/// `serde_json::Value::as_str`: the characters of a JSON string, and nothing
/// for any other value.
pub assume_specification<'a>[ serde_json::Value::as_str ](value: &'a serde_json::Value) -> (text:
    Option<&'a str>)
    ensures
        match text {
            Some(chars) => json_of(*value).text() == Some(chars@),
            None => json_of(*value).text() is None,
        },
;

/// `serde_json::Value::as_i64`: the value of an integer that fits in an `i64`,
/// and nothing for any other value.
pub assume_specification[ serde_json::Value::as_i64 ](value: &serde_json::Value) -> (number: Option<
    i64,
>)
    ensures
        number == json_of(*value).int64(),
;

} // verus!
