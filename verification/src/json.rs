//! JSON documents as `serde_json` holds them, and what this crate reads of them.

use serde_json::Value;
use vstd::prelude::*;

verus! {

/// The mathematical shape of a JSON value.
pub enum Json {
    Null,
    Bool(bool),
    /// A number; `unsigned` holds its value where `serde_json` keeps it as a
    /// whole number from 0 to `u64::MAX`.
    Number { unsigned: Option<u64> },
    Text(Seq<char>),
    Array(Seq<Json>),
    Object(Map<Seq<char>, Json>),
}

impl Json {
    /// The member called `key`, or `Null` where `self` is no object or has no
    /// such member.
    pub open spec fn member(self, key: Seq<char>) -> Json {
        match self {
            Json::Object(members) if members.dom().contains(key) => members[key],
            _ => Json::Null,
        }
    }

    /// The text of a JSON string.
    pub open spec fn text(self) -> Option<Seq<char>> {
        match self {
            Json::Text(text) => Some(text),
            _ => None,
        }
    }

    /// The elements of a JSON array.
    pub open spec fn elements(self) -> Option<Seq<Json>> {
        match self {
            Json::Array(elements) => Some(elements),
            _ => None,
        }
    }

    /// The value of a number kept as a whole number from 0 to `u64::MAX`.
    pub open spec fn unsigned(self) -> Option<u64> {
        match self {
            Json::Number { unsigned } => unsigned,
            _ => None,
        }
    }
}

/// `serde_json::Value`, of which the verifier sees nothing but `shape_of`.
#[verifier::external_type_specification]
#[verifier::external_body]
pub struct ExValue(Value);

/// `serde_json::Error`, of which the verifier sees nothing.
#[verifier::external_type_specification]
#[verifier::external_body]
pub struct ExJsonError(serde_json::Error);

/// The shape of the JSON value that `value` holds.
pub uninterp spec fn shape_of(value: Value) -> Json;

/// The shape of the document that `text` spells, or `None` where `text` is not
/// one JSON value that `serde_json` accepts.
pub uninterp spec fn document_shape(text: Seq<char>) -> Option<Json>;

/// `serde_json::from_str`, read as a `Value`.
///
/// Trusted: it succeeds exactly on the texts that spell a document, and the
/// value it hands back has that document's shape.
#[verifier::external_body]
pub(crate) fn parse_document(text: &str) -> (parsed: Result<Value, serde_json::Error>)
    ensures
        parsed is Ok <==> document_shape(text@) is Some,
        parsed matches Ok(value) ==> document_shape(text@) == Some(shape_of(value)),
{
    serde_json::from_str::<Value>(text)
}

/// Indexing a `Value` by a key, `value[key]`: `serde_json`'s `Index<&str>` for
/// `Value`.
///
/// Trusted: the result is the member of that name, and a null value where
/// `value` is no object or has no such member.
#[verifier::external_body]
pub(crate) fn member<'a>(value: &'a Value, key: &str) -> (found: &'a Value)
    ensures
        shape_of(*found) == shape_of(*value).member(key@),
{
    &value[key]
}

/// `Value::is_null`.
///
/// Trusted: the result tells whether `value` is the JSON null.
#[verifier::external_body]
pub(crate) fn is_null(value: &Value) -> (null: bool)
    ensures
        null == (shape_of(*value) is Null),
{
    value.is_null()
}

/// `Value::as_str`.
///
/// Trusted: the result is the text of a JSON string, and `None` for any other
/// value.
#[verifier::external_body]
pub(crate) fn as_text<'a>(value: &'a Value) -> (text: Option<&'a str>)
    ensures
        text is Some <==> shape_of(*value).text() is Some,
        text matches Some(t) ==> shape_of(*value).text() == Some(t@),
{
    value.as_str()
}

/// `Value::as_array`.
///
/// Trusted: the result holds the elements of a JSON array in their order, and
/// is `None` for any other value.
#[verifier::external_body]
pub(crate) fn as_elements<'a>(value: &'a Value) -> (elements: Option<&'a Vec<Value>>)
    ensures
        elements is Some <==> shape_of(*value).elements() is Some,
        elements matches Some(held) ==> shape_of(*value).elements() == Some(
            held@.map_values(|element: Value| shape_of(element)),
        ),
{
    value.as_array()
}

/// `Value::as_u64`.
///
/// Trusted: the result is the value of a number kept as a whole number from 0
/// to `u64::MAX`, and `None` for any other value.
#[verifier::external_body]
pub(crate) fn as_unsigned(value: &Value) -> (number: Option<u64>)
    ensures
        number == shape_of(*value).unsigned(),
{
    value.as_u64()
}

} // verus!
