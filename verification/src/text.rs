//! JSON text: reading it into a [`Json`] value and writing it from one, and
//! with that the coded values and the records as they stand in a document.
//!
//! The JSON grammar is not this library's: the text is read and written by
//! `serde_json`. What a text denotes and how a value is written are therefore
//! named here, not defined. Everything between the text and the typed values
//! is this library's own, and is stated in full on [`Json`] values.

use crate::coded::{
    decode_json, decode_list, encode_json, encode_list, value_rule, values_rule, wires_of, Coded,
};
use crate::error::{DecodeError, DecodeErrorView};
use crate::json::{Json, JsonView, Member};
use crate::record::{from_json, record_rule, to_json, Record};
use vstd::prelude::*;

verus! {

/// `serde_json::Value`, of which nothing is seen here but through the
/// functions below.
#[verifier::external_type_specification]
#[verifier::external_body]
pub struct ExValue(serde_json::Value);

/// `serde_json::Error`, of which nothing is seen here: a text that is refused
/// is refused as a whole.
#[verifier::external_type_specification]
#[verifier::external_body]
pub struct ExError(serde_json::Error);

/// The value that a JSON text denotes, and `None` for a text that
/// `serde_json` does not read: one that is no JSON document, or one that is
/// nested deeper than it follows.
pub uninterp spec fn document(text: Seq<char>) -> Option<JsonView>;

/// What a `serde_json::Value` holds.
pub uninterp spec fn content(value: serde_json::Value) -> JsonView;

/// What a value is once `serde_json` holds it. An object there has each name
/// once, and a number in decimal notation is held as the number that it
/// denotes.
pub uninterp spec fn normal(j: JsonView) -> JsonView;

/// The compact JSON text of a value that `serde_json` holds, and `None` where
/// it writes none.
pub uninterp spec fn notation(j: JsonView) -> Option<Seq<char>>;

/// The JSON text that a value is written as.
pub open spec fn printed(j: JsonView) -> Option<Seq<char>> {
    notation(normal(j))
}

/// `serde_json::from_str` at `serde_json::Value`: it succeeds on the texts
/// that it reads as JSON documents, and then gives a value that holds what
/// the text denotes. The same text is always read as the same.
#[verifier::external_body]
fn read_value(text: &str) -> (r: Result<serde_json::Value, serde_json::Error>)
    ensures
        r is Ok <==> document(text@) is Some,
        r matches Ok(value) ==> document(text@) == Some(content(value)),
{
    serde_json::from_str::<serde_json::Value>(text)
}

/// Takes a `serde_json::Value` apart, variant by variant, into a [`Json`]
/// that holds the same. A number that `serde_json::Number::as_i64` gives as
/// an integer becomes an `Integer`, any other a `Decimal` in the notation
/// that `serde_json` prints it in.
#[verifier::external_body]
fn json_of_value(value: serde_json::Value) -> (j: Json)
    ensures
        j@ == content(value),
{
    match value {
        serde_json::Value::Null => Json::Null,
        serde_json::Value::Bool(b) => Json::Bool(b),
        serde_json::Value::Number(n) => match n.as_i64() {
            Some(i) => Json::Integer(i),
            None => Json::Decimal(n.to_string()),
        },
        serde_json::Value::String(s) => Json::Text(s),
        serde_json::Value::Array(list) => Json::Array(list.into_iter().map(json_of_value).collect()),
        serde_json::Value::Object(map) => Json::Object(
            map.into_iter().map(|(name, v)| Member { name, value: json_of_value(v) }).collect(),
        ),
    }
}

/// Builds the `serde_json::Value` of a [`Json`], variant by variant. A
/// `Decimal` is read as a `serde_json::Number`, and is `null` where it is no
/// number.
#[verifier::external_body]
fn value_of_json(j: &Json) -> (value: serde_json::Value)
    ensures
        content(value) == normal(j@),
{
    match j {
        Json::Null => serde_json::Value::Null,
        Json::Bool(b) => serde_json::Value::Bool(*b),
        Json::Integer(n) => serde_json::Value::from(*n),
        Json::Decimal(s) => serde_json::from_str::<serde_json::Number>(s).map_or(
            serde_json::Value::Null,
            serde_json::Value::Number,
        ),
        Json::Text(s) => serde_json::Value::String(s.clone()),
        Json::Array(items) => serde_json::Value::Array(items.iter().map(value_of_json).collect()),
        Json::Object(members) => serde_json::Value::Object(
            members.iter().map(|m| (m.name.clone(), value_of_json(&m.value))).collect(),
        ),
    }
}

/// `serde_json::to_string` at `serde_json::Value`: the compact JSON text of
/// what the value holds. Values that hold the same are written as the same
/// text.
#[verifier::external_body]
fn write_value(value: &serde_json::Value) -> (r: Result<String, serde_json::Error>)
    ensures
        r is Ok <==> notation(content(*value)) is Some,
        r matches Ok(text) ==> notation(content(*value)) == Some(text@),
{
    serde_json::to_string(value)
}

/// Reads a JSON text. `None` where the text is not read as a JSON document.
pub fn parse(text: &str) -> (r: Option<Json>)
    ensures
        r is Some <==> document(text@) is Some,
        r matches Some(j) ==> document(text@) == Some(j@),
{
    match read_value(text) {
        Ok(value) => Some(json_of_value(value)),
        Err(_) => None,
    }
}

/// Writes a value as compact JSON text.
pub fn print(j: &Json) -> (r: Option<String>)
    ensures
        r is Some <==> printed(j@) is Some,
        r matches Some(text) ==> printed(j@) == Some(text@),
{
    let value = value_of_json(j);
    match write_value(&value) {
        Ok(text) => Some(text),
        Err(_) => None,
    }
}

/// Why a text was refused.
#[derive(Debug, Clone, PartialEq, Eq)]
pub enum TextError {
    /// The text is not read as a JSON document.
    Syntax,
    /// The document does not hold what was to be read from it.
    Invalid(DecodeError),
}

/// The mathematical value of a [`TextError`].
pub enum TextErrorView {
    Syntax,
    Invalid(DecodeErrorView),
}

impl View for TextError {
    type V = TextErrorView;

    open spec fn view(&self) -> TextErrorView {
        match self {
            TextError::Syntax => TextErrorView::Syntax,
            TextError::Invalid(e) => TextErrorView::Invalid(e@),
        }
    }
}

/// What is read from a text: the document that the text denotes, read by a
/// rule.
pub open spec fn read_with<A>(
    text: Seq<char>,
    rule: spec_fn(JsonView) -> Result<A, DecodeErrorView>,
) -> Result<A, TextErrorView> {
    match document(text) {
        None => Err(TextErrorView::Syntax),
        Some(j) => match rule(j) {
            Ok(v) => Ok(v),
            Err(e) => Err(TextErrorView::Invalid(e)),
        },
    }
}

/// Reads a coded value from a JSON text that holds its wire integer.
pub fn read_coded<T: Coded>(text: &str) -> (r: Result<T, TextError>)
    ensures
        match r {
            Ok(v) => read_with(text@, value_rule::<T>()) == Ok::<T, TextErrorView>(v),
            Err(e) => read_with(text@, value_rule::<T>()) == Err::<T, TextErrorView>(e@),
        },
{
    match parse(text) {
        None => Err(TextError::Syntax),
        Some(j) => match decode_json::<T>(&j) {
            Ok(v) => Ok(v),
            Err(e) => Err(TextError::Invalid(e)),
        },
    }
}

/// Reads a list of coded values from a JSON text that holds an array of wire
/// integers.
pub fn read_coded_list<T: Coded>(text: &str) -> (r: Result<Vec<T>, TextError>)
    ensures
        match r {
            Ok(v) => read_with(text@, values_rule::<T>()) == Ok::<Seq<T>, TextErrorView>(v@),
            Err(e) => read_with(text@, values_rule::<T>()) == Err::<Seq<T>, TextErrorView>(e@),
        },
{
    match parse(text) {
        None => Err(TextError::Syntax),
        Some(j) => match decode_list::<T>(&j) {
            Ok(v) => Ok(v),
            Err(e) => Err(TextError::Invalid(e)),
        },
    }
}

/// Reads a record from a JSON text that holds its object.
pub fn read_record<R: Record>(text: &str) -> (r: Result<R, TextError>)
    ensures
        match r {
            Ok(v) => read_with(text@, record_rule::<R>()) == Ok::<R::V, TextErrorView>(
                v.deep_view(),
            ),
            Err(e) => read_with(text@, record_rule::<R>()) == Err::<R::V, TextErrorView>(e@),
        },
{
    match parse(text) {
        None => Err(TextError::Syntax),
        Some(j) => match from_json::<R>(&j) {
            Ok(v) => Ok(v),
            Err(e) => Err(TextError::Invalid(e)),
        },
    }
}

/// Writes a coded value as the JSON text of its wire integer.
pub fn write_coded<T: Coded>(value: &T) -> (r: Option<String>)
    ensures
        r is Some <==> printed(JsonView::Integer(value.encoded())) is Some,
        r matches Some(text) ==> printed(JsonView::Integer(value.encoded())) == Some(text@),
{
    print(&encode_json(value))
}

/// Writes a list of coded values as the JSON text of the array of their wire
/// integers.
pub fn write_coded_list<T: Coded>(values: &Vec<T>) -> (r: Option<String>)
    ensures
        r is Some <==> printed(JsonView::Array(wires_of::<T>(values@))) is Some,
        r matches Some(text) ==> printed(JsonView::Array(wires_of::<T>(values@))) == Some(text@),
{
    print(&encode_list(values))
}

/// Writes a record as the JSON text of its object.
pub fn write_record<R: Record>(record: &R) -> (r: Option<String>)
    ensures
        r is Some <==> printed(JsonView::Object(R::encoded(record.deep_view()))) is Some,
        r matches Some(text) ==> printed(JsonView::Object(R::encoded(record.deep_view())))
            == Some(text@),
{
    print(&to_json(record))
}

} // verus!
