//! Reading and writing JSON text, by `serde_json`.
//!
//! The documents go in and out of `serde_json` here and nowhere else. What
//! `serde_json` reads from a text, and what it writes for a document, is not
//! restated: each has a name, and the contracts speak of the names.

use crate::json::{Json, JsonNumber, JsonValue};
use vstd::prelude::*;

verus! {

/// `serde_json::Error`: why a text is no JSON. It is carried as it is.
#[verifier::external_type_specification]
#[verifier::external_body]
pub struct ExJsonError(serde_json::Error);

/// `serde_json::Value`: a document as `serde_json` holds it.
#[verifier::external_type_specification]
#[verifier::external_body]
pub struct ExJsonTree(serde_json::Value);

/// `serde_json::Number`: a number as `serde_json` holds it.
#[verifier::external_type_specification]
#[verifier::external_body]
pub struct ExJsonNumeral(serde_json::Number);

/// The document that `serde_json::from_str` reads from `text` as a
/// `serde_json::Value`, moved into the model; `None` where it reports an
/// error.
pub uninterp spec fn parsed(text: Seq<char>) -> Option<JsonValue>;

/// The document that `serde_json::from_slice` reads from `bytes` as a
/// `serde_json::Value`, moved into the model; `None` where it reports an
/// error.
pub uninterp spec fn parsed_bytes(bytes: Seq<u8>) -> Option<JsonValue>;

/// The compact text that `serde_json` writes for the `serde_json::Value`
/// into which a document is moved.
pub uninterp spec fn rendered(doc: JsonValue) -> Seq<char>;

/// Moves a `serde_json::Number` into the model: the unsigned integer of
/// `as_u64`, else the signed one of `as_i64`, else its decimal text.
#[verifier::external_body]
fn number_from(n: serde_json::Number) -> (r: JsonNumber) {
    match (n.as_u64(), n.as_i64()) {
        (Some(u), _) => JsonNumber::PosInt(u),
        (None, Some(i)) => JsonNumber::NegInt(i),
        (None, None) => JsonNumber::Real(n.to_string()),
    }
}

/// Moves a `serde_json::Value` into the model, variant by variant; the
/// members of an object come in the order in which its map hands them out.
#[verifier::external_body]
fn from_tree(v: serde_json::Value) -> (r: Json) {
    match v {
        serde_json::Value::Null => Json::Null,
        serde_json::Value::Bool(b) => Json::Bool(b),
        serde_json::Value::Number(n) => Json::Number(number_from(n)),
        serde_json::Value::String(s) => Json::String(s),
        serde_json::Value::Array(a) => Json::Array(a.into_iter().map(from_tree).collect()),
        serde_json::Value::Object(m) => Json::Object(
            m.into_iter().map(|(k, v)| (k, from_tree(v))).collect(),
        ),
    }
}

/// Moves a number of the model into a `serde_json::Value`; a decimal text
/// that `serde_json` does not read as a number becomes `null`.
#[verifier::external_body]
fn number_to(n: &JsonNumber) -> (r: serde_json::Value) {
    match n {
        JsonNumber::PosInt(u) => serde_json::Value::from(*u),
        JsonNumber::NegInt(i) => serde_json::Value::from(*i),
        JsonNumber::Real(t) => t.parse::<serde_json::Number>().map_or(
            serde_json::Value::Null,
            serde_json::Value::Number,
        ),
    }
}

/// Moves a document of the model into a `serde_json::Value`, variant by
/// variant; the members of an object are inserted in their order.
#[verifier::external_body]
fn to_tree(doc: &Json) -> (r: serde_json::Value) {
    match doc {
        Json::Null => serde_json::Value::Null,
        Json::Bool(b) => serde_json::Value::Bool(*b),
        Json::Number(n) => number_to(n),
        Json::String(s) => serde_json::Value::String(s.clone()),
        Json::Array(a) => serde_json::Value::Array(a.iter().map(to_tree).collect()),
        Json::Object(m) => serde_json::Value::Object(
            m.iter().map(|(k, v)| (k.clone(), to_tree(v))).collect(),
        ),
    }
}

/// `serde_json::from_str`, reading a `serde_json::Value`, which is moved
/// into the model: the result is the document named by [`parsed`], and an
/// error exactly where there is none.
#[verifier::external_body]
pub(crate) fn read_text(text: &str) -> (r: Result<Json, serde_json::Error>)
    ensures
        match r {
            Ok(doc) => parsed(text@) == Some(doc@),
            Err(_) => parsed(text@) is None,
        },
{
    serde_json::from_str::<serde_json::Value>(text).map(from_tree)
}

/// `serde_json::from_slice`, reading a `serde_json::Value`, which is moved
/// into the model: the result is the document named by [`parsed_bytes`],
/// and an error exactly where there is none.
#[verifier::external_body]
pub(crate) fn read_bytes(bytes: &[u8]) -> (r: Result<Json, serde_json::Error>)
    ensures
        match r {
            Ok(doc) => parsed_bytes(bytes@) == Some(doc@),
            Err(_) => parsed_bytes(bytes@) is None,
        },
{
    serde_json::from_slice::<serde_json::Value>(bytes).map(from_tree)
}

/// `ToString::to_string` of the `serde_json::Value` into which the document
/// is moved: the compact text named by [`rendered`].
#[verifier::external_body]
pub(crate) fn write_text(doc: &Json) -> (r: String)
    ensures
        r@ == rendered(doc@),
{
    to_tree(doc).to_string()
}

/// The text of a document.
pub fn render(doc: &Json) -> (r: String)
    ensures
        r@ == rendered(doc@),
{
    write_text(doc)
}

/// Reads a document from a text; `None` where the text is not JSON.
pub fn parse(text: &str) -> (r: Option<Json>)
    ensures
        match r {
            Some(doc) => parsed(text@) == Some(doc@),
            None => parsed(text@) is None,
        },
{
    match read_text(text) {
        Ok(doc) => Some(doc),
        Err(_) => None,
    }
}

} // verus!
