//! The JSON-like descriptor document, and the trusted boundary that
//! decodes descriptor text into it.
//!
//! A document keeps object fields in their decoded order; a number node
//! carries its unsigned-integer value when it has one, beside its exact
//! text, so that values the classification never interprets survive
//! unchanged.

use vstd::prelude::*;
use crate::RecipeLoadError;

verus! {

/// One decoded descriptor node.
#[derive(Debug, PartialEq, Eq)]
pub enum Document {
    Null,
    Bool(bool),
    Num { value: Option<u64>, text: String },
    Str(String),
    Arr(Vec<Document>),
    Obj(Vec<(String, Document)>),
}

/// What the descriptor text decodes to, when it is well-formed JSON.
pub uninterp spec fn parsed_document(s: Seq<char>) -> Option<Document>;

/// serde_json's decoded JSON tree, opaque here: it only passes through
/// the conversion below.
#[verifier::external_type_specification]
#[verifier::external_body]
pub struct ExValue(serde_json::Value);

/// Relies on serde_json::from_str::<serde_json::Value>: the decode is a
/// function of the text alone, and a malformed text yields an error.
#[verifier::external_body]
pub fn parse_document(raw: &str) -> (r: Result<Document, RecipeLoadError>)
    ensures
        match r {
            Ok(d) => parsed_document(raw@) == Some(d),
            Err(e) => parsed_document(raw@) is None && e == RecipeLoadError::Parse,
        },
{
    match serde_json::from_str::<serde_json::Value>(raw) {
        Ok(v) => Ok(document_of_value(v)),
        Err(_) => Err(RecipeLoadError::Parse),
    }
}

/// Relies on serde_json::Value: each JSON node moves one-for-one into the
/// document form, serde_json::Number::as_u64 supplying the unsigned value
/// and the number's Display form its exact text.
#[verifier::external_body]
fn document_of_value(v: serde_json::Value) -> Document {
    match v {
        serde_json::Value::Null => Document::Null,
        serde_json::Value::Bool(b) => Document::Bool(b),
        serde_json::Value::Number(n) => Document::Num { value: n.as_u64(), text: n.to_string() },
        serde_json::Value::String(s) => Document::Str(s),
        serde_json::Value::Array(a) => Document::Arr(
            a.into_iter().map(document_of_value).collect(),
        ),
        serde_json::Value::Object(o) => Document::Obj(
            o.into_iter().map(|(k, val)| (k, document_of_value(val))).collect(),
        ),
    }
}

} // verus!
