//! The decoded documents, reduced to plain values: the shape of one
//! recognized field, and the claims returned to the caller.

use serde_json::Value;
use vstd::prelude::*;

verus! {

/// The shape of one top-level field of a decoded document: absent, a
/// text value, an integer value, a sequence (text entries kept, any
/// other entry recorded as `None`), or a value of any other shape.
#[derive(Debug, PartialEq)]
pub enum FieldValue {
    Absent,
    Text(String),
    Int(i64),
    List(Vec<Option<String>>),
    Other,
}

/// Spec-level counterpart of `FieldValue`.
pub enum SpecField {
    Absent,
    Text(Seq<char>),
    Int(int),
    List(Seq<Option<Seq<char>>>),
    Other,
}

impl View for FieldValue {
    type V = SpecField;

    open spec fn view(&self) -> SpecField {
        match self {
            FieldValue::Absent => SpecField::Absent,
            FieldValue::Text(s) => SpecField::Text(s@),
            FieldValue::Int(n) => SpecField::Int(*n as int),
            FieldValue::List(items) => SpecField::List(
                items@.map(
                    |i: int, e: Option<String>|
                        match e {
                            Some(s) => Some(s@),
                            None => None,
                        },
                ),
            ),
            FieldValue::Other => SpecField::Other,
        }
    }
}

/// What a document parser reads for `key` in document `doc`: `None`
/// when `doc` is not a valid document, otherwise the classified shape
/// of the top-level field `key`. A function of `doc` and `key` alone.
pub uninterp spec fn spec_json_field(doc: Seq<u8>, key: Seq<char>) -> Option<SpecField>;

/// The view of a classification result, for contracts.
pub open spec fn field_result_view(r: &Option<FieldValue>) -> Option<SpecField> {
    match r {
        Some(f) => Some(f@),
        None => None,
    }
}

/// Relies on serde_json (`from_slice`, `Value::get` and the `Value`
/// accessors): parses `doc` as a JSON document and classifies the shape
/// of its top-level field `key`. serde_json is deterministic, so the
/// result depends on `doc` and `key` alone; `None` comes exactly when
/// `doc` is not valid JSON (invalid UTF-8 included).
#[verifier::external_body]
pub(crate) fn json_field(doc: &[u8], key: &str) -> (r: Option<FieldValue>)
    ensures
        field_result_view(&r) == spec_json_field(doc@, key@),
{
    let v: Value = match serde_json::from_slice(doc) {
        Ok(v) => v,
        Err(_) => return None,
    };
    Some(match v.get(key) {
        None => FieldValue::Absent,
        Some(Value::String(s)) => FieldValue::Text(s.clone()),
        Some(Value::Number(n)) => n.as_i64().map_or(FieldValue::Other, FieldValue::Int),
        Some(Value::Array(a)) => FieldValue::List(
            a.iter().map(|e| e.as_str().map(str::to_string)).collect(),
        ),
        Some(_) => FieldValue::Other,
    })
}

/// The claims of an accepted token, as handed back to the caller.
#[derive(Debug, PartialEq)]
pub struct Claims {
    /// Expiration in seconds since the epoch; 0 when the payload
    /// carries no integer `exp` field.
    pub exp: i64,
    /// The `iss` field, when present as text.
    pub iss: Option<String>,
    /// The `aud` field, in the shape the payload carries.
    pub aud: FieldValue,
}

/// Spec-level counterpart of `Claims`.
pub struct SpecClaims {
    pub exp: int,
    pub iss: Option<Seq<char>>,
    pub aud: SpecField,
}

impl View for Claims {
    type V = SpecClaims;

    open spec fn view(&self) -> SpecClaims {
        SpecClaims {
            exp: self.exp as int,
            iss: match &self.iss {
                Some(s) => Some(s@),
                None => None,
            },
            aud: self.aud@,
        }
    }
}

/// The expiration a payload field stands for: the integer value when
/// the field is an integer, otherwise the sentinel 0 (no expiration).
pub open spec fn spec_exp(f: SpecField) -> int {
    match f {
        SpecField::Int(n) => n,
        _ => 0,
    }
}

/// The issuer a payload field stands for: its text when the field is
/// text, otherwise no issuer.
pub open spec fn spec_iss(f: SpecField) -> Option<Seq<char>> {
    match f {
        SpecField::Text(s) => Some(s),
        _ => None,
    }
}

} // verus!
