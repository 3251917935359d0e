//! Raw values as JSON text. Reading and writing the text is the work of
//! `serde_json`; this module hands it over and takes it back as `RawValue`.

use vstd::prelude::*;
use crate::raw::{RawModel, RawValue};

verus! {

/// A JSON value as `serde_json` holds it.
#[verifier::external_type_specification]
#[verifier::external_body]
pub struct ExJsonValue(serde_json::Value);

/// What `serde_json::from_str` makes of a text: the value that it reads, or
/// the message of its error.
pub uninterp spec fn parsed_json(text: Seq<char>) -> Result<RawModel, Seq<char>>;

/// What `serde_json::to_string_pretty` writes for a value, or the message of
/// its error.
pub uninterp spec fn rendered_json(value: RawModel) -> Result<Seq<char>, Seq<char>>;

/// Trusted: turns a value of `serde_json` into a raw value, variant by
/// variant. A number is `Unsigned` where `Number::as_u64` gives it, else
/// `Signed` where `Number::as_i64` gives it, else `Decimal` with the text
/// that `Number` prints.
#[verifier::external_body]
fn raw_from_json(value: &serde_json::Value) -> RawValue {
    match value {
        serde_json::Value::Null => RawValue::Null,
        serde_json::Value::Bool(b) => RawValue::Bool(*b),
        serde_json::Value::Number(n) => match (n.as_u64(), n.as_i64()) {
            (Some(u), _) => RawValue::Unsigned(u),
            (_, Some(i)) => RawValue::Signed(i),
            _ => RawValue::Decimal(n.to_string()),
        },
        serde_json::Value::String(s) => RawValue::Text(s.clone()),
        serde_json::Value::Array(items) => RawValue::Array(items.iter().map(raw_from_json).collect()),
        serde_json::Value::Object(map) => RawValue::Object(
            map.iter().map(|(k, v)| (k.clone(), raw_from_json(v))).collect(),
        ),
    }
}

/// Trusted: turns a raw value into a value of `serde_json`, variant by
/// variant. A `Decimal` whose text `serde_json` does not read as a number
/// becomes `Null`; of two members with one name the later one stays.
#[verifier::external_body]
fn json_from_raw(value: &RawValue) -> serde_json::Value {
    match value {
        RawValue::Null => serde_json::Value::Null,
        RawValue::Bool(b) => serde_json::Value::Bool(*b),
        RawValue::Unsigned(n) => serde_json::Value::from(*n),
        RawValue::Signed(n) => serde_json::Value::from(*n),
        RawValue::Decimal(text) => serde_json::from_str::<serde_json::Number>(text).map_or(
            serde_json::Value::Null,
            serde_json::Value::Number,
        ),
        RawValue::Text(s) => serde_json::Value::String(s.clone()),
        RawValue::Array(items) => serde_json::Value::Array(items.iter().map(json_from_raw).collect()),
        RawValue::Object(members) => serde_json::Value::Object(
            members.iter().map(|(k, v)| (k.clone(), json_from_raw(v))).collect(),
        ),
    }
}

/// Trusted: `serde_json::from_str`, reading a `serde_json::Value`. The result
/// depends on the text alone and is named `parsed_json`; an error is handed
/// on as its message.
#[verifier::external_body]
pub(crate) fn parse_json(text: &str) -> (r: Result<RawValue, String>)
    ensures
        match r {
            Ok(value) => parsed_json(text@) == Ok::<RawModel, Seq<char>>(value@),
            Err(message) => parsed_json(text@) == Err::<RawModel, Seq<char>>(message@),
        },
{
    match serde_json::from_str::<serde_json::Value>(text) {
        Ok(value) => Ok(raw_from_json(&value)),
        Err(e) => Err(e.to_string()),
    }
}

/// Trusted: `serde_json::to_string_pretty`, writing a `serde_json::Value`.
/// The result depends on the value alone and is named `rendered_json`; an
/// error is handed on as its message.
#[verifier::external_body]
pub(crate) fn render_json(value: &RawValue) -> (r: Result<String, String>)
    ensures
        match r {
            Ok(text) => rendered_json(value@) == Ok::<Seq<char>, Seq<char>>(text@),
            Err(message) => rendered_json(value@) == Err::<Seq<char>, Seq<char>>(message@),
        },
{
    match serde_json::to_string_pretty(&json_from_raw(value)) {
        Ok(text) => Ok(text),
        Err(e) => Err(e.to_string()),
    }
}

/// Reads a JSON text.
pub fn read_json(text: &str) -> (r: Result<RawValue, crate::errors::RalphError>)
    ensures
        match r {
            Ok(value) => parsed_json(text@) == Ok::<RawModel, Seq<char>>(value@),
            Err(e) => e matches crate::errors::RalphError::Parse(m) && parsed_json(text@) == Err::<
                RawModel,
                Seq<char>,
            >(m@),
        },
{
    match parse_json(text) {
        Ok(value) => Ok(value),
        Err(message) => Err(crate::errors::RalphError::Parse(message)),
    }
}

/// Writes a value as JSON text, indented.
pub fn write_json(value: &RawValue) -> (r: Result<String, crate::errors::RalphError>)
    ensures
        match r {
            Ok(text) => rendered_json(value@) == Ok::<Seq<char>, Seq<char>>(text@),
            Err(e) => e matches crate::errors::RalphError::Parse(m) && rendered_json(value@)
                == Err::<Seq<char>, Seq<char>>(m@),
        },
{
    match render_json(value) {
        Ok(text) => Ok(text),
        Err(message) => Err(crate::errors::RalphError::Parse(message)),
    }
}

} // verus!
