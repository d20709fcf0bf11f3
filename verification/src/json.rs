//! The crate's only window onto serde_json, the parser behind the trigger
//! channel's structured payloads. Each probe's verdict depends on the text
//! (and key) alone, so it is given a name that contracts can speak of: the
//! classifier's result is thereby a fixed function of the raw message.
//! Everything decided from the probes is verified code in `classifier`.

use vstd::prelude::*;

use crate::classifier::{EstimateProbe, FieldProbe};

verus! {

#[verifier::external_type_specification]
#[verifier::external_body]
pub struct ExValue(serde_json::Value);

/// Whether `s` is a syntactically valid JSON document, exactly as
/// serde_json's parser decides it.
pub uninterp spec fn json_syntax_ok(s: Seq<char>) -> bool;

/// Relies on serde_json::from_str at type Value: a Value accepts every JSON
/// document, so the call succeeds exactly when the text parses as JSON, and
/// every failure is a syntax (or end-of-input) error, never a data error.
#[verifier::external_body]
pub(crate) fn is_valid_json(s: &str) -> (r: bool)
    ensures
        r == json_syntax_ok(s@),
{
    serde_json::from_str::<serde_json::Value>(s).is_ok()
}

/// Whether the document parses as JSON whose top level is an object.
pub uninterp spec fn is_object_doc(doc: Seq<char>) -> bool;

/// Relies on serde_json::from_str::<Value> and Value::is_object: true
/// exactly when the text parses as JSON and the document is an object.
#[verifier::external_body]
pub(crate) fn probe_is_object(doc: &str) -> (r: bool)
    ensures
        r == is_object_doc(doc@),
{
    match serde_json::from_str::<serde_json::Value>(doc) {
        Ok(v) => v.is_object(),
        Err(_) => false,
    }
}

/// What the document's object holds under `key`, read as an unsigned
/// integer: `Missing` when the document does not parse, is no object or
/// lacks the key; `Uint(n)` for a non-negative integer number that fits in
/// u64; `WrongType` for anything else under the key.
pub uninterp spec fn uint_probe_of(doc: Seq<char>, key: Seq<char>) -> FieldProbe;

/// Relies on serde_json::from_str::<Value>, Value::get and Value::as_u64,
/// whose verdicts depend on the text and key alone: `get` returns the
/// object's field under the key (None when absent or not an object), and
/// `as_u64` reads exactly a non-negative integer number fitting u64.
#[verifier::external_body]
pub(crate) fn probe_uint(doc: &str, key: &str) -> (r: FieldProbe)
    ensures
        r == uint_probe_of(doc@, key@),
{
    match serde_json::from_str::<serde_json::Value>(doc) {
        Ok(v) => match v.get(key) {
            Some(field) => match field.as_u64() {
                Some(n) => FieldProbe::Uint(n),
                None => FieldProbe::WrongType,
            },
            None => FieldProbe::Missing,
        },
        Err(_) => FieldProbe::Missing,
    }
}

/// What the document's object holds under `key`, read as a number:
/// `Absent` when the document does not parse, is no object or lacks the
/// key; `Numeric` for any JSON number; `NotNumeric` for anything else.
pub uninterp spec fn estimate_probe_of(doc: Seq<char>, key: Seq<char>) -> EstimateProbe;

/// Relies on serde_json::from_str::<Value>, Value::get and
/// Value::is_number, whose verdicts depend on the text and key alone:
/// `is_number` is true exactly for a JSON number.
#[verifier::external_body]
pub(crate) fn probe_estimate(doc: &str, key: &str) -> (r: EstimateProbe)
    ensures
        r == estimate_probe_of(doc@, key@),
{
    match serde_json::from_str::<serde_json::Value>(doc) {
        Ok(v) => match v.get(key) {
            Some(field) => {
                if field.is_number() {
                    EstimateProbe::Numeric
                } else {
                    EstimateProbe::NotNumeric
                }
            },
            None => EstimateProbe::Absent,
        },
        Err(_) => EstimateProbe::Absent,
    }
}

/// Relies on serde_json::Value::get with a string key: the field of an
/// object under that key, or None when absent or not an object.
#[verifier::external_body]
pub(crate) fn value_get_field<'a>(
    v: &'a serde_json::Value,
    key: &str,
) -> Option<&'a serde_json::Value> {
    v.get(key)
}

/// Relies on serde_json::Value::as_i64: Some exactly for an integer number
/// that fits in i64.
#[verifier::external_body]
pub(crate) fn value_as_i64(v: &serde_json::Value) -> Option<i64> {
    v.as_i64()
}

} // verus!
