//! Validation of the format tag inside a document's JSON text.
//!
//! A payload is accepted when it parses as JSON and carries a string field
//! `format` whose value is exactly `flowmark`. Whether a given text parses,
//! and what string a given field of it holds, are functions of the text
//! alone, named [`json_wf`] and [`json_str_field`].

use vstd::prelude::*;
use vstd::string::StringExecFns;

use crate::errors::FlmError;

verus! {

/// Whether `text` parses as a JSON value: the outcome of
/// `serde_json::from_str`, a function of the text alone.
pub uninterp spec fn json_wf(text: Seq<char>) -> bool;

/// The string that field `key` of the JSON value parsed from `text` holds,
/// or `None` where the field is absent or not a string: the outcome of
/// `serde_json::Value::get` followed by `Value::as_str`, a function of the
/// text and the key alone. Meaningful only where [`json_wf`] holds of `text`.
pub uninterp spec fn json_str_field(text: Seq<char>, key: Seq<char>) -> Option<Seq<char>>;

/// The required key of the format tag.
pub open spec fn spec_format_key() -> Seq<char> {
    "format"@
}

/// The required value of the format tag.
pub open spec fn spec_format_value() -> Seq<char> {
    "flowmark"@
}

/// A payload text carries the format tag: it parses as JSON and its
/// `format` field is the string `flowmark`.
pub open spec fn tag_ok(text: Seq<char>) -> bool {
    json_wf(text) && json_str_field(text, spec_format_key()) == Some(spec_format_value())
}

/// The view of an optional string.
pub open spec fn opt_view(o: Option<String>) -> Option<Seq<char>> {
    match o {
        Some(s) => Some(s@),
        None => None,
    }
}

/// Parses `text` as JSON and returns the string under field `key`, `None`
/// where that field is absent or not a string, `Err` with the parser's own
/// text where `text` is not JSON.
///
/// Relies on `serde_json::from_str` (whose success on a given text is
/// [`json_wf`]), and on `serde_json::Value::get` and `Value::as_str` (whose
/// combined outcome is [`json_str_field`]).
#[verifier::external_body]
fn json_string_field(text: &str, key: &str) -> (r: Result<Option<String>, String>)
    ensures
        r is Ok <==> json_wf(text@),
        r matches Ok(f) ==> json_str_field(text@, key@) == opt_view(f),
{
    match serde_json::from_str::<serde_json::Value>(text) {
        Ok(v) => Ok(v.get(key).and_then(|f| f.as_str()).map(|s| s.to_string())),
        Err(e) => Err(format!("{}", e)),
    }
}

/// Checks that `text` carries the format tag, and says which of the two
/// schema failures holds otherwise: not JSON at all, or JSON whose `format`
/// field is missing or not the string `flowmark`.
pub fn check_format_tag(text: &str) -> (r: Result<(), FlmError>)
    ensures
        r is Ok <==> tag_ok(text@),
        r matches Err(e) ==> (match e {
            FlmError::NotJson(_) => !json_wf(text@),
            FlmError::WrongTag => json_wf(text@) && json_str_field(text@, spec_format_key())
                != Some(spec_format_value()),
            _ => false,
        }),
{
    match json_string_field(text, "format") {
        Err(cause) => Err(FlmError::NotJson(cause)),
        Ok(field) => match field {
            Some(tag) => {
                if tag == String::from_str("flowmark") {
                    Ok(())
                } else {
                    Err(FlmError::WrongTag)
                }
            },
            None => Err(FlmError::WrongTag),
        },
    }
}

} // verus!
