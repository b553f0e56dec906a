//! The body formatter: a body that is JSON is shown with indentation, any
//! other body as it came. Formatting never fails.
//!
//! Parsing and printing are the work of `serde_json`. What they return is a
//! function of their argument alone, and long to state, so each result has a
//! name here; the two functions that make the calls are not proved.

use serde_json::Value;
use vstd::prelude::*;

verus! {

/// `serde_json::Value`: a parsed JSON value.
#[verifier::external_type_specification]
#[verifier::external_body]
pub struct ExJsonValue(Value);

/// `serde_json::Error`: why parsing or printing failed.
#[verifier::external_type_specification]
#[verifier::external_body]
pub struct ExJsonError(serde_json::Error);

/// The value that `serde_json::from_str` parses the text to; `None` where it
/// returns an error.
pub uninterp spec fn json_parse(text: Seq<char>) -> Option<Value>;

/// The text that `serde_json::to_string_pretty` prints the value as; `None`
/// where it returns an error.
pub uninterp spec fn json_pretty(value: Value) -> Option<Seq<char>>;

/// `serde_json::from_str` for a `Value`.
#[verifier::external_body]
pub(crate) fn json_from_str(text: &str) -> (r: Result<Value, serde_json::Error>)
    ensures
        match r {
            Ok(value) => json_parse(text@) == Some(value),
            Err(_) => json_parse(text@) is None,
        },
{
    serde_json::from_str::<Value>(text)
}

/// `serde_json::to_string_pretty` for a `Value` that the parser gave. (The
/// parser bounds the depth of a value, and so the depth of the printer's
/// recursion.)
#[verifier::external_body]
pub(crate) fn json_to_string_pretty(value: &Value) -> (r: Result<String, serde_json::Error>)
    requires
        exists|text: Seq<char>| #[trigger] json_parse(text) == Some(*value),
    ensures
        match r {
            Ok(printed) => json_pretty(*value) == Some(printed@),
            Err(_) => json_pretty(*value) is None,
        },
{
    serde_json::to_string_pretty(value)
}

/// The body as it is shown, given what came of printing it as JSON: the
/// printed text where there is one, else the raw body.
pub open spec fn shown_body(raw: Seq<char>, printed: Option<Seq<char>>) -> Seq<char> {
    match printed {
        Some(text) => text,
        None => raw,
    }
}

/// The raw body, parsed and printed again; `None` where it is no JSON or
/// cannot be printed.
pub open spec fn printed_json(raw: Seq<char>) -> Option<Seq<char>> {
    match json_parse(raw) {
        Some(value) => json_pretty(value),
        None => None,
    }
}

/// The body of a response as it is shown: empty for an empty body, indented
/// JSON for a body that is JSON, the raw body for any other.
pub open spec fn formatted_body(raw: Seq<char>) -> Seq<char> {
    if raw.len() == 0 {
        Seq::empty()
    } else {
        shown_body(raw, printed_json(raw))
    }
}

/// Chooses between the printed text and the raw body.
pub fn select_body(raw: &str, printed: Option<String>) -> (shown: String)
    ensures
        shown@ == shown_body(
            raw@,
            match printed {
                Some(text) => Some(text@),
                None => None,
            },
        ),
{
    match printed {
        Some(text) => text,
        None => raw.to_owned(),
    }
}

/// Formats the body of a response for reading.
pub fn format_json(input: &str) -> (shown: String)
    ensures
        shown@ == formatted_body(input@),
        input@.len() == 0 ==> shown@.len() == 0,
        json_parse(input@) is None ==> shown@ == input@,
{
    if input.is_empty() {
        return String::new();
    }
    let printed = match json_from_str(input) {
        Ok(value) => match json_to_string_pretty(&value) {
            Ok(text) => Some(text),
            Err(_) => None,
        },
        Err(_) => None,
    };
    select_body(input, printed)
}

} // verus!
