//! Build the request document for one remote completion call: the
//! caller's prompt is substituted into the designated text field of a
//! base template document, and the result is parsed, so that what the
//! transport sends is a well-formed JSON value.

use vstd::prelude::*;
use crate::textscan::replace_first;
use crate::textscan::replace_first_spec;

verus! {

/// The placeholder prompt that the template document carries in its
/// designated text field, quotes included.
pub open spec fn placeholder_spec() -> Seq<char> {
    "\"Who is the best French painter? Answer in one short sentence.\""@
}

/// The placeholder prompt, as it stands in the template document.
pub fn placeholder_text() -> (r: &'static str)
    ensures
        r@ == placeholder_spec(),
{
    "\"Who is the best French painter? Answer in one short sentence.\""
}

/// `p` wrapped in double quotes, the way a JSON string field is.
pub open spec fn quoted_spec(p: Seq<char>) -> Seq<char> {
    seq!['"'] + p + seq!['"']
}

/// The template document with its placeholder replaced by the quoted
/// prompt.  The template carries the placeholder once; only the first
/// occurrence is replaced.
pub open spec fn substituted_spec(template: Seq<char>, prompt: Seq<char>) -> Seq<char> {
    replace_first_spec(template, placeholder_spec(), quoted_spec(prompt))
}

/// Substitute `prompt`, quoted, into the template's designated text
/// field.
pub fn substitute_prompt(template: &str, prompt: &str) -> (r: String)
    ensures
        r@ == substituted_spec(template@, prompt@),
{
    let mut quoted = String::from_str("\"");
    quoted.append(prompt);
    quoted.append("\"");
    proof {
        reveal_strlit("\"");
        assert(quoted@ =~= quoted_spec(prompt@));
    }
    replace_first(template, placeholder_text(), quoted.as_str())
}

/// Whether serde_json's parser accepts `s` as a JSON document.
pub uninterp spec fn json_accepts(s: Seq<char>) -> bool;

#[verifier::external_type_specification]
#[verifier::external_body]
pub struct ExValue(serde_json::Value);

#[verifier::external_type_specification]
#[verifier::external_body]
pub struct ExJsonError(serde_json::Error);

/// Relies on serde_json::from_str: parsing is a function of the input
/// text alone, and returns Ok exactly when the text is a JSON
/// document that the parser accepts.
#[verifier::external_body]
fn parse_json(s: &str) -> (r: Result<serde_json::Value, serde_json::Error>)
    ensures
        r.is_ok() == json_accepts(s@),
{
    serde_json::from_str(s)
}

/// Why a request document could not be built.
#[derive(Clone, Copy, Debug, PartialEq, Eq, Structural)]
pub enum RequestError {
    /// The substituted template is not a JSON document.
    TemplateNotJson,
}

/// Build the request document for one completion call.  It succeeds
/// exactly when the template, with the quoted prompt in its text
/// field, parses as JSON; the parsed value is what the transport
/// sends.
pub fn build_request(template: &str, prompt: &str) -> (r: Result<
    serde_json::Value,
    RequestError,
>)
    ensures
        r.is_ok() == json_accepts(substituted_spec(template@, prompt@)),
{
    let body = substitute_prompt(template, prompt);
    match parse_json(body.as_str()) {
        Ok(v) => Ok(v),
        Err(_) => Err(RequestError::TemplateNotJson),
    }
}

} // verus!
