//! Recover the generated message text from the raw body returned by
//! the completion endpoint.
//!
//! The body is expected to embed a JSON-shaped line with a `content`
//! field.  Extraction is deliberately naive, and kept so for
//! compatibility: the text is everything after the first occurrence of
//! the opening marker `content":"` up to, but not including, the first
//! following `}` on the same line, with no unescaping.  A body with no
//! marker, or no `}` left on the marker's line, degrades to a fixed
//! fallback message; extraction never fails outright.

use vstd::prelude::*;
use crate::textscan::find_first;
use crate::textscan::find_spec;
use crate::textscan::lemma_find_from_some;

verus! {

/// The opening marker of the content field in the response body.
pub open spec fn content_marker_spec() -> Seq<char> {
    "content\":\""@
}

/// The fixed fallback message used when no text can be recovered.
pub open spec fn fallback_spec() -> Seq<char> {
    "Sorry, I couldn't generate a response."@
}

/// Index of the first character at or after `j` that ends the
/// extracted text: a closing brace, the end of the line, or the end
/// of the body.
pub open spec fn scan_end_spec(s: Seq<char>, j: int) -> int
    decreases s.len() - j,
{
    if j < 0 || j >= s.len() {
        j
    } else if s[j] == '}' || s[j] == '\n' {
        j
    } else {
        scan_end_spec(s, j + 1)
    }
}

/// The text that extraction recovers from `raw`: the characters
/// between the first `content":"` marker and the next `}` on the same
/// line, or the fallback message when either is missing.
pub open spec fn extract_spec(raw: Seq<char>) -> Seq<char> {
    match find_spec(raw, content_marker_spec()) {
        None => fallback_spec(),
        Some(i) => {
            let start = i + content_marker_spec().len();
            let e = scan_end_spec(raw, start);
            if e < raw.len() && raw[e] == '}' {
                raw.subrange(start, e)
            } else {
                fallback_spec()
            }
        },
    }
}

/// The fallback message, as returned to the caller.
pub fn fallback_text() -> (r: String)
    ensures
        r@ == fallback_spec(),
{
    String::from_str("Sorry, I couldn't generate a response.")
}

/// Extract the generated message text from a raw response body,
/// degrading to the fallback message on any unexpected shape.
pub fn extract(raw: &str) -> (r: String)
    ensures
        r@ == extract_spec(raw@),
{
    let marker = "content\":\"";
    match find_first(raw, marker) {
        None => fallback_text(),
        Some(i) => {
            proof {
                lemma_find_from_some(raw@, marker@, 0, i as int);
            }
            let n = raw.unicode_len();
            let m = marker.unicode_len();
            let start = i + m;
            let mut e = start;
            loop
                invariant
                    n == raw@.len(),
                    start <= e <= n,
                    scan_end_spec(raw@, start as int) == scan_end_spec(raw@, e as int),
                ensures
                    start <= e <= n,
                    e as int == scan_end_spec(raw@, start as int),
                decreases n - e,
            {
                if e == n {
                    break;
                }
                let c = raw.get_char(e);
                if c == '}' || c == '\n' {
                    break;
                }
                e = e + 1;
            }
            if e < n && raw.get_char(e) == '}' {
                String::from_str(raw.substring_char(start, e))
            } else {
                fallback_text()
            }
        },
    }
}

} // verus!
