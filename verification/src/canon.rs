//! Validation and canonical pretty-printing of JSON text.
//!
//! The parsing and re-serialization themselves are done by `serde_json`
//! behind one trusted wrapper; everything downstream speaks only of the
//! named results `is_valid_json`, `canonical_of` and `parse_err_of`.

use vstd::prelude::*;

verus! {

/// Whether `serde_json` accepts `s` as syntactically valid JSON text.
pub uninterp spec fn is_valid_json(s: Seq<char>) -> bool;

/// The canonical form of a valid JSON text `s`: the pretty-printed,
/// consistently indented re-serialization of the value `s` parses to.
pub uninterp spec fn canonical_of(s: Seq<char>) -> Seq<char>;

/// The parser's human-readable description of why `s` is not valid JSON.
pub uninterp spec fn parse_err_of(s: Seq<char>) -> Seq<char>;

/// Relies on `serde_json::from_str::<Value>` and `serde_json::to_string_pretty`:
/// parsing succeeds exactly on syntactically valid JSON text and both calls are
/// deterministic functions of the text alone. Pretty-printing a `Value` cannot
/// fail (its `Serialize` implementation never errors and its maps carry string
/// keys), its output is itself valid JSON that parses back to an equal `Value`,
/// and equal values pretty-print identically, so canonicalizing the output
/// returns it unchanged. The error string is the parser error's display form.
#[verifier::external_body]
fn parse_and_pretty(s: &str) -> (r: Result<String, String>)
    ensures
        r is Ok <==> is_valid_json(s@),
        r matches Ok(c) ==> c@ == canonical_of(s@),
        r matches Ok(c) ==> is_valid_json(c@) && canonical_of(c@) == c@,
        r matches Err(e) ==> e@ == parse_err_of(s@),
{
    match serde_json::from_str::<serde_json::Value>(s) {
        Ok(v) => match serde_json::to_string_pretty(&v) {
            Ok(c) => Ok(c),
            Err(e) => Err(e.to_string()),
        },
        Err(e) => Err(e.to_string()),
    }
}

/// The error returned when input text is not syntactically valid JSON.
/// Carries the parser's description (reason and position).
#[derive(Clone, Debug)]
pub struct ParseError {
    pub message: String,
}

impl ParseError {
    /// The human-readable description of the failure.
    pub fn description(&self) -> (r: String)
        ensures
            r@ == self.message@,
    {
        self.message.clone()
    }
}

/// Parse `text` as a JSON value and re-serialize it in canonical indented
/// form. Returns `Ok` exactly on valid JSON; the canonical text is a fixed
/// point, so normalizing it again returns it unchanged. On invalid input the
/// error carries the parser's description.
pub fn normalize(text: &str) -> (r: Result<String, ParseError>)
    ensures
        r is Ok <==> is_valid_json(text@),
        r matches Ok(c) ==> c@ == canonical_of(text@),
        r matches Ok(c) ==> is_valid_json(c@) && canonical_of(c@) == c@,
        r matches Err(e) ==> e.message@ == parse_err_of(text@),
{
    match parse_and_pretty(text) {
        Ok(c) => Ok(c),
        Err(m) => Err(ParseError { message: m }),
    }
}

/// Whether `text` is syntactically valid JSON.
pub fn is_valid_json_text(text: &str) -> (r: bool)
    ensures
        r == is_valid_json(text@),
{
    match parse_and_pretty(text) {
        Ok(_) => true,
        Err(_) => false,
    }
}

/// Canonicalize `text` when it is valid JSON; hand it back unchanged when it
/// is not. A pass-through convenience for callers that only want consistent
/// indentation and never an error.
pub fn pretty_json_str(src: &str) -> (r: String)
    ensures
        is_valid_json(src@) ==> r@ == canonical_of(src@),
        !is_valid_json(src@) ==> r@ == src@,
{
    match parse_and_pretty(src) {
        Ok(c) => c,
        Err(_) => src.to_owned(),
    }
}

} // verus!
