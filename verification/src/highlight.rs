//! The composed entry point for rendering arbitrary text as JSON: validate
//! and canonicalize, then tokenize; on invalid input fall back to a
//! diagnostic run followed by the original text, so content is never lost.

use vstd::prelude::*;

use crate::canon::canonical_of;
use crate::canon::is_valid_json;
use crate::canon::normalize;
use crate::canon::parse_err_of;
use crate::canon::ParseError;
use crate::scan::runs_model;
use crate::scan::scan;
use crate::scan::scan_spec;
use crate::scan::StyledRun;
use crate::theme::Category;
use crate::theme::Theme;
use vstd::string::StringExecFns;

verus! {

/// The degraded path for text that is not valid JSON: exactly two runs, a
/// diagnostic message embedding the parser's description, then the whole
/// original text verbatim, both under the `Default` category.
pub fn render_invalid(text: &str, error: &ParseError) -> (r: Vec<StyledRun>)
    ensures
        r@.len() == 2,
        r@[0].category == Category::Default,
        r@[0].text@ == "invalid JSON: "@ + error.message@ + "\n\n"@,
        r@[1].category == Category::Default,
        r@[1].text@ == text@,
{
    let mut msg: String = "invalid JSON: ".to_owned();
    msg.append(error.message.as_str());
    msg.append("\n\n");
    let mut out: Vec<StyledRun> = Vec::new();
    out.push(StyledRun { text: msg, category: Category::Default });
    out.push(StyledRun { text: text.to_owned(), category: Category::Default });
    out
}

/// Produce styled runs for arbitrary text believed to contain JSON: on valid
/// input, the scan of its canonical pretty-printed form; on invalid input,
/// the two-run fallback of [`render_invalid`].
pub fn highlight(text: &str, theme: &Theme) -> (r: Vec<StyledRun>)
    ensures
        is_valid_json(text@) ==> runs_model(r@) == scan_spec(canonical_of(text@)),
        !is_valid_json(text@) ==> {
            &&& r@.len() == 2
            &&& r@[0].category == Category::Default
            &&& r@[0].text@ == "invalid JSON: "@ + parse_err_of(text@) + "\n\n"@
            &&& r@[1].category == Category::Default
            &&& r@[1].text@ == text@
        },
{
    match normalize(text) {
        Ok(canonical) => scan(canonical.as_str(), theme),
        Err(e) => render_invalid(text, &e),
    }
}

} // verus!
