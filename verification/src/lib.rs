//! Verified core of a small HTTP client: a JSON tokenizer that turns raw text
//! into category-tagged runs for colorized rendering, a canonicalizing
//! pretty-printer around `serde_json`, and the plain-value request model whose
//! decisions the unverified I/O shell executes.

use vstd::prelude::*;

mod canon;
mod highlight;
mod request;
mod scan;
mod tab;
mod theme;

pub use canon::canonical_of;
pub use canon::is_valid_json;
pub use canon::is_valid_json_text;
pub use canon::normalize;
pub use canon::parse_err_of;
pub use canon::pretty_json_str;
pub use canon::ParseError;
pub use highlight::highlight;
pub use highlight::render_invalid;
pub use request::all_ws;
pub use request::auth_index;
pub use request::auth_of_index;
pub use request::plan;
pub use request::Auth;
pub use request::HttpMethod;
pub use request::HttpRequest;
pub use request::RequestPlan;
pub use scan::char_is_whitespace;
pub use scan::concat_texts;
pub use scan::lemma_scan_no_empty_runs;
pub use scan::lemma_scan_total_coverage;
pub use scan::runs_model;
pub use scan::scan;
pub use scan::scan_spec;
pub use scan::StyledRun;
pub use tab::tab_index;
pub use tab::tab_of_index;
pub use tab::Tab;
pub use theme::warning_color;
pub use theme::Category;
pub use theme::Rgb;
pub use theme::Theme;

verus! {

} // verus!
