//! The single-pass JSON tokenizer: a left-to-right scan that splits a text
//! buffer into category-tagged runs (strings, object keys, numbers, literal
//! keywords, punctuation, everything else), tolerant of malformed input.
//!
//! The scanner is specified by the recursive spec function [`scan_from`]: it
//! walks the character sequence with an `in_string` / `pending_escape` state
//! and an accumulation buffer, flushing the buffer into a run whenever the
//! active category changes. The executable [`scan`] is proved to return
//! exactly that run sequence.

use vstd::prelude::*;

use crate::theme::Category;
use crate::theme::Theme;
use vstd::string::StrSliceExecFns;

verus! {

/// Unicode `White_Space` characters, the set skipped by the key lookahead.
pub open spec fn is_ws_char(c: char) -> bool {
    ||| c == ' '
    ||| c == '\t'
    ||| c == '\n'
    ||| c == '\r'
    ||| c as u32 == 0x0b
    ||| c as u32 == 0x0c
    ||| c as u32 == 0x85
    ||| c as u32 == 0xa0
    ||| c as u32 == 0x1680
    ||| (0x2000 <= c as u32 && c as u32 <= 0x200a)
    ||| c as u32 == 0x2028
    ||| c as u32 == 0x2029
    ||| c as u32 == 0x202f
    ||| c as u32 == 0x205f
    ||| c as u32 == 0x3000
}

/// ASCII decimal digit.
pub open spec fn is_digit_char(c: char) -> bool {
    0x30 <= c as u32 && c as u32 <= 0x39
}

/// A character that extends a number run once one has started.
pub open spec fn is_num_cont_char(c: char) -> bool {
    is_digit_char(c) || c == '.' || c == 'e' || c == 'E' || c == '+' || c == '-'
}

/// The six structural punctuation characters of JSON.
pub open spec fn is_punct_char(c: char) -> bool {
    c == ':' || c == '{' || c == '}' || c == '[' || c == ']' || c == ','
}

/// `true` spelled out at position `i`.
pub open spec fn starts_true(s: Seq<char>, i: int) -> bool {
    i + 4 <= s.len() && s[i] == 't' && s[i + 1] == 'r' && s[i + 2] == 'u' && s[i + 3] == 'e'
}

/// `false` spelled out at position `i`.
pub open spec fn starts_false(s: Seq<char>, i: int) -> bool {
    i + 5 <= s.len() && s[i] == 'f' && s[i + 1] == 'a' && s[i + 2] == 'l' && s[i + 3] == 's'
        && s[i + 4] == 'e'
}

/// `null` spelled out at position `i`.
pub open spec fn starts_null(s: Seq<char>, i: int) -> bool {
    i + 4 <= s.len() && s[i] == 'n' && s[i + 1] == 'u' && s[i + 2] == 'l' && s[i + 3] == 'l'
}

/// First position at or after `j` holding a non-whitespace character
/// (or the end of the sequence).
pub open spec fn ws_end(s: Seq<char>, j: int) -> int
    recommends
        0 <= j <= s.len(),
    decreases s.len() - j,
{
    if 0 <= j < s.len() && is_ws_char(s[j]) {
        ws_end(s, j + 1)
    } else {
        j
    }
}

/// First position at or after `j` that does not extend a number run
/// (or the end of the sequence).
pub open spec fn num_end(s: Seq<char>, j: int) -> int
    recommends
        0 <= j <= s.len(),
    decreases s.len() - j,
{
    if 0 <= j < s.len() && is_num_cont_char(s[j]) {
        num_end(s, j + 1)
    } else {
        j
    }
}

pub proof fn lemma_num_end_range(s: Seq<char>, j: int)
    requires
        0 <= j <= s.len(),
    ensures
        j <= num_end(s, j) <= s.len(),
    decreases s.len() - j,
{
    if j < s.len() && is_num_cont_char(s[j]) {
        lemma_num_end_range(s, j + 1);
    }
}

/// The key lookahead: a string whose closing quote sits just before position
/// `j` is an object key exactly when the first non-whitespace character at or
/// after `j` is a colon.
pub open spec fn is_key_at(s: Seq<char>, j: int) -> bool {
    ws_end(s, j) < s.len() && s[ws_end(s, j)] == ':'
}

/// The buffer flushed as a `Default` run; an empty buffer yields no run.
pub open spec fn flush_runs(buf: Seq<char>) -> Seq<(Seq<char>, Category)> {
    if buf.len() == 0 {
        seq![]
    } else {
        seq![(buf, Category::Default)]
    }
}

/// One step of the scanner per character, starting at position `i` with the
/// string/escape state and the not-yet-flushed buffer `buf`. Outside a string
/// the buffer always carries the `Default` category; inside a string it holds
/// the quoted text accumulated so far, classified as `Key` or `String` only
/// once the closing quote is reached.
pub open spec fn scan_from(
    s: Seq<char>,
    i: int,
    in_str: bool,
    esc: bool,
    buf: Seq<char>,
) -> Seq<(Seq<char>, Category)>
    recommends
        0 <= i <= s.len(),
    decreases s.len() - i,
{
    if !(0 <= i < s.len()) {
        flush_runs(buf)
    } else {
        let c = s[i];
        if in_str {
            if esc {
                scan_from(s, i + 1, true, false, buf.push(c))
            } else if c == '\\' {
                scan_from(s, i + 1, true, true, buf.push(c))
            } else if c == '"' {
                let cat = if is_key_at(s, i + 1) {
                    Category::Key
                } else {
                    Category::String
                };
                seq![(buf.push(c), cat)] + scan_from(s, i + 1, false, false, seq![])
            } else {
                scan_from(s, i + 1, true, false, buf.push(c))
            }
        } else {
            if c == '"' {
                flush_runs(buf) + scan_from(s, i + 1, true, false, seq![c])
            } else if is_punct_char(c) {
                flush_runs(buf) + seq![(seq![c], Category::Punctuation)] + scan_from(
                    s,
                    i + 1,
                    false,
                    false,
                    seq![],
                )
            } else if is_digit_char(c) || c == '-' {
                let j = num_end(s, i + 1);
                proof {
                    lemma_num_end_range(s, i + 1);
                }
                flush_runs(buf) + seq![(s.subrange(i, j), Category::Number)] + scan_from(
                    s,
                    j,
                    false,
                    false,
                    seq![],
                )
            } else if starts_true(s, i) {
                flush_runs(buf) + seq![(s.subrange(i, i + 4), Category::Boolean)] + scan_from(
                    s,
                    i + 4,
                    false,
                    false,
                    seq![],
                )
            } else if starts_false(s, i) {
                flush_runs(buf) + seq![(s.subrange(i, i + 5), Category::Boolean)] + scan_from(
                    s,
                    i + 5,
                    false,
                    false,
                    seq![],
                )
            } else if starts_null(s, i) {
                flush_runs(buf) + seq![(s.subrange(i, i + 4), Category::Null)] + scan_from(
                    s,
                    i + 4,
                    false,
                    false,
                    seq![],
                )
            } else {
                scan_from(s, i + 1, false, false, buf.push(c))
            }
        }
    }
}

/// The run sequence the scanner produces for a whole input.
pub open spec fn scan_spec(s: Seq<char>) -> Seq<(Seq<char>, Category)> {
    scan_from(s, 0, false, false, seq![])
}

/// The texts of a run sequence, concatenated in order.
pub open spec fn concat_texts(runs: Seq<(Seq<char>, Category)>) -> Seq<char>
    decreases runs.len(),
{
    if runs.len() == 0 {
        seq![]
    } else {
        runs[0].0 + concat_texts(runs.drop_first())
    }
}

proof fn lemma_concat_texts_append(a: Seq<(Seq<char>, Category)>, b: Seq<(Seq<char>, Category)>)
    ensures
        concat_texts(a + b) == concat_texts(a) + concat_texts(b),
    decreases a.len(),
{
    if a.len() == 0 {
        assert(a + b =~= b);
        assert(concat_texts(a) + concat_texts(b) =~= concat_texts(b));
    } else {
        lemma_concat_texts_append(a.drop_first(), b);
        assert((a + b).drop_first() =~= a.drop_first() + b);
        assert(concat_texts(a) + concat_texts(b) =~= a[0].0 + (concat_texts(a.drop_first())
            + concat_texts(b)));
    }
}

proof fn lemma_concat_texts_singleton(run: (Seq<char>, Category))
    ensures
        concat_texts(seq![run]) == run.0,
{
    assert(seq![run].drop_first() =~= Seq::<(Seq<char>, Category)>::empty());
    assert(run.0 + concat_texts(Seq::<(Seq<char>, Category)>::empty()) =~= run.0);
}

proof fn lemma_scan_from_covers(s: Seq<char>, i: int, in_str: bool, esc: bool, buf: Seq<char>)
    requires
        0 <= i <= s.len(),
    ensures
        concat_texts(scan_from(s, i, in_str, esc, buf)) == buf + s.subrange(i, s.len() as int),
    decreases s.len() - i,
{
    let end = s.len() as int;
    if i == end {
        lemma_flush_covers(buf);
        assert(buf + s.subrange(i, end) =~= buf);
    } else {
        let c = s[i];
        if in_str {
            if esc || c != '"' {
                lemma_scan_from_covers(s, i + 1, true, !esc && c == '\\', buf.push(c));
                assert(buf.push(c) + s.subrange(i + 1, end) =~= buf + s.subrange(i, end));
            } else {
                let cat = if is_key_at(s, i + 1) {
                    Category::Key
                } else {
                    Category::String
                };
                lemma_scan_from_covers(s, i + 1, false, false, seq![]);
                let rest = scan_from(s, i + 1, false, false, seq![]);
                lemma_concat_texts_append(seq![(buf.push(c), cat)], rest);
                lemma_concat_texts_singleton((buf.push(c), cat));
                assert(seq![] + s.subrange(i + 1, end) =~= s.subrange(i + 1, end));
                assert(buf.push(c) + s.subrange(i + 1, end) =~= buf + s.subrange(i, end));
            }
        } else {
            if c == '"' {
                lemma_scan_from_covers(s, i + 1, true, false, seq![c]);
                lemma_concat_texts_append(flush_runs(buf), scan_from(s, i + 1, true, false, seq![c]));
                lemma_flush_covers(buf);
                assert(buf + (seq![c] + s.subrange(i + 1, end)) =~= buf + s.subrange(i, end));
            } else if is_punct_char(c) {
                lemma_scan_from_covers(s, i + 1, false, false, seq![]);
                let rest = scan_from(s, i + 1, false, false, seq![]);
                lemma_concat_texts_append(flush_runs(buf) + seq![(seq![c], Category::Punctuation)], rest);
                lemma_concat_texts_append(flush_runs(buf), seq![(seq![c], Category::Punctuation)]);
                lemma_flush_covers(buf);
                lemma_concat_texts_singleton((seq![c], Category::Punctuation));
                assert(seq![] + s.subrange(i + 1, end) =~= s.subrange(i + 1, end));
                assert(buf + seq![c] + s.subrange(i + 1, end) =~= buf + s.subrange(i, end));
            } else if is_digit_char(c) || c == '-' {
                let j = num_end(s, i + 1);
                lemma_num_end_range(s, i + 1);
                lemma_scan_from_covers(s, j, false, false, seq![]);
                let rest = scan_from(s, j, false, false, seq![]);
                lemma_concat_texts_append(flush_runs(buf) + seq![(s.subrange(i, j), Category::Number)], rest);
                lemma_concat_texts_append(flush_runs(buf), seq![(s.subrange(i, j), Category::Number)]);
                lemma_flush_covers(buf);
                lemma_concat_texts_singleton((s.subrange(i, j), Category::Number));
                assert(seq![] + s.subrange(j, end) =~= s.subrange(j, end));
                assert(buf + s.subrange(i, j) + s.subrange(j, end) =~= buf + s.subrange(i, end));
            } else if starts_true(s, i) || starts_false(s, i) || starts_null(s, i) {
                let w: int = if starts_true(s, i) {
                    4
                } else if starts_false(s, i) {
                    5
                } else {
                    4
                };
                let cat = if starts_null(s, i) && !starts_true(s, i) && !starts_false(s, i) {
                    Category::Null
                } else {
                    Category::Boolean
                };
                lemma_scan_from_covers(s, i + w, false, false, seq![]);
                let rest = scan_from(s, i + w, false, false, seq![]);
                lemma_concat_texts_append(flush_runs(buf) + seq![(s.subrange(i, i + w), cat)], rest);
                lemma_concat_texts_append(flush_runs(buf), seq![(s.subrange(i, i + w), cat)]);
                lemma_flush_covers(buf);
                lemma_concat_texts_singleton((s.subrange(i, i + w), cat));
                assert(seq![] + s.subrange(i + w, end) =~= s.subrange(i + w, end));
                assert(buf + s.subrange(i, i + w) + s.subrange(i + w, end) =~= buf + s.subrange(
                    i,
                    end,
                ));
            } else {
                lemma_scan_from_covers(s, i + 1, false, false, buf.push(c));
                assert(buf.push(c) + s.subrange(i + 1, end) =~= buf + s.subrange(i, end));
            }
        }
    }
}

proof fn lemma_flush_covers(buf: Seq<char>)
    ensures
        concat_texts(flush_runs(buf)) == buf,
{
    if buf.len() != 0 {
        lemma_concat_texts_singleton((buf, Category::Default));
    } else {
        assert(buf =~= seq![]);
    }
}

/// Total coverage: concatenating the texts of the scanner's runs, in order,
/// reproduces the input exactly — no character is dropped, duplicated or
/// reordered, whatever the input.
pub proof fn lemma_scan_total_coverage(s: Seq<char>)
    ensures
        concat_texts(scan_spec(s)) == s,
{
    lemma_scan_from_covers(s, 0, false, false, seq![]);
    assert(seq![] + s.subrange(0, s.len() as int) =~= s);
}

/// Every run in a run sequence carries at least one character.
pub open spec fn all_runs_nonempty(runs: Seq<(Seq<char>, Category)>) -> bool {
    forall|k: int| 0 <= k < runs.len() ==> (#[trigger] runs[k]).0.len() > 0
}

proof fn lemma_scan_from_nonempty(s: Seq<char>, i: int, in_str: bool, esc: bool, buf: Seq<char>)
    requires
        0 <= i <= s.len(),
    ensures
        all_runs_nonempty(scan_from(s, i, in_str, esc, buf)),
    decreases s.len() - i,
{
    let end = s.len() as int;
    if i < end {
        let c = s[i];
        if in_str {
            if esc || c != '"' {
                lemma_scan_from_nonempty(s, i + 1, true, !esc && c == '\\', buf.push(c));
            } else {
                lemma_scan_from_nonempty(s, i + 1, false, false, seq![]);
            }
        } else {
            if c == '"' {
                lemma_scan_from_nonempty(s, i + 1, true, false, seq![c]);
            } else if is_punct_char(c) {
                lemma_scan_from_nonempty(s, i + 1, false, false, seq![]);
            } else if is_digit_char(c) || c == '-' {
                lemma_num_end_range(s, i + 1);
                lemma_scan_from_nonempty(s, num_end(s, i + 1), false, false, seq![]);
            } else if starts_true(s, i) {
                lemma_scan_from_nonempty(s, i + 4, false, false, seq![]);
            } else if starts_false(s, i) {
                lemma_scan_from_nonempty(s, i + 5, false, false, seq![]);
            } else if starts_null(s, i) {
                lemma_scan_from_nonempty(s, i + 4, false, false, seq![]);
            } else {
                lemma_scan_from_nonempty(s, i + 1, false, false, buf.push(c));
            }
        }
    }
}

/// No empty runs: every run the scanner emits holds at least one character.
pub proof fn lemma_scan_no_empty_runs(s: Seq<char>)
    ensures
        all_runs_nonempty(scan_spec(s)),
{
    lemma_scan_from_nonempty(s, 0, false, false, seq![]);
}

/// One run of the scanner's output: a maximal substring of the input together
/// with its semantic category. The text is an owned copy, so the source buffer
/// may be dropped or changed after scanning.
#[derive(Clone, Debug)]
pub struct StyledRun {
    pub text: String,
    pub category: Category,
}

impl View for StyledRun {
    type V = (Seq<char>, Category);

    open spec fn view(&self) -> (Seq<char>, Category) {
        (self.text@, self.category)
    }
}

/// The mathematical value of a run sequence: each run as (text, category).
pub open spec fn runs_model(runs: Seq<StyledRun>) -> Seq<(Seq<char>, Category)> {
    runs.map_values(|r: StyledRun| r@)
}

/// Whether `c` is a Unicode whitespace character.
pub fn char_is_whitespace(c: char) -> (r: bool)
    ensures
        r == is_ws_char(c),
{
    let u = c as u32;
    c == ' ' || c == '\t' || c == '\n' || c == '\r' || u == 0x0b || u == 0x0c || u == 0x85
        || u == 0xa0 || u == 0x1680 || (0x2000 <= u && u <= 0x200a) || u == 0x2028 || u == 0x2029
        || u == 0x202f || u == 0x205f || u == 0x3000
}

fn char_is_digit(c: char) -> (r: bool)
    ensures
        r == is_digit_char(c),
{
    let u = c as u32;
    0x30 <= u && u <= 0x39
}

fn char_is_num_cont(c: char) -> (r: bool)
    ensures
        r == is_num_cont_char(c),
{
    char_is_digit(c) || c == '.' || c == 'e' || c == 'E' || c == '+' || c == '-'
}

fn char_is_punct(c: char) -> (r: bool)
    ensures
        r == is_punct_char(c),
{
    c == ':' || c == '{' || c == '}' || c == '[' || c == ']' || c == ','
}

/// Flush the pending `Default` buffer `text[start..end]` into `out`,
/// emitting nothing when the buffer is empty.
fn flush_default(out: &mut Vec<StyledRun>, text: &str, start: usize, end: usize)
    requires
        start <= end <= text@.len(),
    ensures
        runs_model(final(out)@) == runs_model(old(out)@) + flush_runs(
            text@.subrange(start as int, end as int),
        ),
{
    let ghost buf = text@.subrange(start as int, end as int);
    if start < end {
        let run_text = text.substring_char(start, end).to_owned();
        out.push(StyledRun { text: run_text, category: Category::Default });
        proof {
            assert(runs_model(out@) =~~= runs_model(old(out)@) + flush_runs(buf));
        }
    } else {
        proof {
            assert(buf =~= seq![]);
            assert(runs_model(out@) =~~= runs_model(old(out)@) + flush_runs(buf));
        }
    }
}

/// Tokenize `text` into category-tagged runs: quoted strings (split into
/// `Key` or `String` by the colon lookahead), number runs, the three literal
/// keywords, single-character punctuation runs, and `Default` for everything
/// else. Never fails; the output is exactly the run sequence of [`scan_spec`],
/// so it covers the input exactly and holds no empty run. The theme does not
/// influence the runs; it is the palette a renderer applies afterwards via
/// [`Theme::color_of`].
pub fn scan(text: &str, _theme: &Theme) -> (r: Vec<StyledRun>)
    ensures
        runs_model(r@) == scan_spec(text@),
        text@.len() == 0 <==> r@.len() == 0,
{
    let ghost s = text@;
    let n: usize = text.unicode_len();
    let mut out: Vec<StyledRun> = Vec::new();
    let mut i: usize = 0;
    let mut run_start: usize = 0;
    let mut in_str = false;
    let mut esc = false;
    proof {
        assert(s.subrange(0, 0) =~= seq![]);
        assert(runs_model(out@) + scan_spec(s) =~= scan_spec(s));
    }
    while i < n
        invariant
            s == text@,
            n == s.len(),
            run_start <= i <= n,
            !in_str ==> !esc,
            runs_model(out@) + scan_from(
                s,
                i as int,
                in_str,
                esc,
                s.subrange(run_start as int, i as int),
            ) == scan_spec(s),
        decreases n - i,
    {
        let ghost buf = s.subrange(run_start as int, i as int);
        let ghost out0 = out@;
        let ghost i0 = i as int;
        let c = text.get_char(i);
        if in_str {
            if esc {
                esc = false;
                i = i + 1;
                proof {
                    assert(s.subrange(run_start as int, i as int) =~= buf.push(c));
                }
            } else if c == '\\' {
                esc = true;
                i = i + 1;
                proof {
                    assert(s.subrange(run_start as int, i as int) =~= buf.push(c));
                }
            } else if c == '"' {
                let mut j: usize = i + 1;
                while j < n && char_is_whitespace(text.get_char(j))
                    invariant
                        s == text@,
                        n == s.len(),
                        i + 1 <= j <= n,
                        ws_end(s, (i + 1) as int) == ws_end(s, j as int),
                    decreases n - j,
                {
                    j = j + 1;
                }
                let is_key = j < n && text.get_char(j) == ':';
                proof {
                    assert(ws_end(s, j as int) == j as int);
                    assert(is_key == is_key_at(s, (i + 1) as int));
                }
                let cat = if is_key {
                    Category::Key
                } else {
                    Category::String
                };
                let run_text = text.substring_char(run_start, i + 1).to_owned();
                out.push(StyledRun { text: run_text, category: cat });
                in_str = false;
                i = i + 1;
                run_start = i;
                proof {
                    let rest = scan_from(s, i as int, false, false, seq![]);
                    assert(s.subrange(run_start as int, i as int) =~= seq![]);
                    assert(runs_model(out@) =~~= out0.map_values(|q: StyledRun| q@) + seq![
                        (buf.push(c), cat),
                    ]);
                    assert(runs_model(out0) + (seq![(buf.push(c), cat)] + rest) =~= runs_model(out@)
                        + rest);
                }
            } else {
                i = i + 1;
                proof {
                    assert(s.subrange(run_start as int, i as int) =~= buf.push(c));
                }
            }
        } else {
            if c == '"' {
                flush_default(&mut out, text, run_start, i);
                in_str = true;
                run_start = i;
                i = i + 1;
                proof {
                    let rest = scan_from(s, i as int, true, false, seq![c]);
                    assert(s.subrange(run_start as int, i as int) =~= seq![c]);
                    assert(runs_model(out0) + (flush_runs(buf) + rest) =~= runs_model(out@) + rest);
                }
            } else if char_is_punct(c) {
                flush_default(&mut out, text, run_start, i);
                let ghost out1 = out@;
                let run_text = text.substring_char(i, i + 1).to_owned();
                out.push(StyledRun { text: run_text, category: Category::Punctuation });
                i = i + 1;
                run_start = i;
                proof {
                    let rest = scan_from(s, i as int, false, false, seq![]);
                    assert(s.subrange(run_start as int, i as int) =~= seq![]);
                    assert(s.subrange(i0, i as int) =~= seq![c]);
                    assert(runs_model(out@) =~~= runs_model(out1) + seq![(seq![c], Category::Punctuation)]);
                    assert(runs_model(out0) + (flush_runs(buf) + seq![(seq![c], Category::Punctuation)]
                        + rest) =~= runs_model(out@) + rest);
                }
            } else if char_is_digit(c) || c == '-' {
                flush_default(&mut out, text, run_start, i);
                let ghost out1 = out@;
                let mut j: usize = i + 1;
                while j < n && char_is_num_cont(text.get_char(j))
                    invariant
                        s == text@,
                        n == s.len(),
                        i + 1 <= j <= n,
                        num_end(s, (i + 1) as int) == num_end(s, j as int),
                    decreases n - j,
                {
                    j = j + 1;
                }
                proof {
                    assert(num_end(s, j as int) == j as int);
                }
                let run_text = text.substring_char(i, j).to_owned();
                out.push(StyledRun { text: run_text, category: Category::Number });
                i = j;
                run_start = i;
                proof {
                    let rest = scan_from(s, i as int, false, false, seq![]);
                    assert(s.subrange(run_start as int, i as int) =~= seq![]);
                    assert(runs_model(out@) =~~= runs_model(out1) + seq![
                        (s.subrange(i0, j as int), Category::Number),
                    ]);
                    assert(runs_model(out0) + (flush_runs(buf) + seq![
                        (s.subrange(i0, j as int), Category::Number),
                    ] + rest) =~= runs_model(out@) + rest);
                }
            } else if c == 't' && n - i >= 4 && text.get_char(i + 1) == 'r' && text.get_char(i + 2)
                == 'u' && text.get_char(i + 3) == 'e' {
                flush_default(&mut out, text, run_start, i);
                let ghost out1 = out@;
                let run_text = text.substring_char(i, i + 4).to_owned();
                out.push(StyledRun { text: run_text, category: Category::Boolean });
                i = i + 4;
                run_start = i;
                proof {
                    let rest = scan_from(s, i as int, false, false, seq![]);
                    assert(s.subrange(run_start as int, i as int) =~= seq![]);
                    assert(runs_model(out@) =~~= runs_model(out1) + seq![
                        (s.subrange(i0, i as int), Category::Boolean),
                    ]);
                    assert(runs_model(out0) + (flush_runs(buf) + seq![
                        (s.subrange(i0, i as int), Category::Boolean),
                    ] + rest) =~= runs_model(out@) + rest);
                }
            } else if c == 'f' && n - i >= 5 && text.get_char(i + 1) == 'a' && text.get_char(i + 2)
                == 'l' && text.get_char(i + 3) == 's' && text.get_char(i + 4) == 'e' {
                flush_default(&mut out, text, run_start, i);
                let ghost out1 = out@;
                let run_text = text.substring_char(i, i + 5).to_owned();
                out.push(StyledRun { text: run_text, category: Category::Boolean });
                i = i + 5;
                run_start = i;
                proof {
                    let rest = scan_from(s, i as int, false, false, seq![]);
                    assert(s.subrange(run_start as int, i as int) =~= seq![]);
                    assert(runs_model(out@) =~~= runs_model(out1) + seq![
                        (s.subrange(i0, i as int), Category::Boolean),
                    ]);
                    assert(runs_model(out0) + (flush_runs(buf) + seq![
                        (s.subrange(i0, i as int), Category::Boolean),
                    ] + rest) =~= runs_model(out@) + rest);
                }
            } else if c == 'n' && n - i >= 4 && text.get_char(i + 1) == 'u' && text.get_char(i + 2)
                == 'l' && text.get_char(i + 3) == 'l' {
                flush_default(&mut out, text, run_start, i);
                let ghost out1 = out@;
                let run_text = text.substring_char(i, i + 4).to_owned();
                out.push(StyledRun { text: run_text, category: Category::Null });
                i = i + 4;
                run_start = i;
                proof {
                    let rest = scan_from(s, i as int, false, false, seq![]);
                    assert(s.subrange(run_start as int, i as int) =~= seq![]);
                    assert(runs_model(out@) =~~= runs_model(out1) + seq![
                        (s.subrange(i0, i as int), Category::Null),
                    ]);
                    assert(runs_model(out0) + (flush_runs(buf) + seq![
                        (s.subrange(i0, i as int), Category::Null),
                    ] + rest) =~= runs_model(out@) + rest);
                }
            } else {
                i = i + 1;
                proof {
                    assert(!starts_true(s, i0));
                    assert(!starts_false(s, i0));
                    assert(!starts_null(s, i0));
                    assert(s.subrange(run_start as int, i as int) =~= buf.push(c));
                }
            }
        }
    }
    flush_default(&mut out, text, run_start, n);
    proof {
        assert(runs_model(out@) =~= scan_spec(s));
        lemma_scan_total_coverage(s);
        lemma_scan_no_empty_runs(s);
        if s.len() == 0 {
            assert(scan_spec(s) =~= seq![]);
        } else if scan_spec(s).len() == 0 {
            assert(concat_texts(scan_spec(s)) =~= seq![]);
        }
    }
    out
}

} // verus!
