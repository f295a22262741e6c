//! Heuristic filename parser for extracting comic metadata.
//!
//! Handles common naming conventions such as:
//!
//! - `Series Name v01 #005 (2023) (Publisher).cbz`
//! - `[Publisher] Series Name #001 (2023).cbz`
//! - `Series Name - Chapter 001 (2023).cbz`
//! - `Series_Name_001.cbz`
//! - `Series Name 001 (2023).cbz`
//! - `Series Name (2023).cbz`
//!
//! The volume and issue-number patterns are regular expressions run by the
//! `regex` crate (see [`crate::pattern`]); the rest of the grammar is
//! implemented and specified here.
use vstd::prelude::*;

use crate::pattern::{
    capture_parts, regex_captures, regex_first_capture, regex_remove_first, removal, Capture,
};
use crate::text::{
    all_digits, all_digits_exec, collapse_spaces, is_ws, lemma_collapse_no_double, squeeze_spaces, collapse_spaces_exec, copy_chars, eq_str, find_char,
    find_char_exec, opt_chars, seqs_of, i64_decimal, int_decimal, is_digit, is_ws_exec, lemma_trim_both_ends,
    lemma_trim_end_last, lower_seq, parse_i32, parse_i32_exec, push_chars, push_str,
    replace_char, replace_char_exec, string_from_chars, sub_chars, to_chars, to_lower, trim,
    trim_both, trim_end, trim_set, trim_ws, TrimSet,
};

verus! {

// ---------------------------------------------------------------------------
// Patterns
// ---------------------------------------------------------------------------

/// `Volume 3`, `vol.2`, `Vol 01`.
pub const VOLUME_LONG: &'static str = r"(?i)\bvol(?:ume)?\.?\s*(\d+)\b";

/// `v01`, `v2`.
pub const VOLUME_SHORT: &'static str = r"(?i)\bv(\d{1,4})\b";

/// `#001`, `#12.5`.
pub const ISSUE_HASH: &'static str = r"#(\d+(?:\.\d+)?)";

/// `No.3`, `No 3`.
pub const ISSUE_NO: &'static str = r"(?i)\bno\.?\s*(\d+(?:\.\d+)?)\b";

/// `Chapter 7`, `Ch.23`, `ch 4`.
pub const ISSUE_CHAPTER: &'static str = r"(?i)\b(?:chapter|ch)\.?\s*(\d+(?:\.\d+)?)\b";

/// A trailing run of up to four digits after spaces or dashes.
pub const ISSUE_TRAILING: &'static str = r"[\s\-]+(\d{1,4})$";

// ---------------------------------------------------------------------------
// Public output type
// ---------------------------------------------------------------------------

/// Metadata extracted from a filename. All fields are optional because
/// filenames vary enormously in practice.
#[derive(Debug, Clone)]
pub struct FilenameMetadata {
    pub series: Option<String>,
    pub number: Option<String>,
    pub volume: Option<i32>,
    pub year: Option<i32>,
    pub publisher: Option<String>,
    pub title: Option<String>,
}

/// The mathematical content of a [`FilenameMetadata`].
pub struct FilenameMetadataView {
    pub series: Option<Seq<char>>,
    pub number: Option<Seq<char>>,
    pub volume: Option<i32>,
    pub year: Option<i32>,
    pub publisher: Option<Seq<char>>,
    pub title: Option<Seq<char>>,
}

impl View for FilenameMetadata {
    type V = FilenameMetadataView;

    open spec fn view(&self) -> FilenameMetadataView {
        FilenameMetadataView {
            series: self.series.deep_view(),
            number: self.number.deep_view(),
            volume: self.volume,
            year: self.year,
            publisher: self.publisher.deep_view(),
            title: self.title.deep_view(),
        }
    }
}

/// The metadata of a name from which nothing could be extracted.
pub open spec fn empty_metadata() -> FilenameMetadataView {
    FilenameMetadataView {
        series: None,
        number: None,
        volume: None,
        year: None,
        publisher: None,
        title: None,
    }
}

impl Default for FilenameMetadata {
    fn default() -> (res: Self)
        ensures
            res@ == empty_metadata(),
    {
        FilenameMetadata {
            series: None,
            number: None,
            volume: None,
            year: None,
            publisher: None,
            title: None,
        }
    }
}

// ---------------------------------------------------------------------------
// Specification of the grammar
// ---------------------------------------------------------------------------

/// `clean_string`: strip `- . , ' '` at both ends, then collapse spaces.
pub open spec fn clean_text(s: Seq<char>) -> Seq<char> {
    collapse_spaces(trim_both(s, TrimSet::Punct))
}

/// What remains of the core text after a matched token is cut out.
pub open spec fn tidy_text(s: Seq<char>) -> Seq<char> {
    collapse_spaces(trim(trim_both(trim(s), TrimSet::Dash)))
}

/// A leading `[publisher]` block: `(Some(publisher), rest)` when present and
/// non-blank, else `(None, s)`.
pub open spec fn split_bracket(s: Seq<char>) -> (Option<Seq<char>>, Seq<char>) {
    if s.len() > 0 && s[0] == '[' {
        let rest = s.subrange(1, s.len() as int);
        match find_char(rest, ']') {
            Some(close) => {
                let p = trim(rest.subrange(0, close));
                if p.len() > 0 {
                    (Some(p), trim(rest.subrange(close + 1, rest.len() as int)))
                } else {
                    (None, s)
                }
            },
            None => (None, s),
        }
    } else {
        (None, s)
    }
}

/// Scanning `t[..k]` from the right with `depth` open `)`s: the position of
/// the `(` that balances the final `)`.
pub open spec fn scan_open(t: Seq<char>, k: nat, depth: int) -> Option<int>
    decreases k,
{
    if k == 0 {
        None
    } else {
        let c = t[k - 1];
        if c == ')' {
            scan_open(t, (k - 1) as nat, depth + 1)
        } else if c == '(' {
            if depth - 1 == 0 {
                Some(k - 1)
            } else {
                scan_open(t, (k - 1) as nat, depth - 1)
            }
        } else {
            scan_open(t, (k - 1) as nat, depth)
        }
    }
}

/// A balancing `(` lies inside the scanned prefix.
pub proof fn lemma_scan_open_range(t: Seq<char>, k: nat, depth: int)
    ensures
        scan_open(t, k, depth) matches Some(p) ==> 0 <= p < k && t[p] == '(',
    decreases k,
{
    if k > 0 {
        lemma_scan_open_range(t, (k - 1) as nat, depth + 1);
        lemma_scan_open_range(t, (k - 1) as nat, depth - 1);
        lemma_scan_open_range(t, (k - 1) as nat, depth);
    }
}

/// Trailing `(token)` groups, stripped from the right: the remaining core
/// and the tokens in left-to-right order.
pub open spec fn split_parens(w: Seq<char>) -> (Seq<char>, Seq<Seq<char>>)
    decreases w.len(),
{
    let t = trim_end(w, TrimSet::Whitespace);
    if t.len() > 0 && t.last() == ')' {
        match scan_open(t, t.len(), 0) {
            Some(pos) => {
                proof {
                    lemma_scan_open_range(t, t.len(), 0);
                    lemma_trim_end_last(w, TrimSet::Whitespace);
                    lemma_trim_both_ends(t.subrange(0, pos), TrimSet::Whitespace);
                }
                let inner = trim(t.subrange(pos + 1, t.len() - 1));
                let next = trim(t.subrange(0, pos));
                let (core, tokens) = split_parens(next);
                (core, tokens.push(inner))
            },
            None => (w, Seq::empty()),
        }
    } else {
        (w, Seq::empty())
    }
}

/// A four-character year in `[1800, 2100]`.
pub open spec fn year_of(s: Seq<char>) -> Option<i32> {
    let t = trim(s);
    if t.len() == 4 {
        match parse_i32(t) {
            Some(y) => if 1800 <= y <= 2100 {
                Some(y)
            } else {
                None
            },
            None => None,
        }
    } else {
        None
    }
}

/// Scan tags and the like, which are never taken as a publisher.
pub open spec fn is_misc_token(s: Seq<char>) -> bool {
    let lower = lower_seq(s);
    ||| lower == "digital"@
    ||| lower == "hq"@
    ||| lower == "scan"@
    ||| lower == "scans"@
    ||| lower == "webrip"@
    ||| lower == "web"@
    ||| lower == "cbz"@
    ||| lower == "cbr"@
    ||| lower == "epub"@
    ||| lower == "pdf"@
    ||| (lower.len() > 0 && lower[0] == 'v' && all_digits(lower.subrange(1, lower.len() as int)))
}

/// One parenthesised token: the first year is the year; the first other
/// token that is neither blank nor a scan tag is the publisher.
pub open spec fn token_step(
    token: Seq<char>,
    year: Option<i32>,
    publisher: Option<Seq<char>>,
) -> (Option<i32>, Option<Seq<char>>) {
    if year is None && year_of(token) is Some {
        (year_of(token), publisher)
    } else if publisher is None && token.len() > 0 && !is_misc_token(token) {
        (year, Some(clean_text(token)))
    } else {
        (year, publisher)
    }
}

/// The tokens, folded from the left by [`token_step`].
pub open spec fn scan_tokens(
    tokens: Seq<Seq<char>>,
    year: Option<i32>,
    publisher: Option<Seq<char>>,
) -> (Option<i32>, Option<Seq<char>>)
    decreases tokens.len(),
{
    if tokens.len() == 0 {
        (year, publisher)
    } else {
        let (y, p) = token_step(tokens[0], year, publisher);
        scan_tokens(tokens.subrange(1, tokens.len() as int), y, p)
    }
}

/// The volume that a capture names: its group 1 read as an `i32`.
pub open spec fn volume_of(c: Option<(Seq<char>, Seq<char>, Option<Seq<char>>, Seq<char>)>) -> Option<
    i32,
> {
    match c {
        Some((_, _, Some(g), _)) => parse_i32(g),
        _ => None,
    }
}

/// The issue number that a capture names: its group 1.
pub open spec fn number_of(c: Option<(Seq<char>, Seq<char>, Option<Seq<char>>, Seq<char>)>) -> Option<
    Seq<char>,
> {
    match c {
        Some((_, _, Some(g), _)) => Some(g),
        _ => None,
    }
}

/// The volume, by the long pattern first and the short one second.
pub open spec fn split_volume(s: Seq<char>) -> (Seq<char>, Option<i32>) {
    match volume_of(regex_first_capture(VOLUME_LONG@, s)) {
        Some(v) => (tidy_text(removal(VOLUME_LONG@, s)), Some(v)),
        None => match volume_of(regex_first_capture(VOLUME_SHORT@, s)) {
            Some(v) => (tidy_text(removal(VOLUME_SHORT@, s)), Some(v)),
            None => (s, None),
        },
    }
}

/// The issue number by the first pattern that matches.
pub open spec fn split_issue_with(s: Seq<char>, pattern: Seq<char>) -> Option<
    (Seq<char>, Seq<char>),
> {
    match number_of(regex_first_capture(pattern, s)) {
        Some(n) => Some((tidy_text(removal(pattern, s)), n)),
        None => None,
    }
}

/// The issue number: `#`, then `No.`, then `Chapter`/`Ch.`, then trailing
/// digits.
pub open spec fn split_issue(s: Seq<char>) -> (Seq<char>, Option<Seq<char>>) {
    match split_issue_with(s, ISSUE_HASH@) {
        Some((c, n)) => (c, Some(n)),
        None => match split_issue_with(s, ISSUE_NO@) {
            Some((c, n)) => (c, Some(n)),
            None => match split_issue_with(s, ISSUE_CHAPTER@) {
                Some((c, n)) => (c, Some(n)),
                None => match split_issue_with(s, ISSUE_TRAILING@) {
                    Some((c, n)) => (c, Some(n)),
                    None => (s, None),
                },
            },
        },
    }
}

/// The title made from the series: `"{series} #{number}"`, else
/// `"{series} v{volume}"`, else the series itself.
pub open spec fn title_of(series: Seq<char>, number: Option<Seq<char>>, volume: Option<i32>) -> Seq<
    char,
> {
    match number {
        Some(n) => series + " #"@ + n,
        None => match volume {
            Some(v) => series + " v"@ + int_decimal(v as int),
            None => series,
        },
    }
}

/// Everything extracted from a file stem.
pub open spec fn stem_metadata(stem: Seq<char>) -> FilenameMetadataView {
    let normalised = collapse_spaces(replace_char(stem, '_', ' '));
    let (prefix, rest) = split_bracket(normalised);
    let publisher0 = match prefix {
        Some(p) => Some(clean_text(p)),
        None => None,
    };
    let (core, tokens) = split_parens(trim(rest));
    let (year, publisher) = scan_tokens(tokens, None, publisher0);
    let (core2, volume) = split_volume(core);
    let (series_part, number) = split_issue(core2);
    let series = clean_text(series_part);
    FilenameMetadataView {
        series: if series.len() > 0 {
            Some(series)
        } else {
            None
        },
        number,
        volume,
        year,
        publisher,
        title: if series.len() > 0 {
            Some(title_of(series, number, volume))
        } else {
            None
        },
    }
}

/// `Path::file_stem` of a path, as text.
pub uninterp spec fn path_file_stem(path: Seq<char>) -> Option<Seq<char>>;

/// Calls `std::path::Path::file_stem` on `path`.  Trusted: the result is the
/// one named by [`path_file_stem`]; the stem of a `&str` path is valid
/// UTF-8, so the conversion back to text never fails.
#[verifier::external_body]
fn file_stem_of(path: &str) -> (res: Option<Vec<char>>)
    ensures
        opt_chars(res) == path_file_stem(path@),
{
    match std::path::Path::new(path).file_stem() {
        Some(os) => match os.to_str() {
            Some(s) => Some(s.chars().collect()),
            None => None,
        },
        None => None,
    }
}

// ---------------------------------------------------------------------------
// Parser
// ---------------------------------------------------------------------------

/// Parse as much comic metadata as possible from `path`'s file stem.
///
/// Only the file stem (no directory, no extension) is examined.
pub fn parse_filename(path: &str) -> (res: FilenameMetadata)
    ensures
        res@ == match path_file_stem(path@) {
            Some(stem) => stem_metadata(stem),
            None => empty_metadata(),
        },
{
    match file_stem_of(path) {
        Some(stem) => parse_stem_chars(&stem),
        None => FilenameMetadata::default(),
    }
}

/// Parse a bare file stem string (no extension).
pub fn parse_stem(stem: &str) -> (res: FilenameMetadata)
    ensures
        res@ == stem_metadata(stem@),
{
    let s = to_chars(stem);
    parse_stem_chars(&s)
}

fn opt_string(v: Option<Vec<char>>) -> (res: Option<String>)
    ensures
        res.deep_view() == opt_chars(v),
{
    match v {
        Some(c) => Some(string_from_chars(&c)),
        None => None,
    }
}

/// The parser on the characters of a stem.
pub fn parse_stem_chars(stem: &[char]) -> (res: FilenameMetadata)
    ensures
        res@ == stem_metadata(stem@),
{
    // Normalise underscores and multiple spaces → single space
    let underscored = replace_char_exec(stem, '_', ' ');
    let normalised = collapse_spaces_exec(&underscored);

    // 1. Strip a leading `[Publisher]` block
    let (prefix, rest) = strip_leading_bracket_publisher(&normalised);
    let publisher0 = match prefix {
        Some(p) => Some(clean_string(&p)),
        None => None,
    };

    // 2. Collect trailing parenthesised tokens (year, publisher, misc)
    let (core, tokens) = strip_trailing_parens(&rest);
    let (year, publisher) = scan_trailing_tokens(&tokens, publisher0);

    // 3. Extract the volume
    let (core2, volume) = extract_volume(&core);

    // 4. Extract the issue number
    let (series_part, number) = extract_issue_number(&core2);

    // 5. Remaining text is the series name
    let series = clean_string(&series_part);
    if series.len() > 0 {
        let title = make_title(&series, &number, volume);
        FilenameMetadata {
            series: Some(string_from_chars(&series)),
            number: opt_string(number),
            volume,
            year,
            publisher: opt_string(publisher),
            title: Some(string_from_chars(&title)),
        }
    } else {
        FilenameMetadata {
            series: None,
            number: opt_string(number),
            volume,
            year,
            publisher: opt_string(publisher),
            title: None,
        }
    }
}

/// The title made from the series, number and volume.
pub fn make_title(series: &[char], number: &Option<Vec<char>>, volume: Option<i32>) -> (res: Vec<
    char,
>)
    ensures
        res@ == title_of(series@, opt_chars(*number), volume),
{
    let mut out = copy_chars(series);
    match number {
        Some(n) => {
            push_str(&mut out, " #");
            push_chars(&mut out, n);
        },
        None => match volume {
            Some(v) => {
                push_str(&mut out, " v");
                let d = i64_decimal(v as i64);
                push_chars(&mut out, &d);
            },
            None => {},
        },
    }
    out
}

// ---------------------------------------------------------------------------
// Helpers
// ---------------------------------------------------------------------------

/// Strip stray leading/trailing `- . , ' '`, then collapse spaces.
pub fn clean_string(s: &[char]) -> (res: Vec<char>)
    ensures
        res@ == clean_text(s@),
{
    let t = trim_set(s, TrimSet::Punct);
    collapse_spaces_exec(&t)
}

/// Tidy the core text after a matched token was cut out of it.
pub fn tidy_removed(s: &[char]) -> (res: Vec<char>)
    ensures
        res@ == tidy_text(s@),
{
    let a = trim_ws(s);
    let b = trim_set(&a, TrimSet::Dash);
    let c = trim_ws(&b);
    collapse_spaces_exec(&c)
}

/// Strip a leading `[something]` token; returns `(Some(publisher), rest)`.
pub fn strip_leading_bracket_publisher(s: &[char]) -> (res: (Option<Vec<char>>, Vec<char>))
    ensures
        (opt_chars(res.0), res.1@) == split_bracket(s@),
{
    if s.len() > 0 && s[0] == '[' {
        let rest = sub_chars(s, 1, s.len());
        let ghost spec_rest = s@.subrange(1, s@.len() as int);
        assert(rest@ == spec_rest);
        match find_char_exec(&rest, ']') {
            Some(close) => {
                let p0 = sub_chars(&rest, 0, close);
                let p = trim_ws(&p0);
                assert(find_char(spec_rest, ']') == Some(close as int));
                if p.len() > 0 {
                    let r0 = sub_chars(&rest, close + 1, rest.len());
                    let r = trim_ws(&r0);
                    assert(split_bracket(s@) == (Some(p@), r@));
                    return (Some(p), r);
                }
                assert(split_bracket(s@) == (None::<Seq<char>>, s@));
            },
            None => {},
        }
    }
    (None, copy_chars(s))
}

/// `s.trim_end()`.
fn trim_end_ws(s: &[char]) -> (res: Vec<char>)
    ensures
        res@ == trim_end(s@, TrimSet::Whitespace),
{
    let mut j: usize = s.len();
    assert(s@.subrange(0, j as int) =~= s@);
    while j > 0 && is_ws_exec(s[j - 1])
        invariant
            j <= s@.len(),
            trim_end(s@, TrimSet::Whitespace) == trim_end(
                s@.subrange(0, j as int),
                TrimSet::Whitespace,
            ),
        decreases j,
    {
        assert(s@.subrange(0, j as int).drop_last() =~= s@.subrange(0, j - 1));
        j -= 1;
    }
    sub_chars(s, 0, j)
}

/// The position of the `(` that balances the final `)` of `t`.
fn find_open_paren(t: &[char]) -> (res: Option<usize>)
    requires
        t@.len() > 0,
        t@.last() == ')',
    ensures
        match res {
            Some(p) => scan_open(t@, t@.len(), 0) == Some(p as int),
            None => scan_open(t@, t@.len(), 0) is None,
        },
{
    let n = t.len();
    let mut k: usize = n;
    let mut depth: usize = 0;
    while k > 0
        invariant
            n == t@.len(),
            k <= n,
            t@.last() == ')',
            scan_open(t@, n as nat, 0) == scan_open(t@, k as nat, depth as int),
            k < n ==> depth >= 1,
            depth <= n - k,
        decreases k,
    {
        let c = t[k - 1];
        if c == ')' {
            depth += 1;
        } else if c == '(' {
            depth -= 1;
            if depth == 0 {
                return Some(k - 1);
            }
        }
        k -= 1;
    }
    None
}

/// Strip zero or more trailing `(token)` groups.
///
/// Returns `(core, tokens_in_order)`.
pub fn strip_trailing_parens(s: &[char]) -> (res: (Vec<char>, Vec<Vec<char>>))
    ensures
        (res.0@, seqs_of(res.1@)) == split_parens(trim(s@)),
{
    let mut tokens: Vec<Vec<char>> = Vec::new();
    let mut working = trim_ws(s);
    loop
        invariant
            split_parens(trim(s@)) == ({
                let (c, t) = split_parens(working@);
                (c, t + seqs_of(tokens@))
            }),
        decreases working@.len(),
    {
        let trimmed = trim_end_ws(&working);
        assert(seqs_of(tokens@) =~= Seq::<Seq<char>>::empty() + seqs_of(tokens@));
        if !(trimmed.len() > 0 && trimmed[trimmed.len() - 1] == ')') {
            return (working, tokens);
        }
        match find_open_paren(&trimmed) {
            None => {
                return (working, tokens);
            },
            Some(pos) => {
                proof {
                    lemma_scan_open_range(trimmed@, trimmed@.len(), 0);
                    lemma_trim_end_last(working@, TrimSet::Whitespace);
                    lemma_trim_both_ends(trimmed@.subrange(0, pos as int), TrimSet::Whitespace);
                }
                let inner0 = sub_chars(&trimmed, pos + 1, trimmed.len() - 1);
                let inner = trim_ws(&inner0);
                let next0 = sub_chars(&trimmed, 0, pos);
                let next = trim_ws(&next0);
                let ghost old_tokens = seqs_of(tokens@);
                let ghost inner_v = inner@;
                tokens.insert(0, inner);
                assert(seqs_of(tokens@) =~= seq![inner_v] + old_tokens);
                let ghost pair = split_parens(next@);
                assert(split_parens(working@) == (pair.0, pair.1.push(inner_v)));
                assert(pair.1.push(inner_v) + old_tokens =~= pair.1 + seqs_of(tokens@));
                working = next;
            },
        }
    }
}

/// Try to parse a four-digit year in [1800, 2100].
pub fn parse_year(s: &[char]) -> (res: Option<i32>)
    ensures
        res == year_of(s@),
{
    let t = trim_ws(s);
    if t.len() == 4 {
        match parse_i32_exec(&t) {
            Some(y) => {
                if 1800 <= y && y <= 2100 {
                    return Some(y);
                }
            },
            None => {},
        }
    }
    None
}

/// Tokens that look like scan tags, digital, etc. – don't use as publisher.
pub fn looks_like_misc(s: &[char]) -> (res: bool)
    ensures
        res == is_misc_token(s@),
{
    let lower = to_lower(s);
    if eq_str(&lower, "digital") || eq_str(&lower, "hq") || eq_str(&lower, "scan") || eq_str(
        &lower,
        "scans",
    ) || eq_str(&lower, "webrip") || eq_str(&lower, "web") || eq_str(&lower, "cbz") || eq_str(
        &lower,
        "cbr",
    ) || eq_str(&lower, "epub") || eq_str(&lower, "pdf") {
        return true;
    }
    if lower.len() > 0 && lower[0] == 'v' {
        let rest = sub_chars(&lower, 1, lower.len());
        return all_digits_exec(&rest);
    }
    false
}

/// Fold the trailing tokens into a year and a publisher.
fn scan_trailing_tokens(tokens: &Vec<Vec<char>>, publisher0: Option<Vec<char>>) -> (res: (
    Option<i32>,
    Option<Vec<char>>,
))
    ensures
        (res.0, opt_chars(res.1)) == scan_tokens(seqs_of(tokens@), None, opt_chars(publisher0)),
{
    let mut year: Option<i32> = None;
    let mut publisher = publisher0;
    let mut i: usize = 0;
    let ghost all = seqs_of(tokens@);
    assert(all.subrange(0, all.len() as int) =~= all);
    while i < tokens.len()
        invariant
            i <= tokens@.len(),
            all == seqs_of(tokens@),
            scan_tokens(all, None, opt_chars(publisher0)) == scan_tokens(
                all.subrange(i as int, all.len() as int),
                year,
                opt_chars(publisher),
            ),
        decreases tokens@.len() - i,
    {
        let token = &tokens[i];
        assert(all[i as int] == token@);
        assert(all.subrange(i as int, all.len() as int).subrange(1, all.len() - i) =~= all.subrange(
            i + 1,
            all.len() as int,
        ));
        let mut handled = false;
        if year.is_none() {
            match parse_year(token) {
                Some(y) => {
                    year = Some(y);
                    handled = true;
                },
                None => {},
            }
        }
        if !handled {
            if publisher.is_none() && token.len() > 0 && !looks_like_misc(token) {
                publisher = Some(clean_string(token));
            }
        }
        i += 1;
    }
    (year, publisher)
}

/// The volume that a capture names.
pub fn volume_of_capture(cap: &Option<Capture>) -> (res: Option<i32>)
    ensures
        res == volume_of(capture_parts(*cap)),
{
    match cap {
        Some(c) => match &c.group {
            Some(g) => parse_i32_exec(g),
            None => None,
        },
        None => None,
    }
}

/// The issue number that a capture names.
pub fn number_of_capture(cap: &Option<Capture>) -> (res: Option<Vec<char>>)
    ensures
        opt_chars(res) == number_of(capture_parts(*cap)),
{
    match cap {
        Some(c) => match &c.group {
            Some(g) => Some(copy_chars(g)),
            None => None,
        },
        None => None,
    }
}

/// Extract the volume from the core string.
///
/// Recognises: `v01`, `v.01`, `vol01`, `vol.01`, `vol 01`, `volume 01`.
/// Returns `(core_without_volume, Some(volume_number))`.
pub fn extract_volume(s: &[char]) -> (res: (Vec<char>, Option<i32>))
    ensures
        (res.0@, res.1) == split_volume(s@),
{
    let text = string_from_chars(s);
    let cap = regex_captures(VOLUME_LONG, text.as_str());
    match volume_of_capture(&cap) {
        Some(v) => {
            let removed = regex_remove_first(VOLUME_LONG, text.as_str());
            return (tidy_removed(&removed), Some(v));
        },
        None => {},
    }
    let cap = regex_captures(VOLUME_SHORT, text.as_str());
    match volume_of_capture(&cap) {
        Some(v) => {
            let removed = regex_remove_first(VOLUME_SHORT, text.as_str());
            return (tidy_removed(&removed), Some(v));
        },
        None => {},
    }
    (copy_chars(s), None)
}

/// One issue-number pattern.
fn issue_with(s: &[char], text: &String, pattern: &str) -> (res: Option<(Vec<char>, Vec<char>)>)
    requires
        text@ == s@,
    ensures
        match split_issue_with(s@, pattern@) {
            Some((c, n)) => res matches Some(r) && r.0@ == c && r.1@ == n,
            None => res is None,
        },
{
    let cap = regex_captures(pattern, text.as_str());
    match number_of_capture(&cap) {
        Some(n) => {
            let removed = regex_remove_first(pattern, text.as_str());
            Some((tidy_removed(&removed), n))
        },
        None => None,
    }
}

/// Extract the issue/chapter number from the core string.
///
/// Priority:
/// 1. `#\d+` anywhere in the string
/// 2. `No.\d+` / `No \d+`
/// 3. `Chapter \d+` / `Ch.\d+` / `Ch \d+`
/// 4. A bare run of digits at the end of the string
///
/// Returns `(series_text, Some(issue_number_string))`.
pub fn extract_issue_number(s: &[char]) -> (res: (Vec<char>, Option<Vec<char>>))
    ensures
        (res.0@, opt_chars(res.1)) == split_issue(s@),
{
    let text = string_from_chars(s);
    match issue_with(s, &text, ISSUE_HASH) {
        Some((c, n)) => return (c, Some(n)),
        None => {},
    }
    match issue_with(s, &text, ISSUE_NO) {
        Some((c, n)) => return (c, Some(n)),
        None => {},
    }
    match issue_with(s, &text, ISSUE_CHAPTER) {
        Some((c, n)) => return (c, Some(n)),
        None => {},
    }
    match issue_with(s, &text, ISSUE_TRAILING) {
        Some((c, n)) => return (c, Some(n)),
        None => {},
    }
    (copy_chars(s), None)
}

// ---------------------------------------------------------------------------
// Laws
// ---------------------------------------------------------------------------

/// Underscores in a file stem are read as spaces.
pub proof fn law_underscores_are_spaces(stem: Seq<char>)
    ensures
        stem_metadata(stem) == stem_metadata(replace_char(stem, '_', ' ')),
{
    assert(replace_char(replace_char(stem, '_', ' '), '_', ' ') =~= replace_char(stem, '_', ' '));
}

proof fn lemma_scan_tokens_year(
    tokens: Seq<Seq<char>>,
    year: Option<i32>,
    publisher: Option<Seq<char>>,
)
    requires
        year matches Some(y) ==> 1800 <= y <= 2100,
    ensures
        scan_tokens(tokens, year, publisher).0 matches Some(y) ==> 1800 <= y <= 2100,
    decreases tokens.len(),
{
    if tokens.len() > 0 {
        let (y, p) = token_step(tokens[0], year, publisher);
        lemma_scan_tokens_year(tokens.subrange(1, tokens.len() as int), y, p);
    }
}

/// A year read from a file name lies in [1800, 2100].
pub proof fn law_year_in_range(stem: Seq<char>)
    ensures
        stem_metadata(stem).year matches Some(y) ==> 1800 <= y <= 2100,
{
    let normalised = collapse_spaces(replace_char(stem, '_', ' '));
    let (prefix, rest) = split_bracket(normalised);
    let publisher0 = match prefix {
        Some(p) => Some(clean_text(p)),
        None => None,
    };
    let (core, tokens) = split_parens(trim(rest));
    lemma_scan_tokens_year(tokens, None, publisher0);
}

/// There is a title exactly when there is a series, and the title begins
/// with the series.
pub proof fn law_title_follows_series(stem: Seq<char>)
    ensures
        stem_metadata(stem).series is None <==> stem_metadata(stem).title is None,
        stem_metadata(stem).series matches Some(series) ==> stem_metadata(stem).title matches Some(
            title,
        ) && series.len() <= title.len() && title.subrange(0, series.len() as int) == series,
{
    let m = stem_metadata(stem);
    if let Some(series) = m.series {
        let title = m.title.unwrap();
        assert(title.subrange(0, series.len() as int) =~= series);
    }
}

/// The title is `series #number` when an issue number was read, whatever
/// the volume; otherwise `series vN` when a volume was read; otherwise the
/// series alone.
pub proof fn law_title_format(stem: Seq<char>)
    ensures
        stem_metadata(stem).series matches Some(s) ==> (stem_metadata(stem).number matches Some(n)
            ==> stem_metadata(stem).title == Some(s + " #"@ + n)),
        stem_metadata(stem).series matches Some(s) ==> (stem_metadata(stem).number is None
            ==> (stem_metadata(stem).volume matches Some(v) ==> stem_metadata(stem).title == Some(
            s + " v"@ + int_decimal(v as int),
        ))),
        stem_metadata(stem).series matches Some(s) ==> (stem_metadata(stem).number is None
            && stem_metadata(stem).volume is None ==> stem_metadata(stem).title == Some(s)),
{
}

/// Cleaned text is trimmed of whitespace and holds no two adjacent spaces.
pub open spec fn is_tidy(t: Seq<char>) -> bool {
    &&& (t.len() > 0 ==> !is_ws(t[0]) && !is_ws(t.last()))
    &&& forall|k: int| 0 <= k < t.len() - 1 ==> !(#[trigger] t[k] == ' ' && t[k + 1] == ' ')
}

proof fn lemma_clean_is_tidy(s: Seq<char>)
    ensures
        is_tidy(clean_text(s)),
{
    let t = trim_both(s, TrimSet::Punct);
    lemma_collapse_no_double(t);
    lemma_trim_both_ends(squeeze_spaces(t), TrimSet::Whitespace);
}

/// A series or publisher read from a file name is non-empty, trimmed and
/// free of runs of spaces.
pub proof fn law_names_are_tidy(stem: Seq<char>)
    ensures
        stem_metadata(stem).series matches Some(series) ==> series.len() > 0 && is_tidy(series),
        stem_metadata(stem).publisher matches Some(p) ==> is_tidy(p),
{
    let normalised = collapse_spaces(replace_char(stem, '_', ' '));
    let (prefix, rest) = split_bracket(normalised);
    let publisher0 = match prefix {
        Some(p) => Some(clean_text(p)),
        None => None,
    };
    if let Some(p) = prefix {
        lemma_clean_is_tidy(p);
    }
    let (core, tokens) = split_parens(trim(rest));
    lemma_scan_tokens_tidy(tokens, None, publisher0);
    let (core2, volume) = split_volume(core);
    let (series_part, number) = split_issue(core2);
    lemma_clean_is_tidy(series_part);
}

proof fn lemma_scan_tokens_tidy(
    tokens: Seq<Seq<char>>,
    year: Option<i32>,
    publisher: Option<Seq<char>>,
)
    requires
        publisher matches Some(p) ==> is_tidy(p),
    ensures
        scan_tokens(tokens, year, publisher).1 matches Some(p) ==> is_tidy(p),
    decreases tokens.len(),
{
    if tokens.len() > 0 {
        lemma_clean_is_tidy(tokens[0]);
        let (y, p) = token_step(tokens[0], year, publisher);
        lemma_scan_tokens_tidy(tokens.subrange(1, tokens.len() as int), y, p);
    }
}

} // verus!
