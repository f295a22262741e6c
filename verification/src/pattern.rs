//! Regular-expression searches, through the `regex` crate.
//!
//! The matching engine is outside code: what a pattern matches is named by
//! [`regex_first_capture`] and never spelled out here.  Everything the parsers
//! do with a match is verified against that name.
use vstd::prelude::*;

verus! {

/// What `regex::Regex::new(pattern)` followed by `Regex::captures(text)`
/// yields: `None` when the pattern does not compile or nothing matches;
/// otherwise the text before the leftmost-first match, the match itself,
/// capture group 1 (`None` when it took no part in the match) and the text
/// after the match.
pub uninterp spec fn regex_first_capture(pattern: Seq<char>, text: Seq<char>) -> Option<
    (Seq<char>, Seq<char>, Option<Seq<char>>, Seq<char>),
>;

/// The leftmost-first match of a pattern, split around the match.
pub struct Capture {
    /// Text before the match.
    pub before: Vec<char>,
    /// The whole match (capture group 0).
    pub matched: Vec<char>,
    /// Capture group 1, when it took part in the match.
    pub group: Option<Vec<char>>,
    /// Text after the match.
    pub after: Vec<char>,
}

impl Capture {
    pub open spec fn parts(self) -> (Seq<char>, Seq<char>, Option<Seq<char>>, Seq<char>) {
        (
            self.before@,
            self.matched@,
            match self.group {
                Some(g) => Some(g@),
                None => None,
            },
            self.after@,
        )
    }
}

/// The view of an optional capture.
pub open spec fn capture_parts(c: Option<Capture>) -> Option<
    (Seq<char>, Seq<char>, Option<Seq<char>>, Seq<char>),
> {
    match c {
        Some(c) => Some(c.parts()),
        None => None,
    }
}

/// The text left when the first match is removed (`Regex::replace(text, "")`).
pub open spec fn removal(pattern: Seq<char>, text: Seq<char>) -> Seq<char> {
    match regex_first_capture(pattern, text) {
        Some((b, m, g, a)) => b + a,
        None => text,
    }
}

/// Compiles `pattern` with `regex::Regex::new` and calls `Regex::captures`
/// on `text`.  Trusted: the result is the one named by
/// [`regex_first_capture`], and the three pieces around the match put
/// together give `text` back (match offsets are positions in the haystack).
#[verifier::external_body]
pub(crate) fn regex_captures(pattern: &str, text: &str) -> (res: Option<Capture>)
    ensures
        capture_parts(res) == regex_first_capture(pattern@, text@),
        res matches Some(c) ==> c.before@ + c.matched@ + c.after@ == text@,
{
    let re = regex::Regex::new(pattern).ok()?;
    let caps = re.captures(text)?;
    let whole = caps.get(0)?;
    let group = match caps.get(1) {
        Some(g) => Some(g.as_str().chars().collect()),
        None => None,
    };
    Some(Capture {
        before: text[..whole.start()].chars().collect(),
        matched: whole.as_str().chars().collect(),
        group,
        after: text[whole.end()..].chars().collect(),
    })
}

/// Compiles `pattern` with `regex::Regex::new` and calls
/// `Regex::replace(text, "")`.  Trusted: `replace` removes the same
/// leftmost-first match that `captures` reports, and returns the text
/// unchanged when there is none; a pattern that does not compile leaves the
/// text unchanged too.
#[verifier::external_body]
pub(crate) fn regex_remove_first(pattern: &str, text: &str) -> (res: Vec<char>)
    ensures
        res@ == removal(pattern@, text@),
{
    match regex::Regex::new(pattern) {
        Ok(re) => re.replace(text, "").chars().collect(),
        Err(_) => text.chars().collect(),
    }
}

} // verus!
