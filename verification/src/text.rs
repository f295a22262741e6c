//! Character-sequence utilities shared by the parsers and serializers.
//!
//! Strings are processed as `Vec<char>` whose view is a `Seq<char>`; every
//! operation here is specified by an open spec function over `Seq<char>`.
use vstd::prelude::*;
use vstd::slice::slice_subrange;
use vstd::slice::slice_to_vec;

verus! {

// ---------------------------------------------------------------------------
// Conversions between `str` / `String` and `Vec<char>`
// ---------------------------------------------------------------------------

/// Collects the characters of a string slice.
pub fn to_chars(s: &str) -> (res: Vec<char>)
    ensures
        res@ == s@,
{
    let mut res: Vec<char> = Vec::new();
    for c in it: s.chars()
        invariant
            res@ == it.seq().take(it.index() as int),
            it.seq() == s@,
    {
        res.push(c);
    }
    res
}

/// Builds a `String` from its characters (`FromIterator<char>` for `String`).
#[verifier::external_body]
pub(crate) fn string_from_chars(v: &[char]) -> (res: String)
    ensures
        res@ == v@,
{
    v.iter().collect()
}

/// The view of an optional character vector.
pub open spec fn opt_chars(o: Option<Vec<char>>) -> Option<Seq<char>> {
    match o {
        Some(v) => Some(v@),
        None => None,
    }
}

/// The views of a sequence of character vectors.
pub open spec fn seqs_of(v: Seq<Vec<char>>) -> Seq<Seq<char>> {
    v.map_values(|x: Vec<char>| x@)
}

/// Copies a slice of characters into a fresh vector.
pub fn copy_chars(v: &[char]) -> (res: Vec<char>)
    ensures
        res@ == v@,
{
    slice_to_vec(v)
}

/// Copies `v[from..to]` into a fresh vector.
pub fn sub_chars(v: &[char], from: usize, to: usize) -> (res: Vec<char>)
    requires
        from <= to <= v@.len(),
    ensures
        res@ == v@.subrange(from as int, to as int),
{
    slice_to_vec(slice_subrange(v, from, to))
}

/// Appends the characters of a literal to `out`.
pub fn push_str(out: &mut Vec<char>, s: &str)
    ensures
        final(out)@ == old(out)@ + s@,
{
    let mut c = to_chars(s);
    out.append(&mut c);
}

/// Appends a character sequence to `out`.
pub fn push_chars(out: &mut Vec<char>, s: &[char])
    ensures
        final(out)@ == old(out)@ + s@,
{
    out.extend_from_slice(s);
}

// ---------------------------------------------------------------------------
// Equality, prefixes, containment
// ---------------------------------------------------------------------------

/// `a == b`, character by character.
pub fn chars_eq(a: &[char], b: &[char]) -> (res: bool)
    ensures
        res == (a@ == b@),
{
    if a.len() != b.len() {
        return false;
    }
    let mut i: usize = 0;
    while i < a.len()
        invariant
            a@.len() == b@.len(),
            i <= a@.len(),
            forall|j: int| 0 <= j < i ==> a@[j] == b@[j],
        decreases a@.len() - i,
    {
        if a[i] != b[i] {
            return false;
        }
        i += 1;
    }
    assert(a@ =~= b@);
    true
}

/// `a == lit`.
pub fn eq_str(a: &[char], lit: &str) -> (res: bool)
    ensures
        res == (a@ == lit@),
{
    let l = to_chars(lit);
    chars_eq(a, &l)
}

/// `needle` occurs in `s` starting at position `i`.
pub open spec fn occurs_at(s: Seq<char>, needle: Seq<char>, i: int) -> bool {
    0 <= i && i + needle.len() <= s.len() && s.subrange(i, i + needle.len()) == needle
}

/// `needle` occurs somewhere in `s` (`str::contains`).
pub open spec fn contains_seq(s: Seq<char>, needle: Seq<char>) -> bool {
    exists|i: int| occurs_at(s, needle, i)
}

/// `s.ends_with(suffix)`.
pub open spec fn ends_with(s: Seq<char>, suffix: Seq<char>) -> bool {
    suffix.len() <= s.len() && s.subrange(s.len() - suffix.len(), s.len() as int) == suffix
}

fn occurs_at_exec(s: &[char], needle: &[char], i: usize) -> (res: bool)
    requires
        i + needle@.len() <= s@.len(),
    ensures
        res == occurs_at(s@, needle@, i as int),
{
    let mut k: usize = 0;
    let slen = s.len();
    while k < needle.len()
        invariant
            slen == s@.len(),
            i + needle@.len() <= s@.len(),
            k <= needle@.len(),
            forall|j: int| 0 <= j < k ==> s@[i + j] == needle@[j],
        decreases needle@.len() - k,
    {
        assert(i + k < s@.len());
        if s[i + k] != needle[k] {
            assert(s@.subrange(i as int, i + needle@.len())[k as int] != needle@[k as int]);
            return false;
        }
        k += 1;
    }
    assert(s@.subrange(i as int, i + needle@.len()) =~= needle@);
    true
}

/// `s.contains(needle)`.
pub fn contains(s: &[char], needle: &[char]) -> (res: bool)
    ensures
        res == contains_seq(s@, needle@),
{
    if needle.len() > s.len() {
        return false;
    }
    if needle.len() == 0 {
        assert(s@.subrange(0, 0) =~= needle@);
        assert(occurs_at(s@, needle@, 0));
        return true;
    }
    let last = s.len() - needle.len();
    let mut i: usize = 0;
    while i <= last
        invariant
            last == s@.len() - needle@.len(),
            last < s@.len(),
            last < usize::MAX,
            i <= last + 1,
            forall|j: int| 0 <= j < i ==> !occurs_at(s@, needle@, j),
        decreases last + 1 - i,
    {
        if occurs_at_exec(s, needle, i) {
            return true;
        }
        i += 1;
    }
    false
}

/// `s.contains(lit)`.
pub fn contains_str(s: &[char], lit: &str) -> (res: bool)
    ensures
        res == contains_seq(s@, lit@),
{
    let l = to_chars(lit);
    contains(s, &l)
}

/// `s.ends_with(suffix)`.
pub fn ends_with_str(s: &[char], suffix: &str) -> (res: bool)
    ensures
        res == ends_with(s@, suffix@),
{
    let l = to_chars(suffix);
    if l.len() > s.len() {
        return false;
    }
    let r = occurs_at_exec(s, &l, s.len() - l.len());
    r
}

/// Position of the first occurrence of `c` in `s` (`str::find` for a char).
pub open spec fn find_char(s: Seq<char>, c: char) -> Option<int>
    decreases s.len(),
{
    if s.len() == 0 {
        None
    } else if s[0] == c {
        Some(0)
    } else {
        match find_char(s.subrange(1, s.len() as int), c) {
            Some(k) => Some(k + 1),
            None => None,
        }
    }
}

proof fn lemma_find_char_shift(s: Seq<char>, c: char, i: int)
    requires
        0 <= i < s.len(),
        s[i] != c,
    ensures
        find_char(s.subrange(i, s.len() as int), c) == match find_char(
            s.subrange(i + 1, s.len() as int),
            c,
        ) {
            Some(k) => Some(k + 1),
            None => None::<int>,
        },
{
    assert(s.subrange(i, s.len() as int).subrange(1, s.len() - i) =~= s.subrange(
        i + 1,
        s.len() as int,
    ));
}

/// A found position holds the character.
pub proof fn lemma_find_char_range(s: Seq<char>, c: char)
    ensures
        find_char(s, c) matches Some(k) ==> 0 <= k < s.len() && s[k] == c,
    decreases s.len(),
{
    if s.len() > 0 && s[0] != c {
        lemma_find_char_range(s.subrange(1, s.len() as int), c);
    }
}

/// The first index of `c` in `s`.
pub fn find_char_exec(s: &[char], c: char) -> (res: Option<usize>)
    ensures
        match res {
            Some(k) => find_char(s@, c) == Some(k as int),
            None => find_char(s@, c) is None,
        },
        res matches Some(k) ==> k < s@.len() && s@[k as int] == c,
{
    proof {
        lemma_find_char_range(s@, c);
    }
    let mut i: usize = 0;
    assert(s@.subrange(0, s@.len() as int) =~= s@);
    while i < s.len()
        invariant
            i <= s@.len(),
            find_char(s@, c) == match find_char(s@.subrange(i as int, s@.len() as int), c) {
                Some(k) => Some(k + i),
                None => None::<int>,
            },
        decreases s@.len() - i,
    {
        if s[i] == c {
            return Some(i);
        }
        proof {
            lemma_find_char_shift(s@, c, i as int);
        }
        i += 1;
    }
    None
}

// ---------------------------------------------------------------------------
// Character maps
// ---------------------------------------------------------------------------

/// `char::to_ascii_lowercase`.
pub open spec fn ascii_lower(c: char) -> char {
    if 'A' <= c <= 'Z' {
        ((c as u32) + 32) as char
    } else {
        c
    }
}

/// `str::to_ascii_lowercase`.
pub open spec fn lower_seq(s: Seq<char>) -> Seq<char> {
    s.map_values(|c: char| ascii_lower(c))
}

pub fn ascii_lower_exec(c: char) -> (res: char)
    ensures
        res == ascii_lower(c),
{
    if 'A' <= c && c <= 'Z' {
        let v: u8 = ((c as u32) + 32) as u8;
        v as char
    } else {
        c
    }
}

/// `s.to_ascii_lowercase()`.
pub fn to_lower(s: &[char]) -> (res: Vec<char>)
    ensures
        res@ == lower_seq(s@),
{
    let mut out: Vec<char> = Vec::new();
    let mut i: usize = 0;
    while i < s.len()
        invariant
            i <= s@.len(),
            out@ =~= lower_seq(s@.take(i as int)),
        decreases s@.len() - i,
    {
        out.push(ascii_lower_exec(s[i]));
        assert(s@.take(i + 1) =~= s@.take(i as int).push(s@[i as int]));
        i += 1;
    }
    assert(s@.take(s@.len() as int) =~= s@);
    out
}

/// Replaces every `from` by `to`.
pub open spec fn replace_char(s: Seq<char>, from: char, to: char) -> Seq<char> {
    s.map_values(|c: char| if c == from { to } else { c })
}

pub fn replace_char_exec(s: &[char], from: char, to: char) -> (res: Vec<char>)
    ensures
        res@ == replace_char(s@, from, to),
{
    let mut out: Vec<char> = Vec::new();
    let mut i: usize = 0;
    while i < s.len()
        invariant
            i <= s@.len(),
            out@ =~= replace_char(s@.take(i as int), from, to),
        decreases s@.len() - i,
    {
        let c = s[i];
        out.push(if c == from { to } else { c });
        assert(s@.take(i + 1) =~= s@.take(i as int).push(s@[i as int]));
        i += 1;
    }
    assert(s@.take(s@.len() as int) =~= s@);
    out
}

// ---------------------------------------------------------------------------
// Trimming
// ---------------------------------------------------------------------------

/// `char::is_whitespace`: the Unicode `White_Space` property.
pub open spec fn is_ws(c: char) -> bool {
    ||| '\u{9}' <= c <= '\u{d}'
    ||| c == ' '
    ||| c == '\u{85}'
    ||| c == '\u{a0}'
    ||| c == '\u{1680}'
    ||| '\u{2000}' <= c <= '\u{200a}'
    ||| c == '\u{2028}'
    ||| c == '\u{2029}'
    ||| c == '\u{202f}'
    ||| c == '\u{205f}'
    ||| c == '\u{3000}'
}

pub fn is_ws_exec(c: char) -> (res: bool)
    ensures
        res == is_ws(c),
{
    ('\u{9}' <= c && c <= '\u{d}') || c == ' ' || c == '\u{85}' || c == '\u{a0}' || c
        == '\u{1680}' || ('\u{2000}' <= c && c <= '\u{200a}') || c == '\u{2028}' || c
        == '\u{2029}' || c == '\u{202f}' || c == '\u{205f}' || c == '\u{3000}'
}

/// The sets of characters that the parsers trim away.
#[derive(Clone, Copy, Debug, PartialEq, Eq)]
pub enum TrimSet {
    /// Unicode whitespace (`str::trim`).
    Whitespace,
    /// `'-'` only.
    Dash,
    /// `'-'`, `'.'`, `','` and `' '`.
    Punct,
}

pub open spec fn in_set(set: TrimSet, c: char) -> bool {
    match set {
        TrimSet::Whitespace => is_ws(c),
        TrimSet::Dash => c == '-',
        TrimSet::Punct => c == '-' || c == '.' || c == ',' || c == ' ',
    }
}

fn in_set_exec(set: TrimSet, c: char) -> (res: bool)
    ensures
        res == in_set(set, c),
{
    match set {
        TrimSet::Whitespace => is_ws_exec(c),
        TrimSet::Dash => c == '-',
        TrimSet::Punct => c == '-' || c == '.' || c == ',' || c == ' ',
    }
}

/// Removes the leading characters of `set`.
pub open spec fn trim_start(s: Seq<char>, set: TrimSet) -> Seq<char>
    decreases s.len(),
{
    if s.len() > 0 && in_set(set, s[0]) {
        trim_start(s.subrange(1, s.len() as int), set)
    } else {
        s
    }
}

/// Removes the trailing characters of `set`.
pub open spec fn trim_end(s: Seq<char>, set: TrimSet) -> Seq<char>
    decreases s.len(),
{
    if s.len() > 0 && in_set(set, s.last()) {
        trim_end(s.drop_last(), set)
    } else {
        s
    }
}

/// Removes the characters of `set` at both ends (`str::trim_matches`).
pub open spec fn trim_both(s: Seq<char>, set: TrimSet) -> Seq<char> {
    trim_end(trim_start(s, set), set)
}

/// `str::trim`.
pub open spec fn trim(s: Seq<char>) -> Seq<char> {
    trim_both(s, TrimSet::Whitespace)
}

/// The result of `trim_start` does not begin with a character of the set.
pub proof fn lemma_trim_start_first(s: Seq<char>, set: TrimSet)
    ensures
        trim_start(s, set).len() > 0 ==> !in_set(set, trim_start(s, set)[0]),
        trim_start(s, set).len() <= s.len(),
    decreases s.len(),
{
    if s.len() > 0 && in_set(set, s[0]) {
        lemma_trim_start_first(s.subrange(1, s.len() as int), set);
    }
}

/// The result of `trim_end` does not end with a character of the set.
pub proof fn lemma_trim_end_last(s: Seq<char>, set: TrimSet)
    ensures
        trim_end(s, set).len() > 0 ==> !in_set(set, trim_end(s, set).last()),
        trim_end(s, set).len() <= s.len(),
        trim_end(s, set) == s.subrange(0, trim_end(s, set).len() as int),
    decreases s.len(),
{
    if s.len() > 0 && in_set(set, s.last()) {
        lemma_trim_end_last(s.drop_last(), set);
        assert(s.drop_last().subrange(0, trim_end(s, set).len() as int) =~= s.subrange(
            0,
            trim_end(s, set).len() as int,
        ));
    } else {
        assert(s.subrange(0, s.len() as int) =~= s);
    }
}

/// A trimmed sequence begins and ends outside the trimmed set.
pub proof fn lemma_trim_both_ends(s: Seq<char>, set: TrimSet)
    ensures
        trim_both(s, set).len() > 0 ==> !in_set(set, trim_both(s, set)[0]) && !in_set(
            set,
            trim_both(s, set).last(),
        ),
        trim_both(s, set).len() <= s.len(),
{
    let t = trim_start(s, set);
    lemma_trim_start_first(s, set);
    lemma_trim_end_last(t, set);
    if trim_end(t, set).len() > 0 {
        assert(trim_end(t, set)[0] == t[0]);
    }
}

/// `s.trim_matches(set)`.
pub fn trim_set(s: &[char], set: TrimSet) -> (res: Vec<char>)
    ensures
        res@ == trim_both(s@, set),
{
    let n = s.len();
    let mut i: usize = 0;
    assert(s@.subrange(0, n as int) =~= s@);
    while i < n && in_set_exec(set, s[i])
        invariant
            n == s@.len(),
            i <= n,
            trim_start(s@, set) == trim_start(s@.subrange(i as int, n as int), set),
        decreases n - i,
    {
        assert(s@.subrange(i as int, n as int).subrange(1, n - i) =~= s@.subrange(
            i + 1,
            n as int,
        ));
        i += 1;
    }
    let ghost t = s@.subrange(i as int, n as int);
    assert(trim_start(s@, set) == t);
    let mut j: usize = n;
    while j > i && in_set_exec(set, s[j - 1])
        invariant
            n == s@.len(),
            i <= j <= n,
            t == s@.subrange(i as int, n as int),
            trim_end(t, set) == trim_end(s@.subrange(i as int, j as int), set),
        decreases j,
    {
        assert(s@.subrange(i as int, j as int).drop_last() =~= s@.subrange(
            i as int,
            j - 1,
        ));
        j -= 1;
    }
    sub_chars(s, i, j)
}

/// `s.trim()`.
pub fn trim_ws(s: &[char]) -> (res: Vec<char>)
    ensures
        res@ == trim(s@),
{
    trim_set(s, TrimSet::Whitespace)
}

// ---------------------------------------------------------------------------
// Space collapsing
// ---------------------------------------------------------------------------

/// Keeps only the first space of every run of spaces.
pub open spec fn squeeze_spaces(s: Seq<char>) -> Seq<char>
    decreases s.len(),
{
    if s.len() == 0 {
        Seq::empty()
    } else {
        let p = squeeze_spaces(s.drop_last());
        if s.last() == ' ' && s.len() >= 2 && s[s.len() - 2] == ' ' {
            p
        } else {
            p.push(s.last())
        }
    }
}

/// Runs of spaces become one space, then whitespace is trimmed at both ends.
pub open spec fn collapse_spaces(s: Seq<char>) -> Seq<char> {
    trim(squeeze_spaces(s))
}

/// `squeeze_spaces` leaves no two adjacent spaces.
pub proof fn lemma_squeeze_no_double(s: Seq<char>)
    ensures
        forall|k: int|
            0 <= k < squeeze_spaces(s).len() - 1 ==> !(#[trigger] squeeze_spaces(s)[k] == ' '
                && squeeze_spaces(s)[k + 1] == ' '),
        squeeze_spaces(s).len() > 0 ==> squeeze_spaces(s).last() == s.last(),
        squeeze_spaces(s).len() == 0 <==> s.len() == 0,
    decreases s.len(),
{
    if s.len() > 0 {
        lemma_squeeze_no_double(s.drop_last());
        let p = squeeze_spaces(s.drop_last());
        if s.last() == ' ' && s.len() >= 2 && s[s.len() - 2] == ' ' {
        } else {
            assert forall|k: int|
                0 <= k < p.push(s.last()).len() - 1 implies !(#[trigger] p.push(s.last())[k]
                == ' ' && p.push(s.last())[k + 1] == ' ') by {
                if k == p.len() - 1 {
                    if s.last() == ' ' {
                        assert(p.last() == s.drop_last().last());
                    }
                }
            }
        }
    }
}

/// No two adjacent spaces remain after `collapse_spaces`.
pub proof fn lemma_collapse_no_double(s: Seq<char>)
    ensures
        forall|k: int|
            0 <= k < collapse_spaces(s).len() - 1 ==> !(#[trigger] collapse_spaces(s)[k] == ' '
                && collapse_spaces(s)[k + 1] == ' '),
{
    let q = squeeze_spaces(s);
    lemma_squeeze_no_double(s);
    let t = trim_start(q, TrimSet::Whitespace);
    lemma_trim_start_suffix(q, TrimSet::Whitespace);
    lemma_trim_end_last(t, TrimSet::Whitespace);
    let r = collapse_spaces(s);
    let off = q.len() - t.len();
    assert forall|k: int| 0 <= k < r.len() - 1 implies !(#[trigger] r[k] == ' ' && r[k + 1]
        == ' ') by {
        assert(r[k] == t[k]);
        assert(r[k + 1] == t[k + 1]);
        assert(t[k] == q[k + off]);
        assert(t[k + 1] == q[k + 1 + off]);
    }
}

/// `trim_start` keeps a suffix of its input.
pub proof fn lemma_trim_start_suffix(s: Seq<char>, set: TrimSet)
    ensures
        trim_start(s, set).len() <= s.len(),
        trim_start(s, set) == s.subrange(s.len() - trim_start(s, set).len(), s.len() as int),
    decreases s.len(),
{
    if s.len() > 0 && in_set(set, s[0]) {
        let r = s.subrange(1, s.len() as int);
        lemma_trim_start_suffix(r, set);
        assert(r.subrange(r.len() - trim_start(r, set).len(), r.len() as int) =~= s.subrange(
            s.len() - trim_start(r, set).len(),
            s.len() as int,
        ));
    } else {
        assert(s.subrange(0, s.len() as int) =~= s);
    }
}

/// The collapsing routine of the filename parser.
pub fn collapse_spaces_exec(s: &[char]) -> (res: Vec<char>)
    ensures
        res@ == collapse_spaces(s@),
{
    let mut out: Vec<char> = Vec::new();
    let mut prev_space = false;
    let mut i: usize = 0;
    while i < s.len()
        invariant
            i <= s@.len(),
            out@ == squeeze_spaces(s@.take(i as int)),
            prev_space == (i > 0 && s@[i - 1] == ' '),
        decreases s@.len() - i,
    {
        let ch = s[i];
        assert(s@.take(i + 1).drop_last() =~= s@.take(i as int));
        if ch == ' ' {
            if !prev_space {
                out.push(' ');
            }
            prev_space = true;
        } else {
            out.push(ch);
            prev_space = false;
        }
        i += 1;
    }
    assert(s@.take(s@.len() as int) =~= s@);
    trim_ws(&out)
}

// ---------------------------------------------------------------------------
// Decimal numbers
// ---------------------------------------------------------------------------

/// The ASCII digit for `d < 10`.
pub open spec fn digit_char(d: nat) -> char {
    (d + 48) as char
}

/// `n.to_string()` for a natural number.
pub open spec fn nat_decimal(n: nat) -> Seq<char>
    decreases n,
{
    if n < 10 {
        seq![digit_char(n)]
    } else {
        nat_decimal(n / 10).push(digit_char(n % 10))
    }
}

/// `v.to_string()` for an integer.
pub open spec fn int_decimal(v: int) -> Seq<char> {
    if v < 0 {
        seq!['-'] + nat_decimal((-v) as nat)
    } else {
        nat_decimal(v as nat)
    }
}

/// `format!("{:02}", v)`: zero-padded to width 2.
pub open spec fn int_decimal_pad2(v: int) -> Seq<char> {
    if int_decimal(v).len() < 2 {
        seq!['0'] + int_decimal(v)
    } else {
        int_decimal(v)
    }
}

fn digit_exec(d: u64) -> (res: char)
    requires
        d < 10,
    ensures
        res == digit_char(d as nat),
{
    let v: u8 = (d as u8) + 48;
    v as char
}

/// `n.to_string()`.
pub fn u64_decimal(n: u64) -> (res: Vec<char>)
    ensures
        res@ == nat_decimal(n as nat),
{
    let mut acc: Vec<char> = Vec::new();
    let mut rem: u64 = n;
    while rem >= 10
        invariant
            nat_decimal(n as nat) == nat_decimal(rem as nat) + acc@,
        decreases rem,
    {
        let d = rem % 10;
        let c = digit_exec(d);
        assert(nat_decimal(rem as nat) == nat_decimal((rem / 10) as nat) + seq![c]);
        assert(nat_decimal((rem / 10) as nat) + seq![c] + acc@ =~= nat_decimal(
            (rem / 10) as nat,
        ) + acc@.insert(0, c));
        acc.insert(0, c);
        rem = rem / 10;
    }
    let c = digit_exec(rem);
    assert(seq![c] + acc@ =~= acc@.insert(0, c));
    acc.insert(0, c);
    acc
}

/// `v.to_string()` for an `i64`.
pub fn i64_decimal(v: i64) -> (res: Vec<char>)
    ensures
        res@ == int_decimal(v as int),
{
    if v < 0 {
        let mag: u64 = if v == i64::MIN {
            9223372036854775808u64
        } else {
            (-v) as u64
        };
        let digits = u64_decimal(mag);
        let mut out: Vec<char> = Vec::new();
        out.push('-');
        let mut d = digits;
        out.append(&mut d);
        out
    } else {
        u64_decimal(v as u64)
    }
}

/// `format!("{:02}", v)`.
pub fn i64_decimal_pad2(v: i64) -> (res: Vec<char>)
    ensures
        res@ == int_decimal_pad2(v as int),
{
    let d = i64_decimal(v);
    if d.len() < 2 {
        let mut out: Vec<char> = Vec::new();
        out.push('0');
        let mut dd = d;
        out.append(&mut dd);
        out
    } else {
        d
    }
}

/// `c.is_ascii_digit()`.
pub open spec fn is_digit(c: char) -> bool {
    '0' <= c <= '9'
}

/// Every character is an ASCII digit.
pub open spec fn all_digits(s: Seq<char>) -> bool {
    forall|i: int| 0 <= i < s.len() ==> is_digit(#[trigger] s[i])
}

/// `s.chars().all(|c| c.is_ascii_digit())`.
pub fn all_digits_exec(s: &[char]) -> (res: bool)
    ensures
        res == all_digits(s@),
{
    let mut i: usize = 0;
    while i < s.len()
        invariant
            i <= s@.len(),
            forall|j: int| 0 <= j < i ==> is_digit(#[trigger] s@[j]),
        decreases s@.len() - i,
    {
        if !('0' <= s[i] && s[i] <= '9') {
            return false;
        }
        i += 1;
    }
    true
}

/// The value of a run of ASCII digits.
pub open spec fn digits_value(s: Seq<char>) -> nat
    decreases s.len(),
{
    if s.len() == 0 {
        0
    } else {
        digits_value(s.drop_last()) * 10 + ((s.last() as u32) - 48) as nat
    }
}

/// `s.parse::<i32>().ok()`: an optional sign followed by at least one ASCII
/// digit, whose value fits in an `i32`.
pub open spec fn parse_i32(s: Seq<char>) -> Option<i32> {
    let neg = s.len() > 0 && s[0] == '-';
    let digits = if s.len() > 0 && (s[0] == '-' || s[0] == '+') {
        s.subrange(1, s.len() as int)
    } else {
        s
    };
    if digits.len() == 0 || !all_digits(digits) {
        None
    } else {
        let v: int = if neg {
            -(digits_value(digits) as int)
        } else {
            digits_value(digits) as int
        };
        if i32::MIN <= v <= i32::MAX {
            Some(v as i32)
        } else {
            None
        }
    }
}

proof fn lemma_digits_value_grows(s: Seq<char>, i: int)
    requires
        0 <= i <= s.len(),
        all_digits(s),
    ensures
        digits_value(s.take(i)) <= digits_value(s),
    decreases s.len() - i,
{
    if i < s.len() {
        lemma_digits_value_grows(s, i + 1);
        assert(s.take(i + 1).drop_last() =~= s.take(i));
        assert(is_digit(s[i]));
    } else {
        assert(s.take(i) =~= s);
    }
}

/// `s.parse::<i32>().ok()`.
pub fn parse_i32_exec(s: &[char]) -> (res: Option<i32>)
    ensures
        res == parse_i32(s@),
{
    let n = s.len();
    let neg = n > 0 && s[0] == '-';
    let start: usize = if n > 0 && (s[0] == '-' || s[0] == '+') {
        1
    } else {
        0
    };
    let ghost digits = s@.subrange(start as int, n as int);
    assert(n > 0 ==> s[0] == s@[0]);
    if start == 0 {
        assert(digits =~= s@);
    }
    assert(digits == (if s@.len() > 0 && (s@[0] == '-' || s@[0] == '+') {
        s@.subrange(1, s@.len() as int)
    } else {
        s@
    }));
    assert(neg == (s@.len() > 0 && s@[0] == '-'));
    if start >= n {
        assert(digits.len() == 0);
        return None;
    }
    let mut k: usize = start;
    while k < n
        invariant
            start <= k <= n,
            n == s@.len(),
            digits == s@.subrange(start as int, n as int),
            digits == (if s@.len() > 0 && (s@[0] == '-' || s@[0] == '+') {
                s@.subrange(1, s@.len() as int)
            } else {
                s@
            }),
            forall|j: int| start <= j < k ==> is_digit(#[trigger] s@[j]),
        decreases n - k,
    {
        if !('0' <= s[k] && s[k] <= '9') {
            assert(digits[k - start] == s@[k as int]);
            assert(!is_digit(digits[k - start]));
            assert(!all_digits(digits));
            return None;
        }
        k += 1;
    }
    assert forall|j: int| 0 <= j < digits.len() implies is_digit(#[trigger] digits[j]) by {
        assert(digits[j] == s@[start + j]);
    }
    assert(digits.take(0) =~= Seq::<char>::empty());
    let mut acc: i64 = 0;
    let mut i: usize = start;
    while i < n
        invariant
            start <= i <= n,
            n == s@.len(),
            digits == s@.subrange(start as int, n as int),
            all_digits(digits),
            acc as int == digits_value(digits.take(i - start)),
            acc <= 2147483648,
            neg == (s@.len() > 0 && s@[0] == '-'),
            digits == (if s@.len() > 0 && (s@[0] == '-' || s@[0] == '+') {
                s@.subrange(1, s@.len() as int)
            } else {
                s@
            }),
        decreases n - i,
    {
        assert(digits.take(i - start + 1).drop_last() =~= digits.take(i - start));
        assert(digits[i - start] == s@[i as int]);
        let d: i64 = ((s[i] as u32) - 48) as i64;
        acc = acc * 10 + d;
        i += 1;
        if acc > 2147483648 {
            proof {
                lemma_digits_value_grows(digits, i - start);
            }
            assert(digits_value(digits) > 2147483648);
            return None;
        }
    }
    assert(digits.take(n - start) =~= digits);
    if neg {
        Some((-acc) as i32)
    } else if acc > 2147483647 {
        None
    } else {
        Some(acc as i32)
    }
}

} // verus!
