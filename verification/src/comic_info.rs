//! ComicInfo v2.0 data structures and XML serialization.
//!
//! Schema reference: comicinfo/schema/v2.0/ComicInfo.xsd
use vstd::prelude::*;

use crate::text::{
    i64_decimal, int_decimal, nat_decimal, push_chars, push_str, string_from_chars, to_chars,
    eq_str, u64_decimal, digit_char, occurs_at,
};

verus! {

// ---------------------------------------------------------------------------
// Enum types
// ---------------------------------------------------------------------------

#[derive(Debug, Clone, Copy, PartialEq, Eq, Structural)]
pub enum YesNo {
    Unknown,
    No,
    Yes,
}

/// The schema spelling of a [`YesNo`].
pub open spec fn yes_no_text(v: YesNo) -> Seq<char> {
    match v {
        YesNo::Unknown => "Unknown"@,
        YesNo::No => "No"@,
        YesNo::Yes => "Yes"@,
    }
}

/// The value that [`YesNo::from_str`] reads from a spelling.
pub open spec fn yes_no_of(s: Seq<char>) -> YesNo {
    if s == "Yes"@ || s == "yes"@ || s == "true"@ {
        YesNo::Yes
    } else if s == "No"@ || s == "no"@ || s == "false"@ {
        YesNo::No
    } else {
        YesNo::Unknown
    }
}

impl Default for YesNo {
    fn default() -> (res: Self)
        ensures
            res == YesNo::Unknown,
    {
        YesNo::Unknown
    }
}

impl YesNo {
    pub fn as_str(&self) -> (res: &'static str)
        ensures
            res@ == yes_no_text(*self),
    {
        match self {
            YesNo::Unknown => "Unknown",
            YesNo::No => "No",
            YesNo::Yes => "Yes",
        }
    }

    pub fn from_str(s: &str) -> (res: Self)
        ensures
            res == yes_no_of(s@),
    {
        let c = to_chars(s);
        if eq_str(&c, "Yes") || eq_str(&c, "yes") || eq_str(&c, "true") {
            YesNo::Yes
        } else if eq_str(&c, "No") || eq_str(&c, "no") || eq_str(&c, "false") {
            YesNo::No
        } else {
            YesNo::Unknown
        }
    }
}

#[derive(Debug, Clone, Copy, PartialEq, Eq, Structural)]
pub enum Manga {
    Unknown,
    No,
    Yes,
    YesAndRightToLeft,
}

/// The schema spelling of a [`Manga`].
pub open spec fn manga_text(v: Manga) -> Seq<char> {
    match v {
        Manga::Unknown => "Unknown"@,
        Manga::No => "No"@,
        Manga::Yes => "Yes"@,
        Manga::YesAndRightToLeft => "YesAndRightToLeft"@,
    }
}

/// The value that [`Manga::from_str`] reads from a spelling.
pub open spec fn manga_of(s: Seq<char>) -> Manga {
    if s == "Yes"@ || s == "yes"@ {
        Manga::Yes
    } else if s == "No"@ || s == "no"@ {
        Manga::No
    } else if s == "YesAndRightToLeft"@ || s == "yes-rtl"@ || s == "rtl"@ {
        Manga::YesAndRightToLeft
    } else {
        Manga::Unknown
    }
}

impl Default for Manga {
    fn default() -> (res: Self)
        ensures
            res == Manga::Unknown,
    {
        Manga::Unknown
    }
}

impl Manga {
    pub fn as_str(&self) -> (res: &'static str)
        ensures
            res@ == manga_text(*self),
    {
        match self {
            Manga::Unknown => "Unknown",
            Manga::No => "No",
            Manga::Yes => "Yes",
            Manga::YesAndRightToLeft => "YesAndRightToLeft",
        }
    }

    pub fn from_str(s: &str) -> (res: Self)
        ensures
            res == manga_of(s@),
    {
        let c = to_chars(s);
        if eq_str(&c, "Yes") || eq_str(&c, "yes") {
            Manga::Yes
        } else if eq_str(&c, "No") || eq_str(&c, "no") {
            Manga::No
        } else if eq_str(&c, "YesAndRightToLeft") || eq_str(&c, "yes-rtl") || eq_str(&c, "rtl") {
            Manga::YesAndRightToLeft
        } else {
            Manga::Unknown
        }
    }
}

#[derive(Debug, Clone, Copy, PartialEq, Eq, Structural)]
pub enum AgeRating {
    Unknown,
    AdultsOnly18,
    EarlyChildhood,
    Everyone,
    Everyone10Plus,
    G,
    KidsToAdults,
    M,
    Ma15Plus,
    Mature17Plus,
    Pg,
    R18Plus,
    RatingPending,
    Teen,
    X18Plus,
}

/// The schema spelling of an [`AgeRating`].
pub open spec fn age_rating_text(v: AgeRating) -> Seq<char> {
    match v {
        AgeRating::Unknown => "Unknown"@,
        AgeRating::AdultsOnly18 => "Adults Only 18+"@,
        AgeRating::EarlyChildhood => "Early Childhood"@,
        AgeRating::Everyone => "Everyone"@,
        AgeRating::Everyone10Plus => "Everyone 10+"@,
        AgeRating::G => "G"@,
        AgeRating::KidsToAdults => "Kids to Adults"@,
        AgeRating::M => "M"@,
        AgeRating::Ma15Plus => "MA15+"@,
        AgeRating::Mature17Plus => "Mature 17+"@,
        AgeRating::Pg => "PG"@,
        AgeRating::R18Plus => "R18+"@,
        AgeRating::RatingPending => "Rating Pending"@,
        AgeRating::Teen => "Teen"@,
        AgeRating::X18Plus => "X18+"@,
    }
}

impl Default for AgeRating {
    fn default() -> (res: Self)
        ensures
            res == AgeRating::Unknown,
    {
        AgeRating::Unknown
    }
}

impl AgeRating {
    pub fn as_str(&self) -> (res: &'static str)
        ensures
            res@ == age_rating_text(*self),
    {
        match self {
            AgeRating::Unknown => "Unknown",
            AgeRating::AdultsOnly18 => "Adults Only 18+",
            AgeRating::EarlyChildhood => "Early Childhood",
            AgeRating::Everyone => "Everyone",
            AgeRating::Everyone10Plus => "Everyone 10+",
            AgeRating::G => "G",
            AgeRating::KidsToAdults => "Kids to Adults",
            AgeRating::M => "M",
            AgeRating::Ma15Plus => "MA15+",
            AgeRating::Mature17Plus => "Mature 17+",
            AgeRating::Pg => "PG",
            AgeRating::R18Plus => "R18+",
            AgeRating::RatingPending => "Rating Pending",
            AgeRating::Teen => "Teen",
            AgeRating::X18Plus => "X18+",
        }
    }
}

#[derive(Debug, Clone, Copy, PartialEq, Eq, Structural)]
pub enum PageType {
    FrontCover,
    InnerCover,
    Roundup,
    Story,
    Advertisement,
    Editorial,
    Letters,
    Preview,
    BackCover,
    Other,
    Deleted,
}

/// The schema spelling of a [`PageType`].
pub open spec fn page_type_text(v: PageType) -> Seq<char> {
    match v {
        PageType::FrontCover => "FrontCover"@,
        PageType::InnerCover => "InnerCover"@,
        PageType::Roundup => "Roundup"@,
        PageType::Story => "Story"@,
        PageType::Advertisement => "Advertisement"@,
        PageType::Editorial => "Editorial"@,
        PageType::Letters => "Letters"@,
        PageType::Preview => "Preview"@,
        PageType::BackCover => "BackCover"@,
        PageType::Other => "Other"@,
        PageType::Deleted => "Deleted"@,
    }
}

impl Default for PageType {
    fn default() -> (res: Self)
        ensures
            res == PageType::Story,
    {
        PageType::Story
    }
}

impl PageType {
    pub fn as_str(&self) -> (res: &'static str)
        ensures
            res@ == page_type_text(*self),
    {
        match self {
            PageType::FrontCover => "FrontCover",
            PageType::InnerCover => "InnerCover",
            PageType::Roundup => "Roundup",
            PageType::Story => "Story",
            PageType::Advertisement => "Advertisement",
            PageType::Editorial => "Editorial",
            PageType::Letters => "Letters",
            PageType::Preview => "Preview",
            PageType::BackCover => "BackCover",
            PageType::Other => "Other",
            PageType::Deleted => "Deleted",
        }
    }
}

// ---------------------------------------------------------------------------
// Page info
// ---------------------------------------------------------------------------

#[derive(Debug, Clone, Copy, PartialEq, Eq, Structural)]
pub struct PageInfo {
    /// 0-based page index.
    pub image: i32,
    pub page_type: PageType,
    pub double_page: bool,
    /// File size in bytes; 0 if unknown.
    pub image_size: u64,
    /// -1 if unknown.
    pub image_width: i32,
    /// -1 if unknown.
    pub image_height: i32,
}

impl PageInfo {
    pub fn new(image: i32, page_type: PageType) -> (res: Self)
        ensures
            res == (PageInfo {
                image,
                page_type,
                double_page: false,
                image_size: 0,
                image_width: -1i32,
                image_height: -1i32,
            }),
    {
        Self {
            image,
            page_type,
            double_page: false,
            image_size: 0,
            image_width: -1,
            image_height: -1,
        }
    }
}

// ---------------------------------------------------------------------------
// Main struct
// ---------------------------------------------------------------------------

/// Full ComicInfo v2.0 document.
///
/// All optional fields default to `None` / their schema defaults.
/// `page_count` is set to 0 by default and should be updated from the archive.
#[derive(Debug, Clone)]
pub struct ComicInfo {
    // Identity
    pub title: Option<String>,
    pub series: Option<String>,
    pub number: Option<String>,
    pub count: Option<i32>,
    pub volume: Option<i32>,
    // Alternate series cross-over fields
    pub alternate_series: Option<String>,
    pub alternate_number: Option<String>,
    pub alternate_count: Option<i32>,
    // Descriptive
    pub summary: Option<String>,
    pub notes: Option<String>,
    // Release date
    pub year: Option<i32>,
    pub month: Option<i32>,
    pub day: Option<i32>,
    // Creators
    pub writer: Option<String>,
    pub penciller: Option<String>,
    pub inker: Option<String>,
    pub colorist: Option<String>,
    pub letterer: Option<String>,
    pub cover_artist: Option<String>,
    pub editor: Option<String>,
    pub translator: Option<String>,
    // Publishing
    pub publisher: Option<String>,
    pub imprint: Option<String>,
    pub genre: Option<String>,
    pub tags: Option<String>,
    pub web: Option<String>,
    // Technical
    pub page_count: i32,
    pub language_iso: Option<String>,
    pub format: Option<String>,
    pub black_and_white: YesNo,
    pub manga: Manga,
    // Story
    pub characters: Option<String>,
    pub teams: Option<String>,
    pub locations: Option<String>,
    pub scan_information: Option<String>,
    pub story_arc: Option<String>,
    pub story_arc_number: Option<String>,
    pub series_group: Option<String>,
    // Rating
    pub age_rating: AgeRating,
    /// Community rating in hundredths of a point (`450` is 4.50), 0–500.
    pub community_rating: Option<u32>,
    // Misc
    pub main_character_or_team: Option<String>,
    pub review: Option<String>,
    // Pages
    pub pages: Vec<PageInfo>,
}

/// A document with nothing set: every optional field `None`, the enums
/// `Unknown`, no pages and a page count of 0.
pub open spec fn is_blank(ci: ComicInfo) -> bool {
    &&& ci.title is None
    &&& ci.series is None
    &&& ci.number is None
    &&& ci.count is None
    &&& ci.volume is None
    &&& ci.alternate_series is None
    &&& ci.alternate_number is None
    &&& ci.alternate_count is None
    &&& ci.summary is None
    &&& ci.notes is None
    &&& ci.year is None
    &&& ci.month is None
    &&& ci.day is None
    &&& ci.writer is None
    &&& ci.penciller is None
    &&& ci.inker is None
    &&& ci.colorist is None
    &&& ci.letterer is None
    &&& ci.cover_artist is None
    &&& ci.editor is None
    &&& ci.translator is None
    &&& ci.publisher is None
    &&& ci.imprint is None
    &&& ci.genre is None
    &&& ci.tags is None
    &&& ci.web is None
    &&& ci.page_count == 0
    &&& ci.language_iso is None
    &&& ci.format is None
    &&& ci.black_and_white == YesNo::Unknown
    &&& ci.manga == Manga::Unknown
    &&& ci.characters is None
    &&& ci.teams is None
    &&& ci.locations is None
    &&& ci.scan_information is None
    &&& ci.story_arc is None
    &&& ci.story_arc_number is None
    &&& ci.series_group is None
    &&& ci.age_rating == AgeRating::Unknown
    &&& ci.community_rating is None
    &&& ci.main_character_or_team is None
    &&& ci.review is None
    &&& ci.pages@.len() == 0
}

impl Default for ComicInfo {
    fn default() -> (res: Self)
        ensures
            is_blank(res),
    {
        ComicInfo {
            title: None,
            series: None,
            number: None,
            count: None,
            volume: None,
            alternate_series: None,
            alternate_number: None,
            alternate_count: None,
            summary: None,
            notes: None,
            year: None,
            month: None,
            day: None,
            writer: None,
            penciller: None,
            inker: None,
            colorist: None,
            letterer: None,
            cover_artist: None,
            editor: None,
            translator: None,
            publisher: None,
            imprint: None,
            genre: None,
            tags: None,
            web: None,
            page_count: 0,
            language_iso: None,
            format: None,
            black_and_white: YesNo::Unknown,
            manga: Manga::Unknown,
            characters: None,
            teams: None,
            locations: None,
            scan_information: None,
            story_arc: None,
            story_arc_number: None,
            series_group: None,
            age_rating: AgeRating::Unknown,
            community_rating: None,
            main_character_or_team: None,
            review: None,
            pages: Vec::new(),
        }
    }
}

// ---------------------------------------------------------------------------
// Merging
// ---------------------------------------------------------------------------

/// `a` when it is set, else `b`.
pub open spec fn pick<T>(a: Option<T>, b: Option<T>) -> Option<T> {
    if a is None {
        b
    } else {
        a
    }
}

/// `a.merge_from(b)`: every field of `a` that is unset takes the value of `b`.
pub open spec fn merged(a: ComicInfo, b: ComicInfo) -> ComicInfo {
    ComicInfo {
        title: pick(a.title, b.title),
        series: pick(a.series, b.series),
        number: pick(a.number, b.number),
        count: pick(a.count, b.count),
        volume: pick(a.volume, b.volume),
        alternate_series: pick(a.alternate_series, b.alternate_series),
        alternate_number: pick(a.alternate_number, b.alternate_number),
        alternate_count: pick(a.alternate_count, b.alternate_count),
        summary: pick(a.summary, b.summary),
        notes: pick(a.notes, b.notes),
        year: pick(a.year, b.year),
        month: pick(a.month, b.month),
        day: pick(a.day, b.day),
        writer: pick(a.writer, b.writer),
        penciller: pick(a.penciller, b.penciller),
        inker: pick(a.inker, b.inker),
        colorist: pick(a.colorist, b.colorist),
        letterer: pick(a.letterer, b.letterer),
        cover_artist: pick(a.cover_artist, b.cover_artist),
        editor: pick(a.editor, b.editor),
        translator: pick(a.translator, b.translator),
        publisher: pick(a.publisher, b.publisher),
        imprint: pick(a.imprint, b.imprint),
        genre: pick(a.genre, b.genre),
        tags: pick(a.tags, b.tags),
        web: pick(a.web, b.web),
        page_count: if a.page_count == 0 && b.page_count > 0 {
            b.page_count
        } else {
            a.page_count
        },
        language_iso: pick(a.language_iso, b.language_iso),
        format: pick(a.format, b.format),
        black_and_white: if a.black_and_white == YesNo::Unknown {
            b.black_and_white
        } else {
            a.black_and_white
        },
        manga: if a.manga == Manga::Unknown {
            b.manga
        } else {
            a.manga
        },
        characters: pick(a.characters, b.characters),
        teams: pick(a.teams, b.teams),
        locations: pick(a.locations, b.locations),
        scan_information: pick(a.scan_information, b.scan_information),
        story_arc: pick(a.story_arc, b.story_arc),
        story_arc_number: pick(a.story_arc_number, b.story_arc_number),
        series_group: pick(a.series_group, b.series_group),
        age_rating: if a.age_rating == AgeRating::Unknown {
            b.age_rating
        } else {
            a.age_rating
        },
        community_rating: pick(a.community_rating, b.community_rating),
        main_character_or_team: pick(a.main_character_or_team, b.main_character_or_team),
        review: pick(a.review, b.review),
        pages: if a.pages@.len() == 0 && b.pages@.len() > 0 {
            b.pages
        } else {
            a.pages
        },
    }
}

fn take_if_none<T>(slot: &mut Option<T>, other: Option<T>)
    ensures
        *final(slot) == pick(*old(slot), other),
{
    if slot.is_none() {
        *slot = other;
    }
}

impl ComicInfo {
    /// Merge another `ComicInfo` into `self`, preferring values from `other`
    /// when `self`'s field is `None` / default.
    pub fn merge_from(&mut self, other: ComicInfo)
        ensures
            *final(self) == merged(*old(self), other),
    {
        let ComicInfo {
            title,
            series,
            number,
            count,
            volume,
            alternate_series,
            alternate_number,
            alternate_count,
            summary,
            notes,
            year,
            month,
            day,
            writer,
            penciller,
            inker,
            colorist,
            letterer,
            cover_artist,
            editor,
            translator,
            publisher,
            imprint,
            genre,
            tags,
            web,
            page_count,
            language_iso,
            format,
            black_and_white,
            manga,
            characters,
            teams,
            locations,
            scan_information,
            story_arc,
            story_arc_number,
            series_group,
            age_rating,
            community_rating,
            main_character_or_team,
            review,
            pages,
        } = other;
        take_if_none(&mut self.title, title);
        take_if_none(&mut self.series, series);
        take_if_none(&mut self.number, number);
        take_if_none(&mut self.count, count);
        take_if_none(&mut self.volume, volume);
        take_if_none(&mut self.alternate_series, alternate_series);
        take_if_none(&mut self.alternate_number, alternate_number);
        take_if_none(&mut self.alternate_count, alternate_count);
        take_if_none(&mut self.summary, summary);
        take_if_none(&mut self.notes, notes);
        take_if_none(&mut self.year, year);
        take_if_none(&mut self.month, month);
        take_if_none(&mut self.day, day);
        take_if_none(&mut self.writer, writer);
        take_if_none(&mut self.penciller, penciller);
        take_if_none(&mut self.inker, inker);
        take_if_none(&mut self.colorist, colorist);
        take_if_none(&mut self.letterer, letterer);
        take_if_none(&mut self.cover_artist, cover_artist);
        take_if_none(&mut self.editor, editor);
        take_if_none(&mut self.translator, translator);
        take_if_none(&mut self.publisher, publisher);
        take_if_none(&mut self.imprint, imprint);
        take_if_none(&mut self.genre, genre);
        take_if_none(&mut self.tags, tags);
        take_if_none(&mut self.web, web);
        take_if_none(&mut self.language_iso, language_iso);
        take_if_none(&mut self.format, format);
        take_if_none(&mut self.scan_information, scan_information);
        take_if_none(&mut self.story_arc, story_arc);
        take_if_none(&mut self.story_arc_number, story_arc_number);
        take_if_none(&mut self.series_group, series_group);
        take_if_none(&mut self.community_rating, community_rating);
        take_if_none(&mut self.main_character_or_team, main_character_or_team);
        take_if_none(&mut self.review, review);
        take_if_none(&mut self.characters, characters);
        take_if_none(&mut self.teams, teams);
        take_if_none(&mut self.locations, locations);
        if self.black_and_white == YesNo::Unknown {
            self.black_and_white = black_and_white;
        }
        if self.manga == Manga::Unknown {
            self.manga = manga;
        }
        if self.age_rating == AgeRating::Unknown {
            self.age_rating = age_rating;
        }
        if self.page_count == 0 && page_count > 0 {
            self.page_count = page_count;
        }
        if self.pages.len() == 0 && pages.len() > 0 {
            self.pages = pages;
        }
    }
}

// ---------------------------------------------------------------------------
// XML helpers
// ---------------------------------------------------------------------------

/// The escape of one character of text content.
pub open spec fn escape_char(c: char) -> Seq<char> {
    if c == '&' {
        "&amp;"@
    } else if c == '<' {
        "&lt;"@
    } else if c == '>' {
        "&gt;"@
    } else if c == '"' {
        "&quot;"@
    } else if c == '\'' {
        "&apos;"@
    } else {
        seq![c]
    }
}

/// Text content with the five predefined XML entities escaped.
pub open spec fn escape_text(s: Seq<char>) -> Seq<char>
    decreases s.len(),
{
    if s.len() == 0 {
        Seq::empty()
    } else {
        escape_char(s[0]) + escape_text(s.subrange(1, s.len() as int))
    }
}

proof fn lemma_escape_push(s: Seq<char>, c: char)
    ensures
        escape_text(s.push(c)) == escape_text(s) + escape_char(c),
    decreases s.len(),
{
    if s.len() == 0 {
        let t = s.push(c);
        assert(t.subrange(1, 1) =~= Seq::<char>::empty());
        assert(t[0] == c);
        assert(escape_text(t) == escape_char(c) + escape_text(t.subrange(1, 1)));
        assert(escape_text(Seq::<char>::empty()) == Seq::<char>::empty());
        assert(escape_char(c) + Seq::<char>::empty() =~= escape_char(c));
        assert(Seq::<char>::empty() + escape_char(c) =~= escape_char(c));
    } else {
        let r = s.subrange(1, s.len() as int);
        let t = s.push(c);
        lemma_escape_push(r, c);
        assert(t.subrange(1, t.len() as int) =~= r.push(c));
        assert(t[0] == s[0]);
        assert(escape_text(t) == escape_char(s[0]) + escape_text(r.push(c)));
        assert(escape_text(s) == escape_char(s[0]) + escape_text(r));
        assert(escape_char(s[0]) + (escape_text(r) + escape_char(c)) =~= (escape_char(s[0])
            + escape_text(r)) + escape_char(c));
    }
}

/// Escape the five predefined XML entities in text content.
pub fn xml_escape(s: &[char]) -> (res: Vec<char>)
    ensures
        res@ == escape_text(s@),
{
    let mut out: Vec<char> = Vec::new();
    let mut i: usize = 0;
    assert(s@.take(0) =~= Seq::<char>::empty());
    while i < s.len()
        invariant
            i <= s@.len(),
            out@ == escape_text(s@.take(i as int)),
        decreases s@.len() - i,
    {
        let ch = s[i];
        proof {
            lemma_escape_push(s@.take(i as int), ch);
            assert(s@.take(i + 1) =~= s@.take(i as int).push(ch));
        }
        if ch == '&' {
            push_str(&mut out, "&amp;");
        } else if ch == '<' {
            push_str(&mut out, "&lt;");
        } else if ch == '>' {
            push_str(&mut out, "&gt;");
        } else if ch == '"' {
            push_str(&mut out, "&quot;");
        } else if ch == '\'' {
            push_str(&mut out, "&apos;");
        } else {
            out.push(ch);
        }
        i += 1;
    }
    assert(s@.take(s@.len() as int) =~= s@);
    out
}

/// `"  <{tag}>{body}</{tag}>\n"`.
pub open spec fn element(tag: Seq<char>, body: Seq<char>) -> Seq<char> {
    "  <"@ + tag + ">"@ + body + "</"@ + tag + ">\n"@
}

/// The element of an optional text field (nothing when unset).
pub open spec fn text_element(tag: Seq<char>, v: Option<Seq<char>>) -> Seq<char> {
    match v {
        Some(s) => element(tag, escape_text(s)),
        None => Seq::empty(),
    }
}

/// The element of an optional integer field (nothing when unset).
pub open spec fn int_element(tag: Seq<char>, v: Option<i32>) -> Seq<char> {
    match v {
        Some(n) => element(tag, int_decimal(n as int)),
        None => Seq::empty(),
    }
}

fn push_element(out: &mut Vec<char>, tag: &str, body: &[char])
    ensures
        final(out)@ == old(out)@ + element(tag@, body@),
{
    let ghost start = out@;
    push_str(out, "  <");
    push_str(out, tag);
    push_str(out, ">");
    push_chars(out, body);
    push_str(out, "</");
    push_str(out, tag);
    push_str(out, ">\n");
    assert(out@ =~= start + element(tag@, body@));
}

fn push_text_element(out: &mut Vec<char>, tag: &str, v: &Option<String>)
    ensures
        final(out)@ == old(out)@ + text_element(tag@, v.deep_view()),
{
    match v {
        Some(s) => {
            let c = to_chars(s.as_str());
            let e = xml_escape(&c);
            push_element(out, tag, &e);
        },
        None => {
            assert(out@ =~= out@ + Seq::<char>::empty());
        },
    }
}

fn push_int_element(out: &mut Vec<char>, tag: &str, v: Option<i32>)
    ensures
        final(out)@ == old(out)@ + int_element(tag@, v),
{
    match v {
        Some(n) => {
            let d = i64_decimal(n as i64);
            push_element(out, tag, &d);
        },
        None => {
            assert(out@ =~= out@ + Seq::<char>::empty());
        },
    }
}

/// `format!("{:.2}", h as f32 / 100.0)` for a rating in hundredths.
pub open spec fn rating_text(h: u32) -> Seq<char> {
    nat_decimal((h / 100) as nat) + "."@ + seq![
        digit_char(((h % 100) / 10) as nat),
        digit_char((h % 10) as nat),
    ]
}

fn rating_chars(h: u32) -> (res: Vec<char>)
    ensures
        res@ == rating_text(h),
{
    let mut out = u64_decimal((h / 100) as u64);
    push_str(&mut out, ".");
    let tens = u64_decimal(((h % 100) / 10) as u64);
    let ones = u64_decimal((h % 10) as u64);
    push_chars(&mut out, &tens);
    push_chars(&mut out, &ones);
    assert(nat_decimal(((h % 100) / 10) as nat) == seq![digit_char(((h % 100) / 10) as nat)]);
    assert(nat_decimal((h % 10) as nat) == seq![digit_char((h % 10) as nat)]);
    assert(out@ =~= rating_text(h));
    out
}

/// `Image` and `Type` of a page.
pub open spec fn page_head(p: PageInfo) -> Seq<char> {
    "    <Page Image=\""@ + int_decimal(p.image as int) + "\" Type=\""@ + page_type_text(
        p.page_type,
    ) + "\""@
}

/// The optional attributes of a page.
pub open spec fn page_attrs(p: PageInfo) -> Seq<char> {
    (if p.double_page {
        " DoublePage=\"true\""@
    } else {
        Seq::empty()
    }) + (if p.image_size > 0 {
        " ImageSize=\""@ + nat_decimal(p.image_size as nat) + "\""@
    } else {
        Seq::empty()
    }) + (if p.image_width >= 0 {
        " ImageWidth=\""@ + int_decimal(p.image_width as int) + "\""@
    } else {
        Seq::empty()
    }) + (if p.image_height >= 0 {
        " ImageHeight=\""@ + int_decimal(p.image_height as int) + "\""@
    } else {
        Seq::empty()
    })
}

/// The `<Page .../>` line of one page.
pub open spec fn page_text(p: PageInfo) -> Seq<char> {
    page_head(p) + page_attrs(p) + " />\n"@
}

/// The `<Page>` lines of a page list.
pub open spec fn pages_text(pages: Seq<PageInfo>) -> Seq<char>
    decreases pages.len(),
{
    if pages.len() == 0 {
        Seq::empty()
    } else {
        pages_text(pages.drop_last()) + page_text(pages.last())
    }
}

/// The `<Pages>` block (nothing when there are no pages).
pub open spec fn pages_block(pages: Seq<PageInfo>) -> Seq<char> {
    if pages.len() == 0 {
        Seq::empty()
    } else {
        "  <Pages>\n"@ + pages_text(pages) + "  </Pages>\n"@
    }
}

fn push_attr(out: &mut Vec<char>, name: &str, value: &[char])
    ensures
        final(out)@ == old(out)@ + name@ + value@ + "\""@,
{
    push_str(out, name);
    push_chars(out, value);
    push_str(out, "\"");
}

fn push_page_head(out: &mut Vec<char>, p: &PageInfo)
    ensures
        final(out)@ == old(out)@ + page_head(*p),
{
    let ghost start = out@;
    let img = i64_decimal(p.image as i64);
    push_str(out, "    <Page Image=\"");
    push_chars(out, &img);
    push_str(out, "\" Type=\"");
    push_str(out, p.page_type.as_str());
    push_str(out, "\"");
    assert(out@ =~= start + page_head(*p));
}

fn push_opt_attr(out: &mut Vec<char>, present: bool, name: &str, value: &[char])
    ensures
        final(out)@ == old(out)@ + (if present {
            name@ + value@ + "\""@
        } else {
            Seq::empty()
        }),
{
    let ghost start = out@;
    if present {
        push_attr(out, name, value);
        assert(out@ =~= start + (name@ + value@ + "\""@));
    } else {
        assert(out@ =~= start + Seq::<char>::empty());
    }
}

fn push_page_attrs(out: &mut Vec<char>, p: &PageInfo)
    ensures
        final(out)@ == old(out)@ + page_attrs(*p),
{
    let ghost start = out@;
    let empty: Vec<char> = Vec::new();
    push_opt_attr(out, p.double_page, " DoublePage=\"true", &empty);
    assert(" DoublePage=\"true"@ + Seq::<char>::empty() + "\""@ =~= " DoublePage=\"true\""@) by {
        reveal_strlit(" DoublePage=\"true");
        reveal_strlit(" DoublePage=\"true\"");
        reveal_strlit("\"");
    }
    let ghost a = out@;
    let d = u64_decimal(p.image_size);
    push_opt_attr(out, p.image_size > 0, " ImageSize=\"", &d);
    let ghost b = out@;
    let w = i64_decimal(p.image_width as i64);
    push_opt_attr(out, p.image_width >= 0, " ImageWidth=\"", &w);
    let ghost c = out@;
    let h = i64_decimal(p.image_height as i64);
    push_opt_attr(out, p.image_height >= 0, " ImageHeight=\"", &h);
    assert(out@ =~= start + page_attrs(*p));
}

fn push_page(out: &mut Vec<char>, p: &PageInfo)
    ensures
        final(out)@ == old(out)@ + page_text(*p),
{
    let ghost start = out@;
    push_page_head(out, p);
    push_page_attrs(out, p);
    push_str(out, " />\n");
    assert(out@ =~= start + page_text(*p));
}

/// The XML declaration and the opening tag of the document.
pub open spec fn xml_head() -> Seq<char> {
    "<?xml version=\"1.0\" encoding=\"utf-8\"?>\n"@
        + "<ComicInfo\n  xmlns:xsi=\"http://www.w3.org/2001/XMLSchema-instance\"\n  xmlns:xsd=\"http://www.w3.org/2001/XMLSchema\"\n>\n"@
}

/// The identity, description, date, creator and publishing elements,
/// appended to `prefix`.
pub open spec fn xml_part1(prefix: Seq<char>, ci: ComicInfo) -> Seq<char> {
    prefix + text_element("Title"@, ci.title.deep_view()) + text_element(
        "Series"@,
        ci.series.deep_view(),
    ) + text_element("Number"@, ci.number.deep_view()) + int_element("Count"@, ci.count)
        + int_element("Volume"@, ci.volume) + text_element(
        "AlternateSeries"@,
        ci.alternate_series.deep_view(),
    ) + text_element("AlternateNumber"@, ci.alternate_number.deep_view()) + int_element(
        "AlternateCount"@,
        ci.alternate_count,
    ) + text_element("Summary"@, ci.summary.deep_view()) + text_element(
        "Notes"@,
        ci.notes.deep_view(),
    ) + int_element("Year"@, ci.year) + int_element("Month"@, ci.month) + int_element(
        "Day"@,
        ci.day,
    )
}

/// The creator and publishing elements, appended to `prefix`.
pub open spec fn xml_part2(prefix: Seq<char>, ci: ComicInfo) -> Seq<char> {
    prefix + text_element("Writer"@, ci.writer.deep_view()) + text_element(
        "Penciller"@,
        ci.penciller.deep_view(),
    ) + text_element("Inker"@, ci.inker.deep_view()) + text_element(
        "Colorist"@,
        ci.colorist.deep_view(),
    ) + text_element("Letterer"@, ci.letterer.deep_view()) + text_element(
        "CoverArtist"@,
        ci.cover_artist.deep_view(),
    ) + text_element("Editor"@, ci.editor.deep_view()) + text_element(
        "Translator"@,
        ci.translator.deep_view(),
    ) + text_element("Publisher"@, ci.publisher.deep_view()) + text_element(
        "Imprint"@,
        ci.imprint.deep_view(),
    ) + text_element("Genre"@, ci.genre.deep_view()) + text_element(
        "Tags"@,
        ci.tags.deep_view(),
    ) + text_element("Web"@, ci.web.deep_view())
}

/// The technical and story elements, appended to `prefix`.
pub open spec fn xml_part3(prefix: Seq<char>, ci: ComicInfo) -> Seq<char> {
    prefix + element("PageCount"@, int_decimal(ci.page_count as int)) + text_element(
        "LanguageISO"@,
        ci.language_iso.deep_view(),
    ) + text_element("Format"@, ci.format.deep_view()) + element(
        "BlackAndWhite"@,
        yes_no_text(ci.black_and_white),
    ) + element("Manga"@, manga_text(ci.manga)) + text_element(
        "Characters"@,
        ci.characters.deep_view(),
    ) + text_element("Teams"@, ci.teams.deep_view()) + text_element(
        "Locations"@,
        ci.locations.deep_view(),
    ) + text_element("ScanInformation"@, ci.scan_information.deep_view()) + text_element(
        "StoryArc"@,
        ci.story_arc.deep_view(),
    ) + text_element("StoryArcNumber"@, ci.story_arc_number.deep_view()) + text_element(
        "SeriesGroup"@,
        ci.series_group.deep_view(),
    ) + element("AgeRating"@, age_rating_text(ci.age_rating))
}

/// The pages, the rating and the closing elements, appended to `prefix`.
pub open spec fn xml_part4(prefix: Seq<char>, ci: ComicInfo) -> Seq<char> {
    prefix + pages_block(ci.pages@) + (match ci.community_rating {
        Some(h) => element("CommunityRating"@, rating_text(h)),
        None => Seq::empty(),
    }) + text_element("MainCharacterOrTeam"@, ci.main_character_or_team.deep_view())
        + text_element("Review"@, ci.review.deep_view()) + "</ComicInfo>\n"@
}

/// The serialized document.
pub open spec fn xml_text(ci: ComicInfo) -> Seq<char> {
    xml_part4(xml_part3(xml_part2(xml_part1(xml_head(), ci), ci), ci), ci)
}

fn push_part1(buf: &mut Vec<char>, ci: &ComicInfo)
    ensures
        final(buf)@ == xml_part1(old(buf)@, *ci),
{
    push_text_element(buf, "Title", &ci.title);
    push_text_element(buf, "Series", &ci.series);
    push_text_element(buf, "Number", &ci.number);
    push_int_element(buf, "Count", ci.count);
    push_int_element(buf, "Volume", ci.volume);
    push_text_element(buf, "AlternateSeries", &ci.alternate_series);
    push_text_element(buf, "AlternateNumber", &ci.alternate_number);
    push_int_element(buf, "AlternateCount", ci.alternate_count);
    push_text_element(buf, "Summary", &ci.summary);
    push_text_element(buf, "Notes", &ci.notes);
    push_int_element(buf, "Year", ci.year);
    push_int_element(buf, "Month", ci.month);
    push_int_element(buf, "Day", ci.day);
}

fn push_part2(buf: &mut Vec<char>, ci: &ComicInfo)
    ensures
        final(buf)@ == xml_part2(old(buf)@, *ci),
{
    push_text_element(buf, "Writer", &ci.writer);
    push_text_element(buf, "Penciller", &ci.penciller);
    push_text_element(buf, "Inker", &ci.inker);
    push_text_element(buf, "Colorist", &ci.colorist);
    push_text_element(buf, "Letterer", &ci.letterer);
    push_text_element(buf, "CoverArtist", &ci.cover_artist);
    push_text_element(buf, "Editor", &ci.editor);
    push_text_element(buf, "Translator", &ci.translator);
    push_text_element(buf, "Publisher", &ci.publisher);
    push_text_element(buf, "Imprint", &ci.imprint);
    push_text_element(buf, "Genre", &ci.genre);
    push_text_element(buf, "Tags", &ci.tags);
    push_text_element(buf, "Web", &ci.web);
}

fn push_part3(buf: &mut Vec<char>, ci: &ComicInfo)
    ensures
        final(buf)@ == xml_part3(old(buf)@, *ci),
{
    let pc = i64_decimal(ci.page_count as i64);
    push_element(buf, "PageCount", &pc);
    push_text_element(buf, "LanguageISO", &ci.language_iso);
    push_text_element(buf, "Format", &ci.format);
    let bw = to_chars(ci.black_and_white.as_str());
    push_element(buf, "BlackAndWhite", &bw);
    let manga = to_chars(ci.manga.as_str());
    push_element(buf, "Manga", &manga);
    push_text_element(buf, "Characters", &ci.characters);
    push_text_element(buf, "Teams", &ci.teams);
    push_text_element(buf, "Locations", &ci.locations);
    push_text_element(buf, "ScanInformation", &ci.scan_information);
    push_text_element(buf, "StoryArc", &ci.story_arc);
    push_text_element(buf, "StoryArcNumber", &ci.story_arc_number);
    push_text_element(buf, "SeriesGroup", &ci.series_group);
    let age = to_chars(ci.age_rating.as_str());
    push_element(buf, "AgeRating", &age);
}

fn push_pages(buf: &mut Vec<char>, pages: &Vec<PageInfo>)
    ensures
        final(buf)@ == old(buf)@ + pages_block(pages@),
{
    let ghost before_pages = buf@;
    if pages.len() > 0 {
        push_str(buf, "  <Pages>\n");
        let ghost open = buf@;
        let mut i: usize = 0;
        assert(pages@.take(0) =~= Seq::<PageInfo>::empty());
        while i < pages.len()
            invariant
                i <= pages@.len(),
                buf@ == open + pages_text(pages@.take(i as int)),
            decreases pages@.len() - i,
        {
            push_page(buf, &pages[i]);
            assert(pages@.take(i + 1).drop_last() =~= pages@.take(i as int));
            i += 1;
        }
        assert(pages@.take(pages@.len() as int) =~= pages@);
        push_str(buf, "  </Pages>\n");
        assert(buf@ =~= before_pages + pages_block(pages@));
    } else {
        assert(buf@ =~= before_pages + pages_block(pages@));
    }
}

fn push_part4(buf: &mut Vec<char>, ci: &ComicInfo)
    ensures
        final(buf)@ == xml_part4(old(buf)@, *ci),
{
    push_pages(buf, &ci.pages);
    let ghost before_rating = buf@;
    match ci.community_rating {
        Some(h) => {
            let r = rating_chars(h);
            push_element(buf, "CommunityRating", &r);
        },
        None => {
            assert(buf@ =~= before_rating + Seq::<char>::empty());
        },
    }
    push_text_element(buf, "MainCharacterOrTeam", &ci.main_character_or_team);
    push_text_element(buf, "Review", &ci.review);
    push_str(buf, "</ComicInfo>\n");
}

impl ComicInfo {
    /// Serialize to a UTF-8 XML string conforming to ComicInfo v2.0.
    pub fn to_xml(&self) -> (res: String)
        ensures
            res@ == xml_text(*self),
    {
        let mut buf: Vec<char> = Vec::new();
        push_str(&mut buf, "<?xml version=\"1.0\" encoding=\"utf-8\"?>\n");
        push_str(
            &mut buf,
            "<ComicInfo\n  xmlns:xsi=\"http://www.w3.org/2001/XMLSchema-instance\"\n  xmlns:xsd=\"http://www.w3.org/2001/XMLSchema\"\n>\n",
        );
        assert(buf@ =~= xml_head());
        push_part1(&mut buf, self);
        push_part2(&mut buf, self);
        push_part3(&mut buf, self);
        push_part4(&mut buf, self);
        string_from_chars(&buf)
    }
}

// ---------------------------------------------------------------------------
// Laws
// ---------------------------------------------------------------------------

/// Reading the schema spelling of a `YesNo` gives the value back.
pub proof fn law_yes_no_round_trip(v: YesNo)
    ensures
        yes_no_of(yes_no_text(v)) == v,
{
    reveal_strlit("Unknown");
    reveal_strlit("No");
    reveal_strlit("Yes");
    reveal_strlit("yes");
    reveal_strlit("true");
    reveal_strlit("no");
    reveal_strlit("false");
    assert("Unknown"@.len() == 7);
    assert("No"@ != "Yes"@ && "No"@ != "yes"@ && "No"@ != "true"@) by {
        assert("No"@[0] != "yes"@[0]);
    }
    assert("Yes"@ != "yes"@) by {
        assert("Yes"@[0] != "yes"@[0]);
    }
}

/// Reading the schema spelling of a `Manga` gives the value back.
pub proof fn law_manga_round_trip(v: Manga)
    ensures
        manga_of(manga_text(v)) == v,
{
    reveal_strlit("Unknown");
    reveal_strlit("No");
    reveal_strlit("Yes");
    reveal_strlit("YesAndRightToLeft");
    reveal_strlit("yes");
    reveal_strlit("no");
    reveal_strlit("yes-rtl");
    reveal_strlit("rtl");
    assert("Unknown"@.len() == 7);
    assert("YesAndRightToLeft"@.len() == 17);
    assert("No"@ != "yes"@) by {
        assert("No"@[0] != "yes"@[0]);
    }
    assert("No"@ != "Yes"@) by {
        assert("No"@[0] != "Yes"@[0]);
    }
    assert("Yes"@ != "yes"@) by {
        assert("Yes"@[0] != "yes"@[0]);
    }
    assert("No"@ != "no"@) by {
        assert("No"@[0] != "no"@[0]);
    }
    assert("Unknown"@ != "yes-rtl"@) by {
        assert("Unknown"@[0] != "yes-rtl"@[0]);
    }
}

/// Merging in a blank document changes nothing.
pub proof fn law_merge_blank_is_identity(a: ComicInfo, b: ComicInfo)
    requires
        is_blank(b),
    ensures
        merged(a, b) == a,
{
}

/// Merging into a blank document yields the other document (when its page
/// count is not negative).
pub proof fn law_merge_into_blank(a: ComicInfo, b: ComicInfo)
    requires
        is_blank(a),
        b.page_count >= 0,
    ensures
        (ComicInfo { pages: b.pages, ..merged(a, b) }) == b,
        merged(a, b).pages@ == b.pages@,
{
}

/// Merging a document into itself changes nothing.
pub proof fn law_merge_idempotent(a: ComicInfo)
    ensures
        merged(a, a) == a,
{
}

/// A value already present is never replaced by a merge: every optional
/// field that is set keeps its value, as do a non-zero page count, a
/// non-empty page list and enums that are not `Unknown`.
pub proof fn law_merge_keeps_present(a: ComicInfo, b: ComicInfo)
    ensures
        a.title is Some ==> merged(a, b).title == a.title,
        a.series is Some ==> merged(a, b).series == a.series,
        a.number is Some ==> merged(a, b).number == a.number,
        a.count is Some ==> merged(a, b).count == a.count,
        a.volume is Some ==> merged(a, b).volume == a.volume,
        a.alternate_series is Some ==> merged(a, b).alternate_series == a.alternate_series,
        a.alternate_number is Some ==> merged(a, b).alternate_number == a.alternate_number,
        a.alternate_count is Some ==> merged(a, b).alternate_count == a.alternate_count,
        a.summary is Some ==> merged(a, b).summary == a.summary,
        a.notes is Some ==> merged(a, b).notes == a.notes,
        a.year is Some ==> merged(a, b).year == a.year,
        a.month is Some ==> merged(a, b).month == a.month,
        a.day is Some ==> merged(a, b).day == a.day,
        a.writer is Some ==> merged(a, b).writer == a.writer,
        a.penciller is Some ==> merged(a, b).penciller == a.penciller,
        a.inker is Some ==> merged(a, b).inker == a.inker,
        a.colorist is Some ==> merged(a, b).colorist == a.colorist,
        a.letterer is Some ==> merged(a, b).letterer == a.letterer,
        a.cover_artist is Some ==> merged(a, b).cover_artist == a.cover_artist,
        a.editor is Some ==> merged(a, b).editor == a.editor,
        a.translator is Some ==> merged(a, b).translator == a.translator,
        a.publisher is Some ==> merged(a, b).publisher == a.publisher,
        a.imprint is Some ==> merged(a, b).imprint == a.imprint,
        a.genre is Some ==> merged(a, b).genre == a.genre,
        a.tags is Some ==> merged(a, b).tags == a.tags,
        a.web is Some ==> merged(a, b).web == a.web,
        a.language_iso is Some ==> merged(a, b).language_iso == a.language_iso,
        a.format is Some ==> merged(a, b).format == a.format,
        a.characters is Some ==> merged(a, b).characters == a.characters,
        a.teams is Some ==> merged(a, b).teams == a.teams,
        a.locations is Some ==> merged(a, b).locations == a.locations,
        a.scan_information is Some ==> merged(a, b).scan_information == a.scan_information,
        a.story_arc is Some ==> merged(a, b).story_arc == a.story_arc,
        a.story_arc_number is Some ==> merged(a, b).story_arc_number == a.story_arc_number,
        a.series_group is Some ==> merged(a, b).series_group == a.series_group,
        a.community_rating is Some ==> merged(a, b).community_rating == a.community_rating,
        a.main_character_or_team is Some ==> merged(a, b).main_character_or_team == a.main_character_or_team,
        a.review is Some ==> merged(a, b).review == a.review,
        a.page_count != 0 ==> merged(a, b).page_count == a.page_count,
        a.pages@.len() > 0 ==> merged(a, b).pages == a.pages,
        a.manga != Manga::Unknown ==> merged(a, b).manga == a.manga,
        a.black_and_white != YesNo::Unknown ==> merged(a, b).black_and_white == a.black_and_white,
        a.age_rating != AgeRating::Unknown ==> merged(a, b).age_rating == a.age_rating,
{
}

/// A merge fills exactly the unset fields from the other document: every
/// optional field that is unset takes the other's value, as do a zero page
/// count (from a positive one), an empty page list and `Unknown` enums.
pub proof fn law_merge_fills_unset(a: ComicInfo, b: ComicInfo)
    ensures
        a.title is None ==> merged(a, b).title == b.title,
        a.series is None ==> merged(a, b).series == b.series,
        a.number is None ==> merged(a, b).number == b.number,
        a.count is None ==> merged(a, b).count == b.count,
        a.volume is None ==> merged(a, b).volume == b.volume,
        a.alternate_series is None ==> merged(a, b).alternate_series == b.alternate_series,
        a.alternate_number is None ==> merged(a, b).alternate_number == b.alternate_number,
        a.alternate_count is None ==> merged(a, b).alternate_count == b.alternate_count,
        a.summary is None ==> merged(a, b).summary == b.summary,
        a.notes is None ==> merged(a, b).notes == b.notes,
        a.year is None ==> merged(a, b).year == b.year,
        a.month is None ==> merged(a, b).month == b.month,
        a.day is None ==> merged(a, b).day == b.day,
        a.writer is None ==> merged(a, b).writer == b.writer,
        a.penciller is None ==> merged(a, b).penciller == b.penciller,
        a.inker is None ==> merged(a, b).inker == b.inker,
        a.colorist is None ==> merged(a, b).colorist == b.colorist,
        a.letterer is None ==> merged(a, b).letterer == b.letterer,
        a.cover_artist is None ==> merged(a, b).cover_artist == b.cover_artist,
        a.editor is None ==> merged(a, b).editor == b.editor,
        a.translator is None ==> merged(a, b).translator == b.translator,
        a.publisher is None ==> merged(a, b).publisher == b.publisher,
        a.imprint is None ==> merged(a, b).imprint == b.imprint,
        a.genre is None ==> merged(a, b).genre == b.genre,
        a.tags is None ==> merged(a, b).tags == b.tags,
        a.web is None ==> merged(a, b).web == b.web,
        a.language_iso is None ==> merged(a, b).language_iso == b.language_iso,
        a.format is None ==> merged(a, b).format == b.format,
        a.characters is None ==> merged(a, b).characters == b.characters,
        a.teams is None ==> merged(a, b).teams == b.teams,
        a.locations is None ==> merged(a, b).locations == b.locations,
        a.scan_information is None ==> merged(a, b).scan_information == b.scan_information,
        a.story_arc is None ==> merged(a, b).story_arc == b.story_arc,
        a.story_arc_number is None ==> merged(a, b).story_arc_number == b.story_arc_number,
        a.series_group is None ==> merged(a, b).series_group == b.series_group,
        a.community_rating is None ==> merged(a, b).community_rating == b.community_rating,
        a.main_character_or_team is None ==> merged(a, b).main_character_or_team == b.main_character_or_team,
        a.review is None ==> merged(a, b).review == b.review,
        a.page_count == 0 && b.page_count > 0 ==> merged(a, b).page_count == b.page_count,
        a.page_count == 0 && b.page_count <= 0 ==> merged(a, b).page_count == 0,
        a.pages@.len() == 0 ==> merged(a, b).pages@ == b.pages@,
        a.manga == Manga::Unknown ==> merged(a, b).manga == b.manga,
        a.black_and_white == YesNo::Unknown ==> merged(a, b).black_and_white == b.black_and_white,
        a.age_rating == AgeRating::Unknown ==> merged(a, b).age_rating == b.age_rating,
{
}

/// Reverses [`escape_text`].
pub open spec fn unescape_text(t: Seq<char>) -> Seq<char>
    decreases t.len(),
{
    if t.len() == 0 {
        Seq::empty()
    } else if t.len() >= 5 && t.subrange(0, 5) == "&amp;"@ {
        seq!['&'] + unescape_text(t.subrange(5, t.len() as int))
    } else if t.len() >= 4 && t.subrange(0, 4) == "&lt;"@ {
        seq!['<'] + unescape_text(t.subrange(4, t.len() as int))
    } else if t.len() >= 4 && t.subrange(0, 4) == "&gt;"@ {
        seq!['>'] + unescape_text(t.subrange(4, t.len() as int))
    } else if t.len() >= 6 && t.subrange(0, 6) == "&quot;"@ {
        seq!['"'] + unescape_text(t.subrange(6, t.len() as int))
    } else if t.len() >= 6 && t.subrange(0, 6) == "&apos;"@ {
        seq!['\''] + unescape_text(t.subrange(6, t.len() as int))
    } else {
        seq![t[0]] + unescape_text(t.subrange(1, t.len() as int))
    }
}

proof fn lemma_unescape_step(e: Seq<char>, rest: Seq<char>, c: char)
    requires
        e == escape_char(c),
    ensures
        unescape_text(e + rest) == seq![c] + unescape_text(rest),
{
    reveal_strlit("&amp;");
    reveal_strlit("&lt;");
    reveal_strlit("&gt;");
    reveal_strlit("&quot;");
    reveal_strlit("&apos;");
    let t = e + rest;
    assert(t.subrange(e.len() as int, t.len() as int) =~= rest);
    if c == '&' {
        assert(t.subrange(0, 5) =~= "&amp;"@);
    } else if c == '<' {
        assert(t.subrange(0, 4) =~= "&lt;"@);
        assert(t.len() >= 5 ==> t.subrange(0, 5)[1] != "&amp;"@[1]);
    } else if c == '>' {
        assert(t.subrange(0, 4) =~= "&gt;"@);
        assert(t.len() >= 5 ==> t.subrange(0, 5)[1] != "&amp;"@[1]);
        assert(t.subrange(0, 4)[1] != "&lt;"@[1]);
    } else if c == '"' {
        assert(t.subrange(0, 6) =~= "&quot;"@);
        assert(t.subrange(0, 5)[1] != "&amp;"@[1]);
        assert(t.subrange(0, 4)[1] != "&lt;"@[1]);
        assert(t.subrange(0, 4)[1] != "&gt;"@[1]);
    } else if c == '\'' {
        assert(t.subrange(0, 6) =~= "&apos;"@);
        assert(t.subrange(0, 5)[2] != "&amp;"@[2]);
        assert(t.subrange(0, 4)[1] != "&lt;"@[1]);
        assert(t.subrange(0, 4)[1] != "&gt;"@[1]);
        assert(t.subrange(0, 6)[1] != "&quot;"@[1]);
    } else {
        assert(t[0] == c);
        assert(t.len() >= 4 ==> t.subrange(0, 4)[0] != "&lt;"@[0]);
        assert(t.len() >= 4 ==> t.subrange(0, 4)[0] != "&gt;"@[0]);
        assert(t.len() >= 5 ==> t.subrange(0, 5)[0] != "&amp;"@[0]);
        assert(t.len() >= 6 ==> t.subrange(0, 6)[0] != "&quot;"@[0]);
        assert(t.len() >= 6 ==> t.subrange(0, 6)[0] != "&apos;"@[0]);
        assert(t.subrange(1, t.len() as int) =~= rest);
    }
}

/// Decoding the five entities once gives the escaped text back.
pub proof fn law_escape_round_trip(s: Seq<char>)
    ensures
        unescape_text(escape_text(s)) == s,
    decreases s.len(),
{
    if s.len() > 0 {
        let r = s.subrange(1, s.len() as int);
        law_escape_round_trip(r);
        lemma_unescape_step(escape_char(s[0]), escape_text(r), s[0]);
        assert(seq![s[0]] + r =~= s);
    }
}

/// Escaping loses nothing: different texts have different escapes.
pub proof fn law_escape_injective(a: Seq<char>, b: Seq<char>)
    requires
        escape_text(a) == escape_text(b),
    ensures
        a == b,
{
    law_escape_round_trip(a);
    law_escape_round_trip(b);
}

/// Escaped text holds none of `<`, `>`, `"` and `'`.
pub proof fn law_escape_no_markup(s: Seq<char>)
    ensures
        forall|i: int|
            0 <= i < escape_text(s).len() ==> #[trigger] escape_text(s)[i] != '<'
                && escape_text(s)[i] != '>' && escape_text(s)[i] != '"' && escape_text(s)[i]
                != '\'',
    decreases s.len(),
{
    reveal_strlit("&amp;");
    reveal_strlit("&lt;");
    reveal_strlit("&gt;");
    reveal_strlit("&quot;");
    reveal_strlit("&apos;");
    if s.len() > 0 {
        let r = s.subrange(1, s.len() as int);
        law_escape_no_markup(r);
        let e = escape_char(s[0]);
        assert forall|i: int| 0 <= i < escape_text(s).len() implies #[trigger] escape_text(s)[i]
            != '<' && escape_text(s)[i] != '>' && escape_text(s)[i] != '"' && escape_text(s)[i]
            != '\'' by {
            if i < e.len() {
                assert(escape_text(s)[i] == e[i]);
            } else {
                assert(escape_text(s)[i] == escape_text(r)[i - e.len()]);
            }
        }
    }
}

/// One of the five predefined entities starts at position `i` of `t`.
pub open spec fn entity_at(t: Seq<char>, i: int) -> bool {
    ||| occurs_at(t, "&amp;"@, i)
    ||| occurs_at(t, "&lt;"@, i)
    ||| occurs_at(t, "&gt;"@, i)
    ||| occurs_at(t, "&quot;"@, i)
    ||| occurs_at(t, "&apos;"@, i)
}

proof fn lemma_occurs_shift(e: Seq<char>, t: Seq<char>, needle: Seq<char>, j: int)
    requires
        occurs_at(t, needle, j),
    ensures
        occurs_at(e + t, needle, j + e.len()),
{
    assert((e + t).subrange(j + e.len(), j + e.len() + needle.len()) =~= t.subrange(
        j,
        j + needle.len(),
    ));
}

proof fn lemma_occurs_front(e: Seq<char>, t: Seq<char>)
    ensures
        occurs_at(e + t, e, 0),
{
    assert((e + t).subrange(0, e.len() as int) =~= e);
}

/// Every `&` in escaped text starts one of the five entities.
pub proof fn law_escape_ampersands(s: Seq<char>)
    ensures
        forall|i: int|
            0 <= i < escape_text(s).len() && #[trigger] escape_text(s)[i] == '&' ==> entity_at(
                escape_text(s),
                i,
            ),
    decreases s.len(),
{
    reveal_strlit("&amp;");
    reveal_strlit("&lt;");
    reveal_strlit("&gt;");
    reveal_strlit("&quot;");
    reveal_strlit("&apos;");
    if s.len() > 0 {
        let r = s.subrange(1, s.len() as int);
        law_escape_ampersands(r);
        let e = escape_char(s[0]);
        let t = escape_text(r);
        assert(escape_text(s) == e + t);
        assert forall|i: int|
            0 <= i < escape_text(s).len() && #[trigger] escape_text(s)[i] == '&' implies entity_at(
            escape_text(s),
            i,
        ) by {
            if i < e.len() {
                assert(escape_text(s)[i] == e[i]);
                assert(i == 0);
                lemma_occurs_front(e, t);
            } else {
                let j = i - e.len();
                assert(escape_text(s)[i] == t[j]);
                assert(entity_at(t, j));
                if occurs_at(t, "&amp;"@, j) {
                    lemma_occurs_shift(e, t, "&amp;"@, j);
                } else if occurs_at(t, "&lt;"@, j) {
                    lemma_occurs_shift(e, t, "&lt;"@, j);
                } else if occurs_at(t, "&gt;"@, j) {
                    lemma_occurs_shift(e, t, "&gt;"@, j);
                } else if occurs_at(t, "&quot;"@, j) {
                    lemma_occurs_shift(e, t, "&quot;"@, j);
                } else {
                    lemma_occurs_shift(e, t, "&apos;"@, j);
                }
            }
        }
    }
}

/// `a` is a prefix of `a + b`.
proof fn lemma_prefix_of_sum(a: Seq<char>, b: Seq<char>)
    ensures
        (a + b).subrange(0, a.len() as int) == a,
{
    assert((a + b).subrange(0, a.len() as int) =~= a);
}

/// `p` is a prefix of `t`.
pub open spec fn is_prefix(p: Seq<char>, t: Seq<char>) -> bool {
    p.len() <= t.len() && t.subrange(0, p.len() as int) == p
}

proof fn lemma_prefix_trans(a: Seq<char>, b: Seq<char>, c: Seq<char>)
    requires
        is_prefix(a, b),
        is_prefix(b, c),
    ensures
        is_prefix(a, c),
{
    assert(c.subrange(0, a.len() as int) =~= b.subrange(0, a.len() as int));
}

proof fn lemma_prefix_add(a: Seq<char>, b: Seq<char>)
    ensures
        is_prefix(a, a + b),
{
    lemma_prefix_of_sum(a, b);
}

proof fn lemma_prefix_extend(p: Seq<char>, q: Seq<char>, b: Seq<char>)
    requires
        is_prefix(p, q),
    ensures
        is_prefix(p, q + b),
{
    assert((q + b).subrange(0, p.len() as int) =~= q.subrange(0, p.len() as int));
}

proof fn lemma_part_prefixes(p: Seq<char>, ci: ComicInfo)
    ensures
        is_prefix(p, xml_part1(p, ci)),
        is_prefix(p, xml_part2(p, ci)),
        is_prefix(p, xml_part3(p, ci)),
{
    assert(p.subrange(0, p.len() as int) =~= p);
    assert forall|b: Seq<char>| #[trigger] is_prefix(p, p + b) by {
        lemma_prefix_add(p, b);
    }
    assert forall|q: Seq<char>, b: Seq<char>| is_prefix(p, q) implies #[trigger] is_prefix(
        p,
        q + b,
    ) by {
        lemma_prefix_extend(p, q, b);
    }
}

proof fn lemma_part4_shape(p: Seq<char>, ci: ComicInfo)
    ensures
        is_prefix(p, xml_part4(p, ci)),
        "</ComicInfo>\n"@.len() <= xml_part4(p, ci).len(),
        xml_part4(p, ci).subrange(
            xml_part4(p, ci).len() - "</ComicInfo>\n"@.len(),
            xml_part4(p, ci).len() as int,
        ) == "</ComicInfo>\n"@,
{
    let t = xml_part4(p, ci);
    let close = "</ComicInfo>\n"@;
    assert(t.subrange(0, p.len() as int) =~= p);
    assert(t.subrange(t.len() - close.len(), t.len() as int) =~= close);
}

/// The document begins with the XML declaration and the opening tag, and
/// ends with the closing tag.
pub proof fn law_xml_frame(ci: ComicInfo)
    ensures
        is_prefix(xml_head(), xml_text(ci)),
        "</ComicInfo>\n"@.len() <= xml_text(ci).len(),
        xml_text(ci).subrange(
            xml_text(ci).len() - "</ComicInfo>\n"@.len(),
            xml_text(ci).len() as int,
        ) == "</ComicInfo>\n"@,
{
    let p1 = xml_part1(xml_head(), ci);
    let p2 = xml_part2(p1, ci);
    let p3 = xml_part3(p2, ci);
    lemma_part_prefixes(xml_head(), ci);
    lemma_part_prefixes(p1, ci);
    lemma_part_prefixes(p2, ci);
    lemma_part4_shape(p3, ci);
    lemma_prefix_trans(xml_head(), p1, p2);
    lemma_prefix_trans(xml_head(), p2, p3);
    lemma_prefix_trans(xml_head(), p3, xml_part4(p3, ci));
}

// ---------------------------------------------------------------------------
// Where each field goes in the document
// ---------------------------------------------------------------------------

/// `with` is `without` with `piece` inserted at one place.
pub open spec fn inserted(without: Seq<char>, with: Seq<char>, piece: Seq<char>) -> bool {
    exists|a: Seq<char>, b: Seq<char>| without == a + b && with == a + piece + b
}

proof fn lemma_inserted_rules()
    ensures
        forall|y: Seq<char>, z: Seq<char>, e: Seq<char>|
            z.len() == 0 ==> #[trigger] inserted(y + z, y + e, e),
        forall|x0: Seq<char>, x1: Seq<char>, e: Seq<char>, t: Seq<char>|
            inserted(x0, x1, e) ==> #[trigger] inserted(x0 + t, x1 + t, e),
{
    assert forall|y: Seq<char>, z: Seq<char>, e: Seq<char>| z.len() == 0 implies #[trigger] inserted(
        y + z,
        y + e,
        e,
    ) by {
        assert(y + e =~= y + e + z);
    }
    assert forall|x0: Seq<char>, x1: Seq<char>, e: Seq<char>, t: Seq<char>| inserted(
        x0,
        x1,
        e,
    ) implies #[trigger] inserted(x0 + t, x1 + t, e) by {
        let (a, b) = choose|a: Seq<char>, b: Seq<char>| x0 == a + b && x1 == a + e + b;
        assert(x0 + t =~= a + (b + t));
        assert(x1 + t =~= a + e + (b + t));
    }
}

/// The Title, Series and Number elements carry those fields: setting the field
/// to `v` inserts exactly its element, with `v` escaped, into the document.
#[verifier::spinoff_prover]
#[verifier::rlimit(80)]
pub proof fn law_identity_elements(ci: ComicInfo, v: String)
    ensures
        inserted(
            xml_text(ComicInfo { title: None, ..ci }),
            xml_text(ComicInfo { title: Some(v), ..ci }),
            "  <Title>"@ + escape_text(v@) + "</Title>\n"@,
        ),
        inserted(
            xml_text(ComicInfo { series: None, ..ci }),
            xml_text(ComicInfo { series: Some(v), ..ci }),
            "  <Series>"@ + escape_text(v@) + "</Series>\n"@,
        ),
        inserted(
            xml_text(ComicInfo { number: None, ..ci }),
            xml_text(ComicInfo { number: Some(v), ..ci }),
            "  <Number>"@ + escape_text(v@) + "</Number>\n"@,
        ),
{
    lemma_inserted_rules();
    reveal_strlit("  <");
    reveal_strlit(">");
    reveal_strlit("</");
    reveal_strlit(">\n");
    reveal_strlit("Title");
    reveal_strlit("  <Title>");
    reveal_strlit("</Title>\n");
    reveal_strlit("Series");
    reveal_strlit("  <Series>");
    reveal_strlit("</Series>\n");
    reveal_strlit("Number");
    reveal_strlit("  <Number>");
    reveal_strlit("</Number>\n");
    let e = escape_text(v@);
    assert(element("Title"@, e) =~= "  <Title>"@ + e + "</Title>\n"@);
    assert(element("Series"@, e) =~= "  <Series>"@ + e + "</Series>\n"@);
    assert(element("Number"@, e) =~= "  <Number>"@ + e + "</Number>\n"@);
}

/// The AlternateSeries, AlternateNumber, Summary and Notes elements carry those
/// fields: setting the field to `v` inserts exactly its element, with `v`
/// escaped, into the document.
#[verifier::spinoff_prover]
#[verifier::rlimit(80)]
pub proof fn law_alternate_and_description_elements(ci: ComicInfo, v: String)
    ensures
        inserted(
            xml_text(ComicInfo { alternate_series: None, ..ci }),
            xml_text(ComicInfo { alternate_series: Some(v), ..ci }),
            "  <AlternateSeries>"@ + escape_text(v@) + "</AlternateSeries>\n"@,
        ),
        inserted(
            xml_text(ComicInfo { alternate_number: None, ..ci }),
            xml_text(ComicInfo { alternate_number: Some(v), ..ci }),
            "  <AlternateNumber>"@ + escape_text(v@) + "</AlternateNumber>\n"@,
        ),
        inserted(
            xml_text(ComicInfo { summary: None, ..ci }),
            xml_text(ComicInfo { summary: Some(v), ..ci }),
            "  <Summary>"@ + escape_text(v@) + "</Summary>\n"@,
        ),
        inserted(
            xml_text(ComicInfo { notes: None, ..ci }),
            xml_text(ComicInfo { notes: Some(v), ..ci }),
            "  <Notes>"@ + escape_text(v@) + "</Notes>\n"@,
        ),
{
    lemma_inserted_rules();
    reveal_strlit("  <");
    reveal_strlit(">");
    reveal_strlit("</");
    reveal_strlit(">\n");
    reveal_strlit("AlternateSeries");
    reveal_strlit("  <AlternateSeries>");
    reveal_strlit("</AlternateSeries>\n");
    reveal_strlit("AlternateNumber");
    reveal_strlit("  <AlternateNumber>");
    reveal_strlit("</AlternateNumber>\n");
    reveal_strlit("Summary");
    reveal_strlit("  <Summary>");
    reveal_strlit("</Summary>\n");
    reveal_strlit("Notes");
    reveal_strlit("  <Notes>");
    reveal_strlit("</Notes>\n");
    let e = escape_text(v@);
    assert(element("AlternateSeries"@, e) =~= "  <AlternateSeries>"@ + e + "</AlternateSeries>\n"@);
    assert(element("AlternateNumber"@, e) =~= "  <AlternateNumber>"@ + e + "</AlternateNumber>\n"@);
    assert(element("Summary"@, e) =~= "  <Summary>"@ + e + "</Summary>\n"@);
    assert(element("Notes"@, e) =~= "  <Notes>"@ + e + "</Notes>\n"@);
}

/// Each creator element carries its own field: Writer the writer, Penciller the
/// penciller, and so on: setting the field to `v` inserts exactly its element,
/// with `v` escaped, into the document.
#[verifier::spinoff_prover]
#[verifier::rlimit(80)]
pub proof fn law_creator_elements(ci: ComicInfo, v: String)
    ensures
        inserted(
            xml_text(ComicInfo { writer: None, ..ci }),
            xml_text(ComicInfo { writer: Some(v), ..ci }),
            "  <Writer>"@ + escape_text(v@) + "</Writer>\n"@,
        ),
        inserted(
            xml_text(ComicInfo { penciller: None, ..ci }),
            xml_text(ComicInfo { penciller: Some(v), ..ci }),
            "  <Penciller>"@ + escape_text(v@) + "</Penciller>\n"@,
        ),
        inserted(
            xml_text(ComicInfo { inker: None, ..ci }),
            xml_text(ComicInfo { inker: Some(v), ..ci }),
            "  <Inker>"@ + escape_text(v@) + "</Inker>\n"@,
        ),
        inserted(
            xml_text(ComicInfo { colorist: None, ..ci }),
            xml_text(ComicInfo { colorist: Some(v), ..ci }),
            "  <Colorist>"@ + escape_text(v@) + "</Colorist>\n"@,
        ),
{
    lemma_inserted_rules();
    reveal_strlit("  <");
    reveal_strlit(">");
    reveal_strlit("</");
    reveal_strlit(">\n");
    reveal_strlit("Writer");
    reveal_strlit("  <Writer>");
    reveal_strlit("</Writer>\n");
    reveal_strlit("Penciller");
    reveal_strlit("  <Penciller>");
    reveal_strlit("</Penciller>\n");
    reveal_strlit("Inker");
    reveal_strlit("  <Inker>");
    reveal_strlit("</Inker>\n");
    reveal_strlit("Colorist");
    reveal_strlit("  <Colorist>");
    reveal_strlit("</Colorist>\n");
    let e = escape_text(v@);
    assert(element("Writer"@, e) =~= "  <Writer>"@ + e + "</Writer>\n"@);
    assert(element("Penciller"@, e) =~= "  <Penciller>"@ + e + "</Penciller>\n"@);
    assert(element("Inker"@, e) =~= "  <Inker>"@ + e + "</Inker>\n"@);
    assert(element("Colorist"@, e) =~= "  <Colorist>"@ + e + "</Colorist>\n"@);
}

/// The Letterer, CoverArtist, Editor and Translator elements carry those
/// fields: setting the field to `v` inserts exactly its element, with `v`
/// escaped, into the document.
#[verifier::spinoff_prover]
#[verifier::rlimit(80)]
pub proof fn law_more_creator_elements(ci: ComicInfo, v: String)
    ensures
        inserted(
            xml_text(ComicInfo { letterer: None, ..ci }),
            xml_text(ComicInfo { letterer: Some(v), ..ci }),
            "  <Letterer>"@ + escape_text(v@) + "</Letterer>\n"@,
        ),
        inserted(
            xml_text(ComicInfo { cover_artist: None, ..ci }),
            xml_text(ComicInfo { cover_artist: Some(v), ..ci }),
            "  <CoverArtist>"@ + escape_text(v@) + "</CoverArtist>\n"@,
        ),
        inserted(
            xml_text(ComicInfo { editor: None, ..ci }),
            xml_text(ComicInfo { editor: Some(v), ..ci }),
            "  <Editor>"@ + escape_text(v@) + "</Editor>\n"@,
        ),
        inserted(
            xml_text(ComicInfo { translator: None, ..ci }),
            xml_text(ComicInfo { translator: Some(v), ..ci }),
            "  <Translator>"@ + escape_text(v@) + "</Translator>\n"@,
        ),
{
    lemma_inserted_rules();
    reveal_strlit("  <");
    reveal_strlit(">");
    reveal_strlit("</");
    reveal_strlit(">\n");
    reveal_strlit("Letterer");
    reveal_strlit("  <Letterer>");
    reveal_strlit("</Letterer>\n");
    reveal_strlit("CoverArtist");
    reveal_strlit("  <CoverArtist>");
    reveal_strlit("</CoverArtist>\n");
    reveal_strlit("Editor");
    reveal_strlit("  <Editor>");
    reveal_strlit("</Editor>\n");
    reveal_strlit("Translator");
    reveal_strlit("  <Translator>");
    reveal_strlit("</Translator>\n");
    let e = escape_text(v@);
    assert(element("Letterer"@, e) =~= "  <Letterer>"@ + e + "</Letterer>\n"@);
    assert(element("CoverArtist"@, e) =~= "  <CoverArtist>"@ + e + "</CoverArtist>\n"@);
    assert(element("Editor"@, e) =~= "  <Editor>"@ + e + "</Editor>\n"@);
    assert(element("Translator"@, e) =~= "  <Translator>"@ + e + "</Translator>\n"@);
}

/// The Publisher, Imprint, Genre, Tags and Web elements carry those fields:
/// setting the field to `v` inserts exactly its element, with `v` escaped, into
/// the document.
#[verifier::spinoff_prover]
#[verifier::rlimit(80)]
pub proof fn law_publishing_elements(ci: ComicInfo, v: String)
    ensures
        inserted(
            xml_text(ComicInfo { publisher: None, ..ci }),
            xml_text(ComicInfo { publisher: Some(v), ..ci }),
            "  <Publisher>"@ + escape_text(v@) + "</Publisher>\n"@,
        ),
        inserted(
            xml_text(ComicInfo { imprint: None, ..ci }),
            xml_text(ComicInfo { imprint: Some(v), ..ci }),
            "  <Imprint>"@ + escape_text(v@) + "</Imprint>\n"@,
        ),
        inserted(
            xml_text(ComicInfo { genre: None, ..ci }),
            xml_text(ComicInfo { genre: Some(v), ..ci }),
            "  <Genre>"@ + escape_text(v@) + "</Genre>\n"@,
        ),
        inserted(
            xml_text(ComicInfo { tags: None, ..ci }),
            xml_text(ComicInfo { tags: Some(v), ..ci }),
            "  <Tags>"@ + escape_text(v@) + "</Tags>\n"@,
        ),
        inserted(
            xml_text(ComicInfo { web: None, ..ci }),
            xml_text(ComicInfo { web: Some(v), ..ci }),
            "  <Web>"@ + escape_text(v@) + "</Web>\n"@,
        ),
{
    lemma_inserted_rules();
    reveal_strlit("  <");
    reveal_strlit(">");
    reveal_strlit("</");
    reveal_strlit(">\n");
    reveal_strlit("Publisher");
    reveal_strlit("  <Publisher>");
    reveal_strlit("</Publisher>\n");
    reveal_strlit("Imprint");
    reveal_strlit("  <Imprint>");
    reveal_strlit("</Imprint>\n");
    reveal_strlit("Genre");
    reveal_strlit("  <Genre>");
    reveal_strlit("</Genre>\n");
    reveal_strlit("Tags");
    reveal_strlit("  <Tags>");
    reveal_strlit("</Tags>\n");
    reveal_strlit("Web");
    reveal_strlit("  <Web>");
    reveal_strlit("</Web>\n");
    let e = escape_text(v@);
    assert(element("Publisher"@, e) =~= "  <Publisher>"@ + e + "</Publisher>\n"@);
    assert(element("Imprint"@, e) =~= "  <Imprint>"@ + e + "</Imprint>\n"@);
    assert(element("Genre"@, e) =~= "  <Genre>"@ + e + "</Genre>\n"@);
    assert(element("Tags"@, e) =~= "  <Tags>"@ + e + "</Tags>\n"@);
    assert(element("Web"@, e) =~= "  <Web>"@ + e + "</Web>\n"@);
}

/// The LanguageISO, Format, Characters, Teams and Locations elements carry
/// those fields: setting the field to `v` inserts exactly its element, with `v`
/// escaped, into the document.
#[verifier::spinoff_prover]
#[verifier::rlimit(80)]
pub proof fn law_technical_elements(ci: ComicInfo, v: String)
    ensures
        inserted(
            xml_text(ComicInfo { language_iso: None, ..ci }),
            xml_text(ComicInfo { language_iso: Some(v), ..ci }),
            "  <LanguageISO>"@ + escape_text(v@) + "</LanguageISO>\n"@,
        ),
        inserted(
            xml_text(ComicInfo { format: None, ..ci }),
            xml_text(ComicInfo { format: Some(v), ..ci }),
            "  <Format>"@ + escape_text(v@) + "</Format>\n"@,
        ),
        inserted(
            xml_text(ComicInfo { characters: None, ..ci }),
            xml_text(ComicInfo { characters: Some(v), ..ci }),
            "  <Characters>"@ + escape_text(v@) + "</Characters>\n"@,
        ),
        inserted(
            xml_text(ComicInfo { teams: None, ..ci }),
            xml_text(ComicInfo { teams: Some(v), ..ci }),
            "  <Teams>"@ + escape_text(v@) + "</Teams>\n"@,
        ),
        inserted(
            xml_text(ComicInfo { locations: None, ..ci }),
            xml_text(ComicInfo { locations: Some(v), ..ci }),
            "  <Locations>"@ + escape_text(v@) + "</Locations>\n"@,
        ),
{
    lemma_inserted_rules();
    reveal_strlit("  <");
    reveal_strlit(">");
    reveal_strlit("</");
    reveal_strlit(">\n");
    reveal_strlit("LanguageISO");
    reveal_strlit("  <LanguageISO>");
    reveal_strlit("</LanguageISO>\n");
    reveal_strlit("Format");
    reveal_strlit("  <Format>");
    reveal_strlit("</Format>\n");
    reveal_strlit("Characters");
    reveal_strlit("  <Characters>");
    reveal_strlit("</Characters>\n");
    reveal_strlit("Teams");
    reveal_strlit("  <Teams>");
    reveal_strlit("</Teams>\n");
    reveal_strlit("Locations");
    reveal_strlit("  <Locations>");
    reveal_strlit("</Locations>\n");
    let e = escape_text(v@);
    assert(element("LanguageISO"@, e) =~= "  <LanguageISO>"@ + e + "</LanguageISO>\n"@);
    assert(element("Format"@, e) =~= "  <Format>"@ + e + "</Format>\n"@);
    assert(element("Characters"@, e) =~= "  <Characters>"@ + e + "</Characters>\n"@);
    assert(element("Teams"@, e) =~= "  <Teams>"@ + e + "</Teams>\n"@);
    assert(element("Locations"@, e) =~= "  <Locations>"@ + e + "</Locations>\n"@);
}

/// The ScanInformation, StoryArc, StoryArcNumber, SeriesGroup,
/// MainCharacterOrTeam and Review elements carry those fields: setting the
/// field to `v` inserts exactly its element, with `v` escaped, into the
/// document.
#[verifier::spinoff_prover]
#[verifier::rlimit(80)]
pub proof fn law_story_elements(ci: ComicInfo, v: String)
    ensures
        inserted(
            xml_text(ComicInfo { scan_information: None, ..ci }),
            xml_text(ComicInfo { scan_information: Some(v), ..ci }),
            "  <ScanInformation>"@ + escape_text(v@) + "</ScanInformation>\n"@,
        ),
        inserted(
            xml_text(ComicInfo { story_arc: None, ..ci }),
            xml_text(ComicInfo { story_arc: Some(v), ..ci }),
            "  <StoryArc>"@ + escape_text(v@) + "</StoryArc>\n"@,
        ),
        inserted(
            xml_text(ComicInfo { story_arc_number: None, ..ci }),
            xml_text(ComicInfo { story_arc_number: Some(v), ..ci }),
            "  <StoryArcNumber>"@ + escape_text(v@) + "</StoryArcNumber>\n"@,
        ),
        inserted(
            xml_text(ComicInfo { series_group: None, ..ci }),
            xml_text(ComicInfo { series_group: Some(v), ..ci }),
            "  <SeriesGroup>"@ + escape_text(v@) + "</SeriesGroup>\n"@,
        ),
        inserted(
            xml_text(ComicInfo { main_character_or_team: None, ..ci }),
            xml_text(ComicInfo { main_character_or_team: Some(v), ..ci }),
            "  <MainCharacterOrTeam>"@ + escape_text(v@) + "</MainCharacterOrTeam>\n"@,
        ),
        inserted(
            xml_text(ComicInfo { review: None, ..ci }),
            xml_text(ComicInfo { review: Some(v), ..ci }),
            "  <Review>"@ + escape_text(v@) + "</Review>\n"@,
        ),
{
    lemma_inserted_rules();
    reveal_strlit("  <");
    reveal_strlit(">");
    reveal_strlit("</");
    reveal_strlit(">\n");
    reveal_strlit("ScanInformation");
    reveal_strlit("  <ScanInformation>");
    reveal_strlit("</ScanInformation>\n");
    reveal_strlit("StoryArc");
    reveal_strlit("  <StoryArc>");
    reveal_strlit("</StoryArc>\n");
    reveal_strlit("StoryArcNumber");
    reveal_strlit("  <StoryArcNumber>");
    reveal_strlit("</StoryArcNumber>\n");
    reveal_strlit("SeriesGroup");
    reveal_strlit("  <SeriesGroup>");
    reveal_strlit("</SeriesGroup>\n");
    reveal_strlit("MainCharacterOrTeam");
    reveal_strlit("  <MainCharacterOrTeam>");
    reveal_strlit("</MainCharacterOrTeam>\n");
    reveal_strlit("Review");
    reveal_strlit("  <Review>");
    reveal_strlit("</Review>\n");
    let e = escape_text(v@);
    assert(element("ScanInformation"@, e) =~= "  <ScanInformation>"@ + e + "</ScanInformation>\n"@);
    assert(element("StoryArc"@, e) =~= "  <StoryArc>"@ + e + "</StoryArc>\n"@);
    assert(element("StoryArcNumber"@, e) =~= "  <StoryArcNumber>"@ + e + "</StoryArcNumber>\n"@);
    assert(element("SeriesGroup"@, e) =~= "  <SeriesGroup>"@ + e + "</SeriesGroup>\n"@);
    assert(element("MainCharacterOrTeam"@, e) =~= "  <MainCharacterOrTeam>"@ + e + "</MainCharacterOrTeam>\n"@);
    assert(element("Review"@, e) =~= "  <Review>"@ + e + "</Review>\n"@);
}

/// The Count, Volume and AlternateCount elements carry those numbers in
/// decimal: setting the field to `n` inserts exactly its element into the
/// document.
#[verifier::spinoff_prover]
#[verifier::rlimit(80)]
pub proof fn law_count_elements(ci: ComicInfo, n: i32)
    ensures
        inserted(
            xml_text(ComicInfo { count: None, ..ci }),
            xml_text(ComicInfo { count: Some(n), ..ci }),
            "  <Count>"@ + int_decimal(n as int) + "</Count>\n"@,
        ),
        inserted(
            xml_text(ComicInfo { volume: None, ..ci }),
            xml_text(ComicInfo { volume: Some(n), ..ci }),
            "  <Volume>"@ + int_decimal(n as int) + "</Volume>\n"@,
        ),
        inserted(
            xml_text(ComicInfo { alternate_count: None, ..ci }),
            xml_text(ComicInfo { alternate_count: Some(n), ..ci }),
            "  <AlternateCount>"@ + int_decimal(n as int) + "</AlternateCount>\n"@,
        ),
{
    lemma_inserted_rules();
    reveal_strlit("  <");
    reveal_strlit(">");
    reveal_strlit("</");
    reveal_strlit(">\n");
    reveal_strlit("Count");
    reveal_strlit("  <Count>");
    reveal_strlit("</Count>\n");
    reveal_strlit("Volume");
    reveal_strlit("  <Volume>");
    reveal_strlit("</Volume>\n");
    reveal_strlit("AlternateCount");
    reveal_strlit("  <AlternateCount>");
    reveal_strlit("</AlternateCount>\n");
    let d = int_decimal(n as int);
    assert(element("Count"@, d) =~= "  <Count>"@ + d + "</Count>\n"@);
    assert(element("Volume"@, d) =~= "  <Volume>"@ + d + "</Volume>\n"@);
    assert(element("AlternateCount"@, d) =~= "  <AlternateCount>"@ + d + "</AlternateCount>\n"@);
}

/// The Year, Month and Day elements carry those numbers in decimal: setting the
/// field to `n` inserts exactly its element into the document.
#[verifier::spinoff_prover]
#[verifier::rlimit(80)]
pub proof fn law_date_elements(ci: ComicInfo, n: i32)
    ensures
        inserted(
            xml_text(ComicInfo { year: None, ..ci }),
            xml_text(ComicInfo { year: Some(n), ..ci }),
            "  <Year>"@ + int_decimal(n as int) + "</Year>\n"@,
        ),
        inserted(
            xml_text(ComicInfo { month: None, ..ci }),
            xml_text(ComicInfo { month: Some(n), ..ci }),
            "  <Month>"@ + int_decimal(n as int) + "</Month>\n"@,
        ),
        inserted(
            xml_text(ComicInfo { day: None, ..ci }),
            xml_text(ComicInfo { day: Some(n), ..ci }),
            "  <Day>"@ + int_decimal(n as int) + "</Day>\n"@,
        ),
{
    lemma_inserted_rules();
    reveal_strlit("  <");
    reveal_strlit(">");
    reveal_strlit("</");
    reveal_strlit(">\n");
    reveal_strlit("Year");
    reveal_strlit("  <Year>");
    reveal_strlit("</Year>\n");
    reveal_strlit("Month");
    reveal_strlit("  <Month>");
    reveal_strlit("</Month>\n");
    reveal_strlit("Day");
    reveal_strlit("  <Day>");
    reveal_strlit("</Day>\n");
    let d = int_decimal(n as int);
    assert(element("Year"@, d) =~= "  <Year>"@ + d + "</Year>\n"@);
    assert(element("Month"@, d) =~= "  <Month>"@ + d + "</Month>\n"@);
    assert(element("Day"@, d) =~= "  <Day>"@ + d + "</Day>\n"@);
}

/// The CommunityRating element carries the rating: setting it to `h`
/// hundredths inserts exactly its element into the document.
#[verifier::spinoff_prover]
#[verifier::rlimit(80)]
pub proof fn law_rating_element(ci: ComicInfo, h: u32)
    ensures
        inserted(
            xml_text(ComicInfo { community_rating: None, ..ci }),
            xml_text(ComicInfo { community_rating: Some(h), ..ci }),
            "  <CommunityRating>"@ + rating_text(h) + "</CommunityRating>\n"@,
        ),
{
    lemma_inserted_rules();
    reveal_strlit("  <");
    reveal_strlit(">");
    reveal_strlit("</");
    reveal_strlit(">\n");
    reveal_strlit("CommunityRating");
    reveal_strlit("  <CommunityRating>");
    reveal_strlit("</CommunityRating>\n");
    let d = rating_text(h);
    assert(element("CommunityRating"@, d) =~= "  <CommunityRating>"@ + d + "</CommunityRating>\n"@);
}

/// `x` and `y` are the same text around one place, where `x` holds `a` and
/// `y` holds `b`.
pub open spec fn replaced(x: Seq<char>, y: Seq<char>, a: Seq<char>, b: Seq<char>) -> bool {
    exists|p: Seq<char>, q: Seq<char>| x == p + a + q && y == p + b + q
}

proof fn lemma_replaced_rules()
    ensures
        forall|z: Seq<char>, a: Seq<char>, b: Seq<char>| #[trigger] replaced(z + a, z + b, a, b),
        forall|x: Seq<char>, y: Seq<char>, a: Seq<char>, b: Seq<char>, t: Seq<char>|
            replaced(x, y, a, b) ==> #[trigger] replaced(x + t, y + t, a, b),
{
    assert forall|z: Seq<char>, a: Seq<char>, b: Seq<char>| #[trigger] replaced(
        z + a,
        z + b,
        a,
        b,
    ) by {
        let e = Seq::<char>::empty();
        assert(z + a =~= z + a + e);
        assert(z + b =~= z + b + e);
    }
    assert forall|x: Seq<char>, y: Seq<char>, a: Seq<char>, b: Seq<char>, t: Seq<char>| replaced(
        x,
        y,
        a,
        b,
    ) implies #[trigger] replaced(x + t, y + t, a, b) by {
        let (p, q) = choose|p: Seq<char>, q: Seq<char>| x == p + a + q && y == p + b + q;
        assert(x + t =~= p + a + (q + t));
        assert(y + t =~= p + b + (q + t));
    }
}

/// The PageCount, BlackAndWhite, Manga and AgeRating elements are always
/// written and carry those fields: two documents that differ only in one of
/// them differ only in its element.
#[verifier::spinoff_prover]
#[verifier::rlimit(80)]
pub proof fn law_fixed_elements(ci: ComicInfo, a: ComicInfo)
    ensures
        replaced(
            xml_text(ci),
            xml_text(ComicInfo { page_count: a.page_count, ..ci }),
            "  <PageCount>"@ + int_decimal(ci.page_count as int) + "</PageCount>\n"@,
            "  <PageCount>"@ + int_decimal(a.page_count as int) + "</PageCount>\n"@,
        ),
        replaced(
            xml_text(ci),
            xml_text(ComicInfo { black_and_white: a.black_and_white, ..ci }),
            "  <BlackAndWhite>"@ + yes_no_text(ci.black_and_white) + "</BlackAndWhite>\n"@,
            "  <BlackAndWhite>"@ + yes_no_text(a.black_and_white) + "</BlackAndWhite>\n"@,
        ),
        replaced(
            xml_text(ci),
            xml_text(ComicInfo { manga: a.manga, ..ci }),
            "  <Manga>"@ + manga_text(ci.manga) + "</Manga>\n"@,
            "  <Manga>"@ + manga_text(a.manga) + "</Manga>\n"@,
        ),
        replaced(
            xml_text(ci),
            xml_text(ComicInfo { age_rating: a.age_rating, ..ci }),
            "  <AgeRating>"@ + age_rating_text(ci.age_rating) + "</AgeRating>\n"@,
            "  <AgeRating>"@ + age_rating_text(a.age_rating) + "</AgeRating>\n"@,
        ),
{
    lemma_replaced_rules();
    reveal_strlit("  <");
    reveal_strlit(">");
    reveal_strlit("</");
    reveal_strlit(">\n");
    reveal_strlit("PageCount");
    reveal_strlit("  <PageCount>");
    reveal_strlit("</PageCount>\n");
    reveal_strlit("BlackAndWhite");
    reveal_strlit("  <BlackAndWhite>");
    reveal_strlit("</BlackAndWhite>\n");
    reveal_strlit("Manga");
    reveal_strlit("  <Manga>");
    reveal_strlit("</Manga>\n");
    reveal_strlit("AgeRating");
    reveal_strlit("  <AgeRating>");
    reveal_strlit("</AgeRating>\n");
    assert forall|d: Seq<char>| #[trigger] element("PageCount"@, d) == "  <PageCount>"@ + d
        + "</PageCount>\n"@ by {
        assert(element("PageCount"@, d) =~= "  <PageCount>"@ + d + "</PageCount>\n"@);
    }
    assert forall|d: Seq<char>| #[trigger] element("BlackAndWhite"@, d) == "  <BlackAndWhite>"@
        + d + "</BlackAndWhite>\n"@ by {
        assert(element("BlackAndWhite"@, d) =~= "  <BlackAndWhite>"@ + d
            + "</BlackAndWhite>\n"@);
    }
    assert forall|d: Seq<char>| #[trigger] element("Manga"@, d) == "  <Manga>"@ + d
        + "</Manga>\n"@ by {
        assert(element("Manga"@, d) =~= "  <Manga>"@ + d + "</Manga>\n"@);
    }
    assert forall|d: Seq<char>| #[trigger] element("AgeRating"@, d) == "  <AgeRating>"@ + d
        + "</AgeRating>\n"@ by {
        assert(element("AgeRating"@, d) =~= "  <AgeRating>"@ + d + "</AgeRating>\n"@);
    }
}

} // verus!
