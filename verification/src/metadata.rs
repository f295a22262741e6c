//! Assembling one archive's `ComicInfo` from its three sources.
//!
//! Metadata comes, in priority order, from explicit overrides, from a
//! Bangumi subject, and from the archive's file name; the page list comes
//! from the archive's images.  The command-line program gathers the inputs
//! (arguments, HTTP, archive reading) and hands them to these functions.
use vstd::prelude::*;

use crate::archive::{entries_view, ArchiveFormat, ImageEntry};
use crate::bangumi::{RelatedSubject, SearchHit};
use crate::comic_info::{AgeRating, ComicInfo, Manga, PageInfo, PageType, YesNo, pick};
use crate::filename_parser::FilenameMetadata;
use crate::text::{
    contains, contains_seq, eq_str, i64_decimal, i64_decimal_pad2, int_decimal, int_decimal_pad2,
    push_chars, push_str, string_from_chars, to_chars,
};

verus! {

// ---------------------------------------------------------------------------
// Explicit overrides
// ---------------------------------------------------------------------------

/// Explicit metadata overrides (highest priority — they win over Bangumi
/// and filename parsing).
#[derive(Debug)]
pub struct OverrideArgs {
    pub series: Option<String>,
    pub number: Option<String>,
    pub volume: Option<i32>,
    pub title: Option<String>,
    pub year: Option<i32>,
    pub month: Option<i32>,
    pub publisher: Option<String>,
    /// Language code; `"en"` is the default and only fills a blank field.
    pub language: String,
    pub manga: Manga,
    pub black_and_white: YesNo,
    pub age_rating: AgeRating,
    pub summary: Option<String>,
    pub writer: Option<String>,
    pub penciller: Option<String>,
    pub translator: Option<String>,
    pub genre: Option<String>,
}

/// The language after the overrides: an explicit choice other than `"en"`
/// always wins; `"en"` only fills a blank field.
pub open spec fn language_after(current: Option<String>, o: OverrideArgs) -> Option<String> {
    if current is None || o.language@ != "en"@ {
        Some(o.language)
    } else {
        current
    }
}

/// `ci` with the overrides applied.
pub open spec fn with_overrides(ci: ComicInfo, o: OverrideArgs) -> ComicInfo {
    ComicInfo {
        series: pick(o.series, ci.series),
        number: pick(o.number, ci.number),
        title: pick(o.title, ci.title),
        publisher: pick(o.publisher, ci.publisher),
        summary: pick(o.summary, ci.summary),
        writer: pick(o.writer, ci.writer),
        penciller: pick(o.penciller, ci.penciller),
        translator: pick(o.translator, ci.translator),
        genre: pick(o.genre, ci.genre),
        volume: pick(o.volume, ci.volume),
        year: pick(o.year, ci.year),
        month: pick(o.month, ci.month),
        manga: if o.manga != Manga::Unknown {
            o.manga
        } else {
            ci.manga
        },
        black_and_white: if o.black_and_white != YesNo::Unknown {
            o.black_and_white
        } else {
            ci.black_and_white
        },
        age_rating: if o.age_rating != AgeRating::Unknown {
            o.age_rating
        } else {
            ci.age_rating
        },
        language_iso: language_after(ci.language_iso, o),
        ..ci
    }
}

fn set_override(slot: &mut Option<String>, v: &Option<String>)
    ensures
        *final(slot) == pick(*v, *old(slot)),
{
    match v {
        Some(s) => {
            *slot = Some(s.clone());
        },
        None => {},
    }
}

fn set_override_int(slot: &mut Option<i32>, v: Option<i32>)
    ensures
        *final(slot) == pick(v, *old(slot)),
{
    match v {
        Some(n) => {
            *slot = Some(n);
        },
        None => {},
    }
}

impl OverrideArgs {
    /// Apply the explicit overrides onto `ci`. Only fields the user actually
    /// set (or set to a non-default enum value) are touched, so this can run
    /// unconditionally as the final, highest-priority merge step.
    pub fn apply(&self, ci: &mut ComicInfo)
        ensures
            *final(ci) == with_overrides(*old(ci), *self),
    {
        set_override(&mut ci.series, &self.series);
        set_override(&mut ci.number, &self.number);
        set_override(&mut ci.title, &self.title);
        set_override(&mut ci.publisher, &self.publisher);
        set_override(&mut ci.summary, &self.summary);
        set_override(&mut ci.writer, &self.writer);
        set_override(&mut ci.penciller, &self.penciller);
        set_override(&mut ci.translator, &self.translator);
        set_override(&mut ci.genre, &self.genre);
        set_override_int(&mut ci.volume, self.volume);
        set_override_int(&mut ci.year, self.year);
        set_override_int(&mut ci.month, self.month);

        // Enum fields: only apply non-default (explicitly chosen) values.
        if self.manga != Manga::Unknown {
            ci.manga = self.manga;
        }
        if self.black_and_white != YesNo::Unknown {
            ci.black_and_white = self.black_and_white;
        }
        if self.age_rating != AgeRating::Unknown {
            ci.age_rating = self.age_rating;
        }

        // Language always carries a value (default "en"): honour an explicit
        // non-default choice, otherwise only fill when nothing set it upstream.
        let lang = to_chars(self.language.as_str());
        if ci.language_iso.is_none() || !eq_str(&lang, "en") {
            ci.language_iso = Some(self.language.clone());
        }
    }
}

// ---------------------------------------------------------------------------
// The filename source
// ---------------------------------------------------------------------------

/// `ci` holds the filename metadata and nothing else.
pub open spec fn from_filename(ci: ComicInfo, meta: FilenameMetadata) -> bool {
    &&& ci.series == meta.series
    &&& ci.number == meta.number
    &&& ci.volume == meta.volume
    &&& ci.title == meta.title
    &&& ci.year == meta.year
    &&& ci.publisher == meta.publisher
    &&& ci.count is None
    &&& ci.alternate_series is None
    &&& ci.alternate_number is None
    &&& ci.alternate_count is None
    &&& ci.summary is None
    &&& ci.notes is None
    &&& ci.month is None
    &&& ci.day is None
    &&& ci.writer is None
    &&& ci.penciller is None
    &&& ci.inker is None
    &&& ci.colorist is None
    &&& ci.letterer is None
    &&& ci.cover_artist is None
    &&& ci.editor is None
    &&& ci.translator is None
    &&& ci.imprint is None
    &&& ci.genre is None
    &&& ci.tags is None
    &&& ci.web is None
    &&& ci.page_count == 0
    &&& ci.language_iso is None
    &&& ci.format is None
    &&& ci.black_and_white == YesNo::Unknown
    &&& ci.manga == Manga::Unknown
    &&& ci.characters is None
    &&& ci.teams is None
    &&& ci.locations is None
    &&& ci.scan_information is None
    &&& ci.story_arc is None
    &&& ci.story_arc_number is None
    &&& ci.series_group is None
    &&& ci.age_rating == AgeRating::Unknown
    &&& ci.community_rating is None
    &&& ci.main_character_or_team is None
    &&& ci.review is None
    &&& ci.pages@.len() == 0
}

/// A document holding the metadata parsed from the file name.
pub fn comic_info_from_filename(meta: FilenameMetadata) -> (res: ComicInfo)
    ensures
        from_filename(res, meta),
{
    let mut ci = ComicInfo::default();
    ci.series = meta.series;
    ci.number = meta.number;
    ci.volume = meta.volume;
    ci.title = meta.title;
    ci.year = meta.year;
    ci.publisher = meta.publisher;
    ci
}

// ---------------------------------------------------------------------------
// Pages and notes
// ---------------------------------------------------------------------------

/// The type of page `i` of `n`: the first is the front cover, the last (when
/// there are at least two) the back cover, the rest story pages.
pub open spec fn page_type_at(i: int, n: int) -> PageType {
    if i == 0 {
        PageType::FrontCover
    } else if i == n - 1 && n > 1 {
        PageType::BackCover
    } else {
        PageType::Story
    }
}

/// One `PageInfo` per image, in order.
pub open spec fn pages_for(pages: Seq<PageInfo>, images: Seq<(Seq<char>, u64)>) -> bool {
    &&& pages.len() == images.len()
    &&& forall|i: int|
        0 <= i < pages.len() ==> #[trigger] pages[i] == (PageInfo {
            image: i as i32,
            page_type: page_type_at(i, images.len() as int),
            double_page: false,
            image_size: images[i].1,
            image_width: -1i32,
            image_height: -1i32,
        })
}

/// The page list of an archive's images.
pub fn page_list(images: &[ImageEntry]) -> (res: Vec<PageInfo>)
    ensures
        pages_for(res@, entries_view(images@)),
{
    let n = images.len();
    let mut pages: Vec<PageInfo> = Vec::new();
    let mut idx: usize = 0;
    while idx < n
        invariant
            n == images@.len(),
            idx <= n,
            pages@.len() == idx,
            forall|i: int|
                0 <= i < idx ==> #[trigger] pages@[i] == (PageInfo {
                    image: i as i32,
                    page_type: page_type_at(i, n as int),
                    double_page: false,
                    image_size: images@[i].size,
                    image_width: -1i32,
                    image_height: -1i32,
                }),
        decreases n - idx,
    {
        let page_type = if idx == 0 {
            PageType::FrontCover
        } else if idx == n - 1 && n > 1 {
            PageType::BackCover
        } else {
            PageType::Story
        };
        let mut page = PageInfo::new(idx as i32, page_type);
        page.image_size = images[idx].size;
        pages.push(page);
        idx += 1;
    }
    pages
}

/// `Generated by cxgen v{version} from '{file_name}'`.
pub open spec fn generator_note(version: Seq<char>, file_name: Seq<char>) -> Seq<char> {
    "Generated by cxgen v"@ + version + " from '"@ + file_name + "'"@
}

/// The notes with `note` added on a line of its own.
pub open spec fn notes_with(notes: Option<Seq<char>>, note: Seq<char>) -> Seq<char> {
    match notes {
        Some(prev) => prev + "\n"@ + note,
        None => note,
    }
}

/// Stamp the notes with the generator line.
pub fn stamp_notes(notes: Option<String>, version: &str, file_name: &str) -> (res: String)
    ensures
        res@ == notes_with(notes.deep_view(), generator_note(version@, file_name@)),
{
    let mut note = to_chars("Generated by cxgen v");
    push_str(&mut note, version);
    push_str(&mut note, " from '");
    push_str(&mut note, file_name);
    push_str(&mut note, "'");
    match notes {
        Some(prev) => {
            let mut all = to_chars(prev.as_str());
            push_str(&mut all, "\n");
            push_chars(&mut all, &note);
            assert(all@ =~= prev@ + "\n"@ + note@);
            string_from_chars(&all)
        },
        None => string_from_chars(&note),
    }
}

// ---------------------------------------------------------------------------
// Assembly
// ---------------------------------------------------------------------------

/// A field of the Bangumi document, when there is one.
pub open spec fn from_bangumi<T>(bangumi: Option<ComicInfo>, f: spec_fn(ComicInfo) -> Option<T>) -> Option<T> {
    match bangumi {
        Some(b) => f(b),
        None => None,
    }
}

/// The document assembled from the three sources.
pub open spec fn assembled(
    res: ComicInfo,
    meta: FilenameMetadata,
    bangumi: Option<ComicInfo>,
    o: OverrideArgs,
    images: Seq<(Seq<char>, u64)>,
    version: Seq<char>,
    file_name: Seq<char>,
) -> bool {
    // Filename fields: override, else Bangumi, else the file name.
    &&& res.series == pick(o.series, pick(from_bangumi(bangumi, |b: ComicInfo| b.series), meta.series))
    &&& res.number == pick(o.number, pick(from_bangumi(bangumi, |b: ComicInfo| b.number), meta.number))
    &&& res.title == pick(o.title, pick(from_bangumi(bangumi, |b: ComicInfo| b.title), meta.title))
    &&& res.publisher == pick(
        o.publisher,
        pick(from_bangumi(bangumi, |b: ComicInfo| b.publisher), meta.publisher),
    )
    &&& res.volume == pick(o.volume, pick(from_bangumi(bangumi, |b: ComicInfo| b.volume), meta.volume))
    &&& res.year == pick(o.year, pick(from_bangumi(bangumi, |b: ComicInfo| b.year), meta.year))
    // Overridable fields that only Bangumi fills.
    &&& res.summary == pick(o.summary, from_bangumi(bangumi, |b: ComicInfo| b.summary))
    &&& res.writer == pick(o.writer, from_bangumi(bangumi, |b: ComicInfo| b.writer))
    &&& res.penciller == pick(o.penciller, from_bangumi(bangumi, |b: ComicInfo| b.penciller))
    &&& res.translator == pick(o.translator, from_bangumi(bangumi, |b: ComicInfo| b.translator))
    &&& res.genre == pick(o.genre, from_bangumi(bangumi, |b: ComicInfo| b.genre))
    &&& res.month == pick(o.month, from_bangumi(bangumi, |b: ComicInfo| b.month))
    &&& res.manga == if o.manga != Manga::Unknown {
        o.manga
    } else {
        match bangumi {
            Some(b) => b.manga,
            None => Manga::Unknown,
        }
    }
    &&& res.black_and_white == if o.black_and_white != YesNo::Unknown {
        o.black_and_white
    } else {
        match bangumi {
            Some(b) => b.black_and_white,
            None => YesNo::Unknown,
        }
    }
    &&& res.age_rating == if o.age_rating != AgeRating::Unknown {
        o.age_rating
    } else {
        match bangumi {
            Some(b) => b.age_rating,
            None => AgeRating::Unknown,
        }
    }
    &&& res.language_iso == language_after(
        from_bangumi(bangumi, |b: ComicInfo| b.language_iso),
        o,
    )
    // Fields that only Bangumi fills.
    &&& res.count == from_bangumi(bangumi, |b: ComicInfo| b.count)
    &&& res.alternate_series == from_bangumi(bangumi, |b: ComicInfo| b.alternate_series)
    &&& res.alternate_number == from_bangumi(bangumi, |b: ComicInfo| b.alternate_number)
    &&& res.alternate_count == from_bangumi(bangumi, |b: ComicInfo| b.alternate_count)
    &&& res.day == from_bangumi(bangumi, |b: ComicInfo| b.day)
    &&& res.inker == from_bangumi(bangumi, |b: ComicInfo| b.inker)
    &&& res.colorist == from_bangumi(bangumi, |b: ComicInfo| b.colorist)
    &&& res.letterer == from_bangumi(bangumi, |b: ComicInfo| b.letterer)
    &&& res.cover_artist == from_bangumi(bangumi, |b: ComicInfo| b.cover_artist)
    &&& res.editor == from_bangumi(bangumi, |b: ComicInfo| b.editor)
    &&& res.imprint == from_bangumi(bangumi, |b: ComicInfo| b.imprint)
    &&& res.tags == from_bangumi(bangumi, |b: ComicInfo| b.tags)
    &&& res.web == from_bangumi(bangumi, |b: ComicInfo| b.web)
    &&& res.format == from_bangumi(bangumi, |b: ComicInfo| b.format)
    &&& res.characters == from_bangumi(bangumi, |b: ComicInfo| b.characters)
    &&& res.teams == from_bangumi(bangumi, |b: ComicInfo| b.teams)
    &&& res.locations == from_bangumi(bangumi, |b: ComicInfo| b.locations)
    &&& res.scan_information == from_bangumi(bangumi, |b: ComicInfo| b.scan_information)
    &&& res.story_arc == from_bangumi(bangumi, |b: ComicInfo| b.story_arc)
    &&& res.story_arc_number == from_bangumi(bangumi, |b: ComicInfo| b.story_arc_number)
    &&& res.series_group == from_bangumi(bangumi, |b: ComicInfo| b.series_group)
    &&& res.community_rating == from_bangumi(bangumi, |b: ComicInfo| b.community_rating)
    &&& res.main_character_or_team == from_bangumi(
        bangumi,
        |b: ComicInfo| b.main_character_or_team,
    )
    &&& res.review == from_bangumi(bangumi, |b: ComicInfo| b.review)
    // From the archive and the generator.
    &&& res.page_count == images.len() as i32
    &&& (images.len() > 0 ==> pages_for(res.pages@, images))
    &&& (images.len() == 0 ==> res.pages@ == match bangumi {
        Some(b) => b.pages@,
        None => Seq::<PageInfo>::empty(),
    })
    &&& res.notes.deep_view() == Some(
        notes_with(
            from_bangumi(bangumi, |b: ComicInfo| b.notes).deep_view(),
            generator_note(version, file_name),
        ),
    )
}

/// Build the document for one archive: filename metadata, overlaid by the
/// Bangumi subject when there is one, overlaid by the explicit overrides;
/// then the page list of the archive's images and the generator note.
pub fn assemble(
    meta: FilenameMetadata,
    bangumi: Option<ComicInfo>,
    overrides: &OverrideArgs,
    images: &[ImageEntry],
    version: &str,
    file_name: &str,
) -> (res: ComicInfo)
    ensures
        assembled(res, meta, bangumi, *overrides, entries_view(images@), version@, file_name@),
{
    let ghost bangumi_v = bangumi;
    let mut comic_info = comic_info_from_filename(meta);

    // Bangumi data wins over filename parsing
    match bangumi {
        Some(b) => {
            let mut merged = b;
            merged.merge_from(comic_info);
            comic_info = merged;
        },
        None => {},
    }
    let ghost after_merge = comic_info;

    // Explicit overrides (highest priority)
    overrides.apply(&mut comic_info);

    // Page list from the archive image listing
    let image_count = images.len();
    comic_info.page_count = image_count as i32;
    if image_count > 0 {
        comic_info.pages = page_list(images);
    }

    // Notes: stamp with generator info
    let stamped = stamp_notes(comic_info.notes.take(), version, file_name);
    comic_info.notes = Some(stamped);
    proof {
        if image_count == 0 {
            match bangumi_v {
                Some(b) => {
                    assert(after_merge.pages == b.pages);
                },
                None => {
                    assert(comic_info.pages@ =~= Seq::<PageInfo>::empty());
                },
            }
        }
    }
    comic_info
}

// ---------------------------------------------------------------------------
// Bangumi lookups
// ---------------------------------------------------------------------------

/// `i` is the hit to use: the first series head, else the first hit.
pub open spec fn is_best_hit(hits: Seq<SearchHit>, i: int) -> bool {
    &&& 0 <= i < hits.len()
    &&& (hits[i].series && forall|j: int| 0 <= j < i ==> !(#[trigger] hits[j]).series) || (i == 0
        && forall|j: int| 0 <= j < hits.len() ==> !(#[trigger] hits[j]).series)
}

/// The hit to use: the first series head, else the first hit.
pub fn choose_search_hit(hits: &Vec<SearchHit>) -> (res: Option<usize>)
    ensures
        match res {
            Some(i) => is_best_hit(hits@, i as int),
            None => hits@.len() == 0,
        },
{
    let mut i: usize = 0;
    while i < hits.len()
        invariant
            i <= hits@.len(),
            forall|j: int| 0 <= j < i ==> !(#[trigger] hits@[j]).series,
        decreases hits@.len() - i,
    {
        if hits[i].series {
            return Some(i);
        }
        i += 1;
    }
    if hits.len() > 0 {
        Some(0)
    } else {
        None
    }
}

/// A related subject's name marks volume `vol`: `(vol)`, `(0vol)` for one
/// digit, or ` vol ` appears in it.
pub open spec fn names_volume(name: Seq<char>, vol: i32) -> bool {
    ||| contains_seq(name, "("@ + int_decimal(vol as int) + ")"@)
    ||| contains_seq(name, "("@ + int_decimal_pad2(vol as int) + ")"@)
    ||| contains_seq(name, " "@ + int_decimal(vol as int) + " "@)
}

/// A relation is the single volume `vol` of a series.
pub open spec fn is_volume_relation(r: RelatedSubject, vol: i32) -> bool {
    r.relation@ == "单行本"@ && names_volume(r.name@, vol)
}

fn wrapped(open: &str, body: &[char], close: &str) -> (res: Vec<char>)
    ensures
        res@ == open@ + body@ + close@,
{
    let mut out = to_chars(open);
    push_chars(&mut out, body);
    push_str(&mut out, close);
    out
}

fn names_volume_exec(name: &[char], vol: i32) -> (res: bool)
    ensures
        res == names_volume(name@, vol),
{
    let v = i64_decimal(vol as i64);
    let v_pad = i64_decimal_pad2(vol as i64);
    let a = wrapped("(", &v, ")");
    let b = wrapped("(", &v_pad, ")");
    let c = wrapped(" ", &v, " ");
    contains(name, &a) || contains(name, &b) || contains(name, &c)
}

/// Relation `i` is the first one that is the single volume `vol`.
pub open spec fn is_first_volume_relation(rs: Seq<RelatedSubject>, vol: i32, i: int) -> bool {
    &&& 0 <= i < rs.len()
    &&& is_volume_relation(rs[i], vol)
    &&& forall|j: int| 0 <= j < i ==> !is_volume_relation(#[trigger] rs[j], vol)
}

/// No relation is the single volume `vol`.
pub open spec fn has_no_volume_relation(rs: Seq<RelatedSubject>, vol: i32) -> bool {
    forall|j: int| 0 <= j < rs.len() ==> !is_volume_relation(#[trigger] rs[j], vol)
}

/// The id of the first relation that is the single volume `vol`.
pub fn find_volume_relation(relations: &Vec<RelatedSubject>, vol: i32) -> (res: Option<u64>)
    ensures
        match res {
            Some(id) => exists|i: int|
                #[trigger] is_first_volume_relation(relations@, vol, i) && relations@[i].id == id,
            None => has_no_volume_relation(relations@, vol),
        },
{
    let mut i: usize = 0;
    while i < relations.len()
        invariant
            i <= relations@.len(),
            forall|j: int| 0 <= j < i ==> !is_volume_relation(#[trigger] relations@[j], vol),
        decreases relations@.len() - i,
    {
        let rel = &relations[i];
        let relation = to_chars(rel.relation.as_str());
        if eq_str(&relation, "单行本") {
            let name = to_chars(rel.name.as_str());
            if names_volume_exec(&name, vol) {
                assert(is_first_volume_relation(relations@, vol, i as int));
                return Some(rel.id);
            }
        }
        i += 1;
    }
    None
}

/// The first step in finding an archive's Bangumi subject.
#[derive(Debug)]
pub enum SubjectLookup {
    /// Fetch this subject.
    Fetch(u64),
    /// Search Bangumi for this series name.
    Search(String),
    /// An automatic search was asked for, but the file name gave no series.
    NoSeries,
    /// No Bangumi lookup.
    Skip,
}

/// How to start the lookup: an explicit subject id is fetched as it is;
/// otherwise, with `--bangumi-auto` and a working client, the series name
/// from the file name is searched for.
pub fn subject_lookup(
    explicit_id: Option<u64>,
    auto: bool,
    client_ready: bool,
    series: &Option<String>,
) -> (res: SubjectLookup)
    ensures
        match explicit_id {
            Some(id) => res == SubjectLookup::Fetch(id),
            None => if auto && client_ready {
                match series {
                    Some(s) => res matches SubjectLookup::Search(q) && q@ == s@,
                    None => res == SubjectLookup::NoSeries,
                }
            } else {
                res == SubjectLookup::Skip
            },
        },
{
    match explicit_id {
        Some(id) => SubjectLookup::Fetch(id),
        None => {
            if auto && client_ready {
                match series {
                    Some(s) => {
                        let q = string_from_chars(&to_chars(s.as_str()));
                        SubjectLookup::Search(q)
                    },
                    None => SubjectLookup::NoSeries,
                }
            } else {
                SubjectLookup::Skip
            }
        },
    }
}

/// What the search results decide.
#[derive(Debug, Clone, Copy, PartialEq, Eq, Structural)]
pub enum SearchOutcome {
    /// Nothing was found: no subject.
    NoHit,
    /// Use hit `index`.
    Hit(usize),
    /// Hit `index` is the series; look among its relations for `volume`.
    CheckVolume(usize, i32),
}

/// The hit to use (the first series head, else the first hit); when the
/// file name gave a volume, its relations are to be searched for that
/// volume.
pub fn after_search(hits: &Vec<SearchHit>, volume: Option<i32>) -> (res: SearchOutcome)
    ensures
        match res {
            SearchOutcome::NoHit => hits@.len() == 0,
            SearchOutcome::Hit(i) => volume is None && is_best_hit(hits@, i as int),
            SearchOutcome::CheckVolume(i, v) => volume == Some(v) && is_best_hit(hits@, i as int),
        },
{
    match choose_search_hit(hits) {
        None => SearchOutcome::NoHit,
        Some(i) => match volume {
            None => SearchOutcome::Hit(i),
            Some(v) => SearchOutcome::CheckVolume(i, v),
        },
    }
}

/// The subject to fetch once the series' relations are known (`None` when
/// they could not be fetched): the first relation that is the single volume
/// `vol`, else the series itself.
pub fn after_relations(series_id: u64, relations: Option<&Vec<RelatedSubject>>, vol: i32) -> (res:
    u64)
    ensures
        relations is Some ==> (exists|i: int|
            #[trigger] is_first_volume_relation(relations.unwrap()@, vol, i)
                && relations.unwrap()@[i].id == res) || (has_no_volume_relation(
            relations.unwrap()@,
            vol,
        ) && res == series_id),
        relations is None ==> res == series_id,
{
    match relations {
        Some(rs) => match find_volume_relation(rs, vol) {
            Some(id) => id,
            None => series_id,
        },
        None => series_id,
    }
}

// ---------------------------------------------------------------------------
// Run decisions
// ---------------------------------------------------------------------------

/// Why generating metadata for an archive was refused.
#[derive(Debug, Clone, Copy, PartialEq, Eq, Structural)]
pub enum GenError {
    /// `--output` names one file; it cannot take a whole directory.
    OutputWithDirectory,
    /// The archive already holds a `ComicInfo.xml` and `--force` was not given.
    AlreadyHasComicInfo,
    /// `--inject` does not support .7z archives.
    SevenZipInjection,
}

/// Where the generated XML goes.
#[derive(Debug, Clone, Copy, PartialEq, Eq, Structural)]
pub enum OutputMode {
    /// Into the ZIP/CBZ archive itself.
    Inject,
    /// Into the file given with `--output`.
    File,
    /// To standard output.
    Stdout,
}

/// A directory target cannot be written to one `--output` file.
pub fn check_directory_output(output_given: bool) -> (res: Result<(), GenError>)
    ensures
        res == if output_given {
            Err::<(), GenError>(GenError::OutputWithDirectory)
        } else {
            Ok(())
        },
{
    if output_given {
        Err(GenError::OutputWithDirectory)
    } else {
        Ok(())
    }
}

/// An existing `ComicInfo.xml` is only replaced with `--force`.
pub fn check_existing_comic_info(has_comic_info: bool, force: bool) -> (res: Result<(), GenError>)
    ensures
        res == if has_comic_info && !force {
            Err::<(), GenError>(GenError::AlreadyHasComicInfo)
        } else {
            Ok(())
        },
{
    if has_comic_info && !force {
        Err(GenError::AlreadyHasComicInfo)
    } else {
        Ok(())
    }
}

/// Where the XML goes: injection wins over `--output`, which wins over
/// standard output; injection into .7z is refused.
pub fn output_mode(format: ArchiveFormat, inject: bool, output_given: bool) -> (res: Result<
    OutputMode,
    GenError,
>)
    ensures
        res == if inject {
            if format == ArchiveFormat::SevenZip {
                Err::<OutputMode, GenError>(GenError::SevenZipInjection)
            } else {
                Ok(OutputMode::Inject)
            }
        } else if output_given {
            Ok(OutputMode::File)
        } else {
            Ok(OutputMode::Stdout)
        },
{
    if inject {
        if format == ArchiveFormat::SevenZip {
            return Err(GenError::SevenZipInjection);
        }
        Ok(OutputMode::Inject)
    } else if output_given {
        Ok(OutputMode::File)
    } else {
        Ok(OutputMode::Stdout)
    }
}

// ---------------------------------------------------------------------------
// Laws
// ---------------------------------------------------------------------------

/// Applying the same overrides twice is the same as applying them once.
pub proof fn law_overrides_idempotent(ci: ComicInfo, o: OverrideArgs)
    ensures
        with_overrides(with_overrides(ci, o), o) == with_overrides(ci, o),
{
}

/// In a page list the first page is the front cover, the last (when there
/// are several) the back cover, the others story pages; page `i` has image
/// index `i` and the size of image `i`.
pub proof fn law_page_roles(pages: Seq<PageInfo>, images: Seq<(Seq<char>, u64)>)
    requires
        pages_for(pages, images),
    ensures
        pages.len() == images.len(),
        pages.len() > 0 ==> pages[0].page_type == PageType::FrontCover,
        pages.len() > 1 ==> pages[pages.len() - 1].page_type == PageType::BackCover,
        forall|i: int| 0 < i < pages.len() - 1 ==> (#[trigger] pages[i]).page_type == PageType::Story,
        forall|i: int| 0 <= i < pages.len() ==> (#[trigger] pages[i]).image_size == images[i].1,
{
    if pages.len() > 0 {
        assert(pages[0] == pages[0]);
        assert(pages[pages.len() - 1] == pages[pages.len() - 1]);
    }
}

/// An explicit override wins over Bangumi and the file name; Bangumi wins
/// over the file name.
pub proof fn law_source_priority(
    res: ComicInfo,
    meta: FilenameMetadata,
    bangumi: Option<ComicInfo>,
    o: OverrideArgs,
    images: Seq<(Seq<char>, u64)>,
    version: Seq<char>,
    file_name: Seq<char>,
)
    requires
        assembled(res, meta, bangumi, o, images, version, file_name),
    ensures
        o.series is Some ==> res.series == o.series,
        o.series is None && (bangumi matches Some(b) && b.series is Some) ==> res.series == bangumi->0.series,
        o.series is None && (bangumi is None || bangumi->0.series is None) ==> res.series == meta.series,
        o.title is Some ==> res.title == o.title,
        o.title is None && (bangumi matches Some(b) && b.title is Some) ==> res.title == bangumi->0.title,
        o.title is None && (bangumi is None || bangumi->0.title is None) ==> res.title == meta.title,
        o.year is Some ==> res.year == o.year,
        o.year is None && (bangumi is None || bangumi->0.year is None) ==> res.year == meta.year,
        o.publisher is Some ==> res.publisher == o.publisher,
        o.publisher is None && (bangumi is None || bangumi->0.publisher is None) ==> res.publisher == meta.publisher,
{
}

} // verus!
