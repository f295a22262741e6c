//! Bangumi (bgm.tv) subjects and their mapping onto [`ComicInfo`].
//!
//! The HTTP client and JSON decoding are I/O and live outside this crate;
//! here stand the shapes of the API data that the tool reads, the URLs it
//! asks for, and the mapping of a subject's fields and wiki infobox onto
//! ComicInfo fields.
use vstd::prelude::*;

use crate::comic_info::{ComicInfo, Manga, YesNo, pick};
use crate::text::{
    contains_seq, contains_str, copy_chars, eq_str, find_char, find_char_exec, lower_seq,
    nat_decimal, parse_i32, parse_i32_exec, push_chars, push_str, string_from_chars, sub_chars,
    to_chars, to_lower, trim, trim_ws, u64_decimal, i64_decimal,
};

verus! {

// ---------------------------------------------------------------------------
// Constants
// ---------------------------------------------------------------------------

/// The API server.
pub const BASE_URL: &'static str = "https://api.bgm.tv";

/// `GET` URL of a subject.
pub fn subject_url(subject_id: u64) -> (res: String)
    ensures
        res@ == BASE_URL@ + "/v0/subjects/"@ + nat_decimal(subject_id as nat),
{
    let mut out = to_chars(BASE_URL);
    push_str(&mut out, "/v0/subjects/");
    let d = u64_decimal(subject_id);
    push_chars(&mut out, &d);
    string_from_chars(&out)
}

/// `GET` URL of the subjects related to a subject.
pub fn relations_url(subject_id: u64) -> (res: String)
    ensures
        res@ == BASE_URL@ + "/v0/subjects/"@ + nat_decimal(subject_id as nat) + "/subjects"@,
{
    let mut out = to_chars(BASE_URL);
    push_str(&mut out, "/v0/subjects/");
    let d = u64_decimal(subject_id);
    push_chars(&mut out, &d);
    push_str(&mut out, "/subjects");
    string_from_chars(&out)
}

/// `POST` URL of a search returning up to `limit` results (at most 25).
pub fn search_url(limit: usize) -> (res: String)
    ensures
        res@ == BASE_URL@ + "/v0/search/subjects?limit="@ + nat_decimal(
            (if limit < 25 {
                limit
            } else {
                25
            }) as nat,
        ),
{
    let capped: usize = if limit < 25 {
        limit
    } else {
        25
    };
    let mut out = to_chars(BASE_URL);
    push_str(&mut out, "/v0/search/subjects?limit=");
    let d = u64_decimal(capped as u64);
    push_chars(&mut out, &d);
    string_from_chars(&out)
}

// ---------------------------------------------------------------------------
// API data
// ---------------------------------------------------------------------------

/// A subject related to another (`/v0/subjects/{id}/subjects`).
#[derive(Debug, Clone)]
pub struct RelatedSubject {
    pub id: u64,
    pub subject_type: u8,
    pub name: String,
    pub name_cn: String,
    pub relation: String,
}

/// A single result from the search endpoint.
#[derive(Debug, Clone)]
pub struct SearchHit {
    pub id: u64,
    pub name: String,
    pub name_cn: String,
    pub date: Option<String>,
    pub subject_type: u8,
    /// `true` when this is the main entry of a book series (系列主条目).
    pub series: bool,
    /// Book platform, e.g. "漫画", "小说", "画集".
    pub platform: String,
}

/// One element of an infobox value that is an array.
#[derive(Debug)]
pub struct ListItem {
    /// The element's `"v"` member, when it is a string.
    pub v: Option<String>,
    /// The element itself, when it is a string.
    pub text: Option<String>,
}

/// The value of an infobox entry: a string, an array of `{"v": ..}` /
/// `{"k": .., "v": ..}` objects, a number (as JSON renders it) or anything
/// else.
#[derive(Debug)]
pub enum InfoboxValue {
    Text(String),
    List(Vec<ListItem>),
    Number(String),
    Other,
}

/// A single infobox key-value pair.
#[derive(Debug)]
pub struct InfoboxItem {
    pub key: String,
    pub value: InfoboxValue,
}

/// The part of a subject that the mapping reads.
#[derive(Debug)]
pub struct Subject {
    pub id: u64,
    pub name: String,
    pub name_cn: String,
    pub summary: String,
    /// Air / release date in `YYYY-MM-DD` format (optional).
    pub date: Option<String>,
    /// Total volume count (books).
    pub volumes: i32,
    /// The community rating scaled to 0–5, in hundredths, when the subject
    /// has a positive score.
    pub rating: Option<u32>,
    /// Structured wiki infobox entries.
    pub infobox: Vec<InfoboxItem>,
    /// Whether this subject is a series (vs a single volume/episode).
    pub series: bool,
}

// ---------------------------------------------------------------------------
// Search hit display
// ---------------------------------------------------------------------------

/// `parts` joined by `sep`.
pub open spec fn join_seqs(parts: Seq<Seq<char>>, sep: Seq<char>) -> Seq<char>
    decreases parts.len(),
{
    if parts.len() == 0 {
        Seq::empty()
    } else if parts.len() == 1 {
        parts[0]
    } else {
        join_seqs(parts.drop_last(), sep) + sep + parts.last()
    }
}

/// The tags of a hit: `系列` for a series head, then its platform.
pub open spec fn hit_tags(series: bool, platform: Seq<char>) -> Seq<Seq<char>> {
    let t: Seq<Seq<char>> = if series {
        seq!["系列"@]
    } else {
        Seq::empty()
    };
    if platform.len() > 0 {
        t.push(platform)
    } else {
        t
    }
}

/// The one-line description of a search hit:
/// `[id] name / name_cn (date) [tags]`, each optional part only when present.
pub open spec fn hit_text(h: SearchHit) -> Seq<char> {
    let cn = if h.name_cn@.len() == 0 {
        Seq::empty()
    } else {
        " / "@ + h.name_cn@
    };
    let date = match h.date {
        Some(d) => " ("@ + d@ + ")"@,
        None => Seq::empty(),
    };
    let tags = hit_tags(h.series, h.platform@);
    let tag_str = if tags.len() == 0 {
        Seq::empty()
    } else {
        " ["@ + join_seqs(tags, ", "@) + "]"@
    };
    "["@ + nat_decimal(h.id as nat) + "] "@ + h.name@ + cn + date + tag_str
}

impl SearchHit {
    /// The line printed for this hit.
    pub fn display_text(&self) -> (res: String)
        ensures
            res@ == hit_text(*self),
    {
        let mut out: Vec<char> = Vec::new();
        push_str(&mut out, "[");
        let id = u64_decimal(self.id);
        push_chars(&mut out, &id);
        push_str(&mut out, "] ");
        push_str(&mut out, self.name.as_str());
        let ghost s1 = out@;
        if !self.name_cn.as_str().is_empty() {
            push_str(&mut out, " / ");
            push_str(&mut out, self.name_cn.as_str());
        }
        let ghost s2 = out@;
        assert(s2 =~= s1 + (if self.name_cn@.len() == 0 {
            Seq::<char>::empty()
        } else {
            " / "@ + self.name_cn@
        }));
        match &self.date {
            Some(d) => {
                push_str(&mut out, " (");
                push_str(&mut out, d.as_str());
                push_str(&mut out, ")");
            },
            None => {},
        }
        let ghost s3 = out@;
        assert(s3 =~= s2 + match self.date {
            Some(d) => " ("@ + d@ + ")"@,
            None => Seq::<char>::empty(),
        });
        let series = self.series;
        let has_platform = !self.platform.as_str().is_empty();
        if series || has_platform {
            push_str(&mut out, " [");
            if series {
                push_str(&mut out, "系列");
            }
            if series && has_platform {
                push_str(&mut out, ", ");
            }
            if has_platform {
                push_str(&mut out, self.platform.as_str());
            }
            push_str(&mut out, "]");
        }
        proof {
            let tags = hit_tags(self.series, self.platform@);
            if series && has_platform {
                assert(tags =~= seq!["系列"@, self.platform@]);
                assert(tags.drop_last() =~= seq!["系列"@]);
                assert(join_seqs(tags.drop_last(), ", "@) == "系列"@);
                assert(tags.last() == self.platform@);
                assert(join_seqs(tags, ", "@) == "系列"@ + ", "@ + self.platform@);
            } else if series {
                assert(tags =~= seq!["系列"@]);
            } else if has_platform {
                assert(tags =~= seq![self.platform@]);
            } else {
                assert(tags.len() == 0);
            }
        }
        assert(out@ =~= hit_text(*self));
        string_from_chars(&out)
    }
}

// ---------------------------------------------------------------------------
// Infobox values
// ---------------------------------------------------------------------------

/// The text of an array element: its `"v"` string, else the element itself
/// when it is a string, trimmed.
pub open spec fn list_item_text(it: ListItem) -> Option<Seq<char>> {
    match it.v {
        Some(v) => Some(trim(v@)),
        None => match it.text {
            Some(t) => Some(trim(t@)),
            None => None,
        },
    }
}

/// The non-empty texts of the elements, in order.
pub open spec fn list_texts(items: Seq<ListItem>) -> Seq<Seq<char>>
    decreases items.len(),
{
    if items.len() == 0 {
        Seq::empty()
    } else {
        let prev = list_texts(items.drop_last());
        match list_item_text(items.last()) {
            Some(t) => if t.len() > 0 {
                prev.push(t)
            } else {
                prev
            },
            None => prev,
        }
    }
}

/// An infobox value flattened to text.
pub open spec fn flatten_text(v: InfoboxValue) -> Seq<char> {
    match v {
        InfoboxValue::Text(s) => trim(s@),
        InfoboxValue::List(items) => join_seqs(list_texts(items@), ", "@),
        InfoboxValue::Number(n) => n@,
        InfoboxValue::Other => Seq::empty(),
    }
}

proof fn lemma_list_texts_len(items: Seq<ListItem>)
    ensures
        list_texts(items).len() <= items.len(),
    decreases items.len(),
{
    if items.len() > 0 {
        lemma_list_texts_len(items.drop_last());
    }
}

fn list_item_text_exec(it: &ListItem) -> (res: Option<Vec<char>>)
    ensures
        match res {
            Some(v) => list_item_text(*it) == Some(v@),
            None => list_item_text(*it) is None,
        },
{
    match &it.v {
        Some(v) => {
            let c = to_chars(v.as_str());
            Some(trim_ws(&c))
        },
        None => match &it.text {
            Some(t) => {
                let c = to_chars(t.as_str());
                Some(trim_ws(&c))
            },
            None => None,
        },
    }
}

/// Flatten a possibly-nested infobox value to a comma-separated string.
///
/// The API returns either:
/// - a plain string, or
/// - an array of `{"v": "..."}` / `{"k": "...", "v": "..."}` objects.
pub fn flatten_infobox_value(val: &InfoboxValue) -> (res: Vec<char>)
    ensures
        res@ == flatten_text(*val),
{
    match val {
        InfoboxValue::Text(s) => {
            let c = to_chars(s.as_str());
            trim_ws(&c)
        },
        InfoboxValue::List(items) => {
            let mut out: Vec<char> = Vec::new();
            let mut count: usize = 0;
            let mut i: usize = 0;
            assert(items@.take(0) =~= Seq::<ListItem>::empty());
            while i < items.len()
                invariant
                    i <= items@.len(),
                    count == list_texts(items@.take(i as int)).len(),
                    out@ == join_seqs(list_texts(items@.take(i as int)), ", "@),
                decreases items@.len() - i,
            {
                let ghost prev = list_texts(items@.take(i as int));
                assert(items@.take(i + 1).drop_last() =~= items@.take(i as int));
                assert(items@.take(i + 1).last() == items@[i as int]);
                match list_item_text_exec(&items[i]) {
                    Some(t) => {
                        if t.len() > 0 {
                            if count > 0 {
                                push_str(&mut out, ", ");
                            }
                            push_chars(&mut out, &t);
                            proof {
                                let next = prev.push(t@);
                                assert(next.drop_last() =~= prev);
                                if prev.len() == 0 {
                                    assert(out@ =~= t@);
                                }
                            }
                            proof {
                                lemma_list_texts_len(items@.take(i as int));
                            }
                            count += 1;
                        }
                    },
                    None => {},
                }
                i += 1;
            }
            assert(items@.take(items@.len() as int) =~= items@);
            out
        },
        InfoboxValue::Number(n) => to_chars(n.as_str()),
        InfoboxValue::Other => Vec::new(),
    }
}

// ---------------------------------------------------------------------------
// Language names
// ---------------------------------------------------------------------------

/// Best-effort mapping of a human-readable language name to an ISO 639-1
/// code; the name itself when it is not recognised.
pub open spec fn lang_iso(name: Seq<char>) -> Seq<char> {
    let lower = lower_seq(name);
    if contains_seq(lower, "日本語"@) || contains_seq(lower, "japanese"@) || contains_seq(
        lower,
        "日语"@,
    ) {
        "ja"@
    } else if contains_seq(lower, "中文"@) || contains_seq(lower, "chinese"@) || contains_seq(
        lower,
        "汉语"@,
    ) {
        if contains_seq(lower, "繁"@) || contains_seq(lower, "traditional"@) {
            "zh-Hant"@
        } else if contains_seq(lower, "简"@) || contains_seq(lower, "simplified"@) {
            "zh-Hans"@
        } else {
            "zh"@
        }
    } else if contains_seq(lower, "english"@) || contains_seq(lower, "英语"@) || contains_seq(
        lower,
        "英文"@,
    ) {
        "en"@
    } else if contains_seq(lower, "korean"@) || contains_seq(lower, "韩语"@) || contains_seq(
        lower,
        "朝鲜"@,
    ) {
        "ko"@
    } else {
        name
    }
}

fn lang_iso_chars(name: &[char]) -> (res: Vec<char>)
    ensures
        res@ == lang_iso(name@),
{
    let lower = to_lower(name);
    if contains_str(&lower, "日本語") || contains_str(&lower, "japanese") || contains_str(
        &lower,
        "日语",
    ) {
        return to_chars("ja");
    }
    if contains_str(&lower, "中文") || contains_str(&lower, "chinese") || contains_str(
        &lower,
        "汉语",
    ) {
        if contains_str(&lower, "繁") || contains_str(&lower, "traditional") {
            return to_chars("zh-Hant");
        }
        if contains_str(&lower, "简") || contains_str(&lower, "simplified") {
            return to_chars("zh-Hans");
        }
        return to_chars("zh");
    }
    if contains_str(&lower, "english") || contains_str(&lower, "英语") || contains_str(
        &lower,
        "英文",
    ) {
        return to_chars("en");
    }
    if contains_str(&lower, "korean") || contains_str(&lower, "韩语") || contains_str(
        &lower,
        "朝鲜",
    ) {
        return to_chars("ko");
    }
    copy_chars(name)
}

/// Best-effort mapping of a human-readable language name to an ISO 639-1 code.
pub fn lang_name_to_iso(name: &str) -> (res: String)
    ensures
        res@ == lang_iso(name@),
{
    let c = to_chars(name);
    let r = lang_iso_chars(&c);
    string_from_chars(&r)
}

// ---------------------------------------------------------------------------
// Infobox mapping
// ---------------------------------------------------------------------------

/// The ComicInfo fields that infobox entries can set.
pub struct InfoboxFields {
    pub publisher: Option<Seq<char>>,
    pub writer: Option<Seq<char>>,
    pub penciller: Option<Seq<char>>,
    pub translator: Option<Seq<char>>,
    pub genre: Option<Seq<char>>,
    pub imprint: Option<Seq<char>>,
    pub volume: Option<i32>,
    pub language_iso: Option<Seq<char>>,
    pub format: Option<Seq<char>>,
    pub black_and_white: YesNo,
    pub manga: Manga,
    pub notes: Option<Seq<char>>,
}

/// Those fields of a document.
pub open spec fn infobox_fields(ci: ComicInfo) -> InfoboxFields {
    InfoboxFields {
        publisher: ci.publisher.deep_view(),
        writer: ci.writer.deep_view(),
        penciller: ci.penciller.deep_view(),
        translator: ci.translator.deep_view(),
        genre: ci.genre.deep_view(),
        imprint: ci.imprint.deep_view(),
        volume: ci.volume,
        language_iso: ci.language_iso.deep_view(),
        format: ci.format.deep_view(),
        black_and_white: ci.black_and_white,
        manga: ci.manga,
        notes: ci.notes.deep_view(),
    }
}

/// `key` is one of the keys of a group.
pub open spec fn key_is(key: Seq<char>, a: Seq<char>, b: Seq<char>) -> bool {
    key == a || key == b
}

/// The colour field: `No` (not black and white) when the text speaks of
/// colour, `Yes` when it says black and white, `Unknown` otherwise.
pub open spec fn colour_of(text: Seq<char>) -> YesNo {
    if contains_seq(text, "彩"@) || contains_seq(lower_seq(text), "color"@) {
        YesNo::No
    } else if contains_seq(text, "黑白"@) || contains_seq(lower_seq(text), "b&w"@) {
        YesNo::Yes
    } else {
        YesNo::Unknown
    }
}

/// The line that an ISBN entry adds to the notes.
pub open spec fn isbn_notes(notes: Option<Seq<char>>, text: Seq<char>) -> Option<Seq<char>> {
    let note = "ISBN: "@ + text;
    match notes {
        Some(prev) => Some(prev + "\n"@ + note),
        None => Some(note),
    }
}

/// One infobox entry applied to the fields.  Entries with empty text are
/// skipped; each field keeps the first value it gets, except the notes,
/// which collect every ISBN.
pub open spec fn infobox_step(f: InfoboxFields, key: Seq<char>, text: Seq<char>) -> InfoboxFields {
    if text.len() == 0 {
        f
    } else if key_is(key, "出版社"@, "发行"@) {
        InfoboxFields { publisher: pick(f.publisher, Some(text)), ..f }
    } else if key_is(key, "作者"@, "原作"@) || key == "著"@ {
        InfoboxFields { writer: pick(f.writer, Some(text)), ..f }
    } else if key_is(key, "作画"@, "漫画"@) || key == "绘"@ {
        InfoboxFields { penciller: pick(f.penciller, Some(text)), ..f }
    } else if key_is(key, "译者"@, "翻译"@) {
        InfoboxFields { translator: pick(f.translator, Some(text)), ..f }
    } else if key_is(key, "类型"@, "分类"@) {
        InfoboxFields { genre: pick(f.genre, Some(text)), ..f }
    } else if key_is(key, "连载杂志"@, "杂志"@) {
        InfoboxFields { imprint: pick(f.imprint, Some(text)), ..f }
    } else if key_is(key, "卷号"@, "册"@) {
        InfoboxFields { volume: pick(f.volume, parse_i32(trim(text))), ..f }
    } else if key_is(key, "语言"@, "言語"@) {
        InfoboxFields { language_iso: pick(f.language_iso, Some(lang_iso(text))), ..f }
    } else if key_is(key, "装帧"@, "开本"@) {
        InfoboxFields { format: pick(f.format, Some(text)), ..f }
    } else if key_is(key, "是否彩色"@, "色彩"@) {
        if f.black_and_white == YesNo::Unknown {
            InfoboxFields { black_and_white: colour_of(text), ..f }
        } else {
            f
        }
    } else if key_is(key, "国家/地区"@, "国家"@) || key == "地区"@ {
        if f.manga == Manga::Unknown && (contains_seq(lower_seq(text), "日本"@) || contains_seq(
            lower_seq(text),
            "japan"@,
        )) {
            InfoboxFields { manga: Manga::Yes, ..f }
        } else {
            f
        }
    } else if key_is(key, "ISBN"@, "ISBN-13"@) || key == "ISBN-10"@ {
        InfoboxFields { notes: isbn_notes(f.notes, text), ..f }
    } else {
        f
    }
}

/// The (key, flattened text) pairs of an infobox.
pub open spec fn infobox_pairs(items: Seq<InfoboxItem>) -> Seq<(Seq<char>, Seq<char>)> {
    items.map_values(|it: InfoboxItem| (it.key@, flatten_text(it.value)))
}

/// The entries applied in order.
pub open spec fn infobox_fold(f: InfoboxFields, items: Seq<(Seq<char>, Seq<char>)>) -> InfoboxFields
    decreases items.len(),
{
    if items.len() == 0 {
        f
    } else {
        infobox_step(infobox_fold(f, items.drop_last()), items.last().0, items.last().1)
    }
}

/// The fields that infobox entries never touch are equal.
pub open spec fn same_outside_infobox(a: ComicInfo, b: ComicInfo) -> bool {
    &&& a.title == b.title
    &&& a.series == b.series
    &&& a.number == b.number
    &&& a.count == b.count
    &&& a.alternate_series == b.alternate_series
    &&& a.alternate_number == b.alternate_number
    &&& a.alternate_count == b.alternate_count
    &&& a.summary == b.summary
    &&& a.year == b.year
    &&& a.month == b.month
    &&& a.day == b.day
    &&& a.inker == b.inker
    &&& a.colorist == b.colorist
    &&& a.letterer == b.letterer
    &&& a.cover_artist == b.cover_artist
    &&& a.editor == b.editor
    &&& a.tags == b.tags
    &&& a.web == b.web
    &&& a.page_count == b.page_count
    &&& a.characters == b.characters
    &&& a.teams == b.teams
    &&& a.locations == b.locations
    &&& a.scan_information == b.scan_information
    &&& a.story_arc == b.story_arc
    &&& a.story_arc_number == b.story_arc_number
    &&& a.series_group == b.series_group
    &&& a.age_rating == b.age_rating
    &&& a.community_rating == b.community_rating
    &&& a.main_character_or_team == b.main_character_or_team
    &&& a.review == b.review
    &&& a.pages == b.pages
}

fn set_if_none(slot: &mut Option<String>, text: &[char])
    ensures
        final(slot).deep_view() == pick(old(slot).deep_view(), Some(text@)),
{
    if slot.is_none() {
        *slot = Some(string_from_chars(text));
    }
}

fn key_is_exec(key: &[char], a: &str, b: &str) -> (res: bool)
    ensures
        res == key_is(key@, a@, b@),
{
    eq_str(key, a) || eq_str(key, b)
}

fn colour_of_exec(text: &[char]) -> (res: YesNo)
    ensures
        res == colour_of(text@),
{
    let lower = to_lower(text);
    if contains_str(text, "彩") || contains_str(&lower, "color") {
        YesNo::No
    } else if contains_str(text, "黑白") || contains_str(&lower, "b&w") {
        YesNo::Yes
    } else {
        YesNo::Unknown
    }
}

fn append_isbn(notes: &mut Option<String>, text: &[char])
    ensures
        final(notes).deep_view() == isbn_notes(old(notes).deep_view(), text@),
{
    let mut note = to_chars("ISBN: ");
    push_chars(&mut note, text);
    match notes.take() {
        Some(prev) => {
            let mut all = to_chars(prev.as_str());
            push_str(&mut all, "\n");
            push_chars(&mut all, &note);
            assert(all@ =~= prev@ + "\n"@ + ("ISBN: "@ + text@));
            *notes = Some(string_from_chars(&all));
        },
        None => {
            *notes = Some(string_from_chars(&note));
        },
    }
}

/// Apply one infobox entry (its key and flattened text) to `ci`.
fn apply_entry(ci: &mut ComicInfo, key: &[char], text: &[char])
    ensures
        infobox_fields(*final(ci)) == infobox_step(infobox_fields(*old(ci)), key@, text@),
        same_outside_infobox(*old(ci), *final(ci)),
{
    if text.len() == 0 {
        return;
    }
    if key_is_exec(key, "出版社", "发行") {
        set_if_none(&mut ci.publisher, text);
    } else if key_is_exec(key, "作者", "原作") || eq_str(key, "著") {
        set_if_none(&mut ci.writer, text);
    } else if key_is_exec(key, "作画", "漫画") || eq_str(key, "绘") {
        set_if_none(&mut ci.penciller, text);
    } else if key_is_exec(key, "译者", "翻译") {
        set_if_none(&mut ci.translator, text);
    } else if key_is_exec(key, "类型", "分类") {
        set_if_none(&mut ci.genre, text);
    } else if key_is_exec(key, "连载杂志", "杂志") {
        set_if_none(&mut ci.imprint, text);
    } else if key_is_exec(key, "卷号", "册") {
        if ci.volume.is_none() {
            let t = trim_ws(text);
            ci.volume = parse_i32_exec(&t);
        }
    } else if key_is_exec(key, "语言", "言語") {
        if ci.language_iso.is_none() {
            let iso = lang_iso_chars(text);
            ci.language_iso = Some(string_from_chars(&iso));
        }
    } else if key_is_exec(key, "装帧", "开本") {
        set_if_none(&mut ci.format, text);
    } else if key_is_exec(key, "是否彩色", "色彩") {
        if ci.black_and_white == YesNo::Unknown {
            ci.black_and_white = colour_of_exec(text);
        }
    } else if key_is_exec(key, "国家/地区", "国家") || eq_str(key, "地区") {
        if ci.manga == Manga::Unknown {
            let lower = to_lower(text);
            if contains_str(&lower, "日本") || contains_str(&lower, "japan") {
                ci.manga = Manga::Yes;
            }
        }
    } else if key_is_exec(key, "ISBN", "ISBN-13") || eq_str(key, "ISBN-10") {
        append_isbn(&mut ci.notes, text);
    }
}

/// Walk the infobox entries and populate `ComicInfo` fields.
pub fn apply_infobox(ci: &mut ComicInfo, infobox: &Vec<InfoboxItem>)
    ensures
        infobox_fields(*final(ci)) == infobox_fold(
            infobox_fields(*old(ci)),
            infobox_pairs(infobox@),
        ),
        same_outside_infobox(*old(ci), *final(ci)),
{
    let ghost start = infobox_fields(*ci);
    let ghost pairs = infobox_pairs(infobox@);
    let mut i: usize = 0;
    assert(pairs.take(0) =~= Seq::<(Seq<char>, Seq<char>)>::empty());
    while i < infobox.len()
        invariant
            i <= infobox@.len(),
            pairs == infobox_pairs(infobox@),
            start == infobox_fields(*old(ci)),
            infobox_fields(*ci) == infobox_fold(start, pairs.take(i as int)),
            same_outside_infobox(*old(ci), *ci),
        decreases infobox@.len() - i,
    {
        let item = &infobox[i];
        let key = to_chars(item.key.as_str());
        let text = flatten_infobox_value(&item.value);
        assert(pairs.take(i + 1).drop_last() =~= pairs.take(i as int));
        assert(pairs.take(i + 1).last() == (key@, text@));
        apply_entry(ci, &key, &text);
        i += 1;
    }
    assert(pairs.take(infobox@.len() as int) =~= pairs);
}

// ---------------------------------------------------------------------------
// Subject mapping
// ---------------------------------------------------------------------------

/// The displayed name of a subject: the Chinese name when there is one.
pub open spec fn subject_title(s: Subject) -> Seq<char> {
    if s.name_cn@.len() > 0 {
        s.name_cn@
    } else {
        s.name@
    }
}

/// The page of a subject on the Bangumi site.
pub open spec fn subject_web(id: u64) -> Seq<char> {
    "https://bgm.tv/subject/"@ + nat_decimal(id as nat)
}

/// Year, month and day of a `YYYY-MM-DD` date: the first three `-`-separated
/// parts (the last keeps any further `-`), each read as an `i32`.
pub open spec fn date_fields(d: Seq<char>) -> (Option<i32>, Option<i32>, Option<i32>) {
    match find_char(d, '-') {
        None => (parse_i32(d), None, None),
        Some(i) => {
            let rest = d.subrange(i + 1, d.len() as int);
            match find_char(rest, '-') {
                None => (parse_i32(d.subrange(0, i)), parse_i32(rest), None),
                Some(j) => (
                    parse_i32(d.subrange(0, i)),
                    parse_i32(rest.subrange(0, j)),
                    parse_i32(rest.subrange(j + 1, rest.len() as int)),
                ),
            }
        },
    }
}

/// The infobox fields of a blank document.
pub open spec fn blank_infobox_fields() -> InfoboxFields {
    InfoboxFields {
        publisher: None,
        writer: None,
        penciller: None,
        translator: None,
        genre: None,
        imprint: None,
        volume: None,
        language_iso: None,
        format: None,
        black_and_white: YesNo::Unknown,
        manga: Manga::Unknown,
        notes: None,
    }
}

/// The fields that a subject never sets are blank.
pub open spec fn blank_outside_subject(ci: ComicInfo) -> bool {
    &&& ci.number is None
    &&& ci.alternate_series is None
    &&& ci.alternate_number is None
    &&& ci.alternate_count is None
    &&& ci.inker is None
    &&& ci.colorist is None
    &&& ci.letterer is None
    &&& ci.cover_artist is None
    &&& ci.editor is None
    &&& ci.tags is None
    &&& ci.page_count == 0
    &&& ci.characters is None
    &&& ci.teams is None
    &&& ci.locations is None
    &&& ci.scan_information is None
    &&& ci.story_arc is None
    &&& ci.story_arc_number is None
    &&& ci.series_group is None
    &&& ci.age_rating == crate::comic_info::AgeRating::Unknown
    &&& ci.main_character_or_team is None
    &&& ci.review is None
    &&& ci.pages@.len() == 0
}

fn date_fields_exec(d: &[char]) -> (res: (Option<i32>, Option<i32>, Option<i32>))
    ensures
        res == date_fields(d@),
{
    let n = d.len();
    match find_char_exec(d, '-') {
        None => (parse_i32_exec(d), None, None),
        Some(i) => {
            let rest = sub_chars(d, i + 1, n);
            let head = sub_chars(d, 0, i);
            match find_char_exec(&rest, '-') {
                None => (parse_i32_exec(&head), parse_i32_exec(&rest), None),
                Some(j) => {
                    let mid = sub_chars(&rest, 0, j);
                    let tail = sub_chars(&rest, j + 1, rest.len());
                    (parse_i32_exec(&head), parse_i32_exec(&mid), parse_i32_exec(&tail))
                },
            }
        },
    }
}

/// Convert a subject into a `ComicInfo`.
pub fn subject_to_comic_info(s: Subject) -> (res: ComicInfo)
    ensures
        res.title.deep_view() == Some(subject_title(s)),
        res.series.deep_view() == (if s.series {
            Some(subject_title(s))
        } else {
            None
        }),
        res.summary.deep_view() == (if s.summary@.len() > 0 {
            Some(s.summary@)
        } else {
            None
        }),
        (res.year, res.month, res.day) == match s.date {
            Some(d) => date_fields(d@),
            None => (None, None, None),
        },
        res.count == (if s.volumes > 0 {
            Some(s.volumes)
        } else {
            None
        }),
        res.community_rating == s.rating,
        res.web.deep_view() == Some(subject_web(s.id)),
        infobox_fields(res) == infobox_fold(blank_infobox_fields(), infobox_pairs(s.infobox@)),
        blank_outside_subject(res),
{
    let mut ci = ComicInfo::default();
    let ghost sv = s;

    // Prefer Chinese name as title when available
    let title_name = if !s.name_cn.as_str().is_empty() {
        s.name_cn.clone()
    } else {
        s.name.clone()
    };
    if s.series {
        ci.series = Some(title_name.clone());
    }
    ci.title = Some(title_name);
    if !s.summary.as_str().is_empty() {
        ci.summary = Some(s.summary);
    }

    // Release date: "YYYY-MM-DD"
    match &s.date {
        Some(date_str) => {
            let d = to_chars(date_str.as_str());
            let (y, m, dd) = date_fields_exec(&d);
            ci.year = y;
            ci.month = m;
            ci.day = dd;
        },
        None => {},
    }

    // Volume count
    if s.volumes > 0 {
        ci.count = Some(s.volumes);
    }

    // Community rating (already scaled to 0-5)
    ci.community_rating = s.rating;

    // Link to the Bangumi page
    let mut web = to_chars("https://bgm.tv/subject/");
    let id = u64_decimal(s.id);
    push_chars(&mut web, &id);
    ci.web = Some(string_from_chars(&web));

    assert(infobox_fields(ci) == blank_infobox_fields());
    apply_infobox(&mut ci, &s.infobox);
    ci
}

// ---------------------------------------------------------------------------
// Laws
// ---------------------------------------------------------------------------

/// An infobox never replaces a value that is already present: the first
/// entry of each kind wins (notes excepted, which accumulate).
pub proof fn law_infobox_first_value_wins(
    f: InfoboxFields,
    items: Seq<(Seq<char>, Seq<char>)>,
)
    ensures
        f.publisher is Some ==> infobox_fold(f, items).publisher == f.publisher,
        f.writer is Some ==> infobox_fold(f, items).writer == f.writer,
        f.penciller is Some ==> infobox_fold(f, items).penciller == f.penciller,
        f.translator is Some ==> infobox_fold(f, items).translator == f.translator,
        f.genre is Some ==> infobox_fold(f, items).genre == f.genre,
        f.imprint is Some ==> infobox_fold(f, items).imprint == f.imprint,
        f.volume is Some ==> infobox_fold(f, items).volume == f.volume,
        f.language_iso is Some ==> infobox_fold(f, items).language_iso == f.language_iso,
        f.format is Some ==> infobox_fold(f, items).format == f.format,
        f.black_and_white != YesNo::Unknown ==> infobox_fold(f, items).black_and_white
            == f.black_and_white,
        f.manga != Manga::Unknown ==> infobox_fold(f, items).manga == f.manga,
    decreases items.len(),
{
    if items.len() > 0 {
        law_infobox_first_value_wins(f, items.drop_last());
    }
}

/// Every ISBN entry with text leaves the notes non-empty and ending in its
/// `ISBN: ` line.
pub proof fn law_isbn_line_appended(f: InfoboxFields, key: Seq<char>, text: Seq<char>)
    requires
        key == "ISBN"@ || key == "ISBN-13"@ || key == "ISBN-10"@,
        text.len() > 0,
    ensures
        infobox_step(f, key, text).notes matches Some(n) && n.len() >= ("ISBN: "@ + text).len()
            && n.subrange(n.len() - ("ISBN: "@ + text).len(), n.len() as int) == "ISBN: "@
            + text,
{
    reveal_strlit("ISBN");
    reveal_strlit("ISBN-13");
    reveal_strlit("ISBN-10");
    reveal_strlit("出版社");
    reveal_strlit("发行");
    reveal_strlit("作者");
    reveal_strlit("原作");
    reveal_strlit("著");
    reveal_strlit("作画");
    reveal_strlit("漫画");
    reveal_strlit("绘");
    reveal_strlit("译者");
    reveal_strlit("翻译");
    reveal_strlit("类型");
    reveal_strlit("分类");
    reveal_strlit("连载杂志");
    reveal_strlit("杂志");
    reveal_strlit("卷号");
    reveal_strlit("册");
    reveal_strlit("语言");
    reveal_strlit("言語");
    reveal_strlit("装帧");
    reveal_strlit("开本");
    reveal_strlit("是否彩色");
    reveal_strlit("色彩");
    reveal_strlit("国家/地区");
    reveal_strlit("国家");
    reveal_strlit("地区");
    assert(key[0] == 'I');
    let note = "ISBN: "@ + text;
    let n = infobox_step(f, key, text).notes.unwrap();
    assert(n.subrange(n.len() - note.len(), n.len() as int) =~= note);
}

/// An infobox only ever adds to the notes: notes present before stay a
/// prefix of the notes after.
pub proof fn law_infobox_keeps_notes(f: InfoboxFields, items: Seq<(Seq<char>, Seq<char>)>)
    ensures
        f.notes matches Some(p) ==> infobox_fold(f, items).notes matches Some(n) && p.len()
            <= n.len() && n.subrange(0, p.len() as int) == p,
    decreases items.len(),
{
    if items.len() > 0 {
        law_infobox_keeps_notes(f, items.drop_last());
        let g = infobox_fold(f, items.drop_last());
        let (key, text) = items.last();
        if let Some(p) = f.notes {
            let m = g.notes.unwrap();
            let n = infobox_fold(f, items).notes.unwrap();
            if infobox_step(g, key, text).notes != g.notes {
                assert(infobox_step(g, key, text).notes == isbn_notes(g.notes, text));
                assert(n.subrange(0, m.len() as int) =~= m);
                assert(n.subrange(0, p.len() as int) =~= m.subrange(0, p.len() as int));
            }
        }
    }
}

/// Entries whose value flattens to empty text change nothing: the infobox
/// gives what its entries with text give.
pub proof fn law_infobox_skips_empty_text(f: InfoboxFields, items: Seq<(Seq<char>, Seq<char>)>)
    ensures
        infobox_fold(f, items) == infobox_fold(
            f,
            items.filter(|e: (Seq<char>, Seq<char>)| e.1.len() > 0),
        ),
    decreases items.len(),
{
    let pred = |e: (Seq<char>, Seq<char>)| e.1.len() > 0;
    reveal(Seq::filter);
    if items.len() > 0 {
        let rest = items.drop_last();
        let last = items.last();
        law_infobox_skips_empty_text(f, rest);
        let kept = rest.filter(pred);
        assert(items.filter(pred) == if pred(last) {
            kept.push(last)
        } else {
            kept
        });
        if pred(last) {
            assert(kept.push(last).drop_last() =~= kept);
            assert(infobox_fold(f, kept.push(last)) == infobox_step(
                infobox_fold(f, kept),
                last.0,
                last.1,
            ));
        }
    }
}

/// Each text-valued infobox key fills its own field, and only that one:
/// 出版社/发行 the publisher, 作者/原作/著 the writer, 作画/漫画/绘 the
/// penciller, 译者/翻译 the translator, 类型/分类 the genre, 连载杂志/杂志 the
/// imprint, 装帧/开本 the format.  An entry with text fills its field when
/// the field is unset and changes nothing when it is already set.
pub proof fn law_infobox_key_targets(f: InfoboxFields, t: Seq<char>)
    requires
        t.len() > 0,
    ensures
        f.publisher is None ==> infobox_step(f, "出版社"@, t) == (InfoboxFields { publisher: Some(t), ..f }),
        f.publisher is Some ==> infobox_step(f, "出版社"@, t) == f,
        f.publisher is None ==> infobox_step(f, "发行"@, t) == (InfoboxFields { publisher: Some(t), ..f }),
        f.publisher is Some ==> infobox_step(f, "发行"@, t) == f,
        f.writer is None ==> infobox_step(f, "作者"@, t) == (InfoboxFields { writer: Some(t), ..f }),
        f.writer is Some ==> infobox_step(f, "作者"@, t) == f,
        f.writer is None ==> infobox_step(f, "原作"@, t) == (InfoboxFields { writer: Some(t), ..f }),
        f.writer is Some ==> infobox_step(f, "原作"@, t) == f,
        f.writer is None ==> infobox_step(f, "著"@, t) == (InfoboxFields { writer: Some(t), ..f }),
        f.writer is Some ==> infobox_step(f, "著"@, t) == f,
        f.penciller is None ==> infobox_step(f, "作画"@, t) == (InfoboxFields { penciller: Some(t), ..f }),
        f.penciller is Some ==> infobox_step(f, "作画"@, t) == f,
        f.penciller is None ==> infobox_step(f, "漫画"@, t) == (InfoboxFields { penciller: Some(t), ..f }),
        f.penciller is Some ==> infobox_step(f, "漫画"@, t) == f,
        f.penciller is None ==> infobox_step(f, "绘"@, t) == (InfoboxFields { penciller: Some(t), ..f }),
        f.penciller is Some ==> infobox_step(f, "绘"@, t) == f,
        f.translator is None ==> infobox_step(f, "译者"@, t) == (InfoboxFields { translator: Some(t), ..f }),
        f.translator is Some ==> infobox_step(f, "译者"@, t) == f,
        f.translator is None ==> infobox_step(f, "翻译"@, t) == (InfoboxFields { translator: Some(t), ..f }),
        f.translator is Some ==> infobox_step(f, "翻译"@, t) == f,
        f.genre is None ==> infobox_step(f, "类型"@, t) == (InfoboxFields { genre: Some(t), ..f }),
        f.genre is Some ==> infobox_step(f, "类型"@, t) == f,
        f.genre is None ==> infobox_step(f, "分类"@, t) == (InfoboxFields { genre: Some(t), ..f }),
        f.genre is Some ==> infobox_step(f, "分类"@, t) == f,
        f.imprint is None ==> infobox_step(f, "连载杂志"@, t) == (InfoboxFields { imprint: Some(t), ..f }),
        f.imprint is Some ==> infobox_step(f, "连载杂志"@, t) == f,
        f.imprint is None ==> infobox_step(f, "杂志"@, t) == (InfoboxFields { imprint: Some(t), ..f }),
        f.imprint is Some ==> infobox_step(f, "杂志"@, t) == f,
        f.format is None ==> infobox_step(f, "装帧"@, t) == (InfoboxFields { format: Some(t), ..f }),
        f.format is Some ==> infobox_step(f, "装帧"@, t) == f,
        f.format is None ==> infobox_step(f, "开本"@, t) == (InfoboxFields { format: Some(t), ..f }),
        f.format is Some ==> infobox_step(f, "开本"@, t) == f,
{
    reveal_strlit("出版社");
    reveal_strlit("发行");
    reveal_strlit("作者");
    reveal_strlit("原作");
    reveal_strlit("著");
    reveal_strlit("作画");
    reveal_strlit("漫画");
    reveal_strlit("绘");
    reveal_strlit("译者");
    reveal_strlit("翻译");
    reveal_strlit("类型");
    reveal_strlit("分类");
    reveal_strlit("连载杂志");
    reveal_strlit("杂志");
    reveal_strlit("卷号");
    reveal_strlit("册");
    reveal_strlit("语言");
    reveal_strlit("言語");
    reveal_strlit("装帧");
    reveal_strlit("开本");
    assert((f.publisher is None ==> infobox_step(f, "出版社"@, t) == (InfoboxFields { publisher: Some(t), ..f })) && (f.publisher is Some ==> infobox_step(f, "出版社"@, t) == f)) by {
    }
    assert((f.publisher is None ==> infobox_step(f, "发行"@, t) == (InfoboxFields { publisher: Some(t), ..f })) && (f.publisher is Some ==> infobox_step(f, "发行"@, t) == f)) by {
    }
    assert((f.writer is None ==> infobox_step(f, "作者"@, t) == (InfoboxFields { writer: Some(t), ..f })) && (f.writer is Some ==> infobox_step(f, "作者"@, t) == f)) by {
        assert("作者"@.len() != "出版社"@.len());
        assert("作者"@[0] != "发行"@[0]);
    }
    assert((f.writer is None ==> infobox_step(f, "原作"@, t) == (InfoboxFields { writer: Some(t), ..f })) && (f.writer is Some ==> infobox_step(f, "原作"@, t) == f)) by {
        assert("原作"@.len() != "出版社"@.len());
        assert("原作"@[0] != "发行"@[0]);
    }
    assert((f.writer is None ==> infobox_step(f, "著"@, t) == (InfoboxFields { writer: Some(t), ..f })) && (f.writer is Some ==> infobox_step(f, "著"@, t) == f)) by {
        assert("著"@.len() != "出版社"@.len());
        assert("著"@.len() != "发行"@.len());
    }
    assert((f.penciller is None ==> infobox_step(f, "作画"@, t) == (InfoboxFields { penciller: Some(t), ..f })) && (f.penciller is Some ==> infobox_step(f, "作画"@, t) == f)) by {
        assert("作画"@.len() != "出版社"@.len());
        assert("作画"@.len() != "著"@.len());
        assert("作画"@[0] != "发行"@[0]);
        assert("作画"@[1] != "作者"@[1]);
        assert("作画"@[0] != "原作"@[0]);
    }
    assert((f.penciller is None ==> infobox_step(f, "漫画"@, t) == (InfoboxFields { penciller: Some(t), ..f })) && (f.penciller is Some ==> infobox_step(f, "漫画"@, t) == f)) by {
        assert("漫画"@.len() != "出版社"@.len());
        assert("漫画"@.len() != "著"@.len());
        assert("漫画"@[0] != "发行"@[0]);
        assert("漫画"@[0] != "作者"@[0]);
        assert("漫画"@[0] != "原作"@[0]);
    }
    assert((f.penciller is None ==> infobox_step(f, "绘"@, t) == (InfoboxFields { penciller: Some(t), ..f })) && (f.penciller is Some ==> infobox_step(f, "绘"@, t) == f)) by {
        assert("绘"@.len() != "出版社"@.len());
        assert("绘"@.len() != "发行"@.len());
        assert("绘"@.len() != "作者"@.len());
        assert("绘"@.len() != "原作"@.len());
        assert("绘"@[0] != "著"@[0]);
    }
    assert((f.translator is None ==> infobox_step(f, "译者"@, t) == (InfoboxFields { translator: Some(t), ..f })) && (f.translator is Some ==> infobox_step(f, "译者"@, t) == f)) by {
        assert("译者"@.len() != "出版社"@.len());
        assert("译者"@.len() != "著"@.len());
        assert("译者"@.len() != "绘"@.len());
        assert("译者"@[0] != "发行"@[0]);
        assert("译者"@[0] != "作者"@[0]);
        assert("译者"@[0] != "原作"@[0]);
        assert("译者"@[0] != "作画"@[0]);
        assert("译者"@[0] != "漫画"@[0]);
    }
    assert((f.translator is None ==> infobox_step(f, "翻译"@, t) == (InfoboxFields { translator: Some(t), ..f })) && (f.translator is Some ==> infobox_step(f, "翻译"@, t) == f)) by {
        assert("翻译"@.len() != "出版社"@.len());
        assert("翻译"@.len() != "著"@.len());
        assert("翻译"@.len() != "绘"@.len());
        assert("翻译"@[0] != "发行"@[0]);
        assert("翻译"@[0] != "作者"@[0]);
        assert("翻译"@[0] != "原作"@[0]);
        assert("翻译"@[0] != "作画"@[0]);
        assert("翻译"@[0] != "漫画"@[0]);
    }
    assert((f.genre is None ==> infobox_step(f, "类型"@, t) == (InfoboxFields { genre: Some(t), ..f })) && (f.genre is Some ==> infobox_step(f, "类型"@, t) == f)) by {
        assert("类型"@.len() != "出版社"@.len());
        assert("类型"@.len() != "著"@.len());
        assert("类型"@.len() != "绘"@.len());
        assert("类型"@[0] != "发行"@[0]);
        assert("类型"@[0] != "作者"@[0]);
        assert("类型"@[0] != "原作"@[0]);
        assert("类型"@[0] != "作画"@[0]);
        assert("类型"@[0] != "漫画"@[0]);
        assert("类型"@[0] != "译者"@[0]);
        assert("类型"@[0] != "翻译"@[0]);
    }
    assert((f.genre is None ==> infobox_step(f, "分类"@, t) == (InfoboxFields { genre: Some(t), ..f })) && (f.genre is Some ==> infobox_step(f, "分类"@, t) == f)) by {
        assert("分类"@.len() != "出版社"@.len());
        assert("分类"@.len() != "著"@.len());
        assert("分类"@.len() != "绘"@.len());
        assert("分类"@[0] != "发行"@[0]);
        assert("分类"@[0] != "作者"@[0]);
        assert("分类"@[0] != "原作"@[0]);
        assert("分类"@[0] != "作画"@[0]);
        assert("分类"@[0] != "漫画"@[0]);
        assert("分类"@[0] != "译者"@[0]);
        assert("分类"@[0] != "翻译"@[0]);
    }
    assert((f.imprint is None ==> infobox_step(f, "连载杂志"@, t) == (InfoboxFields { imprint: Some(t), ..f })) && (f.imprint is Some ==> infobox_step(f, "连载杂志"@, t) == f)) by {
        assert("连载杂志"@.len() != "出版社"@.len());
        assert("连载杂志"@.len() != "发行"@.len());
        assert("连载杂志"@.len() != "作者"@.len());
        assert("连载杂志"@.len() != "原作"@.len());
        assert("连载杂志"@.len() != "著"@.len());
        assert("连载杂志"@.len() != "作画"@.len());
        assert("连载杂志"@.len() != "漫画"@.len());
        assert("连载杂志"@.len() != "绘"@.len());
        assert("连载杂志"@.len() != "译者"@.len());
        assert("连载杂志"@.len() != "翻译"@.len());
        assert("连载杂志"@.len() != "类型"@.len());
        assert("连载杂志"@.len() != "分类"@.len());
    }
    assert((f.imprint is None ==> infobox_step(f, "杂志"@, t) == (InfoboxFields { imprint: Some(t), ..f })) && (f.imprint is Some ==> infobox_step(f, "杂志"@, t) == f)) by {
        assert("杂志"@.len() != "出版社"@.len());
        assert("杂志"@.len() != "著"@.len());
        assert("杂志"@.len() != "绘"@.len());
        assert("杂志"@[0] != "发行"@[0]);
        assert("杂志"@[0] != "作者"@[0]);
        assert("杂志"@[0] != "原作"@[0]);
        assert("杂志"@[0] != "作画"@[0]);
        assert("杂志"@[0] != "漫画"@[0]);
        assert("杂志"@[0] != "译者"@[0]);
        assert("杂志"@[0] != "翻译"@[0]);
        assert("杂志"@[0] != "类型"@[0]);
        assert("杂志"@[0] != "分类"@[0]);
    }
    assert((f.format is None ==> infobox_step(f, "装帧"@, t) == (InfoboxFields { format: Some(t), ..f })) && (f.format is Some ==> infobox_step(f, "装帧"@, t) == f)) by {
        assert("装帧"@.len() != "出版社"@.len());
        assert("装帧"@.len() != "著"@.len());
        assert("装帧"@.len() != "绘"@.len());
        assert("装帧"@.len() != "连载杂志"@.len());
        assert("装帧"@.len() != "册"@.len());
        assert("装帧"@[0] != "发行"@[0]);
        assert("装帧"@[0] != "作者"@[0]);
        assert("装帧"@[0] != "原作"@[0]);
        assert("装帧"@[0] != "作画"@[0]);
        assert("装帧"@[0] != "漫画"@[0]);
        assert("装帧"@[0] != "译者"@[0]);
        assert("装帧"@[0] != "翻译"@[0]);
        assert("装帧"@[0] != "类型"@[0]);
        assert("装帧"@[0] != "分类"@[0]);
        assert("装帧"@[0] != "杂志"@[0]);
        assert("装帧"@[0] != "卷号"@[0]);
        assert("装帧"@[0] != "语言"@[0]);
        assert("装帧"@[0] != "言語"@[0]);
    }
    assert((f.format is None ==> infobox_step(f, "开本"@, t) == (InfoboxFields { format: Some(t), ..f })) && (f.format is Some ==> infobox_step(f, "开本"@, t) == f)) by {
        assert("开本"@.len() != "出版社"@.len());
        assert("开本"@.len() != "著"@.len());
        assert("开本"@.len() != "绘"@.len());
        assert("开本"@.len() != "连载杂志"@.len());
        assert("开本"@.len() != "册"@.len());
        assert("开本"@[0] != "发行"@[0]);
        assert("开本"@[0] != "作者"@[0]);
        assert("开本"@[0] != "原作"@[0]);
        assert("开本"@[0] != "作画"@[0]);
        assert("开本"@[0] != "漫画"@[0]);
        assert("开本"@[0] != "译者"@[0]);
        assert("开本"@[0] != "翻译"@[0]);
        assert("开本"@[0] != "类型"@[0]);
        assert("开本"@[0] != "分类"@[0]);
        assert("开本"@[0] != "杂志"@[0]);
        assert("开本"@[0] != "卷号"@[0]);
        assert("开本"@[0] != "语言"@[0]);
        assert("开本"@[0] != "言語"@[0]);
    }
}

/// The other infobox keys: 卷号/册 read the volume number, 语言/言語 the
/// language, 是否彩色/色彩 the colour, 国家/地区/国家/地区 mark Japanese
/// works as manga, and every ISBN/ISBN-13/ISBN-10 entry adds an `ISBN: `
/// line to the notes.  Each touches its own field and nothing else, and
/// never replaces a value already set.
pub proof fn law_infobox_other_key_targets(f: InfoboxFields, t: Seq<char>)
    requires
        t.len() > 0,
    ensures
        f.volume is None ==> infobox_step(f, "卷号"@, t) == (InfoboxFields { volume: parse_i32(trim(t)), ..f }),
        f.volume is Some ==> infobox_step(f, "卷号"@, t) == f,
        f.volume is None ==> infobox_step(f, "册"@, t) == (InfoboxFields { volume: parse_i32(trim(t)), ..f }),
        f.volume is Some ==> infobox_step(f, "册"@, t) == f,
        f.language_iso is None ==> infobox_step(f, "语言"@, t) == (InfoboxFields { language_iso: Some(lang_iso(t)), ..f }),
        f.language_iso is Some ==> infobox_step(f, "语言"@, t) == f,
        f.language_iso is None ==> infobox_step(f, "言語"@, t) == (InfoboxFields { language_iso: Some(lang_iso(t)), ..f }),
        f.language_iso is Some ==> infobox_step(f, "言語"@, t) == f,
        f.black_and_white == YesNo::Unknown ==> infobox_step(f, "是否彩色"@, t) == (InfoboxFields { black_and_white: colour_of(t), ..f }),
        f.black_and_white != YesNo::Unknown ==> infobox_step(f, "是否彩色"@, t) == f,
        f.black_and_white == YesNo::Unknown ==> infobox_step(f, "色彩"@, t) == (InfoboxFields { black_and_white: colour_of(t), ..f }),
        f.black_and_white != YesNo::Unknown ==> infobox_step(f, "色彩"@, t) == f,
        f.manga == Manga::Unknown && contains_seq(lower_seq(t), "日本"@) ==> infobox_step(f, "国家/地区"@, t) == (InfoboxFields { manga: Manga::Yes, ..f }),
        f.manga == Manga::Unknown && contains_seq(lower_seq(t), "japan"@) ==> infobox_step(f, "国家/地区"@, t) == (InfoboxFields { manga: Manga::Yes, ..f }),
        !contains_seq(lower_seq(t), "日本"@) && !contains_seq(lower_seq(t), "japan"@) ==> infobox_step(f, "国家/地区"@, t) == f,
        f.manga == Manga::Unknown && contains_seq(lower_seq(t), "日本"@) ==> infobox_step(f, "国家"@, t) == (InfoboxFields { manga: Manga::Yes, ..f }),
        f.manga == Manga::Unknown && contains_seq(lower_seq(t), "japan"@) ==> infobox_step(f, "国家"@, t) == (InfoboxFields { manga: Manga::Yes, ..f }),
        !contains_seq(lower_seq(t), "日本"@) && !contains_seq(lower_seq(t), "japan"@) ==> infobox_step(f, "国家"@, t) == f,
        f.manga == Manga::Unknown && contains_seq(lower_seq(t), "日本"@) ==> infobox_step(f, "地区"@, t) == (InfoboxFields { manga: Manga::Yes, ..f }),
        f.manga == Manga::Unknown && contains_seq(lower_seq(t), "japan"@) ==> infobox_step(f, "地区"@, t) == (InfoboxFields { manga: Manga::Yes, ..f }),
        !contains_seq(lower_seq(t), "日本"@) && !contains_seq(lower_seq(t), "japan"@) ==> infobox_step(f, "地区"@, t) == f,
        infobox_step(f, "ISBN"@, t) == (InfoboxFields { notes: Some(match f.notes { Some(p) => p + "\n"@ + "ISBN: "@ + t, None => "ISBN: "@ + t }), ..f }),
        infobox_step(f, "ISBN-13"@, t) == (InfoboxFields { notes: Some(match f.notes { Some(p) => p + "\n"@ + "ISBN: "@ + t, None => "ISBN: "@ + t }), ..f }),
        infobox_step(f, "ISBN-10"@, t) == (InfoboxFields { notes: Some(match f.notes { Some(p) => p + "\n"@ + "ISBN: "@ + t, None => "ISBN: "@ + t }), ..f }),
{
    reveal_strlit("出版社");
    reveal_strlit("发行");
    reveal_strlit("作者");
    reveal_strlit("原作");
    reveal_strlit("著");
    reveal_strlit("作画");
    reveal_strlit("漫画");
    reveal_strlit("绘");
    reveal_strlit("译者");
    reveal_strlit("翻译");
    reveal_strlit("类型");
    reveal_strlit("分类");
    reveal_strlit("连载杂志");
    reveal_strlit("杂志");
    reveal_strlit("卷号");
    reveal_strlit("册");
    reveal_strlit("语言");
    reveal_strlit("言語");
    reveal_strlit("装帧");
    reveal_strlit("开本");
    reveal_strlit("是否彩色");
    reveal_strlit("色彩");
    reveal_strlit("国家/地区");
    reveal_strlit("国家");
    reveal_strlit("地区");
    reveal_strlit("ISBN");
    reveal_strlit("ISBN-13");
    reveal_strlit("ISBN-10");
    assert((f.volume is None ==> infobox_step(f, "卷号"@, t) == (InfoboxFields { volume: parse_i32(trim(t)), ..f })) && (f.volume is Some ==> infobox_step(f, "卷号"@, t) == f)) by {
        assert("卷号"@.len() != "出版社"@.len());
        assert("卷号"@[0] != "发行"@[0]);
        assert("卷号"@[0] != "作者"@[0]);
        assert("卷号"@[0] != "原作"@[0]);
        assert("卷号"@.len() != "著"@.len());
        assert("卷号"@[0] != "作画"@[0]);
        assert("卷号"@[0] != "漫画"@[0]);
        assert("卷号"@.len() != "绘"@.len());
        assert("卷号"@[0] != "译者"@[0]);
        assert("卷号"@[0] != "翻译"@[0]);
        assert("卷号"@[0] != "类型"@[0]);
        assert("卷号"@[0] != "分类"@[0]);
        assert("卷号"@.len() != "连载杂志"@.len());
        assert("卷号"@[0] != "杂志"@[0]);
    }
    assert((f.volume is None ==> infobox_step(f, "册"@, t) == (InfoboxFields { volume: parse_i32(trim(t)), ..f })) && (f.volume is Some ==> infobox_step(f, "册"@, t) == f)) by {
        assert("册"@.len() != "出版社"@.len());
        assert("册"@.len() != "发行"@.len());
        assert("册"@.len() != "作者"@.len());
        assert("册"@.len() != "原作"@.len());
        assert("册"@[0] != "著"@[0]);
        assert("册"@.len() != "作画"@.len());
        assert("册"@.len() != "漫画"@.len());
        assert("册"@[0] != "绘"@[0]);
        assert("册"@.len() != "译者"@.len());
        assert("册"@.len() != "翻译"@.len());
        assert("册"@.len() != "类型"@.len());
        assert("册"@.len() != "分类"@.len());
        assert("册"@.len() != "连载杂志"@.len());
        assert("册"@.len() != "杂志"@.len());
    }
    assert((f.language_iso is None ==> infobox_step(f, "语言"@, t) == (InfoboxFields { language_iso: Some(lang_iso(t)), ..f })) && (f.language_iso is Some ==> infobox_step(f, "语言"@, t) == f)) by {
        assert("语言"@.len() != "出版社"@.len());
        assert("语言"@[0] != "发行"@[0]);
        assert("语言"@[0] != "作者"@[0]);
        assert("语言"@[0] != "原作"@[0]);
        assert("语言"@.len() != "著"@.len());
        assert("语言"@[0] != "作画"@[0]);
        assert("语言"@[0] != "漫画"@[0]);
        assert("语言"@.len() != "绘"@.len());
        assert("语言"@[0] != "译者"@[0]);
        assert("语言"@[0] != "翻译"@[0]);
        assert("语言"@[0] != "类型"@[0]);
        assert("语言"@[0] != "分类"@[0]);
        assert("语言"@.len() != "连载杂志"@.len());
        assert("语言"@[0] != "杂志"@[0]);
        assert("语言"@[0] != "卷号"@[0]);
        assert("语言"@.len() != "册"@.len());
    }
    assert((f.language_iso is None ==> infobox_step(f, "言語"@, t) == (InfoboxFields { language_iso: Some(lang_iso(t)), ..f })) && (f.language_iso is Some ==> infobox_step(f, "言語"@, t) == f)) by {
        assert("言語"@.len() != "出版社"@.len());
        assert("言語"@[0] != "发行"@[0]);
        assert("言語"@[0] != "作者"@[0]);
        assert("言語"@[0] != "原作"@[0]);
        assert("言語"@.len() != "著"@.len());
        assert("言語"@[0] != "作画"@[0]);
        assert("言語"@[0] != "漫画"@[0]);
        assert("言語"@.len() != "绘"@.len());
        assert("言語"@[0] != "译者"@[0]);
        assert("言語"@[0] != "翻译"@[0]);
        assert("言語"@[0] != "类型"@[0]);
        assert("言語"@[0] != "分类"@[0]);
        assert("言語"@.len() != "连载杂志"@.len());
        assert("言語"@[0] != "杂志"@[0]);
        assert("言語"@[0] != "卷号"@[0]);
        assert("言語"@.len() != "册"@.len());
    }
    assert((f.black_and_white == YesNo::Unknown ==> infobox_step(f, "是否彩色"@, t) == (InfoboxFields { black_and_white: colour_of(t), ..f })) && (f.black_and_white != YesNo::Unknown ==> infobox_step(f, "是否彩色"@, t) == f)) by {
        assert("是否彩色"@.len() != "出版社"@.len());
        assert("是否彩色"@.len() != "发行"@.len());
        assert("是否彩色"@.len() != "作者"@.len());
        assert("是否彩色"@.len() != "原作"@.len());
        assert("是否彩色"@.len() != "著"@.len());
        assert("是否彩色"@.len() != "作画"@.len());
        assert("是否彩色"@.len() != "漫画"@.len());
        assert("是否彩色"@.len() != "绘"@.len());
        assert("是否彩色"@.len() != "译者"@.len());
        assert("是否彩色"@.len() != "翻译"@.len());
        assert("是否彩色"@.len() != "类型"@.len());
        assert("是否彩色"@.len() != "分类"@.len());
        assert("是否彩色"@[0] != "连载杂志"@[0]);
        assert("是否彩色"@.len() != "杂志"@.len());
        assert("是否彩色"@.len() != "卷号"@.len());
        assert("是否彩色"@.len() != "册"@.len());
        assert("是否彩色"@.len() != "语言"@.len());
        assert("是否彩色"@.len() != "言語"@.len());
        assert("是否彩色"@.len() != "装帧"@.len());
        assert("是否彩色"@.len() != "开本"@.len());
    }
    assert((f.black_and_white == YesNo::Unknown ==> infobox_step(f, "色彩"@, t) == (InfoboxFields { black_and_white: colour_of(t), ..f })) && (f.black_and_white != YesNo::Unknown ==> infobox_step(f, "色彩"@, t) == f)) by {
        assert("色彩"@.len() != "出版社"@.len());
        assert("色彩"@[0] != "发行"@[0]);
        assert("色彩"@[0] != "作者"@[0]);
        assert("色彩"@[0] != "原作"@[0]);
        assert("色彩"@.len() != "著"@.len());
        assert("色彩"@[0] != "作画"@[0]);
        assert("色彩"@[0] != "漫画"@[0]);
        assert("色彩"@.len() != "绘"@.len());
        assert("色彩"@[0] != "译者"@[0]);
        assert("色彩"@[0] != "翻译"@[0]);
        assert("色彩"@[0] != "类型"@[0]);
        assert("色彩"@[0] != "分类"@[0]);
        assert("色彩"@.len() != "连载杂志"@.len());
        assert("色彩"@[0] != "杂志"@[0]);
        assert("色彩"@[0] != "卷号"@[0]);
        assert("色彩"@.len() != "册"@.len());
        assert("色彩"@[0] != "语言"@[0]);
        assert("色彩"@[0] != "言語"@[0]);
        assert("色彩"@[0] != "装帧"@[0]);
        assert("色彩"@[0] != "开本"@[0]);
    }
    assert((f.manga == Manga::Unknown && contains_seq(lower_seq(t), "日本"@) ==> infobox_step(f, "国家/地区"@, t) == (InfoboxFields { manga: Manga::Yes, ..f })) && (f.manga == Manga::Unknown && contains_seq(lower_seq(t), "japan"@) ==> infobox_step(f, "国家/地区"@, t) == (InfoboxFields { manga: Manga::Yes, ..f })) && (!contains_seq(lower_seq(t), "日本"@) && !contains_seq(lower_seq(t), "japan"@) ==> infobox_step(f, "国家/地区"@, t) == f)) by {
        assert("国家/地区"@.len() != "出版社"@.len());
        assert("国家/地区"@.len() != "发行"@.len());
        assert("国家/地区"@.len() != "作者"@.len());
        assert("国家/地区"@.len() != "原作"@.len());
        assert("国家/地区"@.len() != "著"@.len());
        assert("国家/地区"@.len() != "作画"@.len());
        assert("国家/地区"@.len() != "漫画"@.len());
        assert("国家/地区"@.len() != "绘"@.len());
        assert("国家/地区"@.len() != "译者"@.len());
        assert("国家/地区"@.len() != "翻译"@.len());
        assert("国家/地区"@.len() != "类型"@.len());
        assert("国家/地区"@.len() != "分类"@.len());
        assert("国家/地区"@.len() != "连载杂志"@.len());
        assert("国家/地区"@.len() != "杂志"@.len());
        assert("国家/地区"@.len() != "卷号"@.len());
        assert("国家/地区"@.len() != "册"@.len());
        assert("国家/地区"@.len() != "语言"@.len());
        assert("国家/地区"@.len() != "言語"@.len());
        assert("国家/地区"@.len() != "装帧"@.len());
        assert("国家/地区"@.len() != "开本"@.len());
        assert("国家/地区"@.len() != "是否彩色"@.len());
        assert("国家/地区"@.len() != "色彩"@.len());
    }
    assert((f.manga == Manga::Unknown && contains_seq(lower_seq(t), "日本"@) ==> infobox_step(f, "国家"@, t) == (InfoboxFields { manga: Manga::Yes, ..f })) && (f.manga == Manga::Unknown && contains_seq(lower_seq(t), "japan"@) ==> infobox_step(f, "国家"@, t) == (InfoboxFields { manga: Manga::Yes, ..f })) && (!contains_seq(lower_seq(t), "日本"@) && !contains_seq(lower_seq(t), "japan"@) ==> infobox_step(f, "国家"@, t) == f)) by {
        assert("国家"@.len() != "出版社"@.len());
        assert("国家"@[0] != "发行"@[0]);
        assert("国家"@[0] != "作者"@[0]);
        assert("国家"@[0] != "原作"@[0]);
        assert("国家"@.len() != "著"@.len());
        assert("国家"@[0] != "作画"@[0]);
        assert("国家"@[0] != "漫画"@[0]);
        assert("国家"@.len() != "绘"@.len());
        assert("国家"@[0] != "译者"@[0]);
        assert("国家"@[0] != "翻译"@[0]);
        assert("国家"@[0] != "类型"@[0]);
        assert("国家"@[0] != "分类"@[0]);
        assert("国家"@.len() != "连载杂志"@.len());
        assert("国家"@[0] != "杂志"@[0]);
        assert("国家"@[0] != "卷号"@[0]);
        assert("国家"@.len() != "册"@.len());
        assert("国家"@[0] != "语言"@[0]);
        assert("国家"@[0] != "言語"@[0]);
        assert("国家"@[0] != "装帧"@[0]);
        assert("国家"@[0] != "开本"@[0]);
        assert("国家"@.len() != "是否彩色"@.len());
        assert("国家"@[0] != "色彩"@[0]);
    }
    assert((f.manga == Manga::Unknown && contains_seq(lower_seq(t), "日本"@) ==> infobox_step(f, "地区"@, t) == (InfoboxFields { manga: Manga::Yes, ..f })) && (f.manga == Manga::Unknown && contains_seq(lower_seq(t), "japan"@) ==> infobox_step(f, "地区"@, t) == (InfoboxFields { manga: Manga::Yes, ..f })) && (!contains_seq(lower_seq(t), "日本"@) && !contains_seq(lower_seq(t), "japan"@) ==> infobox_step(f, "地区"@, t) == f)) by {
        assert("地区"@.len() != "出版社"@.len());
        assert("地区"@[0] != "发行"@[0]);
        assert("地区"@[0] != "作者"@[0]);
        assert("地区"@[0] != "原作"@[0]);
        assert("地区"@.len() != "著"@.len());
        assert("地区"@[0] != "作画"@[0]);
        assert("地区"@[0] != "漫画"@[0]);
        assert("地区"@.len() != "绘"@.len());
        assert("地区"@[0] != "译者"@[0]);
        assert("地区"@[0] != "翻译"@[0]);
        assert("地区"@[0] != "类型"@[0]);
        assert("地区"@[0] != "分类"@[0]);
        assert("地区"@.len() != "连载杂志"@.len());
        assert("地区"@[0] != "杂志"@[0]);
        assert("地区"@[0] != "卷号"@[0]);
        assert("地区"@.len() != "册"@.len());
        assert("地区"@[0] != "语言"@[0]);
        assert("地区"@[0] != "言語"@[0]);
        assert("地区"@[0] != "装帧"@[0]);
        assert("地区"@[0] != "开本"@[0]);
        assert("地区"@.len() != "是否彩色"@.len());
        assert("地区"@[0] != "色彩"@[0]);
    }
    assert((infobox_step(f, "ISBN"@, t) == (InfoboxFields { notes: Some(match f.notes { Some(p) => p + "\n"@ + "ISBN: "@ + t, None => "ISBN: "@ + t }), ..f }))) by {
        if f.notes is Some {
            let p = f.notes.unwrap();
            assert(p + "\n"@ + "ISBN: "@ + t =~= p + "\n"@ + ("ISBN: "@ + t));
        }
        assert("ISBN"@.len() != "出版社"@.len());
        assert("ISBN"@.len() != "发行"@.len());
        assert("ISBN"@.len() != "作者"@.len());
        assert("ISBN"@.len() != "原作"@.len());
        assert("ISBN"@.len() != "著"@.len());
        assert("ISBN"@.len() != "作画"@.len());
        assert("ISBN"@.len() != "漫画"@.len());
        assert("ISBN"@.len() != "绘"@.len());
        assert("ISBN"@.len() != "译者"@.len());
        assert("ISBN"@.len() != "翻译"@.len());
        assert("ISBN"@.len() != "类型"@.len());
        assert("ISBN"@.len() != "分类"@.len());
        assert("ISBN"@[0] != "连载杂志"@[0]);
        assert("ISBN"@.len() != "杂志"@.len());
        assert("ISBN"@.len() != "卷号"@.len());
        assert("ISBN"@.len() != "册"@.len());
        assert("ISBN"@.len() != "语言"@.len());
        assert("ISBN"@.len() != "言語"@.len());
        assert("ISBN"@.len() != "装帧"@.len());
        assert("ISBN"@.len() != "开本"@.len());
        assert("ISBN"@[0] != "是否彩色"@[0]);
        assert("ISBN"@.len() != "色彩"@.len());
        assert("ISBN"@.len() != "国家/地区"@.len());
        assert("ISBN"@.len() != "国家"@.len());
        assert("ISBN"@.len() != "地区"@.len());
    }
    assert((infobox_step(f, "ISBN-13"@, t) == (InfoboxFields { notes: Some(match f.notes { Some(p) => p + "\n"@ + "ISBN: "@ + t, None => "ISBN: "@ + t }), ..f }))) by {
        if f.notes is Some {
            let p = f.notes.unwrap();
            assert(p + "\n"@ + "ISBN: "@ + t =~= p + "\n"@ + ("ISBN: "@ + t));
        }
        assert("ISBN-13"@.len() != "出版社"@.len());
        assert("ISBN-13"@.len() != "发行"@.len());
        assert("ISBN-13"@.len() != "作者"@.len());
        assert("ISBN-13"@.len() != "原作"@.len());
        assert("ISBN-13"@.len() != "著"@.len());
        assert("ISBN-13"@.len() != "作画"@.len());
        assert("ISBN-13"@.len() != "漫画"@.len());
        assert("ISBN-13"@.len() != "绘"@.len());
        assert("ISBN-13"@.len() != "译者"@.len());
        assert("ISBN-13"@.len() != "翻译"@.len());
        assert("ISBN-13"@.len() != "类型"@.len());
        assert("ISBN-13"@.len() != "分类"@.len());
        assert("ISBN-13"@.len() != "连载杂志"@.len());
        assert("ISBN-13"@.len() != "杂志"@.len());
        assert("ISBN-13"@.len() != "卷号"@.len());
        assert("ISBN-13"@.len() != "册"@.len());
        assert("ISBN-13"@.len() != "语言"@.len());
        assert("ISBN-13"@.len() != "言語"@.len());
        assert("ISBN-13"@.len() != "装帧"@.len());
        assert("ISBN-13"@.len() != "开本"@.len());
        assert("ISBN-13"@.len() != "是否彩色"@.len());
        assert("ISBN-13"@.len() != "色彩"@.len());
        assert("ISBN-13"@.len() != "国家/地区"@.len());
        assert("ISBN-13"@.len() != "国家"@.len());
        assert("ISBN-13"@.len() != "地区"@.len());
    }
    assert((infobox_step(f, "ISBN-10"@, t) == (InfoboxFields { notes: Some(match f.notes { Some(p) => p + "\n"@ + "ISBN: "@ + t, None => "ISBN: "@ + t }), ..f }))) by {
        if f.notes is Some {
            let p = f.notes.unwrap();
            assert(p + "\n"@ + "ISBN: "@ + t =~= p + "\n"@ + ("ISBN: "@ + t));
        }
        assert("ISBN-10"@.len() != "出版社"@.len());
        assert("ISBN-10"@.len() != "发行"@.len());
        assert("ISBN-10"@.len() != "作者"@.len());
        assert("ISBN-10"@.len() != "原作"@.len());
        assert("ISBN-10"@.len() != "著"@.len());
        assert("ISBN-10"@.len() != "作画"@.len());
        assert("ISBN-10"@.len() != "漫画"@.len());
        assert("ISBN-10"@.len() != "绘"@.len());
        assert("ISBN-10"@.len() != "译者"@.len());
        assert("ISBN-10"@.len() != "翻译"@.len());
        assert("ISBN-10"@.len() != "类型"@.len());
        assert("ISBN-10"@.len() != "分类"@.len());
        assert("ISBN-10"@.len() != "连载杂志"@.len());
        assert("ISBN-10"@.len() != "杂志"@.len());
        assert("ISBN-10"@.len() != "卷号"@.len());
        assert("ISBN-10"@.len() != "册"@.len());
        assert("ISBN-10"@.len() != "语言"@.len());
        assert("ISBN-10"@.len() != "言語"@.len());
        assert("ISBN-10"@.len() != "装帧"@.len());
        assert("ISBN-10"@.len() != "开本"@.len());
        assert("ISBN-10"@.len() != "是否彩色"@.len());
        assert("ISBN-10"@.len() != "色彩"@.len());
        assert("ISBN-10"@.len() != "国家/地区"@.len());
        assert("ISBN-10"@.len() != "国家"@.len());
        assert("ISBN-10"@.len() != "地区"@.len());
    }
}

} // verus!
