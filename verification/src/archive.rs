//! What the tool decides about .zip / .cbz / .7z comic archives.
//!
//! Reading and writing the archives is I/O and happens outside this crate;
//! here stand the rules: which format a path has, which entries are pages,
//! how pages are ordered, whether `ComicInfo.xml` is present, and how an
//! injection has to proceed.
use vstd::prelude::*;

use crate::text::{
    contains_seq, contains_str, ends_with, ends_with_str, eq_str, lower_seq, push_str,
    string_from_chars, to_chars, to_lower,
};

verus! {

/// File name used inside archives for the metadata file.
pub const COMIC_INFO_FILENAME: &'static str = "ComicInfo.xml";

// ---------------------------------------------------------------------------
// Public types
// ---------------------------------------------------------------------------

/// Format of the archive on disk.
#[derive(Debug, Clone, Copy, PartialEq, Eq, Structural)]
pub enum ArchiveFormat {
    /// .zip or .cbz
    Zip,
    /// .7z
    SevenZip,
}

/// A single entry found inside an archive.
#[derive(Debug, Clone)]
pub struct ImageEntry {
    /// Path as stored inside the archive (e.g. `"001.jpg"`).
    pub name: String,
    /// Compressed or stored size in bytes (0 if unknown).
    pub size: u64,
}

/// Information extracted from an archive without fully decompressing images.
#[derive(Debug)]
pub struct ArchiveInfo {
    /// Detected format.
    pub format: ArchiveFormat,
    /// Image pages found, sorted by their in-archive name.
    pub images: Vec<ImageEntry>,
    /// `true` when the archive already contains a `ComicInfo.xml`.
    pub has_comic_info: bool,
}

impl ArchiveInfo {
    /// Convenience: total page count.
    pub fn page_count(&self) -> (res: usize)
        ensures
            res == self.images@.len(),
    {
        self.images.len()
    }
}

/// Why an archive operation was refused.
#[derive(Debug, Clone, Copy, PartialEq, Eq, Structural)]
pub enum ArchiveError {
    /// The extension is none of .zip, .cbz, .7z.
    UnsupportedExtension,
    /// In-place injection into a .7z archive is not supported.
    SevenZipInjection,
    /// The archive already holds a `ComicInfo.xml` and `force` was not given.
    AlreadyHasComicInfo,
}

// ---------------------------------------------------------------------------
// Format detection
// ---------------------------------------------------------------------------

/// The format that a file extension names (case-insensitively).
pub open spec fn format_of_extension(ext: Seq<char>) -> Option<ArchiveFormat> {
    let lower = lower_seq(ext);
    if lower == "zip"@ || lower == "cbz"@ {
        Some(ArchiveFormat::Zip)
    } else if lower == "7z"@ {
        Some(ArchiveFormat::SevenZip)
    } else {
        None
    }
}

/// `Path::extension` of a path, as text.
pub uninterp spec fn path_extension(path: Seq<char>) -> Option<Seq<char>>;

/// Calls `std::path::Path::extension` on `path`.  Trusted: the result is
/// the one named by [`path_extension`]; the extension of a `&str` path is
/// valid UTF-8.
#[verifier::external_body]
fn extension_of(path: &str) -> (res: Option<String>)
    ensures
        res.deep_view() == path_extension(path@),
{
    match std::path::Path::new(path).extension() {
        Some(os) => match os.to_str() {
            Some(s) => Some(s.to_string()),
            None => None,
        },
        None => None,
    }
}

/// The format that the extension of a path names.
pub open spec fn format_of_path(path: Seq<char>) -> Option<ArchiveFormat> {
    match path_extension(path) {
        Some(ext) => format_of_extension(ext),
        None => None,
    }
}

impl ArchiveFormat {
    /// Detect the archive format from the file extension.
    pub fn detect(path: &str) -> (res: Option<Self>)
        ensures
            res == format_of_path(path@),
    {
        match extension_of(path) {
            Some(ext) => Self::from_extension(ext.as_str()),
            None => None,
        }
    }

    /// The format that a file extension names.
    pub fn from_extension(ext: &str) -> (res: Option<Self>)
        ensures
            res == format_of_extension(ext@),
    {
        let c = to_chars(ext);
        let lower = to_lower(&c);
        if eq_str(&lower, "zip") || eq_str(&lower, "cbz") {
            Some(ArchiveFormat::Zip)
        } else if eq_str(&lower, "7z") {
            Some(ArchiveFormat::SevenZip)
        } else {
            None
        }
    }
}

/// Detect the format of a path, or refuse it.
pub fn require_format(path: &str) -> (res: Result<ArchiveFormat, ArchiveError>)
    ensures
        match format_of_path(path@) {
            Some(f) => res == Ok::<ArchiveFormat, ArchiveError>(f),
            None => res == Err::<ArchiveFormat, ArchiveError>(ArchiveError::UnsupportedExtension),
        },
{
    match ArchiveFormat::detect(path) {
        Some(f) => Ok(f),
        None => Err(ArchiveError::UnsupportedExtension),
    }
}

// ---------------------------------------------------------------------------
// Entry classification
// ---------------------------------------------------------------------------

/// The text after the last `c` of `s` (all of `s` when there is none):
/// what `s.rsplit(c).next()` yields.
pub open spec fn after_last(s: Seq<char>, c: char) -> Seq<char>
    decreases s.len(),
{
    if s.len() == 0 {
        Seq::empty()
    } else if s.last() == c {
        Seq::empty()
    } else {
        after_last(s.drop_last(), c).push(s.last())
    }
}

/// File extensions that are treated as comic image pages.
pub open spec fn is_image_extension(ext: Seq<char>) -> bool {
    ||| ext == "jpg"@
    ||| ext == "jpeg"@
    ||| ext == "png"@
    ||| ext == "gif"@
    ||| ext == "webp"@
    ||| ext == "bmp"@
    ||| ext == "tiff"@
    ||| ext == "tif"@
    ||| ext == "avif"@
}

/// An entry is an image page: not a directory, not under a macOS resource
/// fork, and with an image extension (case-insensitively).
pub open spec fn is_image_name(name: Seq<char>) -> bool {
    let lower = lower_seq(name);
    !ends_with(lower, "/"@) && !contains_seq(lower, "__macosx"@) && is_image_extension(
        after_last(lower, '.'),
    )
}

/// An entry is a `ComicInfo.xml`, at any depth and in any case.
pub open spec fn is_comic_info_name(name: Seq<char>) -> bool {
    ends_with(lower_seq(name), "comicinfo.xml"@)
}

fn after_last_exec(s: &[char], c: char) -> (res: Vec<char>)
    ensures
        res@ == after_last(s@, c),
{
    let mut j: usize = s.len();
    let mut acc: Vec<char> = Vec::new();
    assert(s@.subrange(0, s@.len() as int) =~= s@);
    assert(after_last(s@, c) + acc@ =~= after_last(s@, c));
    while j > 0 && s[j - 1] != c
        invariant
            j <= s@.len(),
            after_last(s@, c) == after_last(s@.subrange(0, j as int), c) + acc@,
        decreases j,
    {
        let ghost pre = s@.subrange(0, j as int);
        assert(pre.drop_last() =~= s@.subrange(0, j - 1));
        assert(after_last(pre, c) == after_last(pre.drop_last(), c).push(s@[j - 1]));
        assert(after_last(pre.drop_last(), c).push(s@[j - 1]) + acc@ =~= after_last(
            pre.drop_last(),
            c,
        ) + acc@.insert(0, s@[j - 1]));
        acc.insert(0, s[j - 1]);
        j -= 1;
    }
    assert(after_last(s@.subrange(0, j as int), c) =~= Seq::<char>::empty());
    assert(Seq::<char>::empty() + acc@ =~= acc@);
    acc
}

/// Whether an in-archive name is an image page.
pub fn is_image(name: &str) -> (res: bool)
    ensures
        res == is_image_name(name@),
{
    let c = to_chars(name);
    let lower = to_lower(&c);
    // Ignore directory entries and macOS resource forks
    if ends_with_str(&lower, "/") || contains_str(&lower, "__macosx") {
        return false;
    }
    let ext = after_last_exec(&lower, '.');
    eq_str(&ext, "jpg") || eq_str(&ext, "jpeg") || eq_str(&ext, "png") || eq_str(&ext, "gif")
        || eq_str(&ext, "webp") || eq_str(&ext, "bmp") || eq_str(&ext, "tiff") || eq_str(
        &ext,
        "tif",
    ) || eq_str(&ext, "avif")
}

/// Whether an in-archive name is a `ComicInfo.xml`.
pub fn is_comic_info(name: &str) -> (res: bool)
    ensures
        res == is_comic_info_name(name@),
{
    let c = to_chars(name);
    let lower = to_lower(&c);
    ends_with_str(&lower, "comicinfo.xml")
}

// ---------------------------------------------------------------------------
// Page ordering
// ---------------------------------------------------------------------------

/// `a <= b` in the order of `str` (bytewise UTF-8, which is the order of
/// code points, compared lexicographically).
pub open spec fn name_le(a: Seq<char>, b: Seq<char>) -> bool
    decreases a.len(),
{
    if a.len() == 0 {
        true
    } else if b.len() == 0 {
        false
    } else if a[0] < b[0] {
        true
    } else if a[0] > b[0] {
        false
    } else {
        name_le(a.subrange(1, a.len() as int), b.subrange(1, b.len() as int))
    }
}

fn name_le_exec(a: &[char], b: &[char]) -> (res: bool)
    ensures
        res == name_le(a@, b@),
{
    let mut i: usize = 0;
    assert(a@.subrange(0, a@.len() as int) =~= a@);
    assert(b@.subrange(0, b@.len() as int) =~= b@);
    while i < a.len() && i < b.len() && a[i] == b[i]
        invariant
            i <= a@.len(),
            i <= b@.len(),
            name_le(a@, b@) == name_le(
                a@.subrange(i as int, a@.len() as int),
                b@.subrange(i as int, b@.len() as int),
            ),
        decreases a@.len() - i,
    {
        assert(a@.subrange(i as int, a@.len() as int).subrange(1, a@.len() - i) =~= a@.subrange(
            i + 1,
            a@.len() as int,
        ));
        assert(b@.subrange(i as int, b@.len() as int).subrange(1, b@.len() - i) =~= b@.subrange(
            i + 1,
            b@.len() as int,
        ));
        i += 1;
    }
    if i == a.len() {
        true
    } else if i == b.len() {
        false
    } else {
        let x = a[i];
        let y = b[i];
        let ghost sa = a@.subrange(i as int, a@.len() as int);
        let ghost sb = b@.subrange(i as int, b@.len() as int);
        assert(sa[0] == x && sb[0] == y);
        x < y
    }
}

/// The (name, size) view of an entry.
pub open spec fn entry_view(e: ImageEntry) -> (Seq<char>, u64) {
    (e.name@, e.size)
}

/// The views of a sequence of entries.
pub open spec fn entries_view(s: Seq<ImageEntry>) -> Seq<(Seq<char>, u64)> {
    s.map_values(|e: ImageEntry| entry_view(e))
}

/// Where a stable insertion puts `e` into the sorted `sorted`: after every
/// entry whose name is not greater.
pub open spec fn insert_pos(sorted: Seq<(Seq<char>, u64)>, e: (Seq<char>, u64)) -> int
    decreases sorted.len(),
{
    if sorted.len() == 0 {
        0
    } else if name_le(sorted.last().0, e.0) {
        sorted.len() as int
    } else {
        insert_pos(sorted.drop_last(), e)
    }
}

/// The entries sorted by name, stably (`sort_by(|a, b| a.name.cmp(&b.name))`).
pub open spec fn sort_by_name(s: Seq<(Seq<char>, u64)>) -> Seq<(Seq<char>, u64)>
    decreases s.len(),
{
    if s.len() == 0 {
        Seq::empty()
    } else {
        let sorted = sort_by_name(s.drop_last());
        sorted.insert(insert_pos(sorted, s.last()), s.last())
    }
}

proof fn lemma_insert_pos_range(sorted: Seq<(Seq<char>, u64)>, e: (Seq<char>, u64))
    ensures
        0 <= insert_pos(sorted, e) <= sorted.len(),
    decreases sorted.len(),
{
    if sorted.len() > 0 && !name_le(sorted.last().0, e.0) {
        lemma_insert_pos_range(sorted.drop_last(), e);
    }
}

proof fn lemma_sort_len(s: Seq<(Seq<char>, u64)>)
    ensures
        sort_by_name(s).len() == s.len(),
    decreases s.len(),
{
    if s.len() > 0 {
        lemma_sort_len(s.drop_last());
        lemma_insert_pos_range(sort_by_name(s.drop_last()), s.last());
    }
}

/// The entries that are pages, in archive order.
pub open spec fn page_entries(s: Seq<(Seq<char>, u64)>) -> Seq<(Seq<char>, u64)>
    decreases s.len(),
{
    if s.len() == 0 {
        Seq::empty()
    } else {
        let prev = page_entries(s.drop_last());
        let e = s.last();
        if !is_comic_info_name(e.0) && is_image_name(e.0) {
            prev.push(e)
        } else {
            prev
        }
    }
}

/// Some entry is a `ComicInfo.xml`.
pub open spec fn has_comic_info_entry(s: Seq<(Seq<char>, u64)>) -> bool {
    exists|i: int| 0 <= i < s.len() && is_comic_info_name(#[trigger] s[i].0)
}

fn entry_name_le(v: &Vec<ImageEntry>, k: usize, name: &[char]) -> (res: bool)
    requires
        k < v@.len(),
    ensures
        res == name_le(v@[k as int].name@, name@),
{
    let prev = to_chars(v[k].name.as_str());
    name_le_exec(&prev, name)
}

/// Insert `e` into the name-sorted `v`, after every entry whose name is not
/// greater.
fn insert_sorted(v: &mut Vec<ImageEntry>, e: ImageEntry)
    ensures
        entries_view(final(v)@) == entries_view(old(v)@).insert(
            insert_pos(entries_view(old(v)@), entry_view(e)),
            entry_view(e),
        ),
{
    let ghost sv = entries_view(v@);
    let ghost ev = entry_view(e);
    let name = to_chars(e.name.as_str());
    let mut j: usize = v.len();
    assert(sv.subrange(0, j as int) =~= sv);
    while j > 0 && !entry_name_le(v, j - 1, &name)
        invariant
            j <= v@.len(),
            sv == entries_view(v@),
            name@ == ev.0,
            insert_pos(sv, ev) == insert_pos(sv.subrange(0, j as int), ev),
        decreases j,
    {
        assert(sv.subrange(0, j as int).last() == entry_view(v@[j - 1]));
        assert(sv.subrange(0, j as int).drop_last() =~= sv.subrange(0, j - 1));
        j -= 1;
    }
    proof {
        if j > 0 {
            assert(sv.subrange(0, j as int).last() == entry_view(v@[j - 1]));
            assert(insert_pos(sv.subrange(0, j as int), ev) == j);
        }
    }
    v.insert(j, e);
    assert(entries_view(v@) =~= sv.insert(j as int, ev));
}

/// Build the archive summary from its entries in archive order: the image
/// pages sorted by name, and whether a `ComicInfo.xml` is present.
pub fn archive_info_from_entries(format: ArchiveFormat, entries: &[ImageEntry]) -> (res:
    ArchiveInfo)
    ensures
        res.format == format,
        entries_view(res.images@) == sort_by_name(page_entries(entries_view(entries@))),
        res.has_comic_info == has_comic_info_entry(entries_view(entries@)),
{
    let ghost all = entries_view(entries@);
    let mut images: Vec<ImageEntry> = Vec::new();
    let mut has_comic_info = false;
    let mut i: usize = 0;
    assert(all.take(0) =~= Seq::<(Seq<char>, u64)>::empty());
    while i < entries.len()
        invariant
            i <= entries@.len(),
            all == entries_view(entries@),
            entries_view(images@) == sort_by_name(page_entries(all.take(i as int))),
            has_comic_info == has_comic_info_entry(all.take(i as int)),
        decreases entries@.len() - i,
    {
        let e = &entries[i];
        let ghost ev = entry_view(*e);
        let ghost pre = all.take(i as int);
        let ghost next = all.take(i + 1);
        assert(next.drop_last() =~= pre);
        assert(next.last() == ev);
        if is_comic_info(e.name.as_str()) {
            has_comic_info = true;
            assert(has_comic_info_entry(next)) by {
                assert(is_comic_info_name(next[i as int].0));
            }
            assert(page_entries(next) == page_entries(pre));
        } else {
            assert(has_comic_info_entry(next) == has_comic_info_entry(pre)) by {
                if has_comic_info_entry(next) {
                    let k = choose|k: int|
                        0 <= k < next.len() && is_comic_info_name(#[trigger] next[k].0);
                    assert(k < pre.len());
                    assert(pre[k] == next[k]);
                }
                if has_comic_info_entry(pre) {
                    let k = choose|k: int|
                        0 <= k < pre.len() && is_comic_info_name(#[trigger] pre[k].0);
                    assert(pre[k] == next[k]);
                }
            }
            if is_image(e.name.as_str()) {
                let copy = ImageEntry { name: e.name.clone(), size: e.size };
                assert(entry_view(copy) == ev);
                insert_sorted(&mut images, copy);
                assert(page_entries(next) == page_entries(pre).push(ev));
                assert(page_entries(pre).push(ev).drop_last() =~= page_entries(pre));
            }
        }
        i += 1;
    }
    assert(all.take(i as int) =~= all);
    ArchiveInfo { format, images, has_comic_info }
}

// ---------------------------------------------------------------------------
// Injection
// ---------------------------------------------------------------------------

/// How `ComicInfo.xml` goes into a ZIP/CBZ archive.
#[derive(Debug, Clone, Copy, PartialEq, Eq, Structural)]
pub enum InjectMode {
    /// No `ComicInfo.xml` yet: append the entry in place.
    Append,
    /// Replace the old `ComicInfo.xml` by rewriting the archive.
    Rewrite,
}

/// Injection is supported for ZIP/CBZ archives only.
pub fn check_injectable(path: &str) -> (res: Result<ArchiveFormat, ArchiveError>)
    ensures
        res == match format_of_path(path@) {
            None => Err::<ArchiveFormat, ArchiveError>(ArchiveError::UnsupportedExtension),
            Some(ArchiveFormat::SevenZip) => Err(ArchiveError::SevenZipInjection),
            Some(ArchiveFormat::Zip) => Ok(ArchiveFormat::Zip),
        },
{
    match ArchiveFormat::detect(path) {
        None => Err(ArchiveError::UnsupportedExtension),
        Some(ArchiveFormat::SevenZip) => Err(ArchiveError::SevenZipInjection),
        Some(ArchiveFormat::Zip) => Ok(ArchiveFormat::Zip),
    }
}

/// The way to inject into a ZIP archive: append when there is no
/// `ComicInfo.xml`; rewrite when there is one and `force` is set; refuse
/// otherwise.
pub fn zip_inject_mode(has_comic_info: bool, force: bool) -> (res: Result<InjectMode, ArchiveError>)
    ensures
        res == if !has_comic_info {
            Ok::<InjectMode, ArchiveError>(InjectMode::Append)
        } else if force {
            Ok(InjectMode::Rewrite)
        } else {
            Err(ArchiveError::AlreadyHasComicInfo)
        },
{
    if has_comic_info {
        if !force {
            return Err(ArchiveError::AlreadyHasComicInfo);
        }
        Ok(InjectMode::Rewrite)
    } else {
        Ok(InjectMode::Append)
    }
}

/// The name of the temporary file beside an archive named `file_name`.
pub fn tmp_file_name(file_name: &str) -> (res: String)
    ensures
        res@ == "."@ + file_name@ + ".cxgen_tmp"@,
{
    let mut out: Vec<char> = Vec::new();
    push_str(&mut out, ".");
    push_str(&mut out, file_name);
    push_str(&mut out, ".cxgen_tmp");
    string_from_chars(&out)
}

// ---------------------------------------------------------------------------
// Laws
// ---------------------------------------------------------------------------

/// The extension is read without regard to ASCII case.
pub proof fn law_detect_ignores_case(ext: Seq<char>)
    ensures
        format_of_extension(ext) == format_of_extension(lower_seq(ext)),
{
    assert(lower_seq(lower_seq(ext)) =~= lower_seq(ext));
}

proof fn lemma_name_le_total(a: Seq<char>, b: Seq<char>)
    ensures
        name_le(a, b) || name_le(b, a),
    decreases a.len(),
{
    if a.len() > 0 && b.len() > 0 && a[0] == b[0] {
        lemma_name_le_total(a.subrange(1, a.len() as int), b.subrange(1, b.len() as int));
    }
}

proof fn lemma_name_le_trans(a: Seq<char>, b: Seq<char>, c: Seq<char>)
    requires
        name_le(a, b),
        name_le(b, c),
    ensures
        name_le(a, c),
    decreases a.len(),
{
    if a.len() > 0 && b.len() > 0 && c.len() > 0 && a[0] == b[0] && b[0] == c[0] {
        lemma_name_le_trans(
            a.subrange(1, a.len() as int),
            b.subrange(1, b.len() as int),
            c.subrange(1, c.len() as int),
        );
    }
}

/// The entries are in non-decreasing name order.
pub open spec fn sorted_by_name(s: Seq<(Seq<char>, u64)>) -> bool {
    forall|i: int, j: int| 0 <= i < j < s.len() ==> name_le(#[trigger] s[i].0, #[trigger] s[j].0)
}

proof fn lemma_insert_pos_split(sorted: Seq<(Seq<char>, u64)>, e: (Seq<char>, u64))
    requires
        sorted_by_name(sorted),
    ensures
        0 <= insert_pos(sorted, e) <= sorted.len(),
        forall|j: int| 0 <= j < insert_pos(sorted, e) ==> name_le(#[trigger] sorted[j].0, e.0),
        forall|j: int|
            insert_pos(sorted, e) <= j < sorted.len() ==> name_le(e.0, #[trigger] sorted[j].0),
    decreases sorted.len(),
{
    lemma_insert_pos_range(sorted, e);
    if sorted.len() > 0 {
        let last = sorted.last();
        if name_le(last.0, e.0) {
            assert forall|j: int| 0 <= j < sorted.len() implies name_le(
                #[trigger] sorted[j].0,
                e.0,
            ) by {
                if j < sorted.len() - 1 {
                    lemma_name_le_trans(sorted[j].0, last.0, e.0);
                }
            }
        } else {
            let d = sorted.drop_last();
            assert(sorted_by_name(d));
            lemma_insert_pos_split(d, e);
            lemma_name_le_total(last.0, e.0);
            assert forall|j: int|
                insert_pos(sorted, e) <= j < sorted.len() implies name_le(
                e.0,
                #[trigger] sorted[j].0,
            ) by {
                if j < sorted.len() - 1 {
                    assert(sorted[j] == d[j]);
                }
            }
            assert forall|j: int| 0 <= j < insert_pos(sorted, e) implies name_le(
                #[trigger] sorted[j].0,
                e.0,
            ) by {
                assert(sorted[j] == d[j]);
            }
        }
    }
}

proof fn lemma_sort_sorted(s: Seq<(Seq<char>, u64)>)
    ensures
        sorted_by_name(sort_by_name(s)),
    decreases s.len(),
{
    if s.len() > 0 {
        let sorted = sort_by_name(s.drop_last());
        lemma_sort_sorted(s.drop_last());
        let e = s.last();
        let k = insert_pos(sorted, e);
        lemma_insert_pos_split(sorted, e);
        let r = sorted.insert(k, e);
        assert forall|i: int, j: int| 0 <= i < j < r.len() implies name_le(
            #[trigger] r[i].0,
            #[trigger] r[j].0,
        ) by {
            if j < k {
                assert(r[i] == sorted[i] && r[j] == sorted[j]);
            } else if j == k {
                assert(r[i] == sorted[i]);
            } else if i < k {
                assert(r[i] == sorted[i] && r[j] == sorted[j - 1]);
                lemma_name_le_trans(sorted[i].0, e.0, sorted[j - 1].0);
            } else if i == k {
                assert(r[j] == sorted[j - 1]);
            } else {
                assert(r[i] == sorted[i - 1] && r[j] == sorted[j - 1]);
            }
        }
    }
}

proof fn lemma_insert_multiset(s: Seq<(Seq<char>, u64)>, k: int, e: (Seq<char>, u64))
    requires
        0 <= k <= s.len(),
    ensures
        s.insert(k, e).to_multiset() =~= s.to_multiset().insert(e),
{
    broadcast use vstd::seq_lib::group_to_multiset_ensures;
    let t = s.insert(k, e);
    assert(t.remove(k) =~= s);
    assert(t[k] == e);
    assert(t.to_multiset().remove(e) =~= s.to_multiset());
    assert(t.contains(e));
}

proof fn lemma_sort_permutes(s: Seq<(Seq<char>, u64)>)
    ensures
        sort_by_name(s).to_multiset() =~= s.to_multiset(),
    decreases s.len(),
{
    broadcast use vstd::seq_lib::group_to_multiset_ensures;
    if s.len() > 0 {
        let d = s.drop_last();
        lemma_sort_permutes(d);
        let sorted = sort_by_name(d);
        lemma_sort_len(d);
        lemma_insert_pos_range(sorted, s.last());
        lemma_insert_multiset(sorted, insert_pos(sorted, s.last()), s.last());
        assert(d.push(s.last()) =~= s);
    } else {
        assert(sort_by_name(s) =~= s);
    }
}

/// The page list is ordered by name and holds exactly the image entries
/// that are not `ComicInfo.xml`, each as often as in the archive.
pub proof fn law_pages_sorted_permutation(entries: Seq<(Seq<char>, u64)>)
    ensures
        sorted_by_name(sort_by_name(page_entries(entries))),
        sort_by_name(page_entries(entries)).to_multiset() =~= page_entries(entries).to_multiset(),
{
    lemma_sort_sorted(page_entries(entries));
    lemma_sort_permutes(page_entries(entries));
}

proof fn lemma_page_entries_members(s: Seq<(Seq<char>, u64)>)
    ensures
        forall|i: int|
            0 <= i < page_entries(s).len() ==> is_image_name(#[trigger] page_entries(s)[i].0)
                && !is_comic_info_name(page_entries(s)[i].0),
    decreases s.len(),
{
    if s.len() > 0 {
        lemma_page_entries_members(s.drop_last());
        let prev = page_entries(s.drop_last());
        let e = s.last();
        if !is_comic_info_name(e.0) && is_image_name(e.0) {
            assert forall|i: int| 0 <= i < prev.push(e).len() implies is_image_name(
                #[trigger] prev.push(e)[i].0,
            ) && !is_comic_info_name(prev.push(e)[i].0) by {
                if i < prev.len() {
                    assert(prev.push(e)[i] == prev[i]);
                }
            }
        }
    }
}

/// Every page is an image entry and none is a `ComicInfo.xml`.
pub proof fn law_pages_are_images(entries: Seq<(Seq<char>, u64)>)
    ensures
        forall|i: int|
            0 <= i < sort_by_name(page_entries(entries)).len() ==> is_image_name(
                #[trigger] sort_by_name(page_entries(entries))[i].0,
            ) && !is_comic_info_name(sort_by_name(page_entries(entries))[i].0),
{
    broadcast use vstd::seq_lib::group_to_multiset_ensures;
    let p = page_entries(entries);
    let r = sort_by_name(p);
    lemma_page_entries_members(entries);
    lemma_sort_permutes(p);
    assert forall|i: int| 0 <= i < r.len() implies is_image_name(#[trigger] r[i].0)
        && !is_comic_info_name(r[i].0) by {
        assert(r.to_multiset().count(r[i]) > 0);
        assert(p.contains(r[i]));
        let k = choose|k: int| 0 <= k < p.len() && p[k] == r[i];
        assert(p[k] == r[i]);
    }
}

proof fn lemma_after_last_tail(x: Seq<char>, c: char, y: Seq<char>)
    requires
        forall|i: int| 0 <= i < y.len() ==> y[i] != c,
    ensures
        after_last(x.push(c) + y, c) == y,
    decreases y.len(),
{
    if y.len() == 0 {
        assert(x.push(c) + y =~= x.push(c));
    } else {
        lemma_after_last_tail(x, c, y.drop_last());
        assert((x.push(c) + y).drop_last() =~= x.push(c) + y.drop_last());
        assert(y.drop_last().push(y.last()) =~= y);
    }
}

/// A name made of any stem, a dot and one of the extensions jpg, jpeg, png,
/// gif, webp, bmp, tiff, tif or avif (in any ASCII case) is an image page,
/// unless it lies in a `__MACOSX` folder.
pub proof fn law_image_extensions(stem: Seq<char>, ext: Seq<char>)
    requires
        lower_seq(ext) == "jpg"@ || lower_seq(ext) == "jpeg"@ || lower_seq(ext) == "png"@ || lower_seq(ext) == "gif"@ || lower_seq(ext) == "webp"@ || lower_seq(ext) == "bmp"@ || lower_seq(ext) == "tiff"@ || lower_seq(ext) == "tif"@ || lower_seq(ext) == "avif"@,
        !contains_seq(lower_seq(stem + "."@ + ext), "__macosx"@),
    ensures
        is_image_name(stem + "."@ + ext),
{
    reveal_strlit("jpg");
    reveal_strlit("jpeg");
    reveal_strlit("png");
    reveal_strlit("gif");
    reveal_strlit("webp");
    reveal_strlit("bmp");
    reveal_strlit("tiff");
    reveal_strlit("tif");
    reveal_strlit("avif");
    reveal_strlit(".");
    reveal_strlit("/");
    let l = lower_seq(ext);
    assert(lower_seq(stem + "."@ + ext) =~= lower_seq(stem).push('.') + l);
    lemma_after_last_tail(lower_seq(stem), '.', l);
    let lower = lower_seq(stem + "."@ + ext);
    assert(lower.subrange(lower.len() - 1, lower.len() as int)[0] == l.last());
}

/// A name whose text after its last dot is not one of the image extensions
/// (in any ASCII case) is no image page.
pub proof fn law_other_extensions_are_not_images(stem: Seq<char>, ext: Seq<char>)
    requires
        forall|i: int| 0 <= i < ext.len() ==> ext[i] != '.',
        !(lower_seq(ext) == "jpg"@ || lower_seq(ext) == "jpeg"@ || lower_seq(ext) == "png"@ || lower_seq(ext) == "gif"@ || lower_seq(ext) == "webp"@ || lower_seq(ext) == "bmp"@ || lower_seq(ext) == "tiff"@ || lower_seq(ext) == "tif"@ || lower_seq(ext) == "avif"@),
    ensures
        !is_image_name(stem + "."@ + ext),
{
    reveal_strlit(".");
    let l = lower_seq(ext);
    assert(lower_seq(stem + "."@ + ext) =~= lower_seq(stem).push('.') + l);
    assert forall|i: int| 0 <= i < l.len() implies l[i] != '.' by {
        assert(ext[i] != '.');
    }
    lemma_after_last_tail(lower_seq(stem), '.', l);
}

/// Directory entries and anything under a `__MACOSX` folder are never image
/// pages.
pub proof fn law_folders_are_not_images(name: Seq<char>)
    ensures
        !is_image_name(name.push('/')),
        contains_seq(lower_seq(name), "__macosx"@) ==> !is_image_name(name),
{
    reveal_strlit("/");
    let lower = lower_seq(name.push('/'));
    assert(lower.subrange(lower.len() - 1, lower.len() as int) =~= "/"@);
}

/// `ComicInfo.xml` is recognised at any depth and in any ASCII case, and a
/// name that does not end so is not the metadata file.
pub proof fn law_comic_info_names(dir: Seq<char>, name: Seq<char>)
    ensures
        is_comic_info_name(dir + "ComicInfo.xml"@),
        is_comic_info_name(dir + "comicinfo.xml"@),
        is_comic_info_name(dir + "COMICINFO.XML"@),
        name.len() < 13 ==> !is_comic_info_name(name),
{
    reveal_strlit("ComicInfo.xml");
    reveal_strlit("comicinfo.xml");
    reveal_strlit("COMICINFO.XML");
    let a = lower_seq(dir + "ComicInfo.xml"@);
    let b = lower_seq(dir + "comicinfo.xml"@);
    let c = lower_seq(dir + "COMICINFO.XML"@);
    assert(a.subrange(a.len() - 13, a.len() as int) =~= "comicinfo.xml"@);
    assert(b.subrange(b.len() - 13, b.len() as int) =~= "comicinfo.xml"@);
    assert(c.subrange(c.len() - 13, c.len() as int) =~= "comicinfo.xml"@);
}

} // verus!
