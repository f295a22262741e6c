use komatag::archive::{ArchiveFormat, ImageEntry};
use komatag::bangumi::{RelatedSubject, SearchHit};
use komatag::comic_info::{AgeRating, ComicInfo, Manga, PageType, YesNo};
use komatag::filename_parser::parse_stem;
use komatag::metadata::{
    after_relations, after_search, assemble, check_directory_output, check_existing_comic_info,
    choose_search_hit, find_volume_relation, output_mode, page_list, stamp_notes, subject_lookup,
    GenError, OutputMode, OverrideArgs, SearchOutcome, SubjectLookup,
};

fn no_overrides() -> OverrideArgs {
    OverrideArgs {
        series: None,
        number: None,
        volume: None,
        title: None,
        year: None,
        month: None,
        publisher: None,
        language: "en".to_owned(),
        manga: Manga::Unknown,
        black_and_white: YesNo::Unknown,
        age_rating: AgeRating::Unknown,
        summary: None,
        writer: None,
        penciller: None,
        translator: None,
        genre: None,
    }
}

fn img(name: &str, size: u64) -> ImageEntry {
    ImageEntry { name: name.to_owned(), size }
}

#[test]
fn page_roles() {
    let pages = page_list(&[img("1.jpg", 10), img("2.jpg", 20), img("3.jpg", 30)]);
    assert_eq!(pages.len(), 3);
    assert_eq!(pages[0].page_type, PageType::FrontCover);
    assert_eq!(pages[1].page_type, PageType::Story);
    assert_eq!(pages[2].page_type, PageType::BackCover);
    assert_eq!(pages[2].image, 2);
    assert_eq!(pages[1].image_size, 20);
    let single = page_list(&[img("1.jpg", 1)]);
    assert_eq!(single[0].page_type, PageType::FrontCover);
}

#[test]
fn filename_only() {
    let meta = parse_stem("My Series v02 #015 (2022) (Awesome Pub)");
    let ci = assemble(meta, None, &no_overrides(), &[img("a.jpg", 5)], "1.2.3", "x.cbz");
    assert_eq!(ci.series.as_deref(), Some("My Series"));
    assert_eq!(ci.volume, Some(2));
    assert_eq!(ci.publisher.as_deref(), Some("Awesome Pub"));
    assert_eq!(ci.language_iso.as_deref(), Some("en"));
    assert_eq!(ci.page_count, 1);
    assert_eq!(ci.notes.as_deref(), Some("Generated by cxgen v1.2.3 from 'x.cbz'"));
}

#[test]
fn overrides_beat_bangumi_beat_filename() {
    let meta = parse_stem("File Series #001 (1999) (File Pub)");
    let mut b = ComicInfo::default();
    b.series = Some("Bangumi Series".to_owned());
    b.year = Some(2005);
    b.notes = Some("ISBN: 1".to_owned());
    b.language_iso = Some("ja".to_owned());
    b.manga = Manga::Yes;
    let mut o = no_overrides();
    o.year = Some(2010);
    o.black_and_white = YesNo::Yes;
    let ci = assemble(meta, Some(b), &o, &[], "0.1.0", "f.cbz");
    assert_eq!(ci.series.as_deref(), Some("Bangumi Series"));
    assert_eq!(ci.year, Some(2010));
    assert_eq!(ci.publisher.as_deref(), Some("File Pub"));
    assert_eq!(ci.number.as_deref(), Some("001"));
    assert_eq!(ci.language_iso.as_deref(), Some("ja"));
    assert_eq!(ci.manga, Manga::Yes);
    assert_eq!(ci.black_and_white, YesNo::Yes);
    assert_eq!(ci.page_count, 0);
    assert!(ci.pages.is_empty());
    assert_eq!(ci.notes.as_deref(), Some("ISBN: 1\nGenerated by cxgen v0.1.0 from 'f.cbz'"));
}

#[test]
fn explicit_language_wins() {
    let mut b = ComicInfo::default();
    b.language_iso = Some("ja".to_owned());
    let mut o = no_overrides();
    o.language = "zh-Hans".to_owned();
    let mut ci = b;
    o.apply(&mut ci);
    assert_eq!(ci.language_iso.as_deref(), Some("zh-Hans"));
}

#[test]
fn notes_stamp() {
    assert_eq!(stamp_notes(None, "1", "a.cbz"), "Generated by cxgen v1 from 'a.cbz'");
    assert_eq!(
        stamp_notes(Some("x".to_owned()), "1", "a.cbz"),
        "x\nGenerated by cxgen v1 from 'a.cbz'"
    );
}

fn hit(id: u64, series: bool) -> SearchHit {
    SearchHit {
        id,
        name: String::new(),
        name_cn: String::new(),
        date: None,
        subject_type: 1,
        series,
        platform: String::new(),
    }
}

#[test]
fn search_hit_choice_prefers_series_head() {
    assert_eq!(choose_search_hit(&vec![hit(1, false), hit(2, true), hit(3, true)]), Some(1));
    assert_eq!(choose_search_hit(&vec![hit(1, false), hit(2, false)]), Some(0));
    assert_eq!(choose_search_hit(&vec![]), None);
}

fn rel(id: u64, name: &str, relation: &str) -> RelatedSubject {
    RelatedSubject {
        id,
        subject_type: 1,
        name: name.to_owned(),
        name_cn: String::new(),
        relation: relation.to_owned(),
    }
}

#[test]
fn volume_relation_matching() {
    let rels = vec![
        rel(10, "進撃の巨人 (1)", "续集"),
        rel(11, "進撃の巨人 (2)", "单行本"),
        rel(12, "進撃の巨人 (03)", "单行本"),
        rel(13, "Vol 4 edition", "单行本"),
    ];
    assert_eq!(find_volume_relation(&rels, 1), None);
    assert_eq!(find_volume_relation(&rels, 2), Some(11));
    assert_eq!(find_volume_relation(&rels, 3), Some(12));
    assert_eq!(find_volume_relation(&rels, 4), Some(13));
    assert_eq!(find_volume_relation(&rels, 5), None);
}

#[test]
fn run_decisions() {
    assert_eq!(check_directory_output(true), Err(GenError::OutputWithDirectory));
    assert_eq!(check_directory_output(false), Ok(()));
    assert_eq!(check_existing_comic_info(true, false), Err(GenError::AlreadyHasComicInfo));
    assert_eq!(check_existing_comic_info(true, true), Ok(()));
    assert_eq!(output_mode(ArchiveFormat::SevenZip, true, false), Err(GenError::SevenZipInjection));
    assert_eq!(output_mode(ArchiveFormat::Zip, true, true), Ok(OutputMode::Inject));
    assert_eq!(output_mode(ArchiveFormat::SevenZip, false, true), Ok(OutputMode::File));
    assert_eq!(output_mode(ArchiveFormat::Zip, false, false), Ok(OutputMode::Stdout));
}

#[test]
fn subject_lookup_order() {
    let series = Some("Hellboy".to_owned());
    assert!(matches!(subject_lookup(Some(7), true, true, &series), SubjectLookup::Fetch(7)));
    assert!(matches!(subject_lookup(Some(7), false, false, &None), SubjectLookup::Fetch(7)));
    match subject_lookup(None, true, true, &series) {
        SubjectLookup::Search(q) => assert_eq!(q, "Hellboy"),
        other => panic!("unexpected {:?}", other),
    }
    assert!(matches!(subject_lookup(None, true, true, &None), SubjectLookup::NoSeries));
    assert!(matches!(subject_lookup(None, true, false, &series), SubjectLookup::Skip));
    assert!(matches!(subject_lookup(None, false, true, &series), SubjectLookup::Skip));
}

#[test]
fn search_then_volume_relations() {
    let hits = vec![hit(1, false), hit(2, true)];
    assert_eq!(after_search(&hits, None), SearchOutcome::Hit(1));
    assert_eq!(after_search(&hits, Some(3)), SearchOutcome::CheckVolume(1, 3));
    assert_eq!(after_search(&vec![], Some(3)), SearchOutcome::NoHit);
    let rels = vec![rel(10, "X (1)", "续集"), rel(11, "X (2)", "单行本")];
    assert_eq!(after_relations(2, Some(&rels), 2), 11);
    assert_eq!(after_relations(2, Some(&rels), 1), 2);
    assert_eq!(after_relations(2, None, 2), 2);
}
