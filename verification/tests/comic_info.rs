use komatag::comic_info::{
    xml_escape, AgeRating, ComicInfo, Manga, PageInfo, PageType, YesNo,
};

fn esc(s: &str) -> String {
    xml_escape(&s.chars().collect::<Vec<char>>()).into_iter().collect()
}

#[test]
fn xml_escape_works() {
    assert_eq!(esc("A & B < C > D"), "A &amp; B &lt; C &gt; D");
    assert_eq!(esc("it's \"fine\""), "it&apos;s &quot;fine&quot;");
}

#[test]
fn empty_comic_info_serializes() {
    let ci = ComicInfo::default();
    let xml = ci.to_xml();
    assert!(xml.contains("<ComicInfo"));
    assert!(xml.contains("<PageCount>0</PageCount>"));
    assert!(xml.contains("<BlackAndWhite>Unknown</BlackAndWhite>"));
    assert!(xml.contains("<Manga>Unknown</Manga>"));
    assert!(xml.contains("<AgeRating>Unknown</AgeRating>"));
    assert!(xml.contains("</ComicInfo>"));
}

#[test]
fn full_comic_info_round_trips() {
    let mut ci = ComicInfo::default();
    ci.series = Some("My Series".to_string());
    ci.number = Some("1".to_string());
    ci.year = Some(2024);
    ci.page_count = 24;
    ci.manga = Manga::Yes;
    ci.language_iso = Some("ja".to_string());
    ci.pages = vec![
        PageInfo::new(0, PageType::FrontCover),
        PageInfo::new(1, PageType::Story),
    ];

    let xml = ci.to_xml();
    assert!(xml.contains("<Series>My Series</Series>"));
    assert!(xml.contains("<Number>1</Number>"));
    assert!(xml.contains("<Year>2024</Year>"));
    assert!(xml.contains("<PageCount>24</PageCount>"));
    assert!(xml.contains("<Manga>Yes</Manga>"));
    assert!(xml.contains("<LanguageISO>ja</LanguageISO>"));
    assert!(xml.contains("Type=\"FrontCover\""));
    assert!(xml.contains("Type=\"Story\""));
}

#[test]
fn merge_from_fills_blanks() {
    let mut base = ComicInfo::default();
    base.series = Some("Base".to_string());

    let mut other = ComicInfo::default();
    other.series = Some("Other".to_string());
    other.publisher = Some("Pub".to_string());
    other.page_count = 10;

    base.merge_from(other);
    // pre-existing value preserved
    assert_eq!(base.series.as_deref(), Some("Base"));
    // blank filled in
    assert_eq!(base.publisher.as_deref(), Some("Pub"));
    assert_eq!(base.page_count, 10);
}

#[test]
fn enum_spellings_round_trip() {
    for v in [YesNo::Unknown, YesNo::No, YesNo::Yes] {
        assert_eq!(YesNo::from_str(v.as_str()), v);
    }
    for v in [Manga::Unknown, Manga::No, Manga::Yes, Manga::YesAndRightToLeft] {
        assert_eq!(Manga::from_str(v.as_str()), v);
    }
    assert_eq!(YesNo::from_str("true"), YesNo::Yes);
    assert_eq!(YesNo::from_str("false"), YesNo::No);
    assert_eq!(YesNo::from_str("maybe"), YesNo::Unknown);
    assert_eq!(Manga::from_str("yes-rtl"), Manga::YesAndRightToLeft);
    assert_eq!(Manga::from_str("rtl"), Manga::YesAndRightToLeft);
    assert_eq!(Manga::from_str("YES"), Manga::Unknown);
}

#[test]
fn age_rating_and_page_type_spellings() {
    assert_eq!(AgeRating::AdultsOnly18.as_str(), "Adults Only 18+");
    assert_eq!(AgeRating::Ma15Plus.as_str(), "MA15+");
    assert_eq!(AgeRating::Unknown.as_str(), "Unknown");
    assert_eq!(PageType::BackCover.as_str(), "BackCover");
    assert_eq!(PageType::default(), PageType::Story);
}

#[test]
fn page_info_defaults() {
    let p = PageInfo::new(3, PageType::Story);
    assert_eq!(p.image, 3);
    assert!(!p.double_page);
    assert_eq!(p.image_size, 0);
    assert_eq!(p.image_width, -1);
    assert_eq!(p.image_height, -1);
}

#[test]
fn xml_exact_document_for_a_small_comic() {
    let mut ci = ComicInfo::default();
    ci.title = Some("A & B".to_string());
    ci.volume = Some(-2);
    ci.page_count = 2;
    ci.community_rating = Some(450);
    let mut p = PageInfo::new(0, PageType::FrontCover);
    p.double_page = true;
    p.image_size = 1234;
    p.image_width = 800;
    ci.pages = vec![p];
    let xml = ci.to_xml();
    let expected = [
        "<?xml version=\"1.0\" encoding=\"utf-8\"?>\n",
        "<ComicInfo\n  xmlns:xsi=\"http://www.w3.org/2001/XMLSchema-instance\"\n",
        "  xmlns:xsd=\"http://www.w3.org/2001/XMLSchema\"\n>\n",
        "  <Title>A &amp; B</Title>\n",
        "  <Volume>-2</Volume>\n",
        "  <PageCount>2</PageCount>\n",
        "  <BlackAndWhite>Unknown</BlackAndWhite>\n",
        "  <Manga>Unknown</Manga>\n",
        "  <AgeRating>Unknown</AgeRating>\n",
        "  <Pages>\n",
        "    <Page Image=\"0\" Type=\"FrontCover\" DoublePage=\"true\" ImageSize=\"1234\" ImageWidth=\"800\" />\n",
        "  </Pages>\n",
        "  <CommunityRating>4.50</CommunityRating>\n",
        "</ComicInfo>\n",
    ]
    .concat();
    assert_eq!(xml, expected);
}

#[test]
fn rating_hundredths_are_printed_with_two_decimals() {
    let mut ci = ComicInfo::default();
    ci.community_rating = Some(7);
    assert!(ci.to_xml().contains("<CommunityRating>0.07</CommunityRating>"));
    ci.community_rating = Some(500);
    assert!(ci.to_xml().contains("<CommunityRating>5.00</CommunityRating>"));
}

#[test]
fn merge_keeps_present_values_and_enums() {
    let mut base = ComicInfo::default();
    base.manga = Manga::No;
    base.page_count = 3;
    let mut other = ComicInfo::default();
    other.manga = Manga::Yes;
    other.black_and_white = YesNo::Yes;
    other.page_count = 9;
    other.pages = vec![PageInfo::new(0, PageType::FrontCover)];
    base.merge_from(other);
    assert_eq!(base.manga, Manga::No);
    assert_eq!(base.black_and_white, YesNo::Yes);
    assert_eq!(base.page_count, 3);
    assert_eq!(base.pages.len(), 1);
}

#[test]
fn merge_with_blank_changes_nothing() {
    let mut base = ComicInfo::default();
    base.series = Some("S".to_string());
    base.year = Some(2001);
    base.merge_from(ComicInfo::default());
    assert_eq!(base.series.as_deref(), Some("S"));
    assert_eq!(base.year, Some(2001));
    assert_eq!(base.publisher, None);
    assert_eq!(base.to_xml(), {
        let mut b = ComicInfo::default();
        b.series = Some("S".to_string());
        b.year = Some(2001);
        b.to_xml()
    });
}

#[test]
fn escaping_twice_keeps_every_ampersand_an_entity() {
    assert_eq!(esc("&&amp;"), "&amp;&amp;amp;");
    assert_eq!(esc(""), "");
    assert_eq!(esc("plain"), "plain");
}
