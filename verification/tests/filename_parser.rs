use komatag::filename_parser::{parse_filename, parse_stem, FilenameMetadata};

fn parse(s: &str) -> FilenameMetadata {
    parse_stem(s)
}

#[test]
fn series_volume_issue_year_publisher() {
    let m = parse("My Series v02 #015 (2022) (Awesome Pub)");
    assert_eq!(m.series.as_deref(), Some("My Series"));
    assert_eq!(m.volume, Some(2));
    assert_eq!(m.number.as_deref(), Some("015"));
    assert_eq!(m.year, Some(2022));
    assert_eq!(m.publisher.as_deref(), Some("Awesome Pub"));
}

#[test]
fn leading_bracket_publisher() {
    let m = parse("[Dark Horse] Hellboy #001 (1994)");
    assert_eq!(m.publisher.as_deref(), Some("Dark Horse"));
    assert_eq!(m.series.as_deref(), Some("Hellboy"));
    assert_eq!(m.number.as_deref(), Some("001"));
    assert_eq!(m.year, Some(1994));
}

#[test]
fn underscore_separated() {
    let m = parse("Comic_Series_Name_042");
    assert_eq!(m.series.as_deref(), Some("Comic Series Name"));
    assert_eq!(m.number.as_deref(), Some("042"));
}

#[test]
fn chapter_notation() {
    let m = parse("Manga Title - Chapter 007 (2021)");
    assert_eq!(m.series.as_deref(), Some("Manga Title"));
    assert_eq!(m.number.as_deref(), Some("007"));
    assert_eq!(m.year, Some(2021));
}

#[test]
fn ch_dot_notation() {
    let m = parse("Some Manga Ch.023");
    assert_eq!(m.series.as_deref(), Some("Some Manga"));
    assert_eq!(m.number.as_deref(), Some("023"));
}

#[test]
fn volume_only() {
    let m = parse("Big Series Volume 3 (2019)");
    assert_eq!(m.series.as_deref(), Some("Big Series"));
    assert_eq!(m.volume, Some(3));
    assert_eq!(m.year, Some(2019));
    assert!(m.number.is_none());
}

#[test]
fn year_only() {
    let m = parse("Stand Alone Comic (2020)");
    assert_eq!(m.series.as_deref(), Some("Stand Alone Comic"));
    assert_eq!(m.year, Some(2020));
    assert!(m.number.is_none());
    assert!(m.volume.is_none());
}

#[test]
fn no_metadata_at_all() {
    let m = parse("Just A Title");
    assert_eq!(m.series.as_deref(), Some("Just A Title"));
    assert!(m.number.is_none());
    assert!(m.year.is_none());
    assert!(m.volume.is_none());
    assert!(m.publisher.is_none());
}

#[test]
fn title_generated_with_number() {
    let m = parse("Amazing Spider-Man #050 (1968)");
    assert_eq!(m.series.as_deref(), Some("Amazing Spider-Man"));
    assert_eq!(m.number.as_deref(), Some("050"));
    assert_eq!(m.year, Some(1968));
    assert_eq!(m.title.as_deref(), Some("Amazing Spider-Man #050"));
}

#[test]
fn path_input() {
    let m = parse_filename("/comics/My_Comic_v01_#003_(2021)_(Publisher).cbz");
    assert_eq!(m.series.as_deref(), Some("My Comic"));
    assert_eq!(m.volume, Some(1));
    assert_eq!(m.number.as_deref(), Some("003"));
    assert_eq!(m.year, Some(2021));
    assert_eq!(m.publisher.as_deref(), Some("Publisher"));
}

#[test]
fn parse_filename_uses_only_the_stem() {
    let m = parse_filename("/a_b/Series_Name_12.cbz");
    assert_eq!(m.series.as_deref(), Some("Series Name"));
    assert_eq!(m.number.as_deref(), Some("12"));
    assert_eq!(m.title.as_deref(), Some("Series Name #12"));
    let empty = parse_filename("/");
    assert!(empty.series.is_none() && empty.title.is_none());
}

#[test]
fn volume_title_and_misc_tokens() {
    let m = parse("Big Series vol.4 (Digital) (2019) (Scan Group)");
    assert_eq!(m.volume, Some(4));
    assert_eq!(m.year, Some(2019));
    assert_eq!(m.publisher.as_deref(), Some("Scan Group"));
    assert_eq!(m.title.as_deref(), Some("Big Series v4"));
    let v = parse("Thing (v2) (HQ)");
    assert_eq!(v.publisher, None);
}

#[test]
fn nested_and_unbalanced_parens() {
    let m = parse("Title (a (b) c) (2001)");
    assert_eq!(m.series.as_deref(), Some("Title"));
    assert_eq!(m.publisher.as_deref(), Some("a (b) c"));
    assert_eq!(m.year, Some(2001));
    let u = parse("Title c) (1700)");
    assert_eq!(u.year, None);
    assert_eq!(u.publisher.as_deref(), Some("1700"));
}

#[test]
fn bracket_edge_cases() {
    let m = parse("[ ] Title");
    assert_eq!(m.publisher, None);
    assert_eq!(m.series.as_deref(), Some("[ ] Title"));
    let n = parse("[Pub");
    assert_eq!(n.series.as_deref(), Some("[Pub"));
}

#[test]
fn issue_number_forms() {
    assert_eq!(parse("Series No.12").number.as_deref(), Some("12"));
    assert_eq!(parse("Series #12.5").number.as_deref(), Some("12.5"));
    assert_eq!(parse("Series - 7 -").series.as_deref(), Some("Series - 7"));
    assert_eq!(parse("12345").number, None);
    assert_eq!(parse("__").series, None);
}

#[test]
fn patterns_ignore_case() {
    let m = parse("Big Series VOLUME 3 (2019)");
    assert_eq!(m.series.as_deref(), Some("Big Series"));
    assert_eq!(m.volume, Some(3));
    let c = parse("Manga Title - CHAPTER 007");
    assert_eq!(c.number.as_deref(), Some("007"));
    assert_eq!(c.series.as_deref(), Some("Manga Title"));
    assert_eq!(parse("Some Manga CH.023").number.as_deref(), Some("023"));
    assert_eq!(parse("Series NO.4").number.as_deref(), Some("4"));
    assert_eq!(parse("Series V02").volume, Some(2));
}
