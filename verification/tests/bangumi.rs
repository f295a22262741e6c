use komatag::bangumi::{
    flatten_infobox_value, lang_name_to_iso, relations_url, search_url, subject_to_comic_info,
    subject_url, InfoboxItem, InfoboxValue, ListItem, SearchHit, Subject,
};
use komatag::comic_info::{ComicInfo, Manga, YesNo};
use komatag::bangumi::apply_infobox;

fn flat(v: &InfoboxValue) -> String {
    flatten_infobox_value(v).into_iter().collect()
}

fn item(v: &str) -> ListItem {
    ListItem { v: Some(v.to_owned()), text: None }
}

/// The community rating on the 0–10 Bangumi scale, halved and rounded to
/// hundredths, as the command-line program computes it.
fn rating_hundredths(score: f64) -> Option<u32> {
    if score > 0.0 {
        let scaled = (score / 2.0).clamp(0.0, 5.0) as f32;
        Some((scaled * 100.0).round() as u32)
    } else {
        None
    }
}

#[test]
fn flatten_string_value() {
    let v = InfoboxValue::Text("Shueisha".to_owned());
    assert_eq!(flat(&v), "Shueisha");
}

#[test]
fn flatten_array_value() {
    let v = InfoboxValue::List(vec![item("Oda Eiichiro"), item("Shueisha")]);
    assert_eq!(flat(&v), "Oda Eiichiro, Shueisha");
}

#[test]
fn flatten_kv_array_value() {
    // {"k": "Original", "v": "Weekly Shonen Jump"}
    let v = InfoboxValue::List(vec![item("Weekly Shonen Jump")]);
    assert_eq!(flat(&v), "Weekly Shonen Jump");
}

#[test]
fn lang_name_mapping() {
    assert_eq!(lang_name_to_iso("日本語"), "ja");
    assert_eq!(lang_name_to_iso("简体中文"), "zh-Hans");
    assert_eq!(lang_name_to_iso("繁體中文"), "zh-Hant");
    assert_eq!(lang_name_to_iso("English"), "en");
    assert_eq!(lang_name_to_iso("Korean"), "ko");
    assert_eq!(lang_name_to_iso("Unknown Lang"), "Unknown Lang");
}

#[test]
fn subject_to_comic_info_basic() {
    let s = Subject {
        id: 12345,
        name: "One Piece".to_owned(),
        name_cn: "海贼王".to_owned(),
        summary: "A pirate adventure.".to_owned(),
        date: Some("1997-07-22".to_owned()),
        volumes: 105,
        rating: rating_hundredths(9.0),
        series: true,
        infobox: vec![
            InfoboxItem {
                key: "出版社".to_owned(),
                value: InfoboxValue::Text("集英社".to_owned()),
            },
            InfoboxItem {
                key: "作者".to_owned(),
                value: InfoboxValue::Text("尾田栄一郎".to_owned()),
            },
        ],
    };

    let ci = subject_to_comic_info(s);
    assert_eq!(ci.series.as_deref(), Some("海贼王"));
    assert_eq!(ci.year, Some(1997));
    assert_eq!(ci.month, Some(7));
    assert_eq!(ci.day, Some(22));
    assert_eq!(ci.count, Some(105));
    assert_eq!(ci.publisher.as_deref(), Some("集英社"));
    assert_eq!(ci.writer.as_deref(), Some("尾田栄一郎"));
    // 9.0 / 2 = 4.50
    assert_eq!(ci.community_rating.map(|h| h as f32 / 100.0), Some(4.5));
    assert_eq!(ci.web.as_deref(), Some("https://bgm.tv/subject/12345"));
}

#[test]
fn flatten_skips_blank_items_and_uses_bare_strings() {
    let v = InfoboxValue::List(vec![
        item("  "),
        ListItem { v: None, text: Some(" Plain ".to_owned()) },
        ListItem { v: None, text: None },
        item(" B "),
    ]);
    assert_eq!(flat(&v), "Plain, B");
    assert_eq!(flat(&InfoboxValue::Number("42".to_owned())), "42");
    assert_eq!(flat(&InfoboxValue::Other), "");
    assert_eq!(flat(&InfoboxValue::Text("  padded\t".to_owned())), "padded");
}

#[test]
fn lang_name_plain_chinese_and_lowercase() {
    assert_eq!(lang_name_to_iso("中文"), "zh");
    assert_eq!(lang_name_to_iso("JAPANESE"), "ja");
    assert_eq!(lang_name_to_iso("Simplified Chinese"), "zh-Hans");
    assert_eq!(lang_name_to_iso("朝鲜语"), "ko");
}

fn entry(key: &str, v: &str) -> InfoboxItem {
    InfoboxItem { key: key.to_owned(), value: InfoboxValue::Text(v.to_owned()) }
}

#[test]
fn infobox_first_value_wins_and_isbn_accumulates() {
    let mut ci = ComicInfo::default();
    let infobox = vec![
        entry("出版社", "First"),
        entry("发行", "Second"),
        entry("卷号", " 7 "),
        entry("语言", "日本語"),
        entry("是否彩色", "黑白"),
        entry("国家/地区", "日本"),
        entry("ISBN", "111"),
        entry("ISBN-13", "222"),
        entry("作者", ""),
        entry("作者", "Writer"),
        entry("年龄分级", "R18"),
        entry("未知", "ignored"),
    ];
    apply_infobox(&mut ci, &infobox);
    assert_eq!(ci.publisher.as_deref(), Some("First"));
    assert_eq!(ci.volume, Some(7));
    assert_eq!(ci.language_iso.as_deref(), Some("ja"));
    assert_eq!(ci.black_and_white, YesNo::Yes);
    assert_eq!(ci.manga, Manga::Yes);
    assert_eq!(ci.notes.as_deref(), Some("ISBN: 111\nISBN: 222"));
    assert_eq!(ci.writer.as_deref(), Some("Writer"));
}

#[test]
fn colour_entry_means_not_black_and_white() {
    let mut ci = ComicInfo::default();
    apply_infobox(&mut ci, &vec![entry("色彩", "Full COLOR")]);
    assert_eq!(ci.black_and_white, YesNo::No);
}

#[test]
fn subject_without_chinese_name_or_series() {
    let s = Subject {
        id: 7,
        name: "Name".to_owned(),
        name_cn: String::new(),
        summary: String::new(),
        date: Some("2001-13".to_owned()),
        volumes: 0,
        rating: rating_hundredths(0.0),
        series: false,
        infobox: vec![],
    };
    let ci = subject_to_comic_info(s);
    assert_eq!(ci.title.as_deref(), Some("Name"));
    assert_eq!(ci.series, None);
    assert_eq!(ci.summary, None);
    assert_eq!(ci.year, Some(2001));
    assert_eq!(ci.month, Some(13));
    assert_eq!(ci.day, None);
    assert_eq!(ci.count, None);
    assert_eq!(ci.community_rating, None);
    assert_eq!(ci.web.as_deref(), Some("https://bgm.tv/subject/7"));
}

#[test]
fn urls() {
    assert_eq!(subject_url(950), "https://api.bgm.tv/v0/subjects/950");
    assert_eq!(relations_url(8491), "https://api.bgm.tv/v0/subjects/8491/subjects");
    assert_eq!(search_url(10), "https://api.bgm.tv/v0/search/subjects?limit=10");
    assert_eq!(search_url(100), "https://api.bgm.tv/v0/search/subjects?limit=25");
}

#[test]
fn search_hit_line() {
    let hit = SearchHit {
        id: 8491,
        name: "進撃の巨人".to_owned(),
        name_cn: "进击的巨人".to_owned(),
        date: Some("2010-03-17".to_owned()),
        subject_type: 1,
        series: true,
        platform: "漫画".to_owned(),
    };
    assert_eq!(hit.display_text(), "[8491] 進撃の巨人 / 进击的巨人 (2010-03-17) [系列, 漫画]");
    let bare = SearchHit {
        id: 1,
        name: "X".to_owned(),
        name_cn: String::new(),
        date: None,
        subject_type: 1,
        series: false,
        platform: String::new(),
    };
    assert_eq!(bare.display_text(), "[1] X");
}

#[test]
fn empty_entries_are_skipped_and_notes_grow() {
    let mut ci = ComicInfo::default();
    ci.notes = Some("old".to_owned());
    let infobox = vec![
        entry("出版社", "  "),
        entry("出版社", "Real"),
        entry("ISBN", ""),
        entry("ISBN", "42"),
    ];
    apply_infobox(&mut ci, &infobox);
    assert_eq!(ci.publisher.as_deref(), Some("Real"));
    assert_eq!(ci.notes.as_deref(), Some("old\nISBN: 42"));
}
