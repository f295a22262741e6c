use komatag::archive::{
    archive_info_from_entries, check_injectable, is_comic_info, is_image, require_format,
    tmp_file_name, zip_inject_mode, ArchiveError, ArchiveFormat, ImageEntry, InjectMode,
};

fn e(name: &str, size: u64) -> ImageEntry {
    ImageEntry { name: name.to_owned(), size }
}

#[test]
fn detect_by_extension_ignoring_case() {
    assert_eq!(ArchiveFormat::detect("a/b/comic.cbz"), Some(ArchiveFormat::Zip));
    assert_eq!(ArchiveFormat::detect("comic.ZIP"), Some(ArchiveFormat::Zip));
    assert_eq!(ArchiveFormat::detect("comic.7Z"), Some(ArchiveFormat::SevenZip));
    assert_eq!(ArchiveFormat::detect("comic.rar"), None);
    assert_eq!(ArchiveFormat::detect("comic"), None);
    assert_eq!(ArchiveFormat::detect(".cbz"), None);
    assert_eq!(require_format("x.pdf"), Err(ArchiveError::UnsupportedExtension));
}

#[test]
fn image_and_comic_info_names() {
    assert!(is_image("001.JPG"));
    assert!(is_image("dir/page.webp"));
    assert!(!is_image("dir/"));
    assert!(!is_image("__MACOSX/._001.jpg"));
    assert!(!is_image("notes.txt"));
    // a name without a dot is its own extension
    assert!(is_image("jpg"));
    assert!(is_comic_info("sub/ComicInfo.XML"));
    assert!(!is_comic_info("ComicInfo.xml.bak"));
}

#[test]
fn entries_become_sorted_pages() {
    let entries = vec![
        e("b.png", 2),
        e("ComicInfo.xml", 9),
        e("a.jpg", 1),
        e("readme.txt", 3),
        e("B.png", 4),
        e("a.jpg", 5),
    ];
    let info = archive_info_from_entries(ArchiveFormat::Zip, &entries);
    assert!(info.has_comic_info);
    assert_eq!(info.format, ArchiveFormat::Zip);
    assert_eq!(info.page_count(), 4);
    let names: Vec<(&str, u64)> = info.images.iter().map(|i| (i.name.as_str(), i.size)).collect();
    // byte order, and entries with the same name keep their archive order
    assert_eq!(names, vec![("B.png", 4), ("a.jpg", 1), ("a.jpg", 5), ("b.png", 2)]);
}

#[test]
fn no_comic_info_no_pages() {
    let info = archive_info_from_entries(ArchiveFormat::SevenZip, &vec![e("x.txt", 1)]);
    assert!(!info.has_comic_info);
    assert_eq!(info.page_count(), 0);
}

#[test]
fn injection_rules() {
    assert_eq!(check_injectable("a.cbz"), Ok(ArchiveFormat::Zip));
    assert_eq!(check_injectable("a.7z"), Err(ArchiveError::SevenZipInjection));
    assert_eq!(check_injectable("a.txt"), Err(ArchiveError::UnsupportedExtension));
    assert_eq!(zip_inject_mode(false, false), Ok(InjectMode::Append));
    assert_eq!(zip_inject_mode(false, true), Ok(InjectMode::Append));
    assert_eq!(zip_inject_mode(true, true), Ok(InjectMode::Rewrite));
    assert_eq!(zip_inject_mode(true, false), Err(ArchiveError::AlreadyHasComicInfo));
}

#[test]
fn temp_name() {
    assert_eq!(tmp_file_name("My Comic.cbz"), ".My Comic.cbz.cxgen_tmp");
}
