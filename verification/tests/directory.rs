use photogeoview::directory::{directory_entry, is_listed, is_supported_extension, sort_entries};
use photogeoview::filetime::modified_time_text;
use photogeoview::models::DirectoryEntry;

fn entry(name: &str, is_directory: bool) -> DirectoryEntry {
    directory_entry(
        name.to_string(),
        format!("/photos/{}", name),
        is_directory,
        String::new(),
        if is_directory { 4096 } else { 10 },
    )
}

fn names(entries: &[DirectoryEntry]) -> Vec<&str> {
    entries.iter().map(|e| e.name.as_str()).collect()
}

#[test]
fn photo_extensions() {
    for ext in ["jpg", "jpeg", "png", "tiff", "tif", "webp"] {
        assert!(is_supported_extension(ext), "{}", ext);
        assert!(is_supported_extension(&ext.to_uppercase()), "{}", ext);
    }
    assert!(is_supported_extension("JpEg"));
    assert!(is_supported_extension("Tif"));
}

#[test]
fn other_extensions() {
    for ext in ["", "gif", "bmp", "jp", "jpgg", "jpg ", ".jpg", "raw", "heic", "txt", "jpe", "web", "pn\u{47}x"] {
        assert!(!is_supported_extension(ext), "{:?}", ext);
    }
}

#[test]
fn extensions_agree_with_full_lowercasing() {
    let supported = ["jpg", "jpeg", "png", "tiff", "tif", "webp"];
    for ext in ["JPG", "tİf", "T\u{130}FF", "\u{212a}", "jp\u{e9}g", "ＪＰＧ", "PNG", "pnG", "WEBP", "ｗebp"] {
        let lower = ext.to_lowercase();
        assert_eq!(is_supported_extension(ext), supported.contains(&lower.as_str()), "{:?}", ext);
    }
}

#[test]
fn folders_and_photos_are_listed() {
    assert!(is_listed(true, None));
    assert!(is_listed(true, Some("txt")));
    assert!(is_listed(false, Some("JPG")));
    assert!(!is_listed(false, Some("txt")));
    assert!(!is_listed(false, None));
}

#[test]
fn folder_entries_have_no_size() {
    let folder = entry("album", true);
    assert_eq!(folder.file_size, 0);
    assert!(folder.is_directory);
    assert_eq!(folder.name, "album");
    assert_eq!(folder.path, "/photos/album");
    assert!(folder.captured_time.is_none());
    let file = entry("a.jpg", false);
    assert_eq!(file.file_size, 10);
    assert!(!file.is_directory);
}

#[test]
fn folders_first_then_names() {
    let entries = vec![
        entry("b.jpg", false),
        entry("zoo", true),
        entry("A.jpg", false),
        entry("album", true),
        entry("c.png", false),
    ];
    let sorted = sort_entries(entries);
    assert_eq!(names(&sorted), ["album", "zoo", "A.jpg", "b.jpg", "c.png"]);
}

#[test]
fn names_differing_in_case_keep_their_order() {
    let sorted = sort_entries(vec![
        entry("B.JPG", false),
        entry("a.jpg", false),
        entry("b.jpg", false),
        entry("A.JPG", false),
        entry("b.JPG", false),
    ]);
    assert_eq!(names(&sorted), ["a.jpg", "A.JPG", "B.JPG", "b.jpg", "b.JPG"]);
}

#[test]
fn sort_of_few_entries() {
    assert!(sort_entries(Vec::new()).is_empty());
    assert_eq!(names(&sort_entries(vec![entry("x", true)])), ["x"]);
    assert_eq!(names(&sort_entries(vec![entry("x", false), entry("x", true)])), ["x", "x"]);
    assert!(sort_entries(vec![entry("x", false), entry("x", true)])[0].is_directory);
}

#[test]
fn sort_agrees_with_the_standard_stable_sort() {
    let pool = [
        "img10.jpg", "IMG2.JPG", "img2.jpg", "", "a", "B", "ab", "Ab", "aB", "ä.png", "Ä.png",
        "z", "Z", "写真.jpg", "img", "IMG", "_x", "0.tif", "é", "É",
    ];
    let mut entries = Vec::new();
    let mut seed: u32 = 12345;
    for i in 0..200 {
        seed = seed.wrapping_mul(1664525).wrapping_add(1013904223);
        let name = pool[(seed >> 16) as usize % pool.len()];
        let mut e = entry(name, (seed >> 8) % 3 == 0);
        e.path = format!("{}", i);
        entries.push(e);
    }
    let mut expected = entries.clone();
    expected.sort_by(|a, b| match (a.is_directory, b.is_directory) {
        (true, false) => std::cmp::Ordering::Less,
        (false, true) => std::cmp::Ordering::Greater,
        _ => a.name.to_lowercase().cmp(&b.name.to_lowercase()),
    });
    let sorted = sort_entries(entries);
    assert_eq!(sorted.len(), expected.len());
    for (got, want) in sorted.iter().zip(expected.iter()) {
        assert_eq!(got.path, want.path);
        assert_eq!(got.name, want.name);
        assert_eq!(got.is_directory, want.is_directory);
    }
}

#[test]
fn modified_time_is_rfc3339_in_universal_time() {
    assert_eq!(modified_time_text(Some(0)), "1970-01-01T00:00:00+00:00");
    assert_eq!(modified_time_text(Some(1431648000)), "2015-05-15T00:00:00+00:00");
    assert_eq!(modified_time_text(Some(1710498030)), "2024-03-15T10:20:30+00:00");
}

#[test]
fn unknown_modified_time_is_empty() {
    assert_eq!(modified_time_text(None), "");
    assert_eq!(modified_time_text(Some(i64::MAX as u64)), "");
    assert_eq!(modified_time_text(Some(1 << 62)), "");
}

#[test]
fn modified_time_wraps_like_a_signed_count() {
    assert_eq!(modified_time_text(Some(u64::MAX)), "1969-12-31T23:59:59+00:00");
}
