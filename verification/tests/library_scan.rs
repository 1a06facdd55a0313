use arca_music::metadata::{load_metadata, TagInfo};
use arca_music::scanner::{is_mp3_name, scan, FileEntry};

fn file(name: &str) -> FileEntry {
    FileEntry { name: name.to_string(), is_file: true }
}

fn dir(name: &str) -> FileEntry {
    FileEntry { name: name.to_string(), is_file: false }
}

#[test]
fn scan_keeps_only_audio_files_in_order() {
    let entries = vec![
        file("b.mp3"),
        file("notes.txt"),
        dir("folder.mp3"),
        file("a.mp3"),
        file("cover.jpg"),
        file("z.mp3"),
    ];
    let songs = scan(&entries);
    assert_eq!(songs, vec!["b.mp3".to_string(), "a.mp3".to_string(), "z.mp3".to_string()]);
}

#[test]
fn scan_of_empty_listing_is_empty() {
    let entries: Vec<FileEntry> = Vec::new();
    assert!(scan(&entries).is_empty());
}

#[test]
fn scan_excludes_subdirectories_even_with_audio_names() {
    let entries = vec![dir("a.mp3"), dir("b.mp3")];
    assert!(scan(&entries).is_empty());
}

#[test]
fn extension_check_is_case_sensitive() {
    assert!(is_mp3_name("song.mp3"));
    assert!(!is_mp3_name("song.MP3"));
    assert!(!is_mp3_name("song.Mp3"));
}

#[test]
fn extension_check_needs_a_stem() {
    // A name that is nothing but the extension has no extension at all.
    assert!(!is_mp3_name(".mp3"));
    assert!(!is_mp3_name("mp3"));
    assert!(is_mp3_name("a.mp3"));
    assert!(is_mp3_name("archive.tar.mp3"));
    assert!(!is_mp3_name("song.mp3.bak"));
    assert!(!is_mp3_name(""));
}

#[test]
fn metadata_without_tag_falls_back_to_filename() {
    let m = load_metadata(None, "highway.mp3");
    assert_eq!(m.title, "highway.mp3");
    assert_eq!(m.artist, "Unknown Artist");
}

#[test]
fn metadata_with_full_tag_uses_tag_fields() {
    let tag = TagInfo { title: Some("Highway".to_string()), artist: Some("The Band".to_string()) };
    let m = load_metadata(Some(tag), "highway.mp3");
    assert_eq!(m.title, "Highway");
    assert_eq!(m.artist, "The Band");
}

#[test]
fn metadata_with_partial_tag_uses_placeholders() {
    let tag = TagInfo { title: None, artist: Some("The Band".to_string()) };
    let m = load_metadata(Some(tag), "highway.mp3");
    assert_eq!(m.title, "Unknown Title");
    assert_eq!(m.artist, "The Band");

    let tag = TagInfo { title: Some("Highway".to_string()), artist: None };
    let m = load_metadata(Some(tag), "highway.mp3");
    assert_eq!(m.title, "Highway");
    assert_eq!(m.artist, "Unknown Artist");
}
