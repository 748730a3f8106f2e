use yt_dlp_cli::locate::{
    choose_hint, is_candidate, resolve_scan, HintChoice, LocateError, ScanEntry,
};

fn entry(name: &str, is_file: bool, mtime: u64) -> ScanEntry {
    ScanEntry { name: name.as_bytes().to_vec(), is_file, mtime }
}

#[test]
fn existing_hint_is_used_without_scanning() {
    assert_eq!(choose_hint(true, true, true), HintChoice::UseGiven);
    assert_eq!(choose_hint(true, true, false), HintChoice::UseGiven);
}

#[test]
fn missing_hint_falls_back_to_joined_then_scan() {
    assert_eq!(choose_hint(true, false, true), HintChoice::UseJoined);
    assert_eq!(choose_hint(true, false, false), HintChoice::ScanDirectory);
    assert_eq!(choose_hint(false, false, false), HintChoice::ScanDirectory);
}

#[test]
fn newest_allowlisted_file_wins() {
    let entries = vec![entry("a.mp3", true, 100), entry("b.mp4", true, 200)];
    let idx = resolve_scan(&entries).unwrap();
    assert_eq!(idx, 1);
    assert_eq!(entries[idx].name, b"b.mp4".to_vec());
}

#[test]
fn no_allowlisted_extension_is_not_found() {
    let entries = vec![
        entry("notes.txt", true, 500),
        entry("clip.mov", true, 900),
        entry("music.mp3", false, 999),
    ];
    assert_eq!(resolve_scan(&entries), Err(LocateError::NotFound));
}

#[test]
fn empty_directory_is_not_found() {
    let entries: Vec<ScanEntry> = Vec::new();
    assert_eq!(resolve_scan(&entries), Err(LocateError::NotFound));
}

#[test]
fn timestamp_tie_goes_to_last_enumerated() {
    let entries = vec![
        entry("first.mp3", true, 700),
        entry("second.opus", true, 700),
        entry("older.webm", true, 100),
    ];
    assert_eq!(resolve_scan(&entries).unwrap(), 1);
}

#[test]
fn directories_are_never_candidates() {
    let entries = vec![entry("folder.mp4", false, 900), entry("song.m4a", true, 10)];
    assert_eq!(resolve_scan(&entries).unwrap(), 1);
}

#[test]
fn extension_rules_match_allow_list() {
    assert!(is_candidate(&entry("x.mp3", true, 0)));
    assert!(is_candidate(&entry("x.mp4", true, 0)));
    assert!(is_candidate(&entry("x.m4a", true, 0)));
    assert!(is_candidate(&entry("x.webm", true, 0)));
    assert!(is_candidate(&entry("x.opus", true, 0)));
    assert!(is_candidate(&entry("archive.tar.mp3", true, 0)));
    assert!(!is_candidate(&entry("x.mp3", false, 0)));
    assert!(!is_candidate(&entry("x.wav", true, 0)));
    assert!(!is_candidate(&entry("x.mp30", true, 0)));
    assert!(!is_candidate(&entry("mp3", true, 0)));
    assert!(!is_candidate(&entry(".mp3", true, 0)));
    assert!(!is_candidate(&entry("x.mp3.txt", true, 0)));
    assert!(!is_candidate(&entry("", true, 0)));
}
