use melody::{
    check_library_dirs, check_library_paths, decimal_string, find_duplicates, fmt_duration,
    get_filetype, ignored_file, organize_destination, supported_song, MelodyErrorsKind, PathKind,
    Playlist, ScanResult, Song, TagFields,
};

fn song(artist: &str, title: &str, genre: &str, duration: u64, file: &str) -> Song {
    Song {
        artist: Some(artist.to_string()),
        album: Some("Album".to_string()),
        title: Some(title.to_string()),
        track: None,
        genre: Some(genre.to_string()),
        duration,
        file: file.to_string(),
        elapsed: 0,
    }
}

fn files(v: &[Song]) -> Vec<String> {
    v.iter().map(|s| s.file.clone()).collect()
}

#[test]
fn supported_extensions_in_any_case() {
    for ext in ["flac", "wav", "vorbis", "mp3", "ogg", "FLAC", "Wav", "VORBIS", "Mp3", "oGG"] {
        let path = format!("/music/song.{}", ext);
        assert!(supported_song(&path, true), "{}", path);
    }
}

#[test]
fn unsupported_extensions_and_directories() {
    assert!(!supported_song("/music/cover.jpg", true));
    assert!(!supported_song("/music/notes.txt", true));
    assert!(!supported_song("/music/noextension", true));
    assert!(!supported_song("/music/.mp3", true));
    assert!(!supported_song("/music/song.mp3.bak", true));
    assert!(!supported_song("/music/album.mp3", false));
    assert!(!supported_song("/music/album", false));
}

#[test]
fn filetype_is_lowercase_extension() {
    assert_eq!(get_filetype("/a/B.Mp3"), Some("mp3".to_string()));
    assert_eq!(get_filetype("/a/archive.tar.GZ"), Some("gz".to_string()));
    assert_eq!(get_filetype("/a/noext"), None);
    assert_eq!(get_filetype("/a/.hidden"), None);
}

#[test]
fn ignored_file_filter() {
    assert!(ignored_file("/music/a.mp3"));
    assert!(ignored_file("/music/.hidden.mp3"));
    assert!(!ignored_file("/music/.#a.mp3"));
    assert!(!ignored_file("/music/.#lockdir"));
    assert!(!ignored_file("/"));
    assert!(!ignored_file("/music/.."));
}

#[test]
fn duration_formatting() {
    assert_eq!(fmt_duration(3_725_000), "1h 2m 5s");
    assert_eq!(fmt_duration(0), "");
    assert_eq!(fmt_duration(999), "");
    assert_eq!(fmt_duration(59_999), "59s");
    assert_eq!(fmt_duration(61_000), "1m 1s");
    assert_eq!(fmt_duration(3_600_000), "1h");
    assert_eq!(fmt_duration(3_605_000), "1h 5s");
    assert_eq!(fmt_duration(90_000_000), "25h");
}

#[test]
fn decimal_notation() {
    assert_eq!(decimal_string(0), "0");
    assert_eq!(decimal_string(7), "7");
    assert_eq!(decimal_string(1_234_567_890), "1234567890");
    assert_eq!(decimal_string(u64::MAX), u64::MAX.to_string());
}

#[test]
fn song_getters() {
    let mut s = song("Artist", "Title", "Rock", 1000, "/m/a.mp3");
    s.album = None;
    s.elapsed = 40;
    assert_eq!(s.artist(), Some("Artist"));
    assert_eq!(s.album(), None);
    assert_eq!(s.title(), Some("Title"));
    assert_eq!(s.track(), None);
    assert_eq!(s.genre(), Some("Rock"));
    assert_eq!(s.duration(), 1000);
    assert_eq!(s.elapsed(), 40);
    assert_eq!(s.file(), "/m/a.mp3");
}

#[test]
fn matching_song_genre_toggle() {
    let a = song("A", "T", "Rock", 1000, "/m/a.mp3");
    let b = song("A", "T", "Jazz", 1000, "/m/b.mp3");
    assert!(a.matching_song(&b, false));
    assert!(!a.matching_song(&b, true));
    assert!(a.matching_song(&a, true));
}

#[test]
fn matching_song_needs_equal_duration() {
    let a = song("A", "T", "Rock", 1000, "/m/a.mp3");
    let b = song("A", "T", "Rock", 2000, "/m/b.mp3");
    assert!(!a.matching_song(&b, false));
    let c = song("B", "T", "Rock", 1000, "/m/c.mp3");
    assert!(!a.matching_song(&c, false));
}

#[test]
fn exact_match_compares_paths() {
    let a = song("A", "T", "Rock", 1000, "/m/a.mp3");
    let b = song("A", "T", "Rock", 1000, "/m/b.mp3");
    let a2 = song("A", "T", "Rock", 1000, "/m//a.mp3");
    assert!(!a.exact_match(&b, false));
    assert!(a.exact_match(&b, true));
    assert!(a.exact_match(&a2, false));
    let c = song("A", "T", "Jazz", 1000, "/m/a.mp3");
    assert!(!a.exact_match(&c, true));
}

#[test]
fn song_equality_and_clone() {
    let a = song("A", "T", "Rock", 1000, "/m/a.mp3");
    let b = a.clone();
    assert!(a == b);
    let mut c = a.clone();
    c.elapsed = 5;
    assert!(a != c);
}

#[test]
fn song_from_primary_tags() {
    let primary = TagFields {
        artist: Some("P".to_string()),
        album: None,
        title: Some("Title".to_string()),
        genre: Some("Pop".to_string()),
    };
    let first = TagFields { artist: Some("F".to_string()), album: None, title: None, genre: None };
    let s = Song::from_tags("/m/x.flac".to_string(), Some(primary), Some(first), 5000).unwrap();
    assert_eq!(s.artist(), Some("P"));
    assert_eq!(s.title(), Some("Title"));
    assert_eq!(s.album(), None);
    assert_eq!(s.genre(), Some("Pop"));
    assert_eq!(s.track(), None);
    assert_eq!(s.duration(), 5000);
    assert_eq!(s.elapsed(), 0);
    assert_eq!(s.file(), "/m/x.flac");
}

#[test]
fn song_from_first_tags() {
    let first = TagFields { artist: Some("F".to_string()), album: None, title: None, genre: None };
    let s = Song::from_tags("/m/x.ogg".to_string(), None, Some(first), 10).unwrap();
    assert_eq!(s.artist(), Some("F"));
    assert_eq!(s.track(), None);
}

#[test]
fn song_without_tags_fails() {
    let e = Song::from_tags("/m/x.wav".to_string(), None, None, 10).unwrap_err();
    assert!(matches!(e.kind(), MelodyErrorsKind::FailedToReadTag));
    assert_eq!(e.file(), Some("/m/x.wav".to_string()));
}

#[test]
fn song_display_line() {
    let mut s = song("Artist", "Title", "Rock", 125_000, "/m/a.mp3");
    assert_eq!(s.display(), "Artist - Album - Title (2m 5s)");
    s.artist = None;
    s.album = None;
    s.title = None;
    assert_eq!(s.display(), "Unknown Artist - Unknown Album - Unknown Title (2m 5s)");
}

#[test]
fn scan_of_missing_path_is_none() {
    assert!(Playlist::from_scan(ScanResult::Missing).is_none());
    assert!(Playlist::from_scan(ScanResult::File(None)).is_none());
}

#[test]
fn scan_of_empty_directory_is_empty_playlist() {
    let pl = Playlist::from_scan(ScanResult::Directory(Vec::new())).unwrap();
    assert!(pl.is_empty());
}

#[test]
fn scan_of_single_file() {
    let s = song("A", "T", "Rock", 1000, "/m/a.mp3");
    let pl = Playlist::from_scan(ScanResult::File(Some(s.clone()))).unwrap();
    assert!(!pl.is_empty());
    assert_eq!(pl.tracks, vec![s]);
}

#[test]
fn dedup_keeps_first_seen_order() {
    let a = song("A", "T", "Rock", 1000, "/m/a.mp3");
    let b = song("B", "T", "Rock", 1000, "/m/b.mp3");
    let c = song("C", "T", "Rock", 1000, "/m/c.mp3");
    let input = vec![a.clone(), b.clone(), a.clone(), c.clone(), b.clone()];
    let pl = Playlist::from_scan(ScanResult::Directory(input)).unwrap();
    assert_eq!(files(&pl.tracks), vec!["/m/a.mp3", "/m/b.mp3", "/m/c.mp3"]);
}

#[test]
fn dedup_keeps_tag_twins_with_other_paths() {
    let a = song("A", "T", "Rock", 1000, "/m/a.mp3");
    let b = song("A", "T", "Rock", 1000, "/m/b.mp3");
    let pl = Playlist::from_tracks(vec![a, b]);
    assert_eq!(pl.tracks.len(), 2);
}

#[test]
fn dedup_twice_is_dedup_once() {
    let a = song("A", "T", "Rock", 1000, "/m/a.mp3");
    let b = song("B", "T", "Rock", 1000, "/m/b.mp3");
    let once = Playlist::from_tracks(vec![b.clone(), a.clone(), b.clone(), b.clone(), a]);
    let twice = Playlist::from_tracks(once.tracks.clone());
    assert_eq!(once.tracks, twice.tracks);
    assert_eq!(files(&once.tracks), vec!["/m/b.mp3", "/m/a.mp3"]);
}

#[test]
fn playlist_from_vec_keeps_everything() {
    let a = song("A", "T", "Rock", 1000, "/m/a.mp3");
    let pl = Playlist::from(vec![a.clone(), a]);
    assert_eq!(pl.tracks.len(), 2);
    assert!(!pl.is_empty());
}

#[test]
fn playlist_render_aligns_columns() {
    let pl = Playlist::from(vec![song("Somebody", "Long Title Here", "Rock", 61_000, "/m/a.mp3")]);
    let out = pl.render();
    assert!(!out.contains('\t'));
    let lines: Vec<&str> = out.lines().collect();
    assert_eq!(lines.len(), 2);
    assert!(lines[0].contains("Artist"));
    assert!(lines[1].contains("Somebody"));
    assert!(lines[1].contains("1m 1s"));
    assert_eq!(lines[0].find("Album"), lines[1].find("Album"));
}

#[test]
fn duplicates_of_three_files() {
    let a = song("A", "T", "Rock", 1000, "/m/one.mp3");
    let b = song("A", "T", "Jazz", 1000, "/m/two.mp3");
    let c = song("C", "Other", "Rock", 1000, "/m/three.mp3");
    let pl = Playlist::from(vec![a, c, b]);
    assert_eq!(find_duplicates(&pl), vec!["/m/one.mp3", "/m/two.mp3"]);
}

#[test]
fn duplicates_none_and_empty() {
    let a = song("A", "T", "Rock", 1000, "/m/one.mp3");
    let b = song("A", "T", "Rock", 2000, "/m/two.mp3");
    assert!(find_duplicates(&Playlist::from(vec![a, b])).is_empty());
    assert!(find_duplicates(&Playlist::from(Vec::new())).is_empty());
}

#[test]
fn duplicates_every_copy_listed() {
    let a = song("A", "T", "Rock", 1000, "/m/1.mp3");
    let b = song("B", "T", "Rock", 1000, "/m/2.mp3");
    let a2 = song("A", "T", "Rock", 1000, "/m/3.mp3");
    let b2 = song("B", "T", "Rock", 1000, "/m/4.mp3");
    let a3 = song("A", "T", "Rock", 1000, "/m/5.mp3");
    let pl = Playlist::from(vec![a, b, a2, b2, a3]);
    let all = vec!["/m/1.mp3", "/m/2.mp3", "/m/3.mp3", "/m/4.mp3", "/m/5.mp3"];
    assert_eq!(find_duplicates(&pl), all);
}

#[test]
fn library_child_of_parent_is_refused() {
    let e = check_library_paths("/music/new", "/music").unwrap_err();
    assert!(matches!(e.kind(), MelodyErrorsKind::ChildOfParentRecursion));
    let e = check_library_paths("/music/new", "/music/").unwrap_err();
    assert!(matches!(e.kind(), MelodyErrorsKind::ChildOfParentRecursion));
}

#[test]
fn library_paths_must_be_absolute() {
    let e = check_library_paths("music/new", "/library").unwrap_err();
    assert!(matches!(e.kind(), MelodyErrorsKind::NotAbsolutePath));
    let e = check_library_paths("/music/new", "library").unwrap_err();
    assert!(matches!(e.kind(), MelodyErrorsKind::NotAbsolutePath));
}

#[test]
fn library_root_has_no_parent() {
    let e = check_library_paths("/", "/library").unwrap_err();
    assert!(matches!(e.kind(), MelodyErrorsKind::FailedToFindParent));
}

#[test]
fn library_paths_accepted() {
    assert!(check_library_paths("/downloads/new", "/music").is_ok());
    assert!(check_library_paths("/music/a/b", "/music").is_ok());
}

#[test]
fn library_dirs_checked() {
    let e = check_library_dirs(PathKind::Missing, PathKind::Directory).unwrap_err();
    assert!(matches!(e.kind(), MelodyErrorsKind::Io(std::io::ErrorKind::NotFound)));
    let e = check_library_dirs(PathKind::Directory, PathKind::Missing).unwrap_err();
    assert!(matches!(e.kind(), MelodyErrorsKind::Io(std::io::ErrorKind::NotFound)));
    let e = check_library_dirs(PathKind::NotADirectory, PathKind::Directory).unwrap_err();
    assert!(matches!(e.kind(), MelodyErrorsKind::PathIsNotADir));
    let e = check_library_dirs(PathKind::Directory, PathKind::NotADirectory).unwrap_err();
    assert!(matches!(e.kind(), MelodyErrorsKind::PathIsNotADir));
    assert!(check_library_dirs(PathKind::Directory, PathKind::Directory).is_ok());
}

#[test]
fn organize_destination_layout() {
    let s = song("Artist", "Title", "Rock", 1000, "/in/track.mp3");
    let (dir, target) = organize_destination(&s, "/lib", false).unwrap();
    assert_eq!(dir, "/lib/Artist/Album");
    assert_eq!(target, "/lib/Artist/Album/track.mp3");
}

#[test]
fn organize_destination_unknown_tags() {
    let mut s = song("Artist", "Title", "Rock", 1000, "/in/track.mp3");
    s.artist = None;
    s.album = None;
    let (dir, target) = organize_destination(&s, "/lib", false).unwrap();
    assert_eq!(dir, "/lib/Unknown Artist/Unknown Album");
    assert_eq!(target, "/lib/Unknown Artist/Unknown Album/track.mp3");
}

#[test]
fn organize_destination_refuses_directory() {
    let s = song("Artist", "Title", "Rock", 1000, "/in/folder");
    let e = organize_destination(&s, "/lib", true).unwrap_err();
    assert!(matches!(e.kind(), MelodyErrorsKind::PathIsNotAFile));
    let t = song("Artist", "Title", "Rock", 1000, "/");
    let e = organize_destination(&t, "/lib", false).unwrap_err();
    assert!(matches!(e.kind(), MelodyErrorsKind::PathIsNotAFile));
}
