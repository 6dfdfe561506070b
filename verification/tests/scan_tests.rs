use compress_tool::model::CompressError;
use compress_tool::scan::{
    do_scan_file, do_scan_folder, scan_walked, walk_failure_is_fatal, PathProbe, WalkedEntry,
};

fn file(path: &str, size: u64) -> WalkedEntry {
    WalkedEntry { path: String::from(path), is_file: true, size: Ok(size) }
}

fn directory(path: &str) -> WalkedEntry {
    WalkedEntry { path: String::from(path), is_file: false, size: Ok(4096) }
}

fn unreadable(path: &str, detail: &str) -> WalkedEntry {
    WalkedEntry { path: String::from(path), is_file: true, size: Err(String::from(detail)) }
}

#[test]
fn scan_keeps_images_and_videos_only() {
    let entries = vec![
        directory("/data/photos"),
        file("/data/photos/a.png", 10000),
        file("/data/photos/b.mp4", 1000000),
        file("/data/photos/c.txt", 500),
    ];
    let files = do_scan_folder("/data/photos", &entries).unwrap();
    assert_eq!(files.len(), 2);
    assert_eq!(files[0].path, "/data/photos/a.png");
    assert_eq!(files[0].name, "a.png");
    assert_eq!(files[0].size, 10000);
    assert_eq!(files[0].file_type, "image");
    assert_eq!(files[0].extension, "png");
    assert_eq!(files[1].path, "/data/photos/b.mp4");
    assert_eq!(files[1].name, "b.mp4");
    assert_eq!(files[1].size, 1000000);
    assert_eq!(files[1].file_type, "video");
    assert_eq!(files[1].extension, "mp4");
}

#[test]
fn scan_lists_each_media_file_once_in_walk_order() {
    let entries = vec![
        file("/r/z.gif", 1),
        file("/r/readme", 2),
        file("/r/sub/IMG.JPG", 3),
        directory("/r/sub.png"),
        file("/r/sub/deep/m.WEBM", 4),
        file("/r/z.gif", 5),
    ];
    let files = do_scan_folder("/r", &entries).unwrap();
    let paths: Vec<&str> = files.iter().map(|f| f.path.as_str()).collect();
    assert_eq!(paths, vec!["/r/z.gif", "/r/sub/IMG.JPG", "/r/sub/deep/m.WEBM", "/r/z.gif"]);
    let names: Vec<&str> = files.iter().map(|f| f.name.as_str()).collect();
    assert_eq!(names, vec!["z.gif", "sub/IMG.JPG", "sub/deep/m.WEBM", "z.gif"]);
    let sizes: Vec<u64> = files.iter().map(|f| f.size).collect();
    assert_eq!(sizes, vec![1, 3, 4, 5]);
    let extensions: Vec<&str> = files.iter().map(|f| f.extension.as_str()).collect();
    assert_eq!(extensions, vec!["gif", "jpg", "webm", "gif"]);
}

#[test]
fn scan_of_nothing_finds_nothing() {
    let files = do_scan_folder("/r", &Vec::new()).unwrap();
    assert!(files.is_empty());
    let files = do_scan_folder("/r", &vec![directory("/r"), file("/r/a.txt", 1)]).unwrap();
    assert!(files.is_empty());
}

#[test]
fn scan_falls_back_to_the_full_path_outside_the_root() {
    let files = do_scan_folder("/r", &vec![file("/elsewhere/a.png", 9)]).unwrap();
    assert_eq!(files[0].name, "/elsewhere/a.png");
    assert_eq!(files[0].path, "/elsewhere/a.png");
}

#[test]
fn scan_fails_on_the_first_media_file_without_a_length() {
    let entries = vec![
        file("/r/a.png", 1),
        unreadable("/r/notes.txt", "ignored"),
        unreadable("/r/b.mp4", "gone"),
        unreadable("/r/c.png", "also gone"),
    ];
    match do_scan_folder("/r", &entries) {
        Err(CompressError::Io(detail)) => assert_eq!(detail, "gone"),
        other => panic!("unexpected {:?}", other),
    }
}

#[test]
fn scan_ignores_lengths_of_other_files() {
    let entries = vec![
        unreadable("/r/notes.txt", "gone"),
        WalkedEntry { path: String::from("/r/dir.png"), is_file: false, size: Err(String::from("x")) },
        file("/r/a.png", 1),
    ];
    let files = do_scan_folder("/r", &entries).unwrap();
    assert_eq!(files.len(), 1);
}

#[test]
fn only_a_failure_at_the_root_ends_a_walk() {
    assert!(walk_failure_is_fatal(0));
    assert!(!walk_failure_is_fatal(1));
    assert!(!walk_failure_is_fatal(7));
}

fn probe(exists: bool, is_file: bool, size: Result<u64, String>) -> PathProbe {
    PathProbe { exists, is_file, size }
}

#[test]
fn single_scan_describes_a_media_file() {
    let info = do_scan_file("/data/Photo.JPG", &probe(true, true, Ok(321))).unwrap();
    assert_eq!(info.path, "/data/Photo.JPG");
    assert_eq!(info.name, "Photo.JPG");
    assert_eq!(info.size, 321);
    assert_eq!(info.file_type, "image");
    assert_eq!(info.extension, "jpg");
    let info = do_scan_file("clip.mov", &probe(true, true, Ok(0))).unwrap();
    assert_eq!(info.file_type, "video");
    assert_eq!(info.name, "clip.mov");
}

#[test]
fn single_scan_reports_a_missing_path() {
    let outcome = do_scan_file("/data/a.png", &probe(false, false, Err(String::from("x"))));
    assert!(matches!(outcome, Err(CompressError::NotFound)));
    let outcome = do_scan_file("/data/a.txt", &probe(false, true, Ok(1)));
    assert!(matches!(outcome, Err(CompressError::NotFound)));
}

#[test]
fn single_scan_reports_a_directory() {
    let outcome = do_scan_file("/data/a.png", &probe(true, false, Ok(4096)));
    assert!(matches!(outcome, Err(CompressError::NotAFile)));
    let outcome = do_scan_file("/data/dir", &probe(true, false, Ok(4096)));
    assert!(matches!(outcome, Err(CompressError::NotAFile)));
}

#[test]
fn single_scan_reports_an_unsupported_type() {
    let outcome = do_scan_file("/data/a.txt", &probe(true, true, Ok(1)));
    assert!(matches!(outcome, Err(CompressError::UnsupportedType)));
    let outcome = do_scan_file("/data/a", &probe(true, true, Err(String::from("x"))));
    assert!(matches!(outcome, Err(CompressError::UnsupportedType)));
}

#[test]
fn single_scan_reports_an_unreadable_length() {
    match do_scan_file("/data/a.png", &probe(true, true, Err(String::from("denied")))) {
        Err(CompressError::Io(detail)) => assert_eq!(detail, "denied"),
        other => panic!("unexpected {:?}", other),
    }
}

#[test]
fn root_that_cannot_be_walked_fails_the_scan() {
    match scan_walked("/gone", &Err(String::from("no such directory"))) {
        Err(CompressError::Io(detail)) => assert_eq!(detail, "no such directory"),
        other => panic!("unexpected {:?}", other),
    }
}

#[test]
fn walked_entries_are_scanned() {
    let walked = Ok(vec![file("/r/a.png", 3), file("/r/b.txt", 4)]);
    let files = scan_walked("/r", &walked).unwrap();
    assert_eq!(files.len(), 1);
    assert_eq!(files[0].name, "a.png");
    let walked = Ok(vec![unreadable("/r/a.png", "gone")]);
    match scan_walked("/r", &walked) {
        Err(CompressError::Io(detail)) => assert_eq!(detail, "gone"),
        other => panic!("unexpected {:?}", other),
    }
    assert!(scan_walked("/r", &Ok(Vec::new())).unwrap().is_empty());
}
