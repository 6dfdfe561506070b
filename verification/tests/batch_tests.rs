use compress_tool::batch::{BatchAction, BatchEvent, BatchJob, BatchStage};
use compress_tool::model::{CompressError, CompressResult, ProgressPayload};
use compress_tool::scan::WalkedEntry;

fn file(path: &str, size: u64) -> WalkedEntry {
    WalkedEntry { path: String::from(path), is_file: true, size: Ok(size) }
}

fn feed(job: &mut BatchJob, event: BatchEvent) -> Option<BatchAction> {
    assert!(job.fits(&event));
    job.step(event)
}

fn scanned(entries: Vec<WalkedEntry>) -> (BatchJob, Option<BatchAction>) {
    let mut job = BatchJob::start_with_suffix("/data/photos", "/out", true, false, "42");
    match job.pending() {
        BatchAction::CreateRoot(path) => assert_eq!(path, "/out/photos-42"),
        other => panic!("unexpected {:?}", other),
    }
    match feed(&mut job, BatchEvent::RootCreated(None)) {
        Some(BatchAction::Walk(path)) => assert_eq!(path, "/data/photos"),
        other => panic!("unexpected {:?}", other),
    }
    let action = feed(&mut job, BatchEvent::Walked(Ok(entries)));
    (job, action)
}

/// Runs a job to its end, letting the compressor succeed or fail as `outcomes` say.
fn run(
    entries: Vec<WalkedEntry>,
    outcomes: Vec<Result<u64, CompressError>>,
) -> (Vec<ProgressPayload>, Vec<(String, String)>, CompressResult) {
    let (mut job, mut action) = scanned(entries);
    let mut outcomes = outcomes.into_iter();
    let mut reports = Vec::new();
    let mut copies = Vec::new();
    loop {
        let event = match action {
            Some(BatchAction::EnsureDir(_)) => BatchEvent::Performed,
            Some(BatchAction::CompressImage { .. }) | Some(BatchAction::CompressVideo { .. }) => {
                BatchEvent::Compressed(outcomes.next().unwrap())
            }
            Some(BatchAction::Copy { source, dest }) => {
                copies.push((source, dest));
                BatchEvent::Performed
            }
            Some(BatchAction::Emit(report)) => {
                reports.push(report);
                BatchEvent::Performed
            }
            Some(BatchAction::Finish(result)) => {
                assert_eq!(job.stage(), BatchStage::Done);
                return (reports, copies, result);
            }
            other => panic!("unexpected {:?}", other),
        };
        action = feed(&mut job, event);
    }
}

fn three_files() -> Vec<WalkedEntry> {
    vec![
        WalkedEntry { path: String::from("/data/photos"), is_file: false, size: Ok(0) },
        file("/data/photos/a.png", 10000),
        file("/data/photos/b.mp4", 1000000),
        file("/data/photos/c.txt", 500),
    ]
}

#[test]
fn folder_of_three_files_is_compressed() {
    let (mut job, action) = scanned(three_files());
    match action {
        Some(BatchAction::EnsureDir(path)) => assert_eq!(path, "/out/photos-42"),
        other => panic!("unexpected {:?}", other),
    }
    assert_eq!(job.stage(), BatchStage::Preparing);
    match feed(&mut job, BatchEvent::Performed) {
        Some(BatchAction::CompressImage { source, dest, to_webp }) => {
            assert_eq!(source, "/data/photos/a.png");
            assert_eq!(dest, "/out/photos-42/a.png");
            assert!(to_webp);
        }
        other => panic!("unexpected {:?}", other),
    }
    match feed(&mut job, BatchEvent::Compressed(Ok(4000))) {
        Some(BatchAction::Emit(report)) => {
            assert_eq!(report.file, "a.png");
            assert_eq!(report.current, 1);
            assert_eq!(report.total, 2);
            assert_eq!(report.original_size, 10000);
            assert_eq!(report.compressed_size, 4000);
        }
        other => panic!("unexpected {:?}", other),
    }
    assert!(matches!(feed(&mut job, BatchEvent::Performed), Some(BatchAction::EnsureDir(_))));
    match feed(&mut job, BatchEvent::Performed) {
        Some(BatchAction::CompressVideo { source, dest, generate_poster }) => {
            assert_eq!(source, "/data/photos/b.mp4");
            assert_eq!(dest, "/out/photos-42/b.mp4");
            assert!(!generate_poster);
        }
        other => panic!("unexpected {:?}", other),
    }
    match feed(&mut job, BatchEvent::Compressed(Ok(300000))) {
        Some(BatchAction::Emit(report)) => {
            assert_eq!(report.file, "b.mp4");
            assert_eq!(report.current, 2);
            assert_eq!(report.total, 2);
        }
        other => panic!("unexpected {:?}", other),
    }
    match feed(&mut job, BatchEvent::Performed) {
        Some(BatchAction::Finish(result)) => {
            assert_eq!(result.file_count, 2);
            assert_eq!(result.total_original, 1010000);
            assert_eq!(result.total_compressed, 304000);
            assert_eq!(result.output_path, "/out/photos-42");
        }
        other => panic!("unexpected {:?}", other),
    }
    assert_eq!(job.stage(), BatchStage::Done);
}

#[test]
fn progress_counts_from_one_without_gaps() {
    let entries: Vec<WalkedEntry> =
        (0..7).map(|i| file(&format!("/data/photos/sub{}/f{}.png", i % 2, i), 100 + i)).collect();
    let outcomes = vec![
        Ok(1),
        Err(CompressError::Codec(String::from("bad"))),
        Err(CompressError::EncoderNotAvailable),
        Ok(2),
        Err(CompressError::Io(String::from("denied"))),
        Ok(3),
        Ok(4),
    ];
    let (reports, copies, result) = run(entries, outcomes);
    let counts: Vec<usize> = reports.iter().map(|r| r.current).collect();
    assert_eq!(counts, vec![1, 2, 3, 4, 5, 6, 7]);
    assert!(reports.iter().all(|r| r.total == 7));
    let names: Vec<&str> = reports.iter().map(|r| r.file.as_str()).collect();
    assert_eq!(
        names,
        vec![
            "sub0/f0.png",
            "sub1/f1.png",
            "sub0/f2.png",
            "sub1/f3.png",
            "sub0/f4.png",
            "sub1/f5.png",
            "sub0/f6.png"
        ]
    );
    assert_eq!(copies.len(), 3);
    assert_eq!(result.file_count, 7);
}

#[test]
fn totals_are_the_sums_of_what_was_reported() {
    let entries = vec![
        file("/data/photos/a.png", 10),
        file("/data/photos/b.png", 20),
        file("/data/photos/c.mp4", 30),
    ];
    let outcomes = vec![Ok(4), Err(CompressError::Codec(String::from("bad"))), Ok(50)];
    let (reports, _, result) = run(entries, outcomes);
    assert_eq!(result.total_original, 60);
    assert_eq!(result.total_compressed, 4 + 20 + 50);
    assert_eq!(reports.iter().map(|r| r.original_size).sum::<u64>(), result.total_original);
    assert_eq!(reports.iter().map(|r| r.compressed_size).sum::<u64>(), result.total_compressed);
    let sizes: Vec<(u64, u64)> =
        reports.iter().map(|r| (r.original_size, r.compressed_size)).collect();
    assert_eq!(sizes, vec![(10, 4), (20, 20), (30, 50)]);
}

#[test]
fn video_without_an_encoder_is_copied_in_a_folder_job() {
    let entries = vec![file("/data/photos/sub/b.mp4", 1000000)];
    let (reports, copies, result) = run(entries, vec![Err(CompressError::EncoderNotAvailable)]);
    assert_eq!(
        copies,
        vec![(String::from("/data/photos/sub/b.mp4"), String::from("/out/photos-42/sub/b.mp4"))]
    );
    assert_eq!(reports.len(), 1);
    assert_eq!(reports[0].original_size, 1000000);
    assert_eq!(reports[0].compressed_size, 1000000);
    assert_eq!(result.file_count, 1);
    assert_eq!(result.total_original, 1000000);
    assert_eq!(result.total_compressed, 1000000);
}

#[test]
fn empty_folder_is_done_at_once() {
    let (job, action) = scanned(vec![file("/data/photos/readme.txt", 5)]);
    match action {
        Some(BatchAction::Finish(result)) => {
            assert_eq!(result.file_count, 0);
            assert_eq!(result.total_original, 0);
            assert_eq!(result.total_compressed, 0);
            assert_eq!(result.output_path, "/out/photos-42");
        }
        other => panic!("unexpected {:?}", other),
    }
    assert_eq!(job.stage(), BatchStage::Done);
}

#[test]
fn output_root_failure_is_fatal() {
    let mut job = BatchJob::start_with_suffix("/data/photos", "/out", true, false, "42");
    match feed(&mut job, BatchEvent::RootCreated(Some(String::from("read-only")))) {
        Some(BatchAction::Fail(CompressError::Io(detail))) => assert_eq!(detail, "read-only"),
        other => panic!("unexpected {:?}", other),
    }
    assert_eq!(job.stage(), BatchStage::Failed);
    assert!(feed(&mut job, BatchEvent::Walked(Ok(Vec::new()))).is_none());
    assert!(matches!(job.pending(), BatchAction::Fail(CompressError::Io(_))));
}

#[test]
fn walk_failure_is_fatal() {
    let mut job = BatchJob::start_with_suffix("/data/photos", "/out", true, false, "42");
    assert!(feed(&mut job, BatchEvent::RootCreated(None)).is_some());
    assert_eq!(job.stage(), BatchStage::Scanning);
    match feed(&mut job, BatchEvent::Walked(Err(String::from("no such directory")))) {
        Some(BatchAction::Fail(CompressError::Io(detail))) => {
            assert_eq!(detail, "no such directory")
        }
        other => panic!("unexpected {:?}", other),
    }
    assert_eq!(job.stage(), BatchStage::Failed);
}

#[test]
fn unreadable_media_file_is_fatal() {
    let entries = vec![
        file("/data/photos/a.png", 1),
        WalkedEntry {
            path: String::from("/data/photos/b.png"),
            is_file: true,
            size: Err(String::from("vanished")),
        },
    ];
    let (job, action) = scanned(entries);
    match action {
        Some(BatchAction::Fail(CompressError::Io(detail))) => assert_eq!(detail, "vanished"),
        other => panic!("unexpected {:?}", other),
    }
    assert_eq!(job.stage(), BatchStage::Failed);
}

#[test]
fn folder_job_ignores_events_it_did_not_ask_for() {
    let mut job = BatchJob::start_with_suffix("/data/photos", "/out", false, true, "42");
    assert!(feed(&mut job, BatchEvent::Performed).is_none());
    assert!(feed(&mut job, BatchEvent::Compressed(Ok(1))).is_none());
    assert!(feed(&mut job, BatchEvent::Walked(Ok(Vec::new()))).is_none());
    assert_eq!(job.stage(), BatchStage::Initializing);
    assert!(feed(&mut job, BatchEvent::RootCreated(None)).is_some());
    assert!(feed(&mut job, BatchEvent::RootCreated(None)).is_none());
    let entries = vec![file("/data/photos/a.mp4", 9)];
    assert!(feed(&mut job, BatchEvent::Walked(Ok(entries))).is_some());
    assert!(feed(&mut job, BatchEvent::Compressed(Ok(1))).is_none());
    assert_eq!(job.stage(), BatchStage::Preparing);
    match feed(&mut job, BatchEvent::Performed) {
        Some(BatchAction::CompressVideo { generate_poster, .. }) => assert!(generate_poster),
        other => panic!("unexpected {:?}", other),
    }
    assert!(feed(&mut job, BatchEvent::Performed).is_none());
    assert!(matches!(
        feed(&mut job, BatchEvent::Compressed(Ok(3))),
        Some(BatchAction::Emit(_))
    ));
    assert!(feed(&mut job, BatchEvent::Compressed(Ok(3))).is_none());
    assert!(matches!(feed(&mut job, BatchEvent::Performed), Some(BatchAction::Finish(_))));
    assert!(feed(&mut job, BatchEvent::Performed).is_none());
}

#[test]
fn totals_that_do_not_fit_are_told_apart() {
    let entries = vec![file("/data/photos/a.png", u64::MAX), file("/data/photos/b.png", 1)];
    let (mut job, _) = scanned(entries);
    assert!(feed(&mut job, BatchEvent::Performed).is_some());
    assert!(feed(&mut job, BatchEvent::Compressed(Ok(5))).is_some());
    assert!(feed(&mut job, BatchEvent::Performed).is_some());
    assert!(feed(&mut job, BatchEvent::Performed).is_some());
    assert_eq!(job.stage(), BatchStage::Compressing);
    assert!(!job.fits(&BatchEvent::Compressed(Ok(5))));
    assert!(job.fits(&BatchEvent::Compressed(Err(CompressError::NotFound))));
    assert!(job.fits(&BatchEvent::RootCreated(None)));
    assert!(feed(&mut job, BatchEvent::Compressed(Err(CompressError::NotFound))).is_some());
    assert_eq!(job.stage(), BatchStage::Copying);
    assert!(!job.fits(&BatchEvent::Performed));
}

#[test]
fn folder_job_takes_its_suffix_from_the_clock() {
    let job = BatchJob::start("/data/photos", "/out", false, false);
    match job.pending() {
        BatchAction::CreateRoot(path) => {
            let suffix = path.strip_prefix("/out/photos-").unwrap();
            assert!(!suffix.is_empty() && suffix.len() <= 6);
            assert!(suffix.chars().all(|c| c.is_ascii_digit()));
        }
        other => panic!("unexpected {:?}", other),
    }
}
