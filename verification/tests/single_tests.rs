use compress_tool::model::CompressError;
use compress_tool::scan::PathProbe;
use compress_tool::single::{EncodeOutcome, SingleAction, SingleEvent, SingleJob, SingleStage};

fn present(size: u64) -> SingleEvent {
    SingleEvent::Probed(PathProbe { exists: true, is_file: true, size: Ok(size) })
}

fn prepared(input: &str, to_webp: bool, generate_poster: bool, size: u64) -> SingleJob {
    let mut job = SingleJob::start_with_suffix(input, "/out", to_webp, generate_poster, "123456");
    match job.step(present(size)) {
        Some(SingleAction::CreateDir(path)) => assert_eq!(path, "/out"),
        other => panic!("unexpected {:?}", other),
    }
    assert_eq!(job.stage(), SingleStage::Preparing);
    job
}

#[test]
fn missing_input_fails_before_any_directory_is_made() {
    let mut job = SingleJob::start_with_suffix("/data/gone.png", "/out", true, false, "1");
    match job.pending() {
        SingleAction::Probe(path) => assert_eq!(path, "/data/gone.png"),
        other => panic!("unexpected {:?}", other),
    }
    let probe = PathProbe { exists: false, is_file: false, size: Err(String::from("gone")) };
    let action = job.step(SingleEvent::Probed(probe));
    assert!(matches!(action, Some(SingleAction::Fail(CompressError::NotFound))));
    assert_eq!(job.stage(), SingleStage::Failed);
    assert!(job.step(SingleEvent::Prepared(None)).is_none());
    assert!(matches!(job.pending(), SingleAction::Fail(CompressError::NotFound)));
}

#[test]
fn directory_and_unsupported_input_fail_before_any_directory_is_made() {
    let mut job = SingleJob::start_with_suffix("/data/dir.png", "/out", true, false, "1");
    let probe = PathProbe { exists: true, is_file: false, size: Ok(4096) };
    let action = job.step(SingleEvent::Probed(probe));
    assert!(matches!(action, Some(SingleAction::Fail(CompressError::NotAFile))));

    let mut job = SingleJob::start_with_suffix("/data/notes.txt", "/out", true, false, "1");
    let action = job.step(present(5));
    assert!(matches!(action, Some(SingleAction::Fail(CompressError::UnsupportedType))));

    let mut job = SingleJob::start_with_suffix("/data/a.png", "/out", true, false, "1");
    let probe = PathProbe { exists: true, is_file: true, size: Err(String::from("denied")) };
    match job.step(SingleEvent::Probed(probe)) {
        Some(SingleAction::Fail(CompressError::Io(detail))) => assert_eq!(detail, "denied"),
        other => panic!("unexpected {:?}", other),
    }
}

#[test]
fn image_is_compressed_under_the_suffixed_name() {
    let mut job = prepared("/data/a.png", true, true, 10000);
    match job.step(SingleEvent::Prepared(None)) {
        Some(SingleAction::CompressImage { source, dest }) => {
            assert_eq!(source, "/data/a.png");
            assert_eq!(dest, "/out/a-123456.webp");
        }
        other => panic!("unexpected {:?}", other),
    }
    let outcome = EncodeOutcome::Image { size: 4000, path: String::from("/out/a-123456.webp") };
    match job.step(SingleEvent::Compressed(Ok(outcome))) {
        Some(SingleAction::Finish(result)) => {
            assert_eq!(result.original_size, 10000);
            assert_eq!(result.compressed_size, 4000);
            assert_eq!(result.output_path, "/out/a-123456.webp");
            assert_eq!(result.poster_path, None);
        }
        other => panic!("unexpected {:?}", other),
    }
    assert_eq!(job.stage(), SingleStage::Done);
}

#[test]
fn image_that_is_not_converted_keeps_its_extension() {
    let mut job = prepared("/data/Photo.JPG", false, false, 10);
    match job.step(SingleEvent::Prepared(None)) {
        Some(SingleAction::CompressImage { source, dest }) => {
            assert_eq!(source, "/data/Photo.JPG");
            assert_eq!(dest, "/out/Photo-123456.JPG");
        }
        other => panic!("unexpected {:?}", other),
    }
}

#[test]
fn video_is_compressed_with_its_own_extension() {
    let mut job = prepared("/data/clip.MOV", false, true, 1000000);
    match job.step(SingleEvent::Prepared(None)) {
        Some(SingleAction::CompressVideo { source, dest, generate_poster }) => {
            assert_eq!(source, "/data/clip.MOV");
            assert_eq!(dest, "/out/clip-123456.MOV");
            assert!(generate_poster);
        }
        other => panic!("unexpected {:?}", other),
    }
    let outcome = EncodeOutcome::Video {
        size: 300000,
        poster: Some(String::from("/out/clip-123456-poster.webp")),
    };
    match job.step(SingleEvent::Compressed(Ok(outcome))) {
        Some(SingleAction::Finish(result)) => {
            assert_eq!(result.original_size, 1000000);
            assert_eq!(result.compressed_size, 300000);
            assert_eq!(result.output_path, "/out/clip-123456.MOV");
            assert_eq!(result.poster_path, Some(String::from("/out/clip-123456-poster.webp")));
        }
        other => panic!("unexpected {:?}", other),
    }
}

#[test]
fn stem_with_dots_keeps_stem_and_suffix() {
    let mut job = prepared("/data/my.clip.mp4", true, false, 5);
    match job.step(SingleEvent::Prepared(None)) {
        Some(SingleAction::CompressVideo { dest, .. }) => {
            assert_eq!(dest, "/out/my.clip-123456.mp4")
        }
        other => panic!("unexpected {:?}", other),
    }
    let outcome = EncodeOutcome::Video { size: 3, poster: None };
    match job.step(SingleEvent::Compressed(Ok(outcome))) {
        Some(SingleAction::Finish(result)) => {
            assert_eq!(result.output_path, "/out/my.clip-123456.mp4")
        }
        other => panic!("unexpected {:?}", other),
    }

    let mut job = prepared("/data/my.photo.png", true, false, 5);
    match job.step(SingleEvent::Prepared(None)) {
        Some(SingleAction::CompressImage { dest, .. }) => {
            assert_eq!(dest, "/out/my.photo-123456.webp")
        }
        other => panic!("unexpected {:?}", other),
    }
    let outcome =
        EncodeOutcome::Image { size: 3, path: String::from("/out/my.photo-123456.webp") };
    match job.step(SingleEvent::Compressed(Ok(outcome))) {
        Some(SingleAction::Finish(result)) => {
            assert_eq!(result.output_path, "/out/my.photo-123456.webp")
        }
        other => panic!("unexpected {:?}", other),
    }
}

#[test]
fn image_written_elsewhere_is_ignored() {
    let mut job = prepared("/data/a.png", true, false, 10);
    assert!(job.step(SingleEvent::Prepared(None)).is_some());
    let elsewhere = EncodeOutcome::Image { size: 1, path: String::from("/out/a.webp") };
    assert!(job.step(SingleEvent::Compressed(Ok(elsewhere))).is_none());
    assert_eq!(job.stage(), SingleStage::Compressing);
}

#[test]
fn video_without_an_encoder_fails_the_single_job() {
    let mut job = prepared("/data/clip.mp4", true, false, 1000000);
    assert!(job.step(SingleEvent::Prepared(None)).is_some());
    let action = job.step(SingleEvent::Compressed(Err(CompressError::EncoderNotAvailable)));
    assert!(matches!(action, Some(SingleAction::Fail(CompressError::EncoderNotAvailable))));
    assert_eq!(job.stage(), SingleStage::Failed);
}

#[test]
fn compressor_failure_is_passed_on() {
    let mut job = prepared("/data/a.png", true, false, 10);
    assert!(job.step(SingleEvent::Prepared(None)).is_some());
    let failure = CompressError::Codec(String::from("bad data"));
    match job.step(SingleEvent::Compressed(Err(failure))) {
        Some(SingleAction::Fail(CompressError::Codec(detail))) => assert_eq!(detail, "bad data"),
        other => panic!("unexpected {:?}", other),
    }
}

#[test]
fn output_directory_failure_fails_the_job() {
    let mut job = prepared("/data/a.png", true, false, 10);
    match job.step(SingleEvent::Prepared(Some(String::from("read-only")))) {
        Some(SingleAction::Fail(CompressError::Io(detail))) => assert_eq!(detail, "read-only"),
        other => panic!("unexpected {:?}", other),
    }
}

#[test]
fn outcome_of_the_wrong_kind_is_ignored() {
    let mut job = prepared("/data/a.png", true, false, 10);
    assert!(job.step(SingleEvent::Prepared(None)).is_some());
    let wrong = EncodeOutcome::Video { size: 1, poster: None };
    assert!(job.step(SingleEvent::Compressed(Ok(wrong))).is_none());
    assert_eq!(job.stage(), SingleStage::Compressing);

    let mut job = prepared("/data/a.mp4", true, false, 10);
    assert!(job.step(SingleEvent::Prepared(None)).is_some());
    let wrong = EncodeOutcome::Image { size: 1, path: String::from("/out/a-123456.mp4") };
    assert!(job.step(SingleEvent::Compressed(Ok(wrong))).is_none());
    assert_eq!(job.stage(), SingleStage::Compressing);
}

#[test]
fn single_job_ignores_events_it_did_not_ask_for() {
    let mut job = SingleJob::start_with_suffix("/data/a.png", "/out", true, false, "1");
    assert!(job.step(SingleEvent::Prepared(None)).is_none());
    assert!(job.step(SingleEvent::Compressed(Err(CompressError::NotFound))).is_none());
    assert_eq!(job.stage(), SingleStage::Probing);
    assert!(job.step(present(1)).is_some());
    assert!(job.step(present(2)).is_none());
}

#[test]
fn single_job_takes_its_suffix_from_the_clock() {
    let mut job = SingleJob::start("/data/a.png", "/out", false, false);
    assert!(job.step(present(1)).is_some());
    match job.step(SingleEvent::Prepared(None)) {
        Some(SingleAction::CompressImage { dest, .. }) => {
            let suffix = dest.strip_prefix("/out/a-").unwrap().strip_suffix(".png").unwrap();
            assert!(!suffix.is_empty() && suffix.len() <= 6);
            assert!(suffix.chars().all(|c| c.is_ascii_digit()));
        }
        other => panic!("unexpected {:?}", other),
    }
}
