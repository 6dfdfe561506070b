use compress_tool::encoder::{encode_arguments, poster_arguments};
use compress_tool::model::CompressError;
use compress_tool::video::{VideoAction, VideoEvent, VideoJob, VideoStage};

fn located() -> VideoEvent {
    VideoEvent::Located(Some(String::from("/bin/ffmpeg")))
}

fn encoded_job(generate_poster: bool) -> VideoJob {
    let mut job = VideoJob::start("/data/clip.mp4", "/out/clip-7.mp4", generate_poster);
    assert!(matches!(job.pending(), VideoAction::Locate));
    match job.step(located()) {
        Some(VideoAction::Run { program, arguments }) => {
            assert_eq!(program, "/bin/ffmpeg");
            assert_eq!(arguments, encode_arguments("/data/clip.mp4", "/out/clip-7.mp4"));
        }
        other => panic!("unexpected {:?}", other),
    }
    assert_eq!(job.stage(), VideoStage::Encoding);
    job
}

fn expect_finish(action: Option<VideoAction>, size: u64, poster: Option<&str>) {
    match action {
        Some(VideoAction::Finish { size: found, poster: made }) => {
            assert_eq!(found, size);
            assert_eq!(made.as_deref(), poster);
        }
        other => panic!("unexpected {:?}", other),
    }
}

#[test]
fn video_is_transcoded_and_measured() {
    let mut job = encoded_job(false);
    assert_eq!(job.output(), "/out/clip-7.mp4");
    match job.step(VideoEvent::Ran(Ok(true))) {
        Some(VideoAction::Measure(path)) => assert_eq!(path, "/out/clip-7.mp4"),
        other => panic!("unexpected {:?}", other),
    }
    let action = job.step(VideoEvent::Measured(Ok(4321)));
    expect_finish(action, 4321, None);
    assert_eq!(job.stage(), VideoStage::Done);
}

#[test]
fn video_without_an_encoder_fails() {
    let mut job = VideoJob::start("/data/clip.mp4", "/out/clip-7.mp4", true);
    let action = job.step(VideoEvent::Located(None));
    assert!(matches!(action, Some(VideoAction::Fail(CompressError::EncoderNotAvailable))));
    assert_eq!(job.stage(), VideoStage::Failed);
    assert!(matches!(job.pending(), VideoAction::Fail(CompressError::EncoderNotAvailable)));
}

#[test]
fn video_fails_when_the_encoder_reports_failure() {
    let mut job = encoded_job(true);
    match job.step(VideoEvent::Ran(Ok(false))) {
        Some(VideoAction::Fail(CompressError::Codec(detail))) => {
            assert_eq!(detail, "FFmpeg 压缩失败")
        }
        other => panic!("unexpected {:?}", other),
    }
    assert_eq!(job.stage(), VideoStage::Failed);
}

#[test]
fn video_fails_when_the_encoder_cannot_be_started() {
    let mut job = encoded_job(false);
    match job.step(VideoEvent::Ran(Err(String::from("permission denied")))) {
        Some(VideoAction::Fail(CompressError::Io(detail))) => {
            assert_eq!(detail, "permission denied")
        }
        other => panic!("unexpected {:?}", other),
    }
}

#[test]
fn video_fails_when_the_output_cannot_be_measured() {
    let mut job = encoded_job(false);
    assert!(job.step(VideoEvent::Ran(Ok(true))).is_some());
    match job.step(VideoEvent::Measured(Err(String::from("no such file")))) {
        Some(VideoAction::Fail(CompressError::Io(detail))) => assert_eq!(detail, "no such file"),
        other => panic!("unexpected {:?}", other),
    }
}

#[test]
fn poster_is_taken_re_encoded_and_cleaned_up() {
    let mut job = encoded_job(true);
    assert!(matches!(job.step(VideoEvent::Ran(Ok(true))), Some(VideoAction::Locate)));
    assert_eq!(job.stage(), VideoStage::PosterLocating);
    match job.step(VideoEvent::Located(Some(String::from("/opt/ffmpeg")))) {
        Some(VideoAction::Run { program, arguments }) => {
            assert_eq!(program, "/opt/ffmpeg");
            assert_eq!(
                arguments,
                poster_arguments("/data/clip.mp4", "/out/clip-7-poster.jpg")
            );
        }
        other => panic!("unexpected {:?}", other),
    }
    match job.step(VideoEvent::Ran(Ok(true))) {
        Some(VideoAction::Exists(path)) => assert_eq!(path, "/out/clip-7-poster.jpg"),
        other => panic!("unexpected {:?}", other),
    }
    match job.step(VideoEvent::Exists(true)) {
        Some(VideoAction::Reencode { source, dest }) => {
            assert_eq!(source, "/out/clip-7-poster.jpg");
            assert_eq!(dest, "/out/clip-7-poster.webp");
        }
        other => panic!("unexpected {:?}", other),
    }
    match job.step(VideoEvent::Reencoded(true)) {
        Some(VideoAction::Remove(path)) => assert_eq!(path, "/out/clip-7-poster.jpg"),
        other => panic!("unexpected {:?}", other),
    }
    match job.step(VideoEvent::Removed) {
        Some(VideoAction::Measure(path)) => assert_eq!(path, "/out/clip-7.mp4"),
        other => panic!("unexpected {:?}", other),
    }
    let action = job.step(VideoEvent::Measured(Ok(99)));
    expect_finish(action, 99, Some("/out/clip-7-poster.webp"));
}

#[test]
fn poster_without_an_encoder_is_left_out() {
    let mut job = encoded_job(true);
    assert!(job.step(VideoEvent::Ran(Ok(true))).is_some());
    assert!(matches!(job.step(VideoEvent::Located(None)), Some(VideoAction::Measure(_))));
    let action = job.step(VideoEvent::Measured(Ok(10)));
    expect_finish(action, 10, None);
}

#[test]
fn poster_failure_never_fails_the_video() {
    for run in [Ok(false), Err(String::from("cannot start"))] {
        let mut job = encoded_job(true);
        assert!(job.step(VideoEvent::Ran(Ok(true))).is_some());
        assert!(job.step(located()).is_some());
        match job.step(VideoEvent::Ran(run)) {
            Some(VideoAction::Remove(path)) => assert_eq!(path, "/out/clip-7-poster.jpg"),
            other => panic!("unexpected {:?}", other),
        }
        assert!(matches!(job.step(VideoEvent::Removed), Some(VideoAction::Measure(_))));
        let action = job.step(VideoEvent::Measured(Ok(10)));
        expect_finish(action, 10, None);
    }
}

#[test]
fn poster_that_cannot_be_re_encoded_is_left_out_and_cleaned_up() {
    let mut job = encoded_job(true);
    assert!(job.step(VideoEvent::Ran(Ok(true))).is_some());
    assert!(job.step(located()).is_some());
    assert!(job.step(VideoEvent::Ran(Ok(true))).is_some());
    assert!(job.step(VideoEvent::Exists(true)).is_some());
    assert!(matches!(job.step(VideoEvent::Reencoded(false)), Some(VideoAction::Remove(_))));
    assert!(job.step(VideoEvent::Removed).is_some());
    let action = job.step(VideoEvent::Measured(Ok(10)));
    expect_finish(action, 10, None);
}

#[test]
fn poster_is_left_out_when_the_run_left_no_frame() {
    let mut job = encoded_job(true);
    assert!(job.step(VideoEvent::Ran(Ok(true))).is_some());
    assert!(job.step(located()).is_some());
    assert!(job.step(VideoEvent::Ran(Ok(true))).is_some());
    match job.step(VideoEvent::Exists(false)) {
        Some(VideoAction::Remove(path)) => assert_eq!(path, "/out/clip-7-poster.jpg"),
        other => panic!("unexpected {:?}", other),
    }
    assert!(job.step(VideoEvent::Removed).is_some());
    let action = job.step(VideoEvent::Measured(Ok(10)));
    expect_finish(action, 10, None);
}

#[test]
fn video_output_gets_the_extension_of_the_input() {
    let mut job = VideoJob::start("in.mov", "out/clip-7", false);
    assert_eq!(job.output(), "out/clip-7.mov");
    match job.step(VideoEvent::Located(Some(String::from("/bin/ffmpeg")))) {
        Some(VideoAction::Run { program, arguments }) => {
            assert_eq!(program, "/bin/ffmpeg");
            assert_eq!(
                arguments,
                vec![
                    "-i",
                    "in.mov",
                    "-map",
                    "0",
                    "-c:v",
                    "libx264",
                    "-crf",
                    "23",
                    "-preset",
                    "medium",
                    "-pix_fmt",
                    "yuv420p",
                    "-c:a",
                    "aac",
                    "-b:a",
                    "128k",
                    "-c:s",
                    "copy",
                    "-disposition:v:0",
                    "default",
                    "-movflags",
                    "+faststart",
                    "-max_muxing_queue_size",
                    "1024",
                    "out/clip-7.mov",
                    "-y",
                ]
            );
        }
        other => panic!("unexpected {:?}", other),
    }
    match job.step(VideoEvent::Ran(Ok(true))) {
        Some(VideoAction::Measure(path)) => assert_eq!(path, "out/clip-7.mov"),
        other => panic!("unexpected {:?}", other),
    }
    let job = VideoJob::start("/data/movie", "/out/movie-1", true);
    assert_eq!(job.output(), "/out/movie-1.mp4");
}

#[test]
fn video_output_that_has_the_extension_already_stays() {
    let job = VideoJob::start("/data/Movie.MKV", "/out/photos-1/sub/Movie.MKV", false);
    assert_eq!(job.output(), "/out/photos-1/sub/Movie.MKV");
    let mut job = VideoJob::start("/data/my.clip.mp4", "/out/my.clip-7.mp4", true);
    assert_eq!(job.output(), "/out/my.clip-7.mp4");
    match job.step(located()) {
        Some(VideoAction::Run { arguments, .. }) => {
            assert_eq!(arguments, encode_arguments("/data/my.clip.mp4", "/out/my.clip-7.mp4"));
        }
        other => panic!("unexpected {:?}", other),
    }
    assert!(job.step(VideoEvent::Ran(Ok(true))).is_some());
    match job.step(located()) {
        Some(VideoAction::Run { arguments, .. }) => {
            assert_eq!(
                arguments,
                poster_arguments("/data/my.clip.mp4", "/out/my.clip-7-poster.jpg")
            );
        }
        other => panic!("unexpected {:?}", other),
    }
}

#[test]
fn video_ignores_events_it_did_not_ask_for() {
    let mut job = VideoJob::start("/data/clip.mp4", "/out/clip-7.mp4", false);
    assert!(job.step(VideoEvent::Ran(Ok(true))).is_none());
    assert!(job.step(VideoEvent::Measured(Ok(1))).is_none());
    assert!(job.step(VideoEvent::Removed).is_none());
    assert_eq!(job.stage(), VideoStage::Locating);
    assert!(job.step(located()).is_some());
    assert!(job.step(located()).is_none());
    assert!(job.step(VideoEvent::Exists(true)).is_none());
    assert!(job.step(VideoEvent::Reencoded(true)).is_none());
    assert_eq!(job.stage(), VideoStage::Encoding);
    assert!(job.step(VideoEvent::Ran(Ok(true))).is_some());
    assert!(job.step(VideoEvent::Measured(Ok(5))).is_some());
    assert!(job.step(VideoEvent::Measured(Ok(6))).is_none());
    expect_finish(Some(job.pending()), 5, None);
}
