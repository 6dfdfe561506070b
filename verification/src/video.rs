//! Transcoding one video, and taking a poster frame from it.
//!
//! The work is a conversation with the host. The job says what to do next,
//! the host does it and reports what happened, and the job decides how to go
//! on. The job itself touches nothing outside its own state.
//!
//! A job first asks for the encoder to be located, then for a transcoding
//! run, and at last for the size of the file that was written. When a poster
//! is wanted, a second run takes one frame of the input into an intermediate
//! JPEG file beside the poster, the frame is re-encoded as the poster, and the
//! intermediate file is removed. Nothing that goes wrong with the poster fails
//! the job: the poster is then simply missing from the outcome. The
//! intermediate file is removed on every path on which the second run was
//! asked for.

use vstd::prelude::*;
use vstd::string::StringExecFns;
use crate::encoder::{
    encode_arguments, encode_arguments_spec, poster_arguments, poster_arguments_spec,
};
use crate::model::{CompressError, CompressErrorView};
use crate::naming::{
    poster_frame_path, poster_frame_spec, poster_path, poster_spec, video_output_path,
    video_output_spec,
};

verus! {

/// Where a video job stands.
#[derive(Clone, Copy, Debug, PartialEq, Eq, Structural)]
pub enum VideoStage {
    /// Waiting for the encoder to be located.
    Locating,
    /// Waiting for the transcoding run to end.
    Encoding,
    /// Waiting for the encoder to be located again, for the poster.
    PosterLocating,
    /// Waiting for the run that takes the frame to end.
    PosterExtracting,
    /// Waiting to learn whether the frame was written.
    PosterProbing,
    /// Waiting for the frame to be re-encoded as the poster.
    PosterEncoding,
    /// Waiting for the intermediate frame to be removed.
    PosterCleaning,
    /// Waiting for the size of the transcoded file.
    Measuring,
    /// The video was transcoded.
    Done,
    /// The job failed.
    Failed,
}

/// What the host reports back to a video job.
#[derive(Debug)]
pub enum VideoEvent {
    /// The encoder's path, or `None` where none was found.
    Located(Option<String>),
    /// Whether the process exited with status zero, or the system's message
    /// where it could not be started.
    Ran(Result<bool, String>),
    /// Whether a file exists at the path that was asked about.
    Exists(bool),
    /// Whether the frame was decoded, re-encoded and written.
    Reencoded(bool),
    /// The removal was attempted.
    Removed,
    /// The size of the file in bytes, or the system's message.
    Measured(Result<u64, String>),
}

/// Mathematical model of a [`VideoEvent`].
pub ghost enum VideoEventView {
    Located(Option<Seq<char>>),
    Ran(Result<bool, Seq<char>>),
    Exists(bool),
    Reencoded(bool),
    Removed,
    Measured(Result<nat, Seq<char>>),
}

impl View for VideoEvent {
    type V = VideoEventView;

    open spec fn view(&self) -> VideoEventView {
        match self {
            VideoEvent::Located(path) => VideoEventView::Located(path.deep_view()),
            VideoEvent::Ran(Ok(success)) => VideoEventView::Ran(Ok(*success)),
            VideoEvent::Ran(Err(detail)) => VideoEventView::Ran(Err(detail@)),
            VideoEvent::Exists(exists) => VideoEventView::Exists(*exists),
            VideoEvent::Reencoded(done) => VideoEventView::Reencoded(*done),
            VideoEvent::Removed => VideoEventView::Removed,
            VideoEvent::Measured(Ok(bytes)) => VideoEventView::Measured(Ok(*bytes as nat)),
            VideoEvent::Measured(Err(detail)) => VideoEventView::Measured(Err(detail@)),
        }
    }
}

/// What a video job asks the host to do next.
#[derive(Debug)]
pub enum VideoAction {
    /// Locate the encoder and report `Located`.
    Locate,
    /// Run this program with these arguments, discard what it prints, and
    /// report `Ran`.
    Run { program: String, arguments: Vec<String> },
    /// Find out whether a file exists at this path and report `Exists`.
    Exists(String),
    /// Read the image at `source`, re-encode it for `dest`, write it there,
    /// and report `Reencoded`.
    Reencode { source: String, dest: String },
    /// Try to remove the file at this path and report `Removed`, whether or
    /// not the removal succeeded.
    Remove(String),
    /// Read the size of the file at this path and report `Measured`.
    Measure(String),
    /// The job is done: the transcoded file has this size, and the poster,
    /// if one was made, is at this path.
    Finish { size: u64, poster: Option<String> },
    /// The job has failed.
    Fail(CompressError),
}

/// Mathematical model of a [`VideoAction`].
pub ghost enum VideoActionView {
    Locate,
    Run { program: Seq<char>, arguments: Seq<Seq<char>> },
    Exists(Seq<char>),
    Reencode { source: Seq<char>, dest: Seq<char> },
    Remove(Seq<char>),
    Measure(Seq<char>),
    Finish { size: nat, poster: Option<Seq<char>> },
    Fail(CompressErrorView),
}

impl View for VideoAction {
    type V = VideoActionView;

    open spec fn view(&self) -> VideoActionView {
        match self {
            VideoAction::Locate => VideoActionView::Locate,
            VideoAction::Run { program, arguments } => VideoActionView::Run {
                program: program@,
                arguments: arguments.deep_view(),
            },
            VideoAction::Exists(path) => VideoActionView::Exists(path@),
            VideoAction::Reencode { source, dest } => VideoActionView::Reencode {
                source: source@,
                dest: dest@,
            },
            VideoAction::Remove(path) => VideoActionView::Remove(path@),
            VideoAction::Measure(path) => VideoActionView::Measure(path@),
            VideoAction::Finish { size, poster } => VideoActionView::Finish {
                size: *size as nat,
                poster: poster.deep_view(),
            },
            VideoAction::Fail(error) => VideoActionView::Fail(error@),
        }
    }
}

impl DeepView for VideoAction {
    type V = VideoActionView;

    open spec fn deep_view(&self) -> VideoActionView {
        self@
    }
}

/// The state of a video job.
#[derive(Debug)]
pub struct VideoJob {
    stage: VideoStage,
    input: String,
    output: String,
    generate_poster: bool,
    poster: String,
    frame: String,
    encoder: String,
    poster_made: bool,
    size: u64,
    failure: CompressError,
}

/// Mathematical model of a [`VideoJob`].
pub ghost struct VideoView {
    /// Where the job stands.
    pub stage: VideoStage,
    /// The video to transcode.
    pub input: Seq<char>,
    /// Where the transcoded video is written.
    pub output: Seq<char>,
    /// A poster is wanted.
    pub generate_poster: bool,
    /// Where the poster is written.
    pub poster: Seq<char>,
    /// Where the frame waits to be re-encoded.
    pub frame: Seq<char>,
    /// The encoder that was located last.
    pub encoder: Seq<char>,
    /// The poster counts as made.
    pub poster_made: bool,
    /// The size of the transcoded file, once measured.
    pub size: nat,
    /// Why the job failed, once it has.
    pub failure: CompressErrorView,
}

impl View for VideoJob {
    type V = VideoView;

    closed spec fn view(&self) -> VideoView {
        VideoView {
            stage: self.stage,
            input: self.input@,
            output: self.output@,
            generate_poster: self.generate_poster,
            poster: self.poster@,
            frame: self.frame@,
            encoder: self.encoder@,
            poster_made: self.poster_made,
            size: self.size as nat,
            failure: self.failure@,
        }
    }
}

/// The message of a transcoding run that ended with a status other than zero.
pub open spec fn encode_failed_text() -> Seq<char> {
    "FFmpeg 压缩失败"@
}

/// A job that has just been started for `input`: the transcoded video goes
/// to `base` with its extension set to that of the input, or to `mp4` where
/// the input has none.
pub open spec fn video_start(input: Seq<char>, base: Seq<char>, generate_poster: bool) -> VideoView {
    let output = video_output_spec(input, base);
    let poster = poster_spec(output);
    VideoView {
        stage: VideoStage::Locating,
        input,
        output,
        generate_poster,
        poster,
        frame: poster_frame_spec(poster),
        encoder: Seq::empty(),
        poster_made: false,
        size: 0,
        failure: CompressErrorView::EncoderNotAvailable,
    }
}

/// The job has failed for the given reason.
pub open spec fn video_failed(job: VideoView, failure: CompressErrorView) -> VideoView {
    VideoView { stage: VideoStage::Failed, failure, ..job }
}

/// Whether the event answers what the job is waiting for.
pub open spec fn video_accepts(job: VideoView, event: VideoEventView) -> bool {
    match (job.stage, event) {
        (VideoStage::Locating, VideoEventView::Located(_)) => true,
        (VideoStage::Encoding, VideoEventView::Ran(_)) => true,
        (VideoStage::PosterLocating, VideoEventView::Located(_)) => true,
        (VideoStage::PosterExtracting, VideoEventView::Ran(_)) => true,
        (VideoStage::PosterProbing, VideoEventView::Exists(_)) => true,
        (VideoStage::PosterEncoding, VideoEventView::Reencoded(_)) => true,
        (VideoStage::PosterCleaning, VideoEventView::Removed) => true,
        (VideoStage::Measuring, VideoEventView::Measured(_)) => true,
        _ => false,
    }
}

/// The state of a job after an event; an event that does not answer what the
/// job is waiting for changes nothing.
///
/// Without an encoder the job fails with `EncoderNotAvailable`. A transcoding
/// run that cannot be started fails it with the system's message, one that
/// ends with a status other than zero with a codec error. After a good run
/// the poster is attempted if one is wanted. The poster counts as made only
/// when the frame was taken, found, re-encoded and written; a run that left
/// no frame behind made no poster. At last the size of the transcoded file is
/// read; if that fails, the job fails with the system's message.
pub open spec fn video_next(job: VideoView, event: VideoEventView) -> VideoView {
    match (job.stage, event) {
        (VideoStage::Locating, VideoEventView::Located(None)) => video_failed(
            job,
            CompressErrorView::EncoderNotAvailable,
        ),
        (VideoStage::Locating, VideoEventView::Located(Some(path))) => VideoView {
            stage: VideoStage::Encoding,
            encoder: path,
            ..job
        },
        (VideoStage::Encoding, VideoEventView::Ran(Err(detail))) => video_failed(
            job,
            CompressErrorView::Io(detail),
        ),
        (VideoStage::Encoding, VideoEventView::Ran(Ok(false))) => video_failed(
            job,
            CompressErrorView::Codec(encode_failed_text()),
        ),
        (VideoStage::Encoding, VideoEventView::Ran(Ok(true))) => VideoView {
            stage: if job.generate_poster {
                VideoStage::PosterLocating
            } else {
                VideoStage::Measuring
            },
            ..job
        },
        (VideoStage::PosterLocating, VideoEventView::Located(None)) => VideoView {
            stage: VideoStage::Measuring,
            ..job
        },
        (VideoStage::PosterLocating, VideoEventView::Located(Some(path))) => VideoView {
            stage: VideoStage::PosterExtracting,
            encoder: path,
            ..job
        },
        (VideoStage::PosterExtracting, VideoEventView::Ran(Ok(true))) => VideoView {
            stage: VideoStage::PosterProbing,
            ..job
        },
        (VideoStage::PosterExtracting, VideoEventView::Ran(_)) => VideoView {
            stage: VideoStage::PosterCleaning,
            ..job
        },
        (VideoStage::PosterProbing, VideoEventView::Exists(true)) => VideoView {
            stage: VideoStage::PosterEncoding,
            ..job
        },
        (VideoStage::PosterProbing, VideoEventView::Exists(false)) => VideoView {
            stage: VideoStage::PosterCleaning,
            poster_made: false,
            ..job
        },
        (VideoStage::PosterEncoding, VideoEventView::Reencoded(done)) => VideoView {
            stage: VideoStage::PosterCleaning,
            poster_made: done,
            ..job
        },
        (VideoStage::PosterCleaning, VideoEventView::Removed) => VideoView {
            stage: VideoStage::Measuring,
            ..job
        },
        (VideoStage::Measuring, VideoEventView::Measured(Ok(bytes))) => VideoView {
            stage: VideoStage::Done,
            size: bytes,
            ..job
        },
        (VideoStage::Measuring, VideoEventView::Measured(Err(detail))) => video_failed(
            job,
            CompressErrorView::Io(detail),
        ),
        _ => job,
    }
}

/// What a job is waiting for the host to do.
pub open spec fn video_pending(job: VideoView) -> VideoActionView {
    match job.stage {
        VideoStage::Locating => VideoActionView::Locate,
        VideoStage::Encoding => VideoActionView::Run {
            program: job.encoder,
            arguments: encode_arguments_spec(job.input, job.output),
        },
        VideoStage::PosterLocating => VideoActionView::Locate,
        VideoStage::PosterExtracting => VideoActionView::Run {
            program: job.encoder,
            arguments: poster_arguments_spec(job.input, job.frame),
        },
        VideoStage::PosterProbing => VideoActionView::Exists(job.frame),
        VideoStage::PosterEncoding => VideoActionView::Reencode {
            source: job.frame,
            dest: job.poster,
        },
        VideoStage::PosterCleaning => VideoActionView::Remove(job.frame),
        VideoStage::Measuring => VideoActionView::Measure(job.output),
        VideoStage::Done => VideoActionView::Finish {
            size: job.size,
            poster: if job.poster_made {
                Some(job.poster)
            } else {
                None
            },
        },
        VideoStage::Failed => VideoActionView::Fail(job.failure),
    }
}

/// What a job answers to an event: the next thing to do, or nothing where
/// the event did not answer what the job was waiting for.
pub open spec fn video_answer(job: VideoView, event: VideoEventView) -> Option<VideoActionView> {
    if video_accepts(job, event) {
        Some(video_pending(video_next(job, event)))
    } else {
        None
    }
}

impl VideoJob {
    /// Starts a job that transcodes the video at `input`. The output goes to
    /// `base` with its extension set to that of `input`, or to `mp4` where the
    /// input has none, so that the container format is kept.
    pub fn start(input: &str, base: &str, generate_poster: bool) -> (job: VideoJob)
        ensures
            job@ == video_start(input@, base@, generate_poster),
    {
        let output = video_output_path(input, base);
        let poster = poster_path(output.as_str());
        let frame = poster_frame_path(poster.as_str());
        VideoJob {
            stage: VideoStage::Locating,
            input: input.to_owned(),
            output,
            generate_poster,
            poster,
            frame,
            encoder: String::new(),
            poster_made: false,
            size: 0,
            failure: CompressError::EncoderNotAvailable,
        }
    }

    /// Where the job stands.
    pub fn stage(&self) -> (stage: VideoStage)
        ensures
            stage == self@.stage,
    {
        self.stage
    }

    /// Where the transcoded video is written.
    pub fn output(&self) -> (path: String)
        ensures
            path@ == self@.output,
    {
        self.output.clone()
    }

    /// What the job is waiting for the host to do.
    pub fn pending(&self) -> (action: VideoAction)
        ensures
            action@ == video_pending(self@),
    {
        match self.stage {
            VideoStage::Locating => VideoAction::Locate,
            VideoStage::Encoding => VideoAction::Run {
                program: self.encoder.clone(),
                arguments: encode_arguments(self.input.as_str(), self.output.as_str()),
            },
            VideoStage::PosterLocating => VideoAction::Locate,
            VideoStage::PosterExtracting => VideoAction::Run {
                program: self.encoder.clone(),
                arguments: poster_arguments(self.input.as_str(), self.frame.as_str()),
            },
            VideoStage::PosterProbing => VideoAction::Exists(self.frame.clone()),
            VideoStage::PosterEncoding => VideoAction::Reencode {
                source: self.frame.clone(),
                dest: self.poster.clone(),
            },
            VideoStage::PosterCleaning => VideoAction::Remove(self.frame.clone()),
            VideoStage::Measuring => VideoAction::Measure(self.output.clone()),
            VideoStage::Done => VideoAction::Finish {
                size: self.size,
                poster: if self.poster_made {
                    Some(self.poster.clone())
                } else {
                    None
                },
            },
            VideoStage::Failed => VideoAction::Fail(self.failure.duplicate()),
        }
    }

    fn fail(&mut self, failure: CompressError)
        ensures
            final(self)@ == video_failed(old(self)@, failure@),
    {
        self.stage = VideoStage::Failed;
        self.failure = failure;
    }

    /// Takes in what the host reports and says what to do next; `None` where
    /// the event did not answer what the job was waiting for.
    pub fn step(&mut self, event: VideoEvent) -> (action: Option<VideoAction>)
        ensures
            final(self)@ == video_next(old(self)@, event@),
            action.deep_view() == video_answer(old(self)@, event@),
    {
        match (self.stage, event) {
            (VideoStage::Locating, VideoEvent::Located(None)) => {
                self.fail(CompressError::EncoderNotAvailable);
            },
            (VideoStage::Locating, VideoEvent::Located(Some(path))) => {
                self.stage = VideoStage::Encoding;
                self.encoder = path;
            },
            (VideoStage::Encoding, VideoEvent::Ran(Err(detail))) => {
                self.fail(CompressError::Io(detail));
            },
            (VideoStage::Encoding, VideoEvent::Ran(Ok(false))) => {
                self.fail(CompressError::Codec(String::from_str("FFmpeg 压缩失败")));
            },
            (VideoStage::Encoding, VideoEvent::Ran(Ok(true))) => {
                self.stage = if self.generate_poster {
                    VideoStage::PosterLocating
                } else {
                    VideoStage::Measuring
                };
            },
            (VideoStage::PosterLocating, VideoEvent::Located(None)) => {
                self.stage = VideoStage::Measuring;
            },
            (VideoStage::PosterLocating, VideoEvent::Located(Some(path))) => {
                self.stage = VideoStage::PosterExtracting;
                self.encoder = path;
            },
            (VideoStage::PosterExtracting, VideoEvent::Ran(Ok(true))) => {
                self.stage = VideoStage::PosterProbing;
            },
            (VideoStage::PosterExtracting, VideoEvent::Ran(_)) => {
                self.stage = VideoStage::PosterCleaning;
            },
            (VideoStage::PosterProbing, VideoEvent::Exists(true)) => {
                self.stage = VideoStage::PosterEncoding;
            },
            (VideoStage::PosterProbing, VideoEvent::Exists(false)) => {
                self.stage = VideoStage::PosterCleaning;
                self.poster_made = false;
            },
            (VideoStage::PosterEncoding, VideoEvent::Reencoded(done)) => {
                self.stage = VideoStage::PosterCleaning;
                self.poster_made = done;
            },
            (VideoStage::PosterCleaning, VideoEvent::Removed) => {
                self.stage = VideoStage::Measuring;
            },
            (VideoStage::Measuring, VideoEvent::Measured(Ok(bytes))) => {
                self.stage = VideoStage::Done;
                self.size = bytes;
            },
            (VideoStage::Measuring, VideoEvent::Measured(Err(detail))) => {
                self.fail(CompressError::Io(detail));
            },
            _ => {
                return None;
            },
        }
        Some(self.pending())
    }
}

/// The job is at work on the poster.
pub open spec fn at_poster(stage: VideoStage) -> bool {
    stage == VideoStage::PosterLocating || stage == VideoStage::PosterExtracting || stage
        == VideoStage::PosterProbing || stage == VideoStage::PosterEncoding || stage
        == VideoStage::PosterCleaning
}

/// The run that takes the frame was asked for and the frame was not yet
/// removed.
pub open spec fn frame_may_exist(stage: VideoStage) -> bool {
    stage == VideoStage::PosterExtracting || stage == VideoStage::PosterProbing || stage
        == VideoStage::PosterEncoding
}

/// Nothing that happens to the poster fails the job: from any stage of the
/// work on the poster, every event leads to another such stage or on to
/// measuring the video, with the video's output path unchanged.
pub proof fn lemma_poster_never_fails_video(job: VideoView, event: VideoEventView)
    requires
        at_poster(job.stage),
    ensures
        at_poster(video_next(job, event).stage) || video_next(job, event).stage
            == VideoStage::Measuring,
        video_next(job, event).output == job.output,
{
}

/// The intermediate frame is always removed: once the run that takes the
/// frame was asked for, the job asks for the frame's removal before it goes
/// on to anything but the poster.
pub proof fn lemma_frame_is_always_removed(job: VideoView, event: VideoEventView)
    requires
        frame_may_exist(job.stage),
    ensures
        frame_may_exist(video_next(job, event).stage) || video_next(job, event).stage
            == VideoStage::PosterCleaning,
        video_next(job, event).stage == VideoStage::PosterCleaning ==> video_pending(
            video_next(job, event),
        ) == VideoActionView::Remove(job.frame),
{
}

/// Without an encoder a video job fails at its first step, with
/// `EncoderNotAvailable`, before any process is run.
pub proof fn lemma_video_needs_encoder(input: Seq<char>, base: Seq<char>, generate_poster: bool)
    ensures
        video_pending(video_start(input, base, generate_poster)) == VideoActionView::Locate,
        video_answer(
            video_start(input, base, generate_poster),
            VideoEventView::Located(None),
        ) == Some(VideoActionView::Fail(CompressErrorView::EncoderNotAvailable)),
{
}

/// A poster counts as made only once the host reports that the frame was
/// re-encoded and written: no other event makes one.
pub proof fn lemma_poster_needs_the_frame(job: VideoView, event: VideoEventView)
    requires
        !job.poster_made,
        video_next(job, event).poster_made,
    ensures
        job.stage == VideoStage::PosterEncoding,
        event == VideoEventView::Reencoded(true),
{
}

} // verus!
