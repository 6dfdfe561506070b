//! Compressing one file.
//!
//! A one-file job looks at the input before it touches anything: a path that
//! does not exist, is no regular file, or is neither an image nor a video
//! fails the job before the output directory is created. After that the
//! output directory is created and the file is handed to the compressor for
//! its kind. Whatever the compressor reports is the job's result; a failure
//! is passed on as it is and never papered over with a copy.

use vstd::prelude::*;
use crate::classify::{file_kind, path_kind, FileKind};
use crate::model::{
    CompressError, CompressErrorView, SingleCompressResult, SingleCompressResultView,
};
use crate::naming::{
    extended_spec, file_stem_or_empty, generate_timestamp, is_suffix, single_destination,
    single_destination_spec, single_extension_spec, suffixed_spec, video_output_path,
    video_output_spec,
};
use crate::paths::path_join;
use crate::scan::{do_scan_file, scan_file_spec, PathProbe, PathProbeView};
use crate::text::duplicate_option;

verus! {

/// What a compressor hands back for one file.
#[derive(Debug)]
pub enum EncodeOutcome {
    /// An image was written: its size and where it went.
    Image { size: u64, path: String },
    /// A video was written: its size and where its poster went, if one was made.
    Video { size: u64, poster: Option<String> },
}

/// Mathematical model of an [`EncodeOutcome`].
pub ghost enum EncodeOutcomeView {
    Image { size: nat, path: Seq<char> },
    Video { size: nat, poster: Option<Seq<char>> },
}

impl View for EncodeOutcome {
    type V = EncodeOutcomeView;

    open spec fn view(&self) -> EncodeOutcomeView {
        match self {
            EncodeOutcome::Image { size, path } => EncodeOutcomeView::Image {
                size: *size as nat,
                path: path@,
            },
            EncodeOutcome::Video { size, poster } => EncodeOutcomeView::Video {
                size: *size as nat,
                poster: poster.deep_view(),
            },
        }
    }
}

/// Where a one-file job stands.
#[derive(Clone, Copy, Debug, PartialEq, Eq, Structural)]
pub enum SingleStage {
    /// Waiting to learn what is at the input path.
    Probing,
    /// Waiting for the output directory to be created.
    Preparing,
    /// Waiting for the compressor.
    Compressing,
    /// The file was compressed.
    Done,
    /// The job failed.
    Failed,
}

/// What the host reports back to a one-file job.
#[derive(Debug)]
pub enum SingleEvent {
    /// What was learnt of the input path.
    Probed(PathProbe),
    /// The output directory exists now (`None`), or the system's message.
    Prepared(Option<String>),
    /// What the compressor handed back.
    Compressed(Result<EncodeOutcome, CompressError>),
}

/// Mathematical model of a [`SingleEvent`].
pub ghost enum SingleEventView {
    Probed(PathProbeView),
    Prepared(Option<Seq<char>>),
    Compressed(Result<EncodeOutcomeView, CompressErrorView>),
}

impl View for SingleEvent {
    type V = SingleEventView;

    open spec fn view(&self) -> SingleEventView {
        match self {
            SingleEvent::Probed(probe) => SingleEventView::Probed(probe@),
            SingleEvent::Prepared(failure) => SingleEventView::Prepared(failure.deep_view()),
            SingleEvent::Compressed(Ok(outcome)) => SingleEventView::Compressed(Ok(outcome@)),
            SingleEvent::Compressed(Err(error)) => SingleEventView::Compressed(Err(error@)),
        }
    }
}

/// What a one-file job asks the host to do next.
#[derive(Debug)]
pub enum SingleAction {
    /// Look at this path and report `Probed`.
    Probe(String),
    /// Create this directory with all its parents and report `Prepared`.
    CreateDir(String),
    /// Re-encode the image at `source` in the format that the extension of
    /// `dest` names, write it at `dest`, and report `Compressed`.
    CompressImage { source: String, dest: String },
    /// Transcode the video at `source` for `dest`, which gets the extension of
    /// `source`, and report `Compressed`.
    CompressVideo { source: String, dest: String, generate_poster: bool },
    /// The job is done; this is its result.
    Finish(SingleCompressResult),
    /// The job has failed.
    Fail(CompressError),
}

/// Mathematical model of a [`SingleAction`].
pub ghost enum SingleActionView {
    Probe(Seq<char>),
    CreateDir(Seq<char>),
    CompressImage { source: Seq<char>, dest: Seq<char> },
    CompressVideo { source: Seq<char>, dest: Seq<char>, generate_poster: bool },
    Finish(SingleCompressResultView),
    Fail(CompressErrorView),
}

impl View for SingleAction {
    type V = SingleActionView;

    open spec fn view(&self) -> SingleActionView {
        match self {
            SingleAction::Probe(path) => SingleActionView::Probe(path@),
            SingleAction::CreateDir(path) => SingleActionView::CreateDir(path@),
            SingleAction::CompressImage { source, dest } => SingleActionView::CompressImage {
                source: source@,
                dest: dest@,
            },
            SingleAction::CompressVideo { source, dest, generate_poster } => {
                SingleActionView::CompressVideo {
                    source: source@,
                    dest: dest@,
                    generate_poster: *generate_poster,
                }
            },
            SingleAction::Finish(result) => SingleActionView::Finish(result@),
            SingleAction::Fail(error) => SingleActionView::Fail(error@),
        }
    }
}

impl DeepView for SingleAction {
    type V = SingleActionView;

    open spec fn deep_view(&self) -> SingleActionView {
        self@
    }
}

/// The state of a one-file job.
#[derive(Debug)]
pub struct SingleJob {
    stage: SingleStage,
    input: String,
    output_dir: String,
    dest: String,
    to_webp: bool,
    generate_poster: bool,
    kind: FileKind,
    original_size: u64,
    compressed_size: u64,
    output_path: String,
    poster: Option<String>,
    failure: CompressError,
}

/// Mathematical model of a [`SingleJob`].
pub ghost struct SingleView {
    /// Where the job stands.
    pub stage: SingleStage,
    /// The file to compress.
    pub input: Seq<char>,
    /// The directory to write into.
    pub output_dir: Seq<char>,
    /// The path to write to: the input's stem, the suffix and the extension,
    /// under the output directory.
    pub dest: Seq<char>,
    /// Images are converted to WebP.
    pub to_webp: bool,
    /// Videos get a poster.
    pub generate_poster: bool,
    /// What the input is, judged by its extension.
    pub kind: FileKind,
    /// The size of the input, once it has been looked at.
    pub original_size: nat,
    /// The size of the output, once written.
    pub compressed_size: nat,
    /// Where the output went, once written.
    pub output_path: Seq<char>,
    /// Where the poster went, if one was made.
    pub poster: Option<Seq<char>>,
    /// Why the job failed, once it has.
    pub failure: CompressErrorView,
}

impl View for SingleJob {
    type V = SingleView;

    closed spec fn view(&self) -> SingleView {
        SingleView {
            stage: self.stage,
            input: self.input@,
            output_dir: self.output_dir@,
            dest: self.dest@,
            to_webp: self.to_webp,
            generate_poster: self.generate_poster,
            kind: self.kind,
            original_size: self.original_size as nat,
            compressed_size: self.compressed_size as nat,
            output_path: self.output_path@,
            poster: self.poster.deep_view(),
            failure: self.failure@,
        }
    }
}

/// A job that has just been started: it writes under `output_dir`, at the
/// stem of the input followed by a hyphen, `suffix` and the extension of the
/// input.
pub open spec fn single_start(
    input: Seq<char>,
    output_dir: Seq<char>,
    to_webp: bool,
    generate_poster: bool,
    suffix: Seq<char>,
) -> SingleView {
    SingleView {
        stage: SingleStage::Probing,
        input,
        output_dir,
        dest: single_destination_spec(input, output_dir, suffix, to_webp),
        to_webp,
        generate_poster,
        kind: path_kind(input),
        original_size: 0,
        compressed_size: 0,
        output_path: Seq::empty(),
        poster: None,
        failure: CompressErrorView::NotFound,
    }
}

/// The job has failed for the given reason.
pub open spec fn single_failed(job: SingleView, failure: CompressErrorView) -> SingleView {
    SingleView { stage: SingleStage::Failed, failure, ..job }
}

/// Whether the event answers what the job is waiting for. A compressor's
/// success must be of the kind of the input, and an image must have been
/// written where the job asked for it.
pub open spec fn single_accepts(job: SingleView, event: SingleEventView) -> bool {
    match (job.stage, event) {
        (SingleStage::Probing, SingleEventView::Probed(_)) => true,
        (SingleStage::Preparing, SingleEventView::Prepared(_)) => true,
        (SingleStage::Compressing, SingleEventView::Compressed(Err(_))) => true,
        (
            SingleStage::Compressing,
            SingleEventView::Compressed(Ok(EncodeOutcomeView::Image { path, .. })),
        ) => job.kind == FileKind::Image && path == job.dest,
        (
            SingleStage::Compressing,
            SingleEventView::Compressed(Ok(EncodeOutcomeView::Video { .. })),
        ) => job.kind == FileKind::Video,
        _ => false,
    }
}

/// The state of a job after an event; an event that does not answer what the
/// job is waiting for changes nothing.
///
/// What is learnt of the input decides first: the job fails with `NotFound`,
/// `NotAFile`, `UnsupportedType` or the system's message exactly where a scan
/// of the single path does. Failing to create the output directory fails the
/// job with the system's message. The compressor's failure is the job's
/// failure. The job's own path is the stem of the input, the suffix, and the
/// extension of the input, or `webp` for an image that is converted. An image
/// is written at that path. A video is written where the video compressor
/// puts it: at that path with its extension set to that of the input, which
/// it has already.
pub open spec fn single_next(job: SingleView, event: SingleEventView) -> SingleView {
    if !single_accepts(job, event) {
        job
    } else {
        match event {
            SingleEventView::Probed(probe) => match scan_file_spec(job.input, probe) {
                Err(failure) => single_failed(job, failure),
                Ok(file) => SingleView {
                    stage: SingleStage::Preparing,
                    original_size: file.size,
                    ..job
                },
            },
            SingleEventView::Prepared(Some(detail)) => single_failed(
                job,
                CompressErrorView::Io(detail),
            ),
            SingleEventView::Prepared(None) => SingleView {
                stage: SingleStage::Compressing,
                ..job
            },
            SingleEventView::Compressed(Err(failure)) => single_failed(job, failure),
            SingleEventView::Compressed(Ok(EncodeOutcomeView::Image { size, path })) => SingleView {
                stage: SingleStage::Done,
                compressed_size: size,
                output_path: job.dest,
                poster: None,
                ..job
            },
            SingleEventView::Compressed(Ok(EncodeOutcomeView::Video { size, poster })) => SingleView {
                stage: SingleStage::Done,
                compressed_size: size,
                output_path: video_output_spec(job.input, job.dest),
                poster,
                ..job
            },
        }
    }
}

/// The result of a job that is done.
pub open spec fn single_result(job: SingleView) -> SingleCompressResultView {
    SingleCompressResultView {
        original_size: job.original_size,
        compressed_size: job.compressed_size,
        output_path: job.output_path,
        poster_path: job.poster,
    }
}

/// What a job is waiting for the host to do.
pub open spec fn single_pending(job: SingleView) -> SingleActionView {
    match job.stage {
        SingleStage::Probing => SingleActionView::Probe(job.input),
        SingleStage::Preparing => SingleActionView::CreateDir(job.output_dir),
        SingleStage::Compressing => if job.kind == FileKind::Image {
            SingleActionView::CompressImage { source: job.input, dest: job.dest }
        } else {
            SingleActionView::CompressVideo {
                source: job.input,
                dest: job.dest,
                generate_poster: job.generate_poster,
            }
        },
        SingleStage::Done => SingleActionView::Finish(single_result(job)),
        SingleStage::Failed => SingleActionView::Fail(job.failure),
    }
}

/// What a job answers to an event: the next thing to do, or nothing where
/// the event did not answer what the job was waiting for.
pub open spec fn single_answer(job: SingleView, event: SingleEventView) -> Option<
    SingleActionView,
> {
    if single_accepts(job, event) {
        Some(single_pending(single_next(job, event)))
    } else {
        None
    }
}

impl SingleJob {
    /// Starts a job for the file at `input` that writes under `output_dir`,
    /// with the given suffix in the output's name.
    pub fn start_with_suffix(
        input: &str,
        output_dir: &str,
        to_webp: bool,
        generate_poster: bool,
        suffix: &str,
    ) -> (job: SingleJob)
        ensures
            job@ == single_start(input@, output_dir@, to_webp, generate_poster, suffix@),
    {
        SingleJob {
            stage: SingleStage::Probing,
            input: input.to_owned(),
            output_dir: output_dir.to_owned(),
            dest: single_destination(input, output_dir, suffix, to_webp),
            to_webp,
            generate_poster,
            kind: file_kind(input),
            original_size: 0,
            compressed_size: 0,
            output_path: String::new(),
            poster: None,
            failure: CompressError::NotFound,
        }
    }

    /// Starts a job for the file at `input` that writes under `output_dir`,
    /// with a suffix taken from the clock.
    pub fn start(input: &str, output_dir: &str, to_webp: bool, generate_poster: bool) -> (job:
        SingleJob)
        ensures
            exists|suffix: Seq<char>|
                is_suffix(suffix) && job@ == #[trigger] single_start(
                    input@,
                    output_dir@,
                    to_webp,
                    generate_poster,
                    suffix,
                ),
    {
        let suffix = generate_timestamp();
        let job = SingleJob::start_with_suffix(
            input,
            output_dir,
            to_webp,
            generate_poster,
            suffix.as_str(),
        );
        assert(job@ == single_start(input@, output_dir@, to_webp, generate_poster, suffix@));
        job
    }

    /// Where the job stands.
    pub fn stage(&self) -> (stage: SingleStage)
        ensures
            stage == self@.stage,
    {
        self.stage
    }

    /// What the job is waiting for the host to do.
    pub fn pending(&self) -> (action: SingleAction)
        ensures
            action@ == single_pending(self@),
    {
        match self.stage {
            SingleStage::Probing => SingleAction::Probe(self.input.clone()),
            SingleStage::Preparing => SingleAction::CreateDir(self.output_dir.clone()),
            SingleStage::Compressing => match self.kind {
                FileKind::Image => SingleAction::CompressImage {
                    source: self.input.clone(),
                    dest: self.dest.clone(),
                },
                _ => SingleAction::CompressVideo {
                    source: self.input.clone(),
                    dest: self.dest.clone(),
                    generate_poster: self.generate_poster,
                },
            },
            SingleStage::Done => SingleAction::Finish(
                SingleCompressResult {
                    original_size: self.original_size,
                    compressed_size: self.compressed_size,
                    output_path: self.output_path.clone(),
                    poster_path: duplicate_option(&self.poster),
                },
            ),
            SingleStage::Failed => SingleAction::Fail(self.failure.duplicate()),
        }
    }

    fn fail(&mut self, failure: CompressError)
        ensures
            final(self)@ == single_failed(old(self)@, failure@),
    {
        self.stage = SingleStage::Failed;
        self.failure = failure;
    }

    /// Takes in what the host reports and says what to do next; `None` where
    /// the event did not answer what the job was waiting for.
    pub fn step(&mut self, event: SingleEvent) -> (action: Option<SingleAction>)
        ensures
            final(self)@ == single_next(old(self)@, event@),
            action.deep_view() == single_answer(old(self)@, event@),
    {
        match (self.stage, event) {
            (SingleStage::Probing, SingleEvent::Probed(probe)) => {
                match do_scan_file(self.input.as_str(), &probe) {
                    Err(failure) => {
                        self.fail(failure);
                    },
                    Ok(file) => {
                        self.stage = SingleStage::Preparing;
                        self.original_size = file.size;
                    },
                }
            },
            (SingleStage::Preparing, SingleEvent::Prepared(Some(detail))) => {
                self.fail(CompressError::Io(detail));
            },
            (SingleStage::Preparing, SingleEvent::Prepared(None)) => {
                self.stage = SingleStage::Compressing;
            },
            (SingleStage::Compressing, SingleEvent::Compressed(Err(failure))) => {
                self.fail(failure);
            },
            (
                SingleStage::Compressing,
                SingleEvent::Compressed(Ok(EncodeOutcome::Image { size, path })),
            ) => {
                let expected = match self.kind {
                    FileKind::Image => path == self.dest,
                    _ => false,
                };
                if expected {
                    self.stage = SingleStage::Done;
                    self.compressed_size = size;
                    self.output_path = path;
                    self.poster = None;
                } else {
                    return None;
                }
            },
            (
                SingleStage::Compressing,
                SingleEvent::Compressed(Ok(EncodeOutcome::Video { size, poster })),
            ) => {
                match self.kind {
                    FileKind::Video => {
                        self.stage = SingleStage::Done;
                        self.compressed_size = size;
                        self.output_path = video_output_path(
                            self.input.as_str(),
                            self.dest.as_str(),
                        );
                        self.poster = poster;
                    },
                    _ => {
                        return None;
                    },
                }
            },
            _ => {
                return None;
            },
        }
        Some(self.pending())
    }
}

/// A job asks for the input to be looked at before anything else, and a path
/// at which nothing exists fails it with `NotFound` at once: no directory is
/// created for it.
pub proof fn lemma_missing_input_fails_first(
    input: Seq<char>,
    output_dir: Seq<char>,
    to_webp: bool,
    generate_poster: bool,
    suffix: Seq<char>,
    probe: PathProbeView,
)
    requires
        !probe.exists,
    ensures
        single_pending(single_start(input, output_dir, to_webp, generate_poster, suffix))
            == SingleActionView::Probe(input),
        single_answer(
            single_start(input, output_dir, to_webp, generate_poster, suffix),
            SingleEventView::Probed(probe),
        ) == Some(SingleActionView::Fail(CompressErrorView::NotFound)),
{
}

/// A job that has failed asks for nothing more: no event moves it, so no
/// directory is created and no compressor is run after a failure.
pub proof fn lemma_failed_job_stays_failed(job: SingleView, event: SingleEventView)
    requires
        job.stage == SingleStage::Failed,
    ensures
        single_answer(job, event) is None,
        single_next(job, event) == job,
{
}

/// A one-file job never covers up a failure of the compressor: whatever the
/// compressor's error, the job fails with it.
pub proof fn lemma_compressor_failure_is_passed_on(job: SingleView, failure: CompressErrorView)
    requires
        job.stage == SingleStage::Compressing,
    ensures
        single_answer(job, SingleEventView::Compressed(Err(failure))) == Some(
            SingleActionView::Fail(failure),
        ),
{
}

/// A job that gets done reports a path made of the whole stem of the input,
/// a hyphen, the suffix, a dot and the extension, under the output directory.
/// For an image this is the path itself, with `webp` as the extension where
/// the image was converted. For a video it is that path with its extension
/// set once more to that of the input, as the video compressor does.
pub proof fn lemma_output_path_keeps_stem_and_suffix(
    input: Seq<char>,
    output_dir: Seq<char>,
    to_webp: bool,
    generate_poster: bool,
    suffix: Seq<char>,
    job: SingleView,
    event: SingleEventView,
)
    requires
        job.input == input,
        job.dest == single_start(input, output_dir, to_webp, generate_poster, suffix).dest,
        single_next(job, event).stage == SingleStage::Done,
        job.stage != SingleStage::Done,
    ensures
        job.dest == path_join(
            output_dir,
            extended_spec(
                suffixed_spec(file_stem_or_empty(input), suffix),
                single_extension_spec(input, to_webp),
            ),
        ),
        job.kind == FileKind::Image ==> single_result(single_next(job, event)).output_path
            == job.dest,
        job.kind != FileKind::Image ==> single_result(single_next(job, event)).output_path
            == video_output_spec(input, job.dest),
{
}

} // verus!
