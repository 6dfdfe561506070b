//! Compressing every media file of a folder.
//!
//! A folder job creates one fresh output directory, named after the input
//! folder and a suffix, scans the input folder, and then handles the files
//! one at a time, in the order of the scan. Each file goes to the place under
//! the output directory that it has under the input folder. A file that the
//! compressor fails on is copied over as it is and counted with its own size:
//! one bad file never stops the job. After each file, compressed or copied,
//! one progress report is issued.
//!
//! Like the other jobs, a folder job does nothing itself. It says what to do
//! next, and the host reports back.

use vstd::prelude::*;
use crate::classify::{kind_named, FileKind};
use crate::model::{
    CompressError, CompressErrorView, CompressResult, CompressResultView, FileInfo,
    FileInfoView, ProgressPayload, ProgressView,
};
use crate::naming::{
    batch_destination, batch_destination_spec, generate_timestamp, is_suffix, output_root,
    output_root_spec, parent_directory,
};
use crate::paths::path_parent;
use crate::scan::{scan_walked, scan_walked_spec, walked_view, WalkedEntry, WalkedEntryView};

verus! {

/// Where a folder job stands.
#[derive(Clone, Copy, Debug, PartialEq, Eq, Structural)]
pub enum BatchStage {
    /// Waiting for the output directory to be created.
    Initializing,
    /// Waiting for the walk of the input folder.
    Scanning,
    /// Handling a file: waiting for the directory of its output to be created.
    Preparing,
    /// Handling a file: waiting for the compressor.
    Compressing,
    /// Handling a file: waiting for it to be copied after the compressor failed.
    Copying,
    /// Handling a file: waiting for its progress report to be delivered.
    Reporting,
    /// Every file was handled.
    Done,
    /// The job failed before any file was handled.
    Failed,
}

/// What the host reports back to a folder job.
#[derive(Debug)]
pub enum BatchEvent {
    /// The output directory exists now (`None`), or the system's message.
    RootCreated(Option<String>),
    /// What the walk of the input folder met, or the system's message where
    /// the folder could not be walked.
    Walked(Result<Vec<WalkedEntry>, String>),
    /// The compressor wrote this many bytes, or failed.
    Compressed(Result<u64, CompressError>),
    /// What was asked for was attempted; how it went does not matter.
    Performed,
}

/// Mathematical model of a [`BatchEvent`].
pub ghost enum BatchEventView {
    RootCreated(Option<Seq<char>>),
    Walked(Result<Seq<WalkedEntryView>, Seq<char>>),
    Compressed(Result<nat, CompressErrorView>),
    Performed,
}

impl View for BatchEvent {
    type V = BatchEventView;

    open spec fn view(&self) -> BatchEventView {
        match self {
            BatchEvent::RootCreated(failure) => BatchEventView::RootCreated(failure.deep_view()),
            BatchEvent::Walked(walked) => BatchEventView::Walked(walked_view(*walked)),
            BatchEvent::Compressed(Ok(size)) => BatchEventView::Compressed(Ok(*size as nat)),
            BatchEvent::Compressed(Err(error)) => BatchEventView::Compressed(Err(error@)),
            BatchEvent::Performed => BatchEventView::Performed,
        }
    }
}

/// What a folder job asks the host to do next.
#[derive(Debug)]
pub enum BatchAction {
    /// Create the output directory with all its parents and report `RootCreated`.
    CreateRoot(String),
    /// Walk this folder and report `Walked`.
    Walk(String),
    /// Create this directory with all its parents and report `Performed`.
    EnsureDir(String),
    /// Re-encode the image at `source` for `dest`, write it, and report `Compressed`.
    CompressImage { source: String, dest: String, to_webp: bool },
    /// Transcode the video at `source` for `dest`, which gets the extension of
    /// `source`, and report `Compressed`.
    CompressVideo { source: String, dest: String, generate_poster: bool },
    /// Copy the file at `source` to `dest` and report `Performed`.
    Copy { source: String, dest: String },
    /// Deliver this progress report and report `Performed`.
    Emit(ProgressPayload),
    /// The job is done; this is its result.
    Finish(CompressResult),
    /// The job has failed.
    Fail(CompressError),
}

/// Mathematical model of a [`BatchAction`].
pub ghost enum BatchActionView {
    CreateRoot(Seq<char>),
    Walk(Seq<char>),
    EnsureDir(Seq<char>),
    CompressImage { source: Seq<char>, dest: Seq<char>, to_webp: bool },
    CompressVideo { source: Seq<char>, dest: Seq<char>, generate_poster: bool },
    Copy { source: Seq<char>, dest: Seq<char> },
    Emit(ProgressView),
    Finish(CompressResultView),
    Fail(CompressErrorView),
}

impl View for BatchAction {
    type V = BatchActionView;

    open spec fn view(&self) -> BatchActionView {
        match self {
            BatchAction::CreateRoot(path) => BatchActionView::CreateRoot(path@),
            BatchAction::Walk(path) => BatchActionView::Walk(path@),
            BatchAction::EnsureDir(path) => BatchActionView::EnsureDir(path@),
            BatchAction::CompressImage { source, dest, to_webp } => BatchActionView::CompressImage {
                source: source@,
                dest: dest@,
                to_webp: *to_webp,
            },
            BatchAction::CompressVideo { source, dest, generate_poster } => {
                BatchActionView::CompressVideo {
                    source: source@,
                    dest: dest@,
                    generate_poster: *generate_poster,
                }
            },
            BatchAction::Copy { source, dest } => BatchActionView::Copy {
                source: source@,
                dest: dest@,
            },
            BatchAction::Emit(progress) => BatchActionView::Emit(progress@),
            BatchAction::Finish(result) => BatchActionView::Finish(result@),
            BatchAction::Fail(error) => BatchActionView::Fail(error@),
        }
    }
}

impl DeepView for BatchAction {
    type V = BatchActionView;

    open spec fn deep_view(&self) -> BatchActionView {
        self@
    }
}

/// The state of a folder job.
#[derive(Debug)]
pub struct BatchJob {
    stage: BatchStage,
    input_dir: String,
    output_root: String,
    to_webp: bool,
    generate_poster: bool,
    files: Vec<FileInfo>,
    index: usize,
    total_original: u64,
    total_compressed: u64,
    last_size: u64,
    failure: CompressError,
}

/// Mathematical model of a [`BatchJob`].
pub ghost struct BatchView {
    /// Where the job stands.
    pub stage: BatchStage,
    /// The folder to compress.
    pub input_dir: Seq<char>,
    /// The directory that holds the job's output.
    pub output_root: Seq<char>,
    /// Images are converted to WebP.
    pub to_webp: bool,
    /// Videos get a poster.
    pub generate_poster: bool,
    /// The media files that the scan found, in its order.
    pub files: Seq<FileInfoView>,
    /// The position of the file in hand.
    pub index: nat,
    /// The sizes of the files reported so far, summed.
    pub total_original: nat,
    /// The sizes of what was written for them, summed.
    pub total_compressed: nat,
    /// The size of what was written for the file in hand.
    pub last_size: nat,
    /// Why the job failed, once it has.
    pub failure: CompressErrorView,
}

impl View for BatchJob {
    type V = BatchView;

    closed spec fn view(&self) -> BatchView {
        BatchView {
            stage: self.stage,
            input_dir: self.input_dir@,
            output_root: self.output_root@,
            to_webp: self.to_webp,
            generate_poster: self.generate_poster,
            files: self.files.deep_view(),
            index: self.index as nat,
            total_original: self.total_original as nat,
            total_compressed: self.total_compressed as nat,
            last_size: self.last_size as nat,
            failure: self.failure@,
        }
    }
}

/// The job is handling a file.
pub open spec fn in_hand(stage: BatchStage) -> bool {
    stage == BatchStage::Preparing || stage == BatchStage::Compressing || stage
        == BatchStage::Copying || stage == BatchStage::Reporting
}

/// The sizes of `files`, summed.
pub open spec fn total_size(files: Seq<FileInfoView>) -> nat
    decreases files.len(),
{
    if files.len() == 0 {
        0
    } else {
        total_size(files.drop_last()) + files.last().size
    }
}

/// The number of progress reports that the job has issued.
pub open spec fn batch_reported(job: BatchView) -> nat {
    if job.stage == BatchStage::Reporting {
        job.index + 1
    } else {
        job.index
    }
}

/// What holds of every job: before the scan nothing is counted; while a file
/// is in hand, there is such a file; once the job is done, every file was
/// handled; and the original sizes counted are those of the files reported.
pub open spec fn batch_wf(job: BatchView) -> bool {
    &&& job.index <= job.files.len()
    &&& in_hand(job.stage) ==> job.index < job.files.len()
    &&& job.stage == BatchStage::Done ==> job.index == job.files.len()
    &&& (job.stage == BatchStage::Initializing || job.stage == BatchStage::Scanning) ==> {
        &&& job.files.len() == 0
        &&& job.total_original == 0
        &&& job.total_compressed == 0
    }
    &&& job.stage != BatchStage::Failed ==> job.total_original == total_size(
        job.files.take(batch_reported(job) as int),
    )
}

/// The file in hand.
pub open spec fn batch_current(job: BatchView) -> FileInfoView {
    job.files[job.index as int]
}

/// Where the output for the file in hand goes.
pub open spec fn batch_dest(job: BatchView) -> Seq<char> {
    batch_destination_spec(job.output_root, job.input_dir, batch_current(job).path)
}

/// A job that has just been started for `input_dir`, to write under
/// `output_dir` into a directory named after the input folder and `suffix`.
pub open spec fn batch_start(
    input_dir: Seq<char>,
    output_dir: Seq<char>,
    to_webp: bool,
    generate_poster: bool,
    suffix: Seq<char>,
) -> BatchView {
    BatchView {
        stage: BatchStage::Initializing,
        input_dir,
        output_root: output_root_spec(input_dir, output_dir, suffix),
        to_webp,
        generate_poster,
        files: Seq::empty(),
        index: 0,
        total_original: 0,
        total_compressed: 0,
        last_size: 0,
        failure: CompressErrorView::NotFound,
    }
}

/// The job has failed for the given reason.
pub open spec fn batch_failed(job: BatchView, failure: CompressErrorView) -> BatchView {
    BatchView { stage: BatchStage::Failed, failure, ..job }
}

/// The job turns to the file at its index: it is done where there is none,
/// and else starts with the directory of the file's output, if the output
/// path names one.
pub open spec fn batch_enter(job: BatchView) -> BatchView {
    BatchView {
        stage: if job.index >= job.files.len() {
            BatchStage::Done
        } else if path_parent(batch_dest(job)) is Some {
            BatchStage::Preparing
        } else {
            BatchStage::Compressing
        },
        ..job
    }
}

/// The file in hand is counted with `size` bytes written for it, and is
/// ready to be reported.
pub open spec fn batch_report(job: BatchView, size: nat) -> BatchView {
    BatchView {
        stage: BatchStage::Reporting,
        last_size: size,
        total_original: job.total_original + batch_current(job).size,
        total_compressed: job.total_compressed + size,
        ..job
    }
}

/// Whether the event answers what the job is waiting for.
pub open spec fn batch_accepts(job: BatchView, event: BatchEventView) -> bool {
    match (job.stage, event) {
        (BatchStage::Initializing, BatchEventView::RootCreated(_)) => true,
        (BatchStage::Scanning, BatchEventView::Walked(_)) => true,
        (BatchStage::Preparing, BatchEventView::Performed) => true,
        (BatchStage::Compressing, BatchEventView::Compressed(_)) => true,
        (BatchStage::Copying, BatchEventView::Performed) => true,
        (BatchStage::Reporting, BatchEventView::Performed) => true,
        _ => false,
    }
}

/// The state of a job after an event; an event that does not answer what the
/// job is waiting for changes nothing.
///
/// Failing to create the output directory, to walk the input folder, or to
/// read the length of a media file in it fails the job. After the scan the
/// files are handled in order. When the compressor succeeds, the file is
/// counted with the size it reports. When it fails, the file is to be copied
/// and is counted with its own size. After the report for a file the job
/// turns to the next.
pub open spec fn batch_next(job: BatchView, event: BatchEventView) -> BatchView {
    match (job.stage, event) {
        (BatchStage::Initializing, BatchEventView::RootCreated(Some(detail))) => batch_failed(
            job,
            CompressErrorView::Io(detail),
        ),
        (BatchStage::Initializing, BatchEventView::RootCreated(None)) => BatchView {
            stage: BatchStage::Scanning,
            ..job
        },
        (BatchStage::Scanning, BatchEventView::Walked(walked)) => match scan_walked_spec(
            job.input_dir,
            walked,
        ) {
            Err(failure) => batch_failed(job, failure),
            Ok(files) => batch_enter(BatchView { files, index: 0, ..job }),
        },
        (BatchStage::Preparing, BatchEventView::Performed) => BatchView {
            stage: BatchStage::Compressing,
            ..job
        },
        (BatchStage::Compressing, BatchEventView::Compressed(Ok(size))) => batch_report(job, size),
        (BatchStage::Compressing, BatchEventView::Compressed(Err(_))) => BatchView {
            stage: BatchStage::Copying,
            last_size: batch_current(job).size,
            ..job
        },
        (BatchStage::Copying, BatchEventView::Performed) => batch_report(job, job.last_size),
        (BatchStage::Reporting, BatchEventView::Performed) => batch_enter(
            BatchView { index: job.index + 1, ..job },
        ),
        _ => job,
    }
}

/// The progress report for the file in hand.
pub open spec fn batch_progress_report(job: BatchView) -> ProgressView {
    ProgressView {
        file: batch_current(job).name,
        current: job.index + 1,
        total: job.files.len(),
        original_size: batch_current(job).size,
        compressed_size: job.last_size,
    }
}

/// The result of a job that is done.
pub open spec fn batch_result(job: BatchView) -> CompressResultView {
    CompressResultView {
        total_original: job.total_original,
        total_compressed: job.total_compressed,
        file_count: job.files.len(),
        output_path: job.output_root,
    }
}

/// What a job is waiting for the host to do.
pub open spec fn batch_pending(job: BatchView) -> BatchActionView {
    match job.stage {
        BatchStage::Initializing => BatchActionView::CreateRoot(job.output_root),
        BatchStage::Scanning => BatchActionView::Walk(job.input_dir),
        BatchStage::Preparing => BatchActionView::EnsureDir(
            match path_parent(batch_dest(job)) {
                Some(parent) => parent,
                None => Seq::empty(),
            },
        ),
        BatchStage::Compressing => if kind_named(batch_current(job).file_type)
            == FileKind::Image {
            BatchActionView::CompressImage {
                source: batch_current(job).path,
                dest: batch_dest(job),
                to_webp: job.to_webp,
            }
        } else {
            BatchActionView::CompressVideo {
                source: batch_current(job).path,
                dest: batch_dest(job),
                generate_poster: job.generate_poster,
            }
        },
        BatchStage::Copying => BatchActionView::Copy {
            source: batch_current(job).path,
            dest: batch_dest(job),
        },
        BatchStage::Reporting => BatchActionView::Emit(batch_progress_report(job)),
        BatchStage::Done => BatchActionView::Finish(batch_result(job)),
        BatchStage::Failed => BatchActionView::Fail(job.failure),
    }
}

/// What a job answers to an event: the next thing to do, or nothing where
/// the event did not answer what the job was waiting for.
pub open spec fn batch_answer(job: BatchView, event: BatchEventView) -> Option<BatchActionView> {
    if batch_accepts(job, event) {
        Some(batch_pending(batch_next(job, event)))
    } else {
        None
    }
}

/// The totals after the event still fit the 64 bits they are kept in.
pub open spec fn batch_fits(job: BatchView, event: BatchEventView) -> bool {
    let next = batch_next(job, event);
    next.total_original <= u64::MAX && next.total_compressed <= u64::MAX
}

/// The sizes of the first `n` files, summed, grow by the size of the next
/// file.
pub proof fn lemma_total_size_step(files: Seq<FileInfoView>, n: int)
    requires
        0 <= n < files.len(),
    ensures
        total_size(files.take(n + 1)) == total_size(files.take(n)) + files[n].size,
{
    assert(files.take(n + 1).drop_last() =~= files.take(n));
}

impl BatchJob {
    /// Starts a job for the folder `input_dir` that writes under
    /// `output_dir`, with the given suffix in the name of its output
    /// directory.
    pub fn start_with_suffix(
        input_dir: &str,
        output_dir: &str,
        to_webp: bool,
        generate_poster: bool,
        suffix: &str,
    ) -> (job: BatchJob)
        ensures
            job@ == batch_start(input_dir@, output_dir@, to_webp, generate_poster, suffix@),
            batch_wf(job@),
    {
        let job = BatchJob {
            stage: BatchStage::Initializing,
            input_dir: input_dir.to_owned(),
            output_root: output_root(input_dir, output_dir, suffix),
            to_webp,
            generate_poster,
            files: Vec::new(),
            index: 0,
            total_original: 0,
            total_compressed: 0,
            last_size: 0,
            failure: CompressError::NotFound,
        };
        proof {
            assert(job.files.deep_view() =~= Seq::<FileInfoView>::empty());
            assert(job@.files.take(0) =~= Seq::<FileInfoView>::empty());
        }
        job
    }

    /// Starts a job for the folder `input_dir` that writes under
    /// `output_dir`, with a suffix taken from the clock.
    pub fn start(input_dir: &str, output_dir: &str, to_webp: bool, generate_poster: bool) -> (job:
        BatchJob)
        ensures
            batch_wf(job@),
            exists|suffix: Seq<char>|
                is_suffix(suffix) && job@ == #[trigger] batch_start(
                    input_dir@,
                    output_dir@,
                    to_webp,
                    generate_poster,
                    suffix,
                ),
    {
        let suffix = generate_timestamp();
        let job = BatchJob::start_with_suffix(
            input_dir,
            output_dir,
            to_webp,
            generate_poster,
            suffix.as_str(),
        );
        assert(job@ == batch_start(input_dir@, output_dir@, to_webp, generate_poster, suffix@));
        job
    }

    /// Where the job stands.
    pub fn stage(&self) -> (stage: BatchStage)
        ensures
            stage == self@.stage,
    {
        self.stage
    }

    /// Whether the totals would still fit after the event. A host checks
    /// this before it hands the event to [`BatchJob::step`].
    pub fn fits(&self, event: &BatchEvent) -> (fitting: bool)
        requires
            batch_wf(self@),
        ensures
            fitting == batch_fits(self@, event@),
    {
        match (self.stage, event) {
            (BatchStage::Compressing, BatchEvent::Compressed(Ok(size))) => {
                let file = &self.files[self.index];
                self.total_original.checked_add(file.size).is_some()
                    && self.total_compressed.checked_add(*size).is_some()
            },
            (BatchStage::Copying, BatchEvent::Performed) => {
                let file = &self.files[self.index];
                self.total_original.checked_add(file.size).is_some()
                    && self.total_compressed.checked_add(self.last_size).is_some()
            },
            _ => true,
        }
    }

    fn destination(&self) -> (dest: String)
        requires
            self@.index < self@.files.len(),
        ensures
            dest@ == batch_dest(self@),
    {
        batch_destination(
            self.output_root.as_str(),
            self.input_dir.as_str(),
            self.files[self.index].path.as_str(),
        )
    }

    /// What the job is waiting for the host to do.
    pub fn pending(&self) -> (action: BatchAction)
        requires
            batch_wf(self@),
        ensures
            action@ == batch_pending(self@),
    {
        match self.stage {
            BatchStage::Initializing => BatchAction::CreateRoot(self.output_root.clone()),
            BatchStage::Scanning => BatchAction::Walk(self.input_dir.clone()),
            BatchStage::Preparing => {
                let dest = self.destination();
                let parent = match parent_directory(dest.as_str()) {
                    Some(parent) => parent,
                    None => String::new(),
                };
                BatchAction::EnsureDir(parent)
            },
            BatchStage::Compressing => {
                let file = &self.files[self.index];
                match FileKind::from_name(file.file_type.as_str()) {
                    FileKind::Image => BatchAction::CompressImage {
                        source: file.path.clone(),
                        dest: self.destination(),
                        to_webp: self.to_webp,
                    },
                    _ => BatchAction::CompressVideo {
                        source: file.path.clone(),
                        dest: self.destination(),
                        generate_poster: self.generate_poster,
                    },
                }
            },
            BatchStage::Copying => {
                let file = &self.files[self.index];
                BatchAction::Copy { source: file.path.clone(), dest: self.destination() }
            },
            BatchStage::Reporting => {
                let file = &self.files[self.index];
                assert(self.index < self.files.len());
                BatchAction::Emit(
                    ProgressPayload {
                        file: file.name.clone(),
                        current: self.index + 1,
                        total: self.files.len(),
                        original_size: file.size,
                        compressed_size: self.last_size,
                    },
                )
            },
            BatchStage::Done => BatchAction::Finish(
                CompressResult {
                    total_original: self.total_original,
                    total_compressed: self.total_compressed,
                    file_count: self.files.len(),
                    output_path: self.output_root.clone(),
                },
            ),
            BatchStage::Failed => BatchAction::Fail(self.failure.duplicate()),
        }
    }

    fn fail(&mut self, failure: CompressError)
        ensures
            final(self)@ == batch_failed(old(self)@, failure@),
    {
        self.stage = BatchStage::Failed;
        self.failure = failure;
    }

    fn enter(&mut self)
        requires
            old(self)@.index <= old(self)@.files.len(),
        ensures
            final(self)@ == batch_enter(old(self)@),
    {
        if self.index >= self.files.len() {
            self.stage = BatchStage::Done;
        } else {
            let dest = self.destination();
            self.stage = match parent_directory(dest.as_str()) {
                Some(_) => BatchStage::Preparing,
                None => BatchStage::Compressing,
            };
        }
    }

    fn report(&mut self, size: u64)
        requires
            old(self)@.index < old(self)@.files.len(),
            old(self)@.total_original + batch_current(old(self)@).size <= u64::MAX,
            old(self)@.total_compressed + size <= u64::MAX,
        ensures
            final(self)@ == batch_report(old(self)@, size as nat),
    {
        let original = self.files[self.index].size;
        self.stage = BatchStage::Reporting;
        self.last_size = size;
        self.total_original = self.total_original + original;
        self.total_compressed = self.total_compressed + size;
    }

    /// Takes in what the host reports and says what to do next; `None` where
    /// the event did not answer what the job was waiting for.
    ///
    /// The totals are kept in 64 bits: the host checks with
    /// [`BatchJob::fits`] that they still fit.
    pub fn step(&mut self, event: BatchEvent) -> (action: Option<BatchAction>)
        requires
            batch_wf(old(self)@),
            batch_fits(old(self)@, event@),
        ensures
            batch_wf(final(self)@),
            final(self)@ == batch_next(old(self)@, event@),
            action.deep_view() == batch_answer(old(self)@, event@),
    {
        proof {
            lemma_batch_next_wf(self@, event@);
        }
        match (self.stage, event) {
            (BatchStage::Initializing, BatchEvent::RootCreated(Some(detail))) => {
                self.fail(CompressError::Io(detail));
            },
            (BatchStage::Initializing, BatchEvent::RootCreated(None)) => {
                self.stage = BatchStage::Scanning;
            },
            (BatchStage::Scanning, BatchEvent::Walked(walked)) => {
                match scan_walked(self.input_dir.as_str(), &walked) {
                    Err(failure) => {
                        self.fail(failure);
                    },
                    Ok(files) => {
                        self.files = files;
                        self.index = 0;
                        self.enter();
                    },
                }
            },
            (BatchStage::Preparing, BatchEvent::Performed) => {
                self.stage = BatchStage::Compressing;
            },
            (BatchStage::Compressing, BatchEvent::Compressed(Ok(size))) => {
                self.report(size);
            },
            (BatchStage::Compressing, BatchEvent::Compressed(Err(_))) => {
                self.stage = BatchStage::Copying;
                self.last_size = self.files[self.index].size;
            },
            (BatchStage::Copying, BatchEvent::Performed) => {
                let size = self.last_size;
                self.report(size);
            },
            (BatchStage::Reporting, BatchEvent::Performed) => {
                assert(self.index < self.files.len());
                self.index = self.index + 1;
                self.enter();
            },
            _ => {
                return None;
            },
        }
        Some(self.pending())
    }
}

/// Every event leaves a job as it should be.
pub proof fn lemma_batch_next_wf(job: BatchView, event: BatchEventView)
    requires
        batch_wf(job),
    ensures
        batch_wf(batch_next(job, event)),
{
    let next = batch_next(job, event);
    match (job.stage, event) {
        (BatchStage::Scanning, BatchEventView::Walked(walked)) => {
            match scan_walked_spec(job.input_dir, walked) {
                Ok(files) => {
                    assert(files.take(0) =~= Seq::<FileInfoView>::empty());
                },
                Err(_) => {},
            }
        },
        (BatchStage::Compressing, BatchEventView::Compressed(Ok(_))) => {
            lemma_total_size_step(job.files, job.index as int);
        },
        (BatchStage::Copying, BatchEventView::Performed) => {
            lemma_total_size_step(job.files, job.index as int);
        },
        _ => {},
    }
}

/// The state of a job after a run of events.
pub open spec fn batch_after(job: BatchView, events: Seq<BatchEventView>) -> BatchView
    decreases events.len(),
{
    if events.len() == 0 {
        job
    } else {
        batch_after(batch_next(job, events.first()), events.drop_first())
    }
}

/// The progress reports that a job issues in answer to a run of events, in
/// the order in which it issues them.
pub open spec fn batch_progress(job: BatchView, events: Seq<BatchEventView>) -> Seq<ProgressView>
    decreases events.len(),
{
    if events.len() == 0 {
        Seq::empty()
    } else {
        let later = batch_progress(batch_next(job, events.first()), events.drop_first());
        match batch_answer(job, events.first()) {
            Some(BatchActionView::Emit(report)) => seq![report] + later,
            _ => later,
        }
    }
}

/// The original sizes in `reports`, summed.
pub open spec fn sum_original(reports: Seq<ProgressView>) -> nat
    decreases reports.len(),
{
    if reports.len() == 0 {
        0
    } else {
        reports.first().original_size + sum_original(reports.drop_first())
    }
}

/// The resulting sizes in `reports`, summed.
pub open spec fn sum_compressed(reports: Seq<ProgressView>) -> nat
    decreases reports.len(),
{
    if reports.len() == 0 {
        0
    } else {
        reports.first().compressed_size + sum_compressed(reports.drop_first())
    }
}

/// What a run of events does to any job, told from where the job stands.
///
/// The job stays as it should be. The reports issued continue the count
/// where the job had left it, each names the file at its position with that
/// file's size, and each gives the number of files as the total. The totals
/// grow by exactly the sizes in the reports. Once the scan is over, the list
/// of files never changes.
pub proof fn lemma_batch_run(job: BatchView, events: Seq<BatchEventView>)
    requires
        batch_wf(job),
    ensures
        batch_wf(batch_after(job, events)),
        batch_reported(batch_after(job, events)) == batch_reported(job) + batch_progress(
            job,
            events,
        ).len(),
        forall|k: int|
            0 <= k < batch_progress(job, events).len() ==> {
                let report = #[trigger] batch_progress(job, events)[k];
                let place = batch_reported(job) + k;
                &&& place < batch_after(job, events).files.len()
                &&& report.current == place + 1
                &&& report.total == batch_after(job, events).files.len()
                &&& report.file == batch_after(job, events).files[place].name
                &&& report.original_size == batch_after(job, events).files[place].size
            },
        batch_after(job, events).stage != BatchStage::Failed ==> batch_after(
            job,
            events,
        ).total_original == job.total_original + sum_original(batch_progress(job, events)),
        batch_after(job, events).stage != BatchStage::Failed ==> batch_after(
            job,
            events,
        ).total_compressed == job.total_compressed + sum_compressed(batch_progress(job, events)),
        job.stage != BatchStage::Initializing && job.stage != BatchStage::Scanning ==> batch_after(
            job,
            events,
        ).files == job.files,
        job.stage == BatchStage::Failed ==> batch_after(job, events).stage == BatchStage::Failed,
    decreases events.len(),
{
    if events.len() > 0 {
        let first = events.first();
        let rest = events.drop_first();
        let mid = batch_next(job, first);
        lemma_batch_next_wf(job, first);
        lemma_batch_run(mid, rest);
        let end = batch_after(job, events);
        let reports = batch_progress(job, events);
        let later = batch_progress(mid, rest);
        assert(end == batch_after(mid, rest));
        if batch_accepts(job, first) && mid.stage == BatchStage::Reporting {
            let report = batch_progress_report(mid);
            assert(reports == seq![report] + later);
            assert(reports.drop_first() =~= later);
            assert(reports.first() == report);
            assert(end.files == mid.files);
            assert(mid.files == job.files);
            assert forall|k: int| 0 <= k < reports.len() implies {
                let found = #[trigger] reports[k];
                let place = batch_reported(job) + k;
                &&& place < end.files.len()
                &&& found.current == place + 1
                &&& found.total == end.files.len()
                &&& found.file == end.files[place].name
                &&& found.original_size == end.files[place].size
            } by {
                if k > 0 {
                    assert(reports[k] == later[k - 1]);
                }
            }
        } else {
            assert(reports == later);
            assert(batch_reported(mid) == batch_reported(job));
            assert forall|k: int| 0 <= k < reports.len() implies {
                let found = #[trigger] reports[k];
                let place = batch_reported(job) + k;
                &&& place < end.files.len()
                &&& found.current == place + 1
                &&& found.total == end.files.len()
                &&& found.file == end.files[place].name
                &&& found.original_size == end.files[place].size
            } by {
                assert(reports[k] == later[k]);
            }
        }
    }
}

/// The progress reports of a folder job count 1, 2, 3 and so on without a
/// gap or a repeat, whatever events arrive and however many files had to be
/// copied; each gives the number of files found as the total; and a job that
/// gets done has issued exactly one report for each file.
pub proof fn lemma_progress_counts_from_one(job: BatchView, events: Seq<BatchEventView>)
    requires
        batch_wf(job),
        job.stage == BatchStage::Initializing,
    ensures
        batch_progress(job, events).len() <= batch_after(job, events).files.len(),
        forall|k: int|
            0 <= k < batch_progress(job, events).len() ==> {
                &&& (#[trigger] batch_progress(job, events)[k]).current == k + 1
                &&& batch_progress(job, events)[k].total == batch_after(job, events).files.len()
                &&& 1 <= batch_progress(job, events)[k].current <= batch_progress(
                    job,
                    events,
                )[k].total
            },
        batch_after(job, events).stage == BatchStage::Done ==> batch_progress(job, events).len()
            == batch_after(job, events).files.len(),
{
    lemma_batch_run(job, events);
    let end = batch_after(job, events);
    let reports = batch_progress(job, events);
    if reports.len() > 0 {
        assert(reports[reports.len() - 1].current == reports.len());
    }
}

/// The result of a folder job that gets done holds the number of files
/// found, the sum of their sizes, and the sum of the resulting sizes that
/// were reported for them; each report gives its file's own size as the
/// original size.
pub proof fn lemma_totals_are_sums(job: BatchView, events: Seq<BatchEventView>)
    requires
        batch_wf(job),
        job.stage == BatchStage::Initializing,
        batch_after(job, events).stage == BatchStage::Done,
    ensures
        batch_result(batch_after(job, events)).file_count == batch_after(job, events).files.len(),
        batch_result(batch_after(job, events)).total_original == total_size(
            batch_after(job, events).files,
        ),
        batch_result(batch_after(job, events)).total_original == sum_original(
            batch_progress(job, events),
        ),
        batch_result(batch_after(job, events)).total_compressed == sum_compressed(
            batch_progress(job, events),
        ),
        batch_progress(job, events).len() == batch_after(job, events).files.len(),
        forall|k: int|
            0 <= k < batch_progress(job, events).len() ==> (#[trigger] batch_progress(
                job,
                events,
            )[k]).original_size == batch_after(job, events).files[k].size,
{
    lemma_batch_run(job, events);
    let end = batch_after(job, events);
    assert(end.files.take(end.files.len() as int) =~= end.files);
}

/// Once the scan is over, nothing fails the job: whatever happens to the
/// single files, the job goes on until it is done.
pub proof fn lemma_no_file_fails_the_job(job: BatchView, events: Seq<BatchEventView>)
    requires
        batch_wf(job),
        in_hand(job.stage) || job.stage == BatchStage::Done,
    ensures
        in_hand(batch_after(job, events).stage) || batch_after(job, events).stage
            == BatchStage::Done,
    decreases events.len(),
{
    if events.len() > 0 {
        lemma_batch_next_wf(job, events.first());
        lemma_no_file_fails_the_job(batch_next(job, events.first()), events.drop_first());
    }
}

/// A file on which the compressor fails is copied and reported with its own
/// size as the resulting size, whatever the failure was.
pub proof fn lemma_fallback_keeps_size(job: BatchView, failure: CompressErrorView)
    requires
        batch_wf(job),
        job.stage == BatchStage::Compressing,
    ensures
        batch_answer(job, BatchEventView::Compressed(Err(failure))) == Some(
            BatchActionView::Copy { source: batch_current(job).path, dest: batch_dest(job) },
        ),
        batch_answer(
            batch_next(job, BatchEventView::Compressed(Err(failure))),
            BatchEventView::Performed,
        ) matches Some(BatchActionView::Emit(report)) && report.compressed_size
            == report.original_size && report.original_size == batch_current(job).size,
{
}

} // verus!
