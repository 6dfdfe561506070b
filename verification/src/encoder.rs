//! The external video encoder: where it is looked for and how it is called.
//!
//! The encoder is an `ffmpeg` executable. The engine never starts it itself:
//! it says which program to run with which arguments, and the host reports
//! how the run ended.

use vstd::prelude::*;
use vstd::string::StringExecFns;
use crate::model::{CompressError, CompressErrorView, FFmpegStatus, FFmpegStatusView};
use crate::paths::{join, path_join};
use crate::text::{duplicate_option, first_line, first_line_spec, trim, trimmed};

verus! {

/// The arguments of a transcoding run.
///
/// They keep every stream of the input (`-map 0`), encode video as H.264 at
/// constant quality 23 with the `medium` preset and the `yuv420p` pixel
/// format, encode audio as AAC at 128 kbit/s, copy subtitles, mark the first
/// video stream as the default, move the index to the front for progressive
/// playback, enlarge the muxing queue, and overwrite the output.
pub open spec fn encode_arguments_spec(input: Seq<char>, output: Seq<char>) -> Seq<Seq<char>> {
    seq![
        "-i"@,
        input,
        "-map"@,
        "0"@,
        "-c:v"@,
        "libx264"@,
        "-crf"@,
        "23"@,
        "-preset"@,
        "medium"@,
        "-pix_fmt"@,
        "yuv420p"@,
        "-c:a"@,
        "aac"@,
        "-b:a"@,
        "128k"@,
        "-c:s"@,
        "copy"@,
        "-disposition:v:0"@,
        "default"@,
        "-movflags"@,
        "+faststart"@,
        "-max_muxing_queue_size"@,
        "1024"@,
        output,
        "-y"@,
    ]
}

/// The arguments of a transcoding run from `input` to `output`.
pub fn encode_arguments(input: &str, output: &str) -> (arguments: Vec<String>)
    ensures
        arguments.deep_view() == encode_arguments_spec(input@, output@),
{
    let mut arguments: Vec<String> = Vec::new();
    arguments.push(String::from_str("-i"));
    arguments.push(String::from_str(input));
    arguments.push(String::from_str("-map"));
    arguments.push(String::from_str("0"));
    arguments.push(String::from_str("-c:v"));
    arguments.push(String::from_str("libx264"));
    arguments.push(String::from_str("-crf"));
    arguments.push(String::from_str("23"));
    arguments.push(String::from_str("-preset"));
    arguments.push(String::from_str("medium"));
    arguments.push(String::from_str("-pix_fmt"));
    arguments.push(String::from_str("yuv420p"));
    arguments.push(String::from_str("-c:a"));
    arguments.push(String::from_str("aac"));
    arguments.push(String::from_str("-b:a"));
    arguments.push(String::from_str("128k"));
    arguments.push(String::from_str("-c:s"));
    arguments.push(String::from_str("copy"));
    arguments.push(String::from_str("-disposition:v:0"));
    arguments.push(String::from_str("default"));
    arguments.push(String::from_str("-movflags"));
    arguments.push(String::from_str("+faststart"));
    arguments.push(String::from_str("-max_muxing_queue_size"));
    arguments.push(String::from_str("1024"));
    arguments.push(String::from_str(output));
    arguments.push(String::from_str("-y"));
    assert(arguments.deep_view() =~= encode_arguments_spec(input@, output@));
    arguments
}

/// The arguments of a run that takes one frame of good quality from a video
/// and overwrites the output.
pub open spec fn poster_arguments_spec(input: Seq<char>, frame: Seq<char>) -> Seq<Seq<char>> {
    seq!["-i"@, input, "-vframes"@, "1"@, "-q:v"@, "2"@, frame, "-y"@]
}

/// The arguments of a run that writes one frame of `input` to `frame`.
pub fn poster_arguments(input: &str, frame: &str) -> (arguments: Vec<String>)
    ensures
        arguments.deep_view() == poster_arguments_spec(input@, frame@),
{
    let mut arguments: Vec<String> = Vec::new();
    arguments.push(String::from_str("-i"));
    arguments.push(String::from_str(input));
    arguments.push(String::from_str("-vframes"));
    arguments.push(String::from_str("1"));
    arguments.push(String::from_str("-q:v"));
    arguments.push(String::from_str("2"));
    arguments.push(String::from_str(frame));
    arguments.push(String::from_str("-y"));
    assert(arguments.deep_view() =~= poster_arguments_spec(input@, frame@));
    arguments
}

/// Calls `dirs::data_dir`. Nothing is promised of the result: it depends on
/// the user's environment.
#[verifier::external_body]
fn data_dir() -> (dir: Option<String>) {
    dirs::data_dir().map(|dir| dir.to_string_lossy().into_owned())
}

/// The directory that holds the engine's own encoder, under the user's data
/// directory `data`.
pub open spec fn ffmpeg_dir_spec(data: Seq<char>) -> Seq<char> {
    path_join(path_join(data, "com.falcocut.compress-tool"@), "bin"@)
}

/// What [`ffmpeg_dir_under`] returns.
pub open spec fn ffmpeg_dir_under_spec(data: Option<Seq<char>>) -> Result<
    Seq<char>,
    CompressErrorView,
> {
    match data {
        Some(data) => Ok(ffmpeg_dir_spec(data)),
        None => Err(CompressErrorView::Io("无法获取应用数据目录"@)),
    }
}

/// Mathematical model of a path or the reason why there is none.
pub open spec fn path_result_view(result: Result<String, CompressError>) -> Result<
    Seq<char>,
    CompressErrorView,
> {
    match result {
        Ok(path) => Ok(path@),
        Err(error) => Err(error@),
    }
}

/// The directory that holds the engine's own encoder, given the user's data
/// directory; an error where the user has none.
pub fn ffmpeg_dir_under(data: &Option<String>) -> (dir: Result<String, CompressError>)
    ensures
        path_result_view(dir) == ffmpeg_dir_under_spec(data.deep_view()),
{
    match data {
        Some(data) => {
            let home = join(data.as_str(), "com.falcocut.compress-tool");
            Ok(join(home.as_str(), "bin"))
        },
        None => Err(CompressError::Io(String::from_str("无法获取应用数据目录"))),
    }
}

/// The directory that holds the engine's own encoder, for the user's data
/// directory as the environment gives it.
pub fn get_ffmpeg_dir() -> (dir: Result<String, CompressError>)
    ensures
        exists|data: Option<Seq<char>>| path_result_view(dir) == #[trigger] ffmpeg_dir_under_spec(data),
{
    let data = data_dir();
    let dir = ffmpeg_dir_under(&data);
    assert(path_result_view(dir) == ffmpeg_dir_under_spec(data.deep_view()));
    dir
}

/// How a process that was run to its end came out.
#[derive(Debug)]
pub struct ProcessOutput {
    /// The process exited with status zero.
    pub success: bool,
    /// What it wrote to its standard output.
    pub stdout: String,
}

/// Mathematical model of a [`ProcessOutput`].
pub ghost struct ProcessOutputView {
    pub success: bool,
    pub stdout: Seq<char>,
}

impl View for ProcessOutput {
    type V = ProcessOutputView;

    open spec fn view(&self) -> ProcessOutputView {
        ProcessOutputView { success: self.success, stdout: self.stdout@ }
    }
}

impl DeepView for ProcessOutput {
    type V = ProcessOutputView;

    open spec fn deep_view(&self) -> ProcessOutputView {
        self@
    }
}

/// The path that a `which ffmpeg` run names: its output without surrounding
/// whitespace, if the run succeeded and printed anything else.
pub open spec fn path_from_which_spec(run: Option<ProcessOutputView>) -> Option<Seq<char>> {
    match run {
        Some(output) => if output.success && trimmed(output.stdout).len() > 0 {
            Some(trimmed(output.stdout))
        } else {
            None
        },
        None => None,
    }
}

/// The path that a `which ffmpeg` run names; `run` is `None` where the
/// process could not be started.
pub fn path_from_which(run: &Option<ProcessOutput>) -> (path: Option<String>)
    ensures
        path.deep_view() == path_from_which_spec(run.deep_view()),
{
    match run {
        Some(output) => {
            if output.success {
                let path = trim(output.stdout.as_str());
                if path.as_str().is_empty() {
                    None
                } else {
                    Some(path)
                }
            } else {
                None
            }
        },
        None => None,
    }
}

/// The version that an `ffmpeg -version` run reports: the first line of its
/// output, if the run succeeded.
pub open spec fn version_from_run_spec(run: Option<ProcessOutputView>) -> Option<Seq<char>> {
    match run {
        Some(output) => if output.success {
            first_line_spec(output.stdout)
        } else {
            None
        },
        None => None,
    }
}

/// The version that an `ffmpeg -version` run reports; `run` is `None` where
/// the process could not be started.
pub fn get_ffmpeg_version(run: &Option<ProcessOutput>) -> (version: Option<String>)
    ensures
        version.deep_view() == version_from_run_spec(run.deep_view()),
{
    match run {
        Some(output) => {
            if output.success {
                first_line(output.stdout.as_str())
            } else {
                None
            }
        },
        None => None,
    }
}

/// Where a search for the encoder stands.
#[derive(Clone, Copy, Debug, PartialEq, Eq, Structural)]
pub enum ProbeStage {
    /// Waiting to learn whether the engine's own encoder exists.
    CheckingBundled,
    /// Waiting for `which ffmpeg` to end.
    AskingPath,
    /// Waiting for `ffmpeg -version` to end.
    AskingVersion,
    /// The search is over.
    Done,
}

/// What the host reports back to a search.
#[derive(Debug)]
pub enum ProbeEvent {
    /// Whether a file exists at the path that was asked about.
    Exists(bool),
    /// How the process that was asked for ended; `None` where it could not be started.
    Ran(Option<ProcessOutput>),
}

/// Mathematical model of a [`ProbeEvent`].
pub ghost enum ProbeEventView {
    Exists(bool),
    Ran(Option<ProcessOutputView>),
}

impl View for ProbeEvent {
    type V = ProbeEventView;

    open spec fn view(&self) -> ProbeEventView {
        match self {
            ProbeEvent::Exists(exists) => ProbeEventView::Exists(*exists),
            ProbeEvent::Ran(run) => ProbeEventView::Ran(run.deep_view()),
        }
    }
}

/// What a search asks the host to do next.
#[derive(Debug)]
pub enum ProbeAction {
    /// Find out whether a file exists at this path, and report `Exists`.
    Exists(String),
    /// Run this program with these arguments, collect its standard output, and report `Ran`.
    Run { program: String, arguments: Vec<String> },
    /// The search is over; this is its result.
    Report(FFmpegStatus),
}

/// Mathematical model of a [`ProbeAction`].
pub ghost enum ProbeActionView {
    Exists(Seq<char>),
    Run { program: Seq<char>, arguments: Seq<Seq<char>> },
    Report(FFmpegStatusView),
}

impl View for ProbeAction {
    type V = ProbeActionView;

    open spec fn view(&self) -> ProbeActionView {
        match self {
            ProbeAction::Exists(path) => ProbeActionView::Exists(path@),
            ProbeAction::Run { program, arguments } => ProbeActionView::Run {
                program: program@,
                arguments: arguments.deep_view(),
            },
            ProbeAction::Report(status) => ProbeActionView::Report(status@),
        }
    }
}

impl DeepView for ProbeAction {
    type V = ProbeActionView;

    open spec fn deep_view(&self) -> ProbeActionView {
        self@
    }
}

/// A search for the encoder, and optionally for its version.
///
/// The engine's own copy under the user's data directory is preferred; if
/// there is none, the `ffmpeg` that `which` finds on the search path is
/// taken.
#[derive(Debug)]
pub struct EncoderProbe {
    stage: ProbeStage,
    want_version: bool,
    candidate: String,
    found: Option<String>,
    version: Option<String>,
}

/// Mathematical model of an [`EncoderProbe`].
pub ghost struct ProbeView {
    pub stage: ProbeStage,
    pub want_version: bool,
    pub candidate: Seq<char>,
    pub found: Option<Seq<char>>,
    pub version: Option<Seq<char>>,
}

impl View for EncoderProbe {
    type V = ProbeView;

    closed spec fn view(&self) -> ProbeView {
        ProbeView {
            stage: self.stage,
            want_version: self.want_version,
            candidate: self.candidate@,
            found: self.found.deep_view(),
            version: self.version.deep_view(),
        }
    }
}

/// The request to run `which ffmpeg`.
pub open spec fn which_action() -> ProbeActionView {
    ProbeActionView::Run { program: "which"@, arguments: seq!["ffmpeg"@] }
}

/// The request to run the encoder at `path` with `-version`.
pub open spec fn version_action(path: Seq<char>) -> ProbeActionView {
    ProbeActionView::Run { program: path, arguments: seq!["-version"@] }
}

/// What a search has found so far.
pub open spec fn probe_status(probe: ProbeView) -> FFmpegStatusView {
    match probe.found {
        Some(path) => FFmpegStatusView {
            installed: true,
            version: probe.version,
            path: Some(path),
        },
        None => FFmpegStatusView { installed: false, version: None, path: None },
    }
}

/// What a search is waiting for the host to do.
pub open spec fn probe_pending(probe: ProbeView) -> ProbeActionView {
    match probe.stage {
        ProbeStage::CheckingBundled => ProbeActionView::Exists(probe.candidate),
        ProbeStage::AskingPath => which_action(),
        ProbeStage::AskingVersion => version_action(
            match probe.found {
                Some(path) => path,
                None => Seq::empty(),
            },
        ),
        ProbeStage::Done => ProbeActionView::Report(probe_status(probe)),
    }
}

/// The state of a search once the encoder is known to be at `path`.
pub open spec fn probe_found(probe: ProbeView, path: Seq<char>) -> ProbeView {
    ProbeView {
        stage: if probe.want_version {
            ProbeStage::AskingVersion
        } else {
            ProbeStage::Done
        },
        found: Some(path),
        version: None,
        ..probe
    }
}

/// How a search starts: with the engine's own encoder if the user has a data
/// directory, else with the search path.
pub open spec fn probe_start(data: Option<Seq<char>>, want_version: bool) -> ProbeView {
    match data {
        Some(data) => ProbeView {
            stage: ProbeStage::CheckingBundled,
            want_version,
            candidate: path_join(ffmpeg_dir_spec(data), "ffmpeg"@),
            found: None,
            version: None,
        },
        None => ProbeView {
            stage: ProbeStage::AskingPath,
            want_version,
            candidate: Seq::empty(),
            found: None,
            version: None,
        },
    }
}

/// Whether the event answers what the search is waiting for.
pub open spec fn probe_accepts(probe: ProbeView, event: ProbeEventView) -> bool {
    match (probe.stage, event) {
        (ProbeStage::CheckingBundled, ProbeEventView::Exists(_)) => true,
        (ProbeStage::AskingPath, ProbeEventView::Ran(_)) => true,
        (ProbeStage::AskingVersion, ProbeEventView::Ran(_)) => true,
        _ => false,
    }
}

/// The state of a search after an event; an event that does not answer what
/// the search is waiting for changes nothing.
///
/// The engine's own encoder is taken if it exists. Otherwise the path that
/// `which ffmpeg` names is taken, and without one the search ends with
/// nothing found. The version, where it is wanted, is the first line that
/// the encoder prints when run with `-version`.
pub open spec fn probe_next(probe: ProbeView, event: ProbeEventView) -> ProbeView {
    match (probe.stage, event) {
        (ProbeStage::CheckingBundled, ProbeEventView::Exists(true)) => probe_found(
            probe,
            probe.candidate,
        ),
        (ProbeStage::CheckingBundled, ProbeEventView::Exists(false)) => ProbeView {
            stage: ProbeStage::AskingPath,
            ..probe
        },
        (ProbeStage::AskingPath, ProbeEventView::Ran(run)) => match path_from_which_spec(run) {
            Some(path) => probe_found(probe, path),
            None => ProbeView { stage: ProbeStage::Done, found: None, version: None, ..probe },
        },
        (ProbeStage::AskingVersion, ProbeEventView::Ran(run)) => ProbeView {
            stage: ProbeStage::Done,
            version: version_from_run_spec(run),
            ..probe
        },
        _ => probe,
    }
}

/// What a search answers to an event: the next thing to do, or nothing
/// where the event did not answer what the search was waiting for.
pub open spec fn probe_answer(probe: ProbeView, event: ProbeEventView) -> Option<ProbeActionView> {
    if probe_accepts(probe, event) {
        Some(probe_pending(probe_next(probe, event)))
    } else {
        None
    }
}

impl EncoderProbe {
    /// Where the search stands.
    pub fn stage(&self) -> (stage: ProbeStage)
        ensures
            stage == self@.stage,
    {
        self.stage
    }

    /// What has been found so far.
    pub fn status(&self) -> (status: FFmpegStatus)
        ensures
            status@ == probe_status(self@),
    {
        match &self.found {
            Some(path) => FFmpegStatus {
                installed: true,
                version: duplicate_option(&self.version),
                path: Some(path.clone()),
            },
            None => FFmpegStatus { installed: false, version: None, path: None },
        }
    }

    /// What the search is waiting for the host to do.
    pub fn pending(&self) -> (action: ProbeAction)
        ensures
            action@ == probe_pending(self@),
    {
        match self.stage {
            ProbeStage::CheckingBundled => ProbeAction::Exists(self.candidate.clone()),
            ProbeStage::AskingPath => {
                let mut arguments: Vec<String> = Vec::new();
                arguments.push(String::from_str("ffmpeg"));
                assert(arguments.deep_view() =~= seq!["ffmpeg"@]);
                ProbeAction::Run { program: String::from_str("which"), arguments }
            },
            ProbeStage::AskingVersion => {
                let program = match &self.found {
                    Some(path) => path.clone(),
                    None => String::new(),
                };
                let mut arguments: Vec<String> = Vec::new();
                arguments.push(String::from_str("-version"));
                assert(arguments.deep_view() =~= seq!["-version"@]);
                ProbeAction::Run { program, arguments }
            },
            ProbeStage::Done => ProbeAction::Report(self.status()),
        }
    }

    /// Starts a search, given the user's data directory if there is one;
    /// `want_version` asks for the encoder's version as well.
    pub fn start_under(data: &Option<String>, want_version: bool) -> (probe: EncoderProbe)
        ensures
            probe@ == probe_start(data.deep_view(), want_version),
    {
        match data {
            Some(data) => {
                let home = join(data.as_str(), "com.falcocut.compress-tool");
                let dir = join(home.as_str(), "bin");
                EncoderProbe {
                    stage: ProbeStage::CheckingBundled,
                    want_version,
                    candidate: join(dir.as_str(), "ffmpeg"),
                    found: None,
                    version: None,
                }
            },
            None => EncoderProbe {
                stage: ProbeStage::AskingPath,
                want_version,
                candidate: String::new(),
                found: None,
                version: None,
            },
        }
    }

    /// Starts a search for the user's data directory as the environment gives it.
    pub fn start(want_version: bool) -> (probe: EncoderProbe)
        ensures
            exists|data: Option<Seq<char>>| probe@ == #[trigger] probe_start(data, want_version),
    {
        let data = data_dir();
        let probe = EncoderProbe::start_under(&data, want_version);
        assert(probe@ == probe_start(data.deep_view(), want_version));
        probe
    }

    fn settle(&mut self, path: String)
        ensures
            final(self)@ == probe_found(old(self)@, path@),
    {
        self.stage = if self.want_version {
            ProbeStage::AskingVersion
        } else {
            ProbeStage::Done
        };
        self.found = Some(path);
        self.version = None;
    }

    /// Takes in what the host reports and says what to do next; `None` where
    /// the event did not answer what the search was waiting for.
    pub fn step(&mut self, event: ProbeEvent) -> (action: Option<ProbeAction>)
        ensures
            final(self)@ == probe_next(old(self)@, event@),
            action.deep_view() == probe_answer(old(self)@, event@),
    {
        match (self.stage, event) {
            (ProbeStage::CheckingBundled, ProbeEvent::Exists(exists)) => {
                if exists {
                    let path = self.candidate.clone();
                    self.settle(path);
                } else {
                    self.stage = ProbeStage::AskingPath;
                }
            },
            (ProbeStage::AskingPath, ProbeEvent::Ran(run)) => {
                match path_from_which(&run) {
                    Some(path) => {
                        self.settle(path);
                    },
                    None => {
                        self.stage = ProbeStage::Done;
                        self.found = None;
                        self.version = None;
                    },
                }
            },
            (ProbeStage::AskingVersion, ProbeEvent::Ran(run)) => {
                self.stage = ProbeStage::Done;
                self.version = get_ffmpeg_version(&run);
            },
            _ => {
                return None;
            },
        }
        Some(self.pending())
    }
}

} // verus!
