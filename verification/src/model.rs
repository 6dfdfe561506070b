//! Plain data exchanged between the engine and its host, with their models.

use vstd::prelude::*;
use vstd::string::StringExecFns;

verus! {

/// One discovered media file.
#[derive(Clone, Debug)]
pub struct FileInfo {
    /// Path of the file as it was found.
    pub path: String,
    /// Path relative to the scanned root, or the bare file name for a single file.
    pub name: String,
    /// Length of the file in bytes.
    pub size: u64,
    /// `"image"` or `"video"`.
    pub file_type: String,
    /// Extension of the file, lower-cased, without the dot.
    pub extension: String,
}

/// Mathematical model of a [`FileInfo`].
pub ghost struct FileInfoView {
    pub path: Seq<char>,
    pub name: Seq<char>,
    pub size: nat,
    pub file_type: Seq<char>,
    pub extension: Seq<char>,
}

impl View for FileInfo {
    type V = FileInfoView;

    open spec fn view(&self) -> FileInfoView {
        FileInfoView {
            path: self.path@,
            name: self.name@,
            size: self.size as nat,
            file_type: self.file_type@,
            extension: self.extension@,
        }
    }
}

impl DeepView for FileInfo {
    type V = FileInfoView;

    open spec fn deep_view(&self) -> FileInfoView {
        self@
    }
}

/// One unit of batch progress, reported after each file.
#[derive(Clone, Debug)]
pub struct ProgressPayload {
    /// Display name of the file that was just handled.
    pub file: String,
    /// Position of the file in the batch, counted from one.
    pub current: usize,
    /// Number of files in the batch.
    pub total: usize,
    /// Size of the file before compression.
    pub original_size: u64,
    /// Size of what was written for it.
    pub compressed_size: u64,
}

/// Mathematical model of a [`ProgressPayload`].
pub ghost struct ProgressView {
    pub file: Seq<char>,
    pub current: nat,
    pub total: nat,
    pub original_size: nat,
    pub compressed_size: nat,
}

impl View for ProgressPayload {
    type V = ProgressView;

    open spec fn view(&self) -> ProgressView {
        ProgressView {
            file: self.file@,
            current: self.current as nat,
            total: self.total as nat,
            original_size: self.original_size as nat,
            compressed_size: self.compressed_size as nat,
        }
    }
}

impl DeepView for ProgressPayload {
    type V = ProgressView;

    open spec fn deep_view(&self) -> ProgressView {
        self@
    }
}

/// Outcome of a folder job.
#[derive(Debug)]
pub struct CompressResult {
    /// Sum of the sizes of all files before compression.
    pub total_original: u64,
    /// Sum of the sizes of what was written for them.
    pub total_compressed: u64,
    /// Number of files handled.
    pub file_count: usize,
    /// Directory that holds the job's output.
    pub output_path: String,
}

/// Mathematical model of a [`CompressResult`].
pub ghost struct CompressResultView {
    pub total_original: nat,
    pub total_compressed: nat,
    pub file_count: nat,
    pub output_path: Seq<char>,
}

impl View for CompressResult {
    type V = CompressResultView;

    open spec fn view(&self) -> CompressResultView {
        CompressResultView {
            total_original: self.total_original as nat,
            total_compressed: self.total_compressed as nat,
            file_count: self.file_count as nat,
            output_path: self.output_path@,
        }
    }
}

impl DeepView for CompressResult {
    type V = CompressResultView;

    open spec fn deep_view(&self) -> CompressResultView {
        self@
    }
}

/// Outcome of a one-file job.
#[derive(Debug)]
pub struct SingleCompressResult {
    /// Size of the file before compression.
    pub original_size: u64,
    /// Size of the compressed file.
    pub compressed_size: u64,
    /// Where the compressed file was written.
    pub output_path: String,
    /// Where the poster frame was written, for a video that got one.
    pub poster_path: Option<String>,
}

/// Mathematical model of a [`SingleCompressResult`].
pub ghost struct SingleCompressResultView {
    pub original_size: nat,
    pub compressed_size: nat,
    pub output_path: Seq<char>,
    pub poster_path: Option<Seq<char>>,
}

impl View for SingleCompressResult {
    type V = SingleCompressResultView;

    open spec fn view(&self) -> SingleCompressResultView {
        SingleCompressResultView {
            original_size: self.original_size as nat,
            compressed_size: self.compressed_size as nat,
            output_path: self.output_path@,
            poster_path: self.poster_path.deep_view(),
        }
    }
}

impl DeepView for SingleCompressResult {
    type V = SingleCompressResultView;

    open spec fn deep_view(&self) -> SingleCompressResultView {
        self@
    }
}

/// Whether a video encoder is at hand, and which.
#[derive(Debug)]
pub struct FFmpegStatus {
    /// An encoder executable was located.
    pub installed: bool,
    /// First line of what the encoder printed when asked for its version.
    pub version: Option<String>,
    /// Path of the executable.
    pub path: Option<String>,
}

/// Mathematical model of an [`FFmpegStatus`].
pub ghost struct FFmpegStatusView {
    pub installed: bool,
    pub version: Option<Seq<char>>,
    pub path: Option<Seq<char>>,
}

impl View for FFmpegStatus {
    type V = FFmpegStatusView;

    open spec fn view(&self) -> FFmpegStatusView {
        FFmpegStatusView {
            installed: self.installed,
            version: self.version.deep_view(),
            path: self.path.deep_view(),
        }
    }
}

impl DeepView for FFmpegStatus {
    type V = FFmpegStatusView;

    open spec fn deep_view(&self) -> FFmpegStatusView {
        self@
    }
}

/// Why a scan or a compression failed.
#[derive(Clone, Debug)]
pub enum CompressError {
    /// The file system refused an access; the text is the system's own.
    Io(String),
    /// The path does not exist.
    NotFound,
    /// The path exists but is no regular file.
    NotAFile,
    /// The file is neither an image nor a video.
    UnsupportedType,
    /// Decoding or encoding failed, or the encoder process reported failure.
    Codec(String),
    /// No video encoder could be located.
    EncoderNotAvailable,
}

/// Mathematical model of a [`CompressError`].
pub ghost enum CompressErrorView {
    Io(Seq<char>),
    NotFound,
    NotAFile,
    UnsupportedType,
    Codec(Seq<char>),
    EncoderNotAvailable,
}

impl View for CompressError {
    type V = CompressErrorView;

    open spec fn view(&self) -> CompressErrorView {
        match self {
            CompressError::Io(detail) => CompressErrorView::Io(detail@),
            CompressError::NotFound => CompressErrorView::NotFound,
            CompressError::NotAFile => CompressErrorView::NotAFile,
            CompressError::UnsupportedType => CompressErrorView::UnsupportedType,
            CompressError::Codec(detail) => CompressErrorView::Codec(detail@),
            CompressError::EncoderNotAvailable => CompressErrorView::EncoderNotAvailable,
        }
    }
}

impl DeepView for CompressError {
    type V = CompressErrorView;

    open spec fn deep_view(&self) -> CompressErrorView {
        self@
    }
}

/// The text shown to the user for each error.
pub open spec fn message_text(error: CompressErrorView) -> Seq<char> {
    match error {
        CompressErrorView::Io(detail) => detail,
        CompressErrorView::NotFound => "文件不存在"@,
        CompressErrorView::NotAFile => "不是有效的文件"@,
        CompressErrorView::UnsupportedType => "不支持的文件类型"@,
        CompressErrorView::Codec(detail) => detail,
        CompressErrorView::EncoderNotAvailable => "FFmpeg 未安装，请先下载安装"@,
    }
}

impl CompressError {
    /// The text shown to the user for this error.
    pub fn message(&self) -> (text: String)
        ensures
            text@ == message_text(self@),
    {
        match self {
            CompressError::Io(detail) => detail.clone(),
            CompressError::NotFound => String::from_str("文件不存在"),
            CompressError::NotAFile => String::from_str("不是有效的文件"),
            CompressError::UnsupportedType => String::from_str("不支持的文件类型"),
            CompressError::Codec(detail) => detail.clone(),
            CompressError::EncoderNotAvailable => String::from_str("FFmpeg 未安装，请先下载安装"),
        }
    }

    /// A copy of this error.
    pub fn duplicate(&self) -> (copy: CompressError)
        ensures
            copy@ == self@,
    {
        match self {
            CompressError::Io(detail) => CompressError::Io(detail.clone()),
            CompressError::NotFound => CompressError::NotFound,
            CompressError::NotAFile => CompressError::NotAFile,
            CompressError::UnsupportedType => CompressError::UnsupportedType,
            CompressError::Codec(detail) => CompressError::Codec(detail.clone()),
            CompressError::EncoderNotAvailable => CompressError::EncoderNotAvailable,
        }
    }
}

} // verus!
