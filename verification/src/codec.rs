//! Re-encoding still images in memory.
//!
//! Decoding and encoding are the work of the `image` crate. The engine hands
//! it the bytes of a file and takes back the bytes to write. The format of
//! the input is told from its first bytes, the format of the output from the
//! extension of the output path.
//!
//! The engine re-encodes the five formats that its image extensions stand
//! for: JPEG, PNG, GIF, WebP and BMP. The codec knows more, but the engine
//! asks it for these only: each of them is decoded and encoded in one thread
//! from the bytes alone, so that what comes back depends on nothing but what
//! was handed in.

use vstd::prelude::*;
use std::io::Cursor;
use image::{DynamicImage, ImageError, ImageFormat};
use vstd::string::StringExecFns;
use crate::model::{CompressError, CompressErrorView};
use crate::naming::{image_output_path, image_output_spec};
use crate::paths::path_extension;

verus! {

/// Declares `image::DynamicImage`, a decoded picture. The engine carries it
/// from the decoder to the encoder and never looks inside.
#[verifier::external_type_specification]
#[verifier::external_body]
pub struct ExDynamicImage(DynamicImage);

/// Declares `image::ImageError`. The engine only asks it for its message.
#[verifier::external_type_specification]
#[verifier::external_body]
pub struct ExImageError(ImageError);

/// The image formats that the engine reads and writes.
#[derive(Clone, Copy, Debug, PartialEq, Eq, Structural)]
pub enum PictureFormat {
    Jpeg,
    Png,
    Gif,
    WebP,
    Bmp,
}

/// `data` begins with `signature`.
pub open spec fn begins_with(data: Seq<u8>, signature: Seq<u8>) -> bool {
    data.len() >= signature.len() && data.subrange(0, signature.len() as int) == signature
}

/// The format that the first bytes of `data` announce, among the five that
/// the engine reads: the signature of PNG, the start-of-image marker of
/// JPEG, `GIF89a` or `GIF87a`, `RIFF` and `WEBP` around four bytes of
/// length, or `BM`.
pub open spec fn sniffed_format(data: Seq<u8>) -> Option<PictureFormat> {
    if begins_with(data, seq![0x89u8, 0x50u8, 0x4Eu8, 0x47u8, 0x0Du8, 0x0Au8, 0x1Au8, 0x0Au8]) {
        Some(PictureFormat::Png)
    } else if begins_with(data, seq![0xFFu8, 0xD8u8, 0xFFu8]) {
        Some(PictureFormat::Jpeg)
    } else if begins_with(data, seq![0x47u8, 0x49u8, 0x46u8, 0x38u8, 0x39u8, 0x61u8])
        || begins_with(data, seq![0x47u8, 0x49u8, 0x46u8, 0x38u8, 0x37u8, 0x61u8]) {
        Some(PictureFormat::Gif)
    } else if data.len() >= 12 && data.subrange(0, 4) == seq![0x52u8, 0x49u8, 0x46u8, 0x46u8]
        && data.subrange(8, 12) == seq![0x57u8, 0x45u8, 0x42u8, 0x50u8] {
        Some(PictureFormat::WebP)
    } else if begins_with(data, seq![0x42u8, 0x4Du8]) {
        Some(PictureFormat::Bmp)
    } else {
        None
    }
}

/// A character as `str::to_ascii_lowercase` leaves it: the capital letters
/// of ASCII become small ones, every other character stays.
pub open spec fn ascii_lower(c: char) -> char {
    if 'A' <= c && c <= 'Z' {
        ((c as u8 + 32) as u8) as char
    } else {
        c
    }
}

/// `text` as `str::to_ascii_lowercase` leaves it.
pub open spec fn ascii_lowered(text: Seq<char>) -> Seq<char> {
    Seq::new(text.len(), |i: int| ascii_lower(text[i]))
}

/// The format that an extension in lower case names, among the five that the
/// engine writes.
pub open spec fn format_of_extension(lowered: Seq<char>) -> Option<PictureFormat> {
    if lowered == "jpg"@ || lowered == "jpeg"@ || lowered == "jfif"@ {
        Some(PictureFormat::Jpeg)
    } else if lowered == "png"@ || lowered == "apng"@ {
        Some(PictureFormat::Png)
    } else if lowered == "gif"@ {
        Some(PictureFormat::Gif)
    } else if lowered == "webp"@ {
        Some(PictureFormat::WebP)
    } else if lowered == "bmp"@ {
        Some(PictureFormat::Bmp)
    } else {
        None
    }
}

/// The format that the extension of `path` names, whatever the case of its
/// ASCII letters; none where the path has no extension or the extension
/// names none of the five.
pub open spec fn format_named(path: Seq<char>) -> Option<PictureFormat> {
    match path_extension(path) {
        Some(extension) => format_of_extension(ascii_lowered(extension)),
        None => None,
    }
}

/// The extension of `path` names a format that the engine writes.
pub open spec fn names_image_format(path: Seq<char>) -> bool {
    format_named(path) is Some
}

/// The result of `image::load_from_memory_with_format` on `data` with
/// `format`: the decoded picture, or the codec's error.
pub uninterp spec fn decoded_image(data: Seq<u8>, format: PictureFormat) -> Result<
    DynamicImage,
    ImageError,
>;

/// The result of `DynamicImage::write_to` for `picture` in `format`: the
/// bytes written, or the codec's error.
pub uninterp spec fn written_image(picture: DynamicImage, format: PictureFormat) -> Result<
    Seq<u8>,
    ImageError,
>;

/// The text that `to_string` gives for an error of the codec.
pub uninterp spec fn failure_text(error: ImageError) -> Seq<char>;

/// Calls `image::guess_format`, which tells the format from the first bytes
/// by its built-in table of signatures. Trusted: of the formats it may name,
/// the five of the engine are handed on and every other, like its error, is
/// `None`; the five are named exactly on the signatures that
/// `sniffed_format` lists.
#[verifier::external_body]
fn sniff(data: &[u8]) -> (format: Option<PictureFormat>)
    ensures
        format == sniffed_format(data@),
{
    match image::guess_format(data) {
        Ok(ImageFormat::Jpeg) => Some(PictureFormat::Jpeg),
        Ok(ImageFormat::Png) => Some(PictureFormat::Png),
        Ok(ImageFormat::Gif) => Some(PictureFormat::Gif),
        Ok(ImageFormat::WebP) => Some(PictureFormat::WebP),
        Ok(ImageFormat::Bmp) => Some(PictureFormat::Bmp),
        _ => None,
    }
}

/// Calls `ImageFormat::from_path`, which picks the format by the extension of
/// `path`. Trusted: of the formats it may name, the five of the engine are
/// handed on and every other, like its error, is `None`; the five are named
/// exactly on the extensions that `format_of_extension` lists, taken from
/// `Path::extension` and compared without regard to the case of ASCII
/// letters.
#[verifier::external_body]
fn format_for(path: &str) -> (format: Option<PictureFormat>)
    ensures
        format == format_named(path@),
{
    match ImageFormat::from_path(path) {
        Ok(ImageFormat::Jpeg) => Some(PictureFormat::Jpeg),
        Ok(ImageFormat::Png) => Some(PictureFormat::Png),
        Ok(ImageFormat::Gif) => Some(PictureFormat::Gif),
        Ok(ImageFormat::WebP) => Some(PictureFormat::WebP),
        Ok(ImageFormat::Bmp) => Some(PictureFormat::Bmp),
        _ => None,
    }
}

/// Calls `image::load_from_memory_with_format`, which decodes `data` with the
/// decoder of the given format and consults no registry of hooks. Trusted:
/// the result is what the name `decoded_image` stands for.
#[verifier::external_body]
fn decode(data: &[u8], format: PictureFormat) -> (decoded: Result<DynamicImage, ImageError>)
    ensures
        decoded == decoded_image(data@, format),
{
    image::load_from_memory_with_format(
        data,
        match format {
            PictureFormat::Jpeg => ImageFormat::Jpeg,
            PictureFormat::Png => ImageFormat::Png,
            PictureFormat::Gif => ImageFormat::Gif,
            PictureFormat::WebP => ImageFormat::WebP,
            PictureFormat::Bmp => ImageFormat::Bmp,
        },
    )
}

/// Mathematical model of what the encoder handed back.
pub open spec fn written_view(encoded: Result<Vec<u8>, ImageError>) -> Result<
    Seq<u8>,
    ImageError,
> {
    match encoded {
        Ok(data) => Ok(data@),
        Err(error) => Err(error),
    }
}

/// Calls `DynamicImage::write_to` on a buffer in memory, with the encoder of
/// the given format, and hands back the buffer. Trusted: the result is what
/// the name `written_image` stands for.
#[verifier::external_body]
fn encode(picture: &DynamicImage, format: PictureFormat) -> (encoded: Result<Vec<u8>, ImageError>)
    ensures
        written_view(encoded) == written_image(*picture, format),
{
    let mut buffer = Cursor::new(Vec::new());
    let target = match format {
        PictureFormat::Jpeg => ImageFormat::Jpeg,
        PictureFormat::Png => ImageFormat::Png,
        PictureFormat::Gif => ImageFormat::Gif,
        PictureFormat::WebP => ImageFormat::WebP,
        PictureFormat::Bmp => ImageFormat::Bmp,
    };
    picture.write_to(&mut buffer, target).map(|_| buffer.into_inner())
}

/// Calls `to_string` on an error of the `image` crate. Trusted: the text is
/// what the name `failure_text` stands for.
#[verifier::external_body]
fn describe_failure(error: &ImageError) -> (text: String)
    ensures
        text@ == failure_text(*error),
{
    error.to_string()
}

/// The message for bytes or a path whose format is none of the five.
pub open spec fn unknown_format_text() -> Seq<char> {
    "不支持的图片格式"@
}

/// A re-encoded image, ready to be written.
#[derive(Debug)]
pub struct EncodedImage {
    /// The bytes of the encoded image.
    pub data: Vec<u8>,
    /// The number of those bytes.
    pub size: u64,
    /// The path to write them to.
    pub path: String,
}

/// Mathematical model of an [`EncodedImage`].
pub ghost struct EncodedImageView {
    pub data: Seq<u8>,
    pub size: nat,
    pub path: Seq<char>,
}

impl View for EncodedImage {
    type V = EncodedImageView;

    open spec fn view(&self) -> EncodedImageView {
        EncodedImageView { data: self.data@, size: self.size as nat, path: self.path@ }
    }
}

/// Mathematical model of the outcome of a re-encoding.
pub open spec fn encoded_view(outcome: Result<EncodedImage, CompressError>) -> Result<
    EncodedImageView,
    CompressErrorView,
> {
    match outcome {
        Ok(image) => Ok(image@),
        Err(error) => Err(error@),
    }
}

/// What [`encoded_image`] returns.
pub open spec fn encoded_image_spec(
    encoded: Result<Seq<u8>, Seq<char>>,
    path: Seq<char>,
) -> Result<EncodedImageView, CompressErrorView> {
    match encoded {
        Ok(data) => Ok(EncodedImageView { data, size: data.len(), path }),
        Err(detail) => Err(CompressErrorView::Codec(detail)),
    }
}

/// Mathematical model of what the codec handed back.
pub open spec fn bytes_view(encoded: Result<Vec<u8>, String>) -> Result<Seq<u8>, Seq<char>> {
    match encoded {
        Ok(data) => Ok(data@),
        Err(detail) => Err(detail@),
    }
}

/// Puts what the codec handed back into the engine's terms: the bytes with
/// their number and the path to write them to, or a codec error with the
/// codec's message.
pub fn encoded_image(encoded: Result<Vec<u8>, String>, path: String) -> (outcome: Result<
    EncodedImage,
    CompressError,
>)
    ensures
        encoded_view(outcome) == encoded_image_spec(bytes_view(encoded), path@),
{
    match encoded {
        Ok(data) => {
            let size = data.len() as u64;
            Ok(EncodedImage { data, size, path })
        },
        Err(detail) => Err(CompressError::Codec(detail)),
    }
}

/// What the codec makes of the bytes `input` for writing at `path`: the
/// format of the input is told from its first bytes, the picture is decoded,
/// the format of the output is picked by the extension of `path`, and the
/// picture is encoded in that format. The first of the four that fails
/// decides: a format that is none of the five fails with the engine's
/// message, the codec with its own.
pub open spec fn reencoded(input: Seq<u8>, path: Seq<char>) -> Result<Seq<u8>, Seq<char>> {
    match sniffed_format(input) {
        None => Err(unknown_format_text()),
        Some(source) => match decoded_image(input, source) {
            Err(error) => Err(failure_text(error)),
            Ok(picture) => match format_named(path) {
                None => Err(unknown_format_text()),
                Some(target) => match written_image(picture, target) {
                    Err(error) => Err(failure_text(error)),
                    Ok(data) => Ok(data),
                },
            },
        },
    }
}

fn reencode(input: &[u8], path: &str) -> (encoded: Result<Vec<u8>, String>)
    ensures
        bytes_view(encoded) == reencoded(input@, path@),
{
    match sniff(input) {
        None => Err(String::from_str("不支持的图片格式")),
        Some(source) => match decode(input, source) {
            Err(error) => Err(describe_failure(&error)),
            Ok(picture) => match format_for(path) {
                None => Err(String::from_str("不支持的图片格式")),
                Some(target) => match encode(&picture, target) {
                    Err(error) => Err(describe_failure(&error)),
                    Ok(data) => Ok(data),
                },
            },
        },
    }
}

/// What [`compress_image`] returns.
pub open spec fn compress_image_spec(input: Seq<u8>, output: Seq<char>, to_webp: bool) -> Result<
    EncodedImageView,
    CompressErrorView,
> {
    encoded_image_spec(
        reencoded(input, image_output_spec(output, to_webp)),
        image_output_spec(output, to_webp),
    )
}

/// Re-encodes the image held in `input` for writing at `output`.
///
/// The image is decoded in the format that its first bytes announce. When
/// `to_webp` is set, the result is WebP and its path is `output` with the
/// extension `webp`; otherwise the path is `output` and its extension picks
/// the format. The outcome is what the codec makes of the bytes for that
/// path: on success the encoded bytes, their number and the path; on failure
/// a codec error that carries the message. Bytes that begin like none of the
/// five formats, and a path whose extension names none of them, never
/// succeed.
pub fn compress_image(input: &[u8], output: &str, to_webp: bool) -> (outcome: Result<
    EncodedImage,
    CompressError,
>)
    ensures
        encoded_view(outcome) == compress_image_spec(input@, output@, to_webp),
        match outcome {
            Ok(image) => {
                &&& image.path@ == image_output_spec(output@, to_webp)
                &&& image.size == image.data@.len()
                &&& names_image_format(image.path@)
                &&& sniffed_format(input@) is Some
            },
            Err(error) => error@ is Codec,
        },
{
    let path = image_output_path(output, to_webp);
    let encoded = reencode(input, path.as_str());
    encoded_image(encoded, path)
}

/// Where the re-encoding of an image file stands.
#[derive(Clone, Copy, Debug, PartialEq, Eq, Structural)]
pub enum ImageStage {
    /// Waiting for the bytes of the input file.
    Reading,
    /// Waiting for the encoded bytes to be written.
    Writing,
    /// The image was written.
    Done,
    /// The job failed.
    Failed,
}

/// What the host reports back to an image job.
#[derive(Debug)]
pub enum ImageEvent {
    /// The bytes of the file, or the system's message.
    Read(Result<Vec<u8>, String>),
    /// The bytes were written (`None`), or the system's message.
    Written(Option<String>),
}

/// Mathematical model of an [`ImageEvent`].
pub ghost enum ImageEventView {
    Read(Result<Seq<u8>, Seq<char>>),
    Written(Option<Seq<char>>),
}

impl View for ImageEvent {
    type V = ImageEventView;

    open spec fn view(&self) -> ImageEventView {
        match self {
            ImageEvent::Read(Ok(data)) => ImageEventView::Read(Ok(data@)),
            ImageEvent::Read(Err(detail)) => ImageEventView::Read(Err(detail@)),
            ImageEvent::Written(failure) => ImageEventView::Written(failure.deep_view()),
        }
    }
}

/// What an image job asks the host to do next.
#[derive(Debug)]
pub enum ImageAction {
    /// Read the whole file at this path and report `Read`.
    Read(String),
    /// Write these bytes to this path and report `Written`.
    Write { path: String, data: Vec<u8> },
    /// The job is done: the image at this path has this size.
    Finish { size: u64, path: String },
    /// The job has failed.
    Fail(CompressError),
}

/// Mathematical model of an [`ImageAction`].
pub ghost enum ImageActionView {
    Read(Seq<char>),
    Write { path: Seq<char>, data: Seq<u8> },
    Finish { size: nat, path: Seq<char> },
    Fail(CompressErrorView),
}

impl View for ImageAction {
    type V = ImageActionView;

    open spec fn view(&self) -> ImageActionView {
        match self {
            ImageAction::Read(path) => ImageActionView::Read(path@),
            ImageAction::Write { path, data } => ImageActionView::Write {
                path: path@,
                data: data@,
            },
            ImageAction::Finish { size, path } => ImageActionView::Finish {
                size: *size as nat,
                path: path@,
            },
            ImageAction::Fail(error) => ImageActionView::Fail(error@),
        }
    }
}

impl DeepView for ImageAction {
    type V = ImageActionView;

    open spec fn deep_view(&self) -> ImageActionView {
        self@
    }
}

/// The state of an image job.
#[derive(Debug)]
pub struct ImageJob {
    stage: ImageStage,
    source: String,
    dest: String,
    to_webp: bool,
    data: Vec<u8>,
    size: u64,
    path: String,
    failure: CompressError,
}

/// Mathematical model of an [`ImageJob`].
pub ghost struct ImageView {
    /// Where the job stands.
    pub stage: ImageStage,
    /// The image file to read.
    pub source: Seq<char>,
    /// The output path as asked for.
    pub dest: Seq<char>,
    /// The image is converted to WebP.
    pub to_webp: bool,
    /// The encoded bytes, once there are any.
    pub data: Seq<u8>,
    /// The number of encoded bytes.
    pub size: nat,
    /// The path the encoded bytes go to.
    pub path: Seq<char>,
    /// Why the job failed, once it has.
    pub failure: CompressErrorView,
}

impl View for ImageJob {
    type V = ImageView;

    closed spec fn view(&self) -> ImageView {
        ImageView {
            stage: self.stage,
            source: self.source@,
            dest: self.dest@,
            to_webp: self.to_webp,
            data: self.data@,
            size: self.size as nat,
            path: self.path@,
            failure: self.failure@,
        }
    }
}

/// A job that has just been started.
pub open spec fn image_start(source: Seq<char>, dest: Seq<char>, to_webp: bool) -> ImageView {
    ImageView {
        stage: ImageStage::Reading,
        source,
        dest,
        to_webp,
        data: Seq::empty(),
        size: 0,
        path: Seq::empty(),
        failure: CompressErrorView::NotFound,
    }
}

/// The job has failed for the given reason.
pub open spec fn image_failed(job: ImageView, failure: CompressErrorView) -> ImageView {
    ImageView { stage: ImageStage::Failed, failure, ..job }
}

/// Whether the event answers what the job is waiting for.
pub open spec fn image_accepts(job: ImageView, event: ImageEventView) -> bool {
    match (job.stage, event) {
        (ImageStage::Reading, ImageEventView::Read(_)) => true,
        (ImageStage::Writing, ImageEventView::Written(_)) => true,
        _ => false,
    }
}

/// The state of a job after an event; an event that does not answer what the
/// job is waiting for changes nothing.
///
/// A file that cannot be read fails the job with the system's message. The
/// bytes that were read are re-encoded for the job's output path: what the
/// codec refuses fails the job with the codec's error, and what it encodes
/// is to be written. A file that cannot be written fails the job with a
/// codec error that carries the system's message.
pub open spec fn image_next(job: ImageView, event: ImageEventView) -> ImageView {
    match (job.stage, event) {
        (ImageStage::Reading, ImageEventView::Read(Err(detail))) => image_failed(
            job,
            CompressErrorView::Io(detail),
        ),
        (ImageStage::Reading, ImageEventView::Read(Ok(data))) => match compress_image_spec(
            data,
            job.dest,
            job.to_webp,
        ) {
            Err(failure) => image_failed(job, failure),
            Ok(image) => ImageView {
                stage: ImageStage::Writing,
                data: image.data,
                size: image.size,
                path: image.path,
                ..job
            },
        },
        (ImageStage::Writing, ImageEventView::Written(Some(detail))) => image_failed(
            job,
            CompressErrorView::Codec(detail),
        ),
        (ImageStage::Writing, ImageEventView::Written(None)) => ImageView {
            stage: ImageStage::Done,
            ..job
        },
        _ => job,
    }
}

/// What a job is waiting for the host to do.
pub open spec fn image_pending(job: ImageView) -> ImageActionView {
    match job.stage {
        ImageStage::Reading => ImageActionView::Read(job.source),
        ImageStage::Writing => ImageActionView::Write { path: job.path, data: job.data },
        ImageStage::Done => ImageActionView::Finish { size: job.size, path: job.path },
        ImageStage::Failed => ImageActionView::Fail(job.failure),
    }
}

/// What a job answers to an event: the next thing to do, or nothing where
/// the event did not answer what the job was waiting for.
pub open spec fn image_answer(job: ImageView, event: ImageEventView) -> Option<ImageActionView> {
    if image_accepts(job, event) {
        Some(image_pending(image_next(job, event)))
    } else {
        None
    }
}

fn copy_bytes(data: &Vec<u8>) -> (copy: Vec<u8>)
    ensures
        copy@ == data@,
{
    let mut copy: Vec<u8> = Vec::new();
    let mut i: usize = 0;
    while i < data.len()
        invariant
            i <= data.len(),
            copy@ == data@.take(i as int),
        decreases data.len() - i,
    {
        copy.push(data[i]);
        assert(copy@ =~= data@.take(i + 1));
        i += 1;
    }
    assert(data@.take(data.len() as int) =~= data@);
    copy
}

impl ImageJob {
    /// Starts a job that re-encodes the image file at `source` for `dest`.
    pub fn start(source: &str, dest: &str, to_webp: bool) -> (job: ImageJob)
        ensures
            job@ == image_start(source@, dest@, to_webp),
    {
        ImageJob {
            stage: ImageStage::Reading,
            source: source.to_owned(),
            dest: dest.to_owned(),
            to_webp,
            data: Vec::new(),
            size: 0,
            path: String::new(),
            failure: CompressError::NotFound,
        }
    }

    /// Where the job stands.
    pub fn stage(&self) -> (stage: ImageStage)
        ensures
            stage == self@.stage,
    {
        self.stage
    }

    /// What the job is waiting for the host to do.
    pub fn pending(&self) -> (action: ImageAction)
        ensures
            action@ == image_pending(self@),
    {
        match self.stage {
            ImageStage::Reading => ImageAction::Read(self.source.clone()),
            ImageStage::Writing => ImageAction::Write {
                path: self.path.clone(),
                data: copy_bytes(&self.data),
            },
            ImageStage::Done => ImageAction::Finish { size: self.size, path: self.path.clone() },
            ImageStage::Failed => ImageAction::Fail(self.failure.duplicate()),
        }
    }

    fn fail(&mut self, failure: CompressError)
        ensures
            final(self)@ == image_failed(old(self)@, failure@),
    {
        self.stage = ImageStage::Failed;
        self.failure = failure;
    }

    /// Takes in what the host reports and says what to do next; `None` where
    /// the event did not answer what the job was waiting for. Bytes that were
    /// read are handed to the codec, whose outcome decides how the job goes
    /// on.
    pub fn step(&mut self, event: ImageEvent) -> (action: Option<ImageAction>)
        ensures
            final(self)@ == image_next(old(self)@, event@),
            action.deep_view() == image_answer(old(self)@, event@),
    {
        match (self.stage, event) {
            (ImageStage::Reading, ImageEvent::Read(Err(detail))) => {
                self.fail(CompressError::Io(detail));
            },
            (ImageStage::Reading, ImageEvent::Read(Ok(data))) => {
                match compress_image(data.as_slice(), self.dest.as_str(), self.to_webp) {
                    Err(failure) => {
                        self.fail(failure);
                    },
                    Ok(image) => {
                        self.stage = ImageStage::Writing;
                        self.data = image.data;
                        self.size = image.size;
                        self.path = image.path;
                    },
                }
            },
            (ImageStage::Writing, ImageEvent::Written(Some(detail))) => {
                self.fail(CompressError::Codec(detail));
            },
            (ImageStage::Writing, ImageEvent::Written(None)) => {
                self.stage = ImageStage::Done;
            },
            _ => {
                return None;
            },
        }
        Some(self.pending())
    }
}

} // verus!
