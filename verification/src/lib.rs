//! Batch media compression engine.
//!
//! The crate classifies files as images or videos, plans where compressed
//! output goes, builds the exact command lines handed to the video encoder,
//! re-encodes images in memory, and drives single-file and whole-folder jobs
//! as explicit state machines. Everything that touches the file system, spawns
//! a process or reports to a user interface is left to the host program, which
//! performs the actions the state machines ask for and reports back what
//! happened.

pub mod model;
pub mod text;
pub mod paths;
pub mod classify;
pub mod naming;
pub mod scan;
pub mod encoder;
pub mod codec;
pub mod video;
pub mod single;
pub mod batch;

pub use crate::batch::{BatchAction, BatchEvent, BatchJob, BatchStage};
pub use crate::classify::{get_extension, get_file_type, Classifier, FileKind};
pub use crate::codec::{
    compress_image, EncodedImage, ImageAction, ImageEvent, ImageJob, ImageStage,
};
pub use crate::encoder::{
    get_ffmpeg_dir, get_ffmpeg_version, EncoderProbe, ProbeAction, ProbeEvent, ProbeStage,
    ProcessOutput,
};
pub use crate::model::{
    CompressError, CompressResult, FFmpegStatus, FileInfo, ProgressPayload, SingleCompressResult,
};
pub use crate::naming::generate_timestamp;
pub use crate::scan::{do_scan_file, do_scan_folder, scan_walked, PathProbe, WalkedEntry};
pub use crate::single::{EncodeOutcome, SingleAction, SingleEvent, SingleJob, SingleStage};
pub use crate::video::{VideoAction, VideoEvent, VideoJob, VideoStage};
