//! Where output goes and what it is called.
//!
//! A folder job writes into a directory named after the input folder, a
//! hyphen and a short numeric suffix taken from the clock; a one-file job
//! writes a file named after the input's stem, a hyphen, the suffix, and the
//! extension. The suffix is the number of
//! seconds since 1970 modulo one million: it repeats every eleven and a half
//! days and two jobs started within the same second share it, so it keeps
//! names apart in ordinary use and promises nothing more.

use vstd::prelude::*;
use vstd::string::StringExecFns;
use crate::classify::{file_kind, path_kind, FileKind};
use std::time::SystemTime;
use core::time::Duration;
use crate::paths::{
    extension_of, file_name_of, file_stem_of, join, parent_of, path_extension, path_file_name,
    path_file_stem, path_join, path_parent, path_strip_prefix, path_with_extension,
    replace_extension, replaced_extension, strip_prefix,
};
use crate::text::{concatenate, decimal_digits, decimal_string, lemma_decimal_digits_shape};

verus! {

/// Declares `std::time::SystemTime`, a reading of the clock. The engine only
/// asks how long after the epoch it was taken.
#[verifier::external_type_specification]
#[verifier::external_body]
pub struct ExSystemTime(SystemTime);

/// Calls `SystemTime::now`. Nothing is promised of the result: it is the
/// clock's.
#[verifier::external_body]
fn system_now() -> (now: SystemTime) {
    SystemTime::now()
}

/// Calls `SystemTime::duration_since` with `UNIX_EPOCH`; `None` stands for
/// its error, a clock set before 1970. Nothing is promised of the result.
#[verifier::external_body]
fn since_epoch(time: &SystemTime) -> (elapsed: Option<Duration>) {
    time.duration_since(std::time::UNIX_EPOCH).ok()
}

/// Calls `Duration::as_secs`. Nothing is promised of the result.
#[verifier::external_body]
fn whole_seconds(elapsed: &Duration) -> (seconds: u64) {
    elapsed.as_secs()
}

/// The number of distinct suffixes.
pub const SUFFIX_MODULUS: u64 = 1000000;

/// The suffix for a job started `seconds` seconds after the epoch.
pub open spec fn suffix_spec(seconds: nat) -> Seq<char> {
    decimal_digits(seconds % (SUFFIX_MODULUS as nat))
}

/// `text` is the numeral of a number below one million.
pub open spec fn is_suffix(text: Seq<char>) -> bool {
    exists|n: nat| n < SUFFIX_MODULUS && text == #[trigger] decimal_digits(n)
}

/// A suffix is a numeral of one to six digits.
pub proof fn lemma_suffix_is_short(text: Seq<char>)
    requires
        is_suffix(text),
    ensures
        1 <= text.len() <= 6,
        forall|i: int| 0 <= i < text.len() ==> '0' <= #[trigger] text[i] <= '9',
{
    let n = choose|n: nat| n < SUFFIX_MODULUS && text == #[trigger] decimal_digits(n);
    lemma_decimal_digits_shape(n);
    reveal_with_fuel(decimal_digits, 7);
}

/// The suffix for a job started `seconds` seconds after the epoch: the last
/// six decimal digits of `seconds`, without leading zeros.
pub fn timestamp_suffix(seconds: u64) -> (suffix: String)
    ensures
        suffix@ == suffix_spec(seconds as nat),
        is_suffix(suffix@),
{
    decimal_string(seconds % SUFFIX_MODULUS)
}

/// The seconds that count for the suffix: those that have passed since the
/// epoch, or none where the clock stands before it.
pub open spec fn seconds_or_zero(elapsed: Option<u64>) -> nat {
    match elapsed {
        Some(seconds) => seconds as nat,
        None => 0,
    }
}

/// The suffix for a job started when the clock read `elapsed` seconds after
/// the epoch; `None` is a clock that stands before the epoch and counts as
/// zero seconds, so the suffix is then `0`.
pub fn suffix_since_epoch(elapsed: Option<u64>) -> (suffix: String)
    ensures
        suffix@ == suffix_spec(seconds_or_zero(elapsed)),
        is_suffix(suffix@),
{
    match elapsed {
        Some(seconds) => timestamp_suffix(seconds),
        None => timestamp_suffix(0),
    }
}

/// The suffix for a job started now: that of the seconds the clock reads.
pub fn generate_timestamp() -> (suffix: String)
    ensures
        is_suffix(suffix@),
        exists|elapsed: Option<u64>| suffix@ == suffix_spec(#[trigger] seconds_or_zero(elapsed)),
{
    let now = system_now();
    let elapsed = match since_epoch(&now) {
        Some(elapsed) => Some(whole_seconds(&elapsed)),
        None => None,
    };
    let suffix = suffix_since_epoch(elapsed);
    assert(suffix@ == suffix_spec(seconds_or_zero(elapsed)));
    suffix
}

/// `name`, a hyphen, `suffix`.
pub open spec fn suffixed_spec(name: Seq<char>, suffix: Seq<char>) -> Seq<char> {
    name + seq!['-'] + suffix
}

/// `name`, a hyphen, `suffix`.
pub fn suffixed(name: &str, suffix: &str) -> (tagged: String)
    ensures
        tagged@ == suffixed_spec(name@, suffix@),
{
    proof {
        reveal_strlit("-");
        assert("-"@ =~= seq!['-']);
    }
    let head = concatenate(name, "-");
    concatenate(head.as_str(), suffix)
}

/// The last component of `path`, empty where it has none.
pub open spec fn file_name_or_empty(path: Seq<char>) -> Seq<char> {
    match path_file_name(path) {
        Some(name) => name,
        None => Seq::empty(),
    }
}

/// The last component of `path` without its extension, empty where it has none.
pub open spec fn file_stem_or_empty(path: Seq<char>) -> Seq<char> {
    match path_file_stem(path) {
        Some(stem) => stem,
        None => Seq::empty(),
    }
}

/// The last component of `path`, empty where it has none.
pub fn display_name(path: &str) -> (name: String)
    ensures
        name@ == file_name_or_empty(path@),
{
    match file_name_of(path) {
        Some(name) => name,
        None => String::new(),
    }
}

/// The directory a folder job writes into.
pub open spec fn output_root_spec(
    input_dir: Seq<char>,
    output_dir: Seq<char>,
    suffix: Seq<char>,
) -> Seq<char> {
    path_join(output_dir, suffixed_spec(file_name_or_empty(input_dir), suffix))
}

/// The directory a folder job writes into: under `output_dir`, named after
/// the input folder and the suffix.
pub fn output_root(input_dir: &str, output_dir: &str, suffix: &str) -> (root: String)
    ensures
        root@ == output_root_spec(input_dir@, output_dir@, suffix@),
{
    let folder = display_name(input_dir);
    let tagged = suffixed(folder.as_str(), suffix);
    join(output_dir, tagged.as_str())
}

/// `name` followed by a dot and `extension`, or `name` alone where there is
/// no extension.
pub open spec fn extended_spec(name: Seq<char>, extension: Option<Seq<char>>) -> Seq<char> {
    match extension {
        Some(extension) => name + seq!['.'] + extension,
        None => name,
    }
}

/// `name` followed by a dot and `extension`, or `name` alone where there is
/// no extension.
pub fn extended(name: &str, extension: &Option<String>) -> (full: String)
    ensures
        full@ == extended_spec(name@, extension.deep_view()),
{
    match extension {
        Some(extension) => {
            proof {
                reveal_strlit(".");
                assert("."@ =~= seq!['.']);
            }
            let head = concatenate(name, ".");
            concatenate(head.as_str(), extension.as_str())
        },
        None => name.to_owned(),
    }
}

/// The extension under which a one-file job writes: `webp` for an image that
/// is converted, and else the extension of the input as written.
pub open spec fn single_extension_spec(input_path: Seq<char>, to_webp: bool) -> Option<Seq<char>> {
    if to_webp && path_kind(input_path) == FileKind::Image {
        Some("webp"@)
    } else {
        path_extension(input_path)
    }
}

/// The file name under which a one-file job writes: the stem of the input, a
/// hyphen, the suffix, a dot and the extension.
pub open spec fn single_name_spec(input_path: Seq<char>, suffix: Seq<char>, to_webp: bool) -> Seq<
    char,
> {
    extended_spec(
        suffixed_spec(file_stem_or_empty(input_path), suffix),
        single_extension_spec(input_path, to_webp),
    )
}

/// The path that a one-file job writes to.
pub open spec fn single_destination_spec(
    input_path: Seq<char>,
    output_dir: Seq<char>,
    suffix: Seq<char>,
    to_webp: bool,
) -> Seq<char> {
    path_join(output_dir, single_name_spec(input_path, suffix, to_webp))
}

/// The path that a one-file job writes to: under `output_dir`, named after
/// the input's stem and the suffix, with the input's extension, or with
/// `webp` for an image that is converted. The whole stem is kept, dots and
/// all: `my.clip.mp4` with suffix `7` goes to `my.clip-7.mp4`.
pub fn single_destination(input_path: &str, output_dir: &str, suffix: &str, to_webp: bool) -> (dest:
    String)
    ensures
        dest@ == single_destination_spec(input_path@, output_dir@, suffix@, to_webp),
{
    let stem = match file_stem_of(input_path) {
        Some(stem) => stem,
        None => String::new(),
    };
    let tagged = suffixed(stem.as_str(), suffix);
    let convert = to_webp && match file_kind(input_path) {
        FileKind::Image => true,
        _ => false,
    };
    let extension = if convert {
        Some(String::from_str("webp"))
    } else {
        extension_of(input_path)
    };
    let name = extended(tagged.as_str(), &extension);
    join(output_dir, name.as_str())
}

/// `path` as seen from `root`: what is left after `root` is stripped from its
/// front, or `path` itself where `root` is no prefix of it.
pub open spec fn relative_spec(path: Seq<char>, root: Seq<char>) -> Seq<char> {
    match path_strip_prefix(path, root) {
        Some(rest) => rest,
        None => path,
    }
}

/// `path` as seen from `root`: what is left after `root` is stripped from its
/// front, or `path` itself where `root` is no prefix of it.
pub fn relative_to(path: &str, root: &str) -> (rest: String)
    ensures
        rest@ == relative_spec(path@, root@),
{
    match strip_prefix(path, root) {
        Some(rest) => rest,
        None => path.to_owned(),
    }
}

/// Where a folder job puts the output for `source`.
pub open spec fn batch_destination_spec(
    output_root: Seq<char>,
    input_dir: Seq<char>,
    source: Seq<char>,
) -> Seq<char> {
    path_join(output_root, relative_spec(source, input_dir))
}

/// Where a folder job puts the output for `source`: at the same place under
/// `output_root` that `source` has under `input_dir`.
pub fn batch_destination(output_root: &str, input_dir: &str, source: &str) -> (dest: String)
    ensures
        dest@ == batch_destination_spec(output_root@, input_dir@, source@),
{
    let relative = relative_to(source, input_dir);
    join(output_root, relative.as_str())
}

/// The directory that holds `path`, if it names one.
pub fn parent_directory(path: &str) -> (parent: Option<String>)
    ensures
        parent.deep_view() == path_parent(path@),
{
    parent_of(path)
}

/// Where a re-encoded image is written.
pub open spec fn image_output_spec(base: Seq<char>, to_webp: bool) -> Seq<char> {
    if to_webp {
        path_with_extension(base, "webp"@)
    } else {
        base
    }
}

/// Where a re-encoded image is written: `base` with the extension `webp`
/// when converting, `base` as it is otherwise.
pub fn image_output_path(base: &str, to_webp: bool) -> (path: String)
    ensures
        path@ == image_output_spec(base@, to_webp),
{
    if to_webp {
        proof {
            reveal_strlit("webp");
        }
        replace_extension(base, "webp")
    } else {
        base.to_owned()
    }
}

/// The extension a transcoded video keeps: that of the input as written, or
/// `mp4` where it has none.
pub open spec fn video_extension_spec(input: Seq<char>) -> Seq<char> {
    match path_extension(input) {
        Some(extension) => extension,
        None => "mp4"@,
    }
}

/// Where a transcoded video is written.
pub open spec fn video_output_spec(input: Seq<char>, base: Seq<char>) -> Seq<char> {
    replaced_extension(base, video_extension_spec(input))
}

/// Where a transcoded video is written: `base` with its extension set to that
/// of `input`, so that the container format is kept. A base that already ends
/// in that extension stays as it is.
pub fn video_output_path(input: &str, base: &str) -> (path: String)
    ensures
        path@ == video_output_spec(input@, base@),
{
    match extension_of(input) {
        Some(extension) => replace_extension(base, extension.as_str()),
        None => replace_extension(base, "mp4"),
    }
}

/// Where the poster of a video is written.
pub open spec fn poster_spec(output_video: Seq<char>) -> Seq<char> {
    path_with_extension(output_video, ""@) + "-poster.webp"@
}

/// Where the poster of a video is written: beside the video, under its name
/// without the extension, followed by `-poster.webp`.
pub fn poster_path(output_video: &str) -> (path: String)
    ensures
        path@ == poster_spec(output_video@),
{
    proof {
        reveal_strlit("");
    }
    let bare = replace_extension(output_video, "");
    concatenate(bare.as_str(), "-poster.webp")
}

/// Where the frame taken from a video waits to be re-encoded.
pub open spec fn poster_frame_spec(poster: Seq<char>) -> Seq<char> {
    path_with_extension(poster, "jpg"@)
}

/// Where the frame taken from a video waits to be re-encoded: the poster's
/// path with the extension `jpg`.
pub fn poster_frame_path(poster: &str) -> (path: String)
    ensures
        path@ == poster_frame_spec(poster@),
{
    proof {
        reveal_strlit("jpg");
    }
    replace_extension(poster, "jpg")
}

} // verus!
