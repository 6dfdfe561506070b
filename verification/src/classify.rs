//! Sorting files into images, videos and the rest by their extension.

use vstd::prelude::*;
use vstd::string::StringExecFns;
use crate::paths::{extension_of, path_extension};

verus! {

/// What a file is taken to be.
#[derive(Clone, Copy, Debug, PartialEq, Eq, Structural)]
pub enum FileKind {
    /// A still image that the image codec re-encodes.
    Image,
    /// A video that the external encoder transcodes.
    Video,
    /// Anything else; such files are left alone.
    Other,
}

/// The result of `str::to_lowercase` on `text`.
pub uninterp spec fn lowercase_of(text: Seq<char>) -> Seq<char>;

/// Calls `str::to_lowercase`. Trusted: the result is what the name
/// `lowercase_of` stands for.
#[verifier::external_body]
fn to_lowercase(text: &str) -> (lowered: String)
    ensures
        lowered@ == lowercase_of(text@),
{
    text.to_lowercase()
}

/// The extensions taken for images.
pub open spec fn standard_images() -> Seq<Seq<char>> {
    seq!["jpg"@, "jpeg"@, "png"@, "webp"@, "gif"@, "bmp"@]
}

/// The extensions taken for videos.
pub open spec fn standard_videos() -> Seq<Seq<char>> {
    seq!["mp4"@, "mov"@, "avi"@, "mkv"@, "webm"@]
}

/// The kind of a file whose lower-cased extension is `lowered`: an image if
/// the image table lists it, else a video if the video table does, else
/// neither.
pub open spec fn kind_of_lowered(
    images: Seq<Seq<char>>,
    videos: Seq<Seq<char>>,
    lowered: Seq<char>,
) -> FileKind {
    if images.contains(lowered) {
        FileKind::Image
    } else if videos.contains(lowered) {
        FileKind::Video
    } else {
        FileKind::Other
    }
}

/// The lower-cased extension of `path`, empty where it has none.
pub open spec fn extension_spec(path: Seq<char>) -> Seq<char> {
    match path_extension(path) {
        Some(extension) => lowercase_of(extension),
        None => Seq::empty(),
    }
}

/// The kind of the file at `path` under the standard tables.
pub open spec fn path_kind(path: Seq<char>) -> FileKind {
    kind_of_lowered(standard_images(), standard_videos(), extension_spec(path))
}

/// The word that stands for each kind.
pub open spec fn kind_name(kind: FileKind) -> Seq<char> {
    match kind {
        FileKind::Image => "image"@,
        FileKind::Video => "video"@,
        FileKind::Other => "other"@,
    }
}

impl FileKind {
    /// The word that stands for this kind: `image`, `video` or `other`.
    pub fn name(self) -> (word: &'static str)
        ensures
            word@ == kind_name(self),
    {
        match self {
            FileKind::Image => "image",
            FileKind::Video => "video",
            FileKind::Other => "other",
        }
    }

    /// The kind that `word` stands for; any word but `image` and `video`
    /// stands for `Other`.
    pub fn from_name(word: &str) -> (kind: FileKind)
        ensures
            kind == kind_named(word@),
    {
        let candidate = String::from_str(word);
        if candidate == String::from_str("image") {
            FileKind::Image
        } else if candidate == String::from_str("video") {
            FileKind::Video
        } else {
            FileKind::Other
        }
    }
}

/// The kind that `word` stands for.
pub open spec fn kind_named(word: Seq<char>) -> FileKind {
    if word == "image"@ {
        FileKind::Image
    } else if word == "video"@ {
        FileKind::Video
    } else {
        FileKind::Other
    }
}

/// The three words differ, so the word of a kind names that kind again.
pub proof fn lemma_kind_name_round_trip(kind: FileKind)
    ensures
        kind_named(kind_name(kind)) == kind,
{
    reveal_strlit("image");
    reveal_strlit("video");
    reveal_strlit("other");
    assert("image"@[0] == 'i');
    assert("video"@[0] == 'v');
    assert("other"@[0] == 'o');
}

/// Case does not matter: two extensions that differ in case only, that is,
/// that have the same lower-case form, are of the same kind under any
/// tables, and so are two paths with such extensions under the standard
/// tables.
pub proof fn lemma_case_does_not_matter(
    images: Seq<Seq<char>>,
    videos: Seq<Seq<char>>,
    one: Seq<char>,
    other: Seq<char>,
)
    requires
        lowercase_of(one) == lowercase_of(other),
    ensures
        kind_of_lowered(images, videos, lowercase_of(one)) == kind_of_lowered(
            images,
            videos,
            lowercase_of(other),
        ),
        forall|left: Seq<char>, right: Seq<char>|
            path_extension(left) == Some(one) && path_extension(right) == Some(other)
                ==> #[trigger] path_kind(left) == #[trigger] path_kind(right),
{
}

/// A file without an extension is neither an image nor a video.
pub proof fn lemma_no_extension_is_other(path: Seq<char>)
    requires
        path_extension(path) is None,
    ensures
        path_kind(path) == FileKind::Other,
{
    reveal_strlit("jpg");
    reveal_strlit("jpeg");
    reveal_strlit("png");
    reveal_strlit("webp");
    reveal_strlit("gif");
    reveal_strlit("bmp");
    reveal_strlit("mp4");
    reveal_strlit("mov");
    reveal_strlit("avi");
    reveal_strlit("mkv");
    reveal_strlit("webm");
    let empty = Seq::<char>::empty();
    assert forall|i: int| 0 <= i < standard_images().len() implies standard_images()[i]
        != empty by {
        assert(standard_images()[i].len() > 0);
    }
    assert forall|i: int| 0 <= i < standard_videos().len() implies standard_videos()[i]
        != empty by {
        assert(standard_videos()[i].len() > 0);
    }
}

/// The tables of extensions that decide what a file is.
#[derive(Clone, Debug)]
pub struct Classifier {
    /// Lower-case extensions of images.
    pub images: Vec<String>,
    /// Lower-case extensions of videos.
    pub videos: Vec<String>,
}

fn lists(table: &Vec<String>, lowered: &String) -> (found: bool)
    ensures
        found == table.deep_view().contains(lowered@),
{
    let mut i: usize = 0;
    while i < table.len()
        invariant
            i <= table.len(),
            forall|j: int| 0 <= j < i ==> table.deep_view()[j] != lowered@,
        decreases table.len() - i,
    {
        if table[i] == *lowered {
            assert(table.deep_view()[i as int] == lowered@);
            return true;
        }
        i += 1;
    }
    false
}

impl Classifier {
    /// The tables in use: six image extensions and five video extensions.
    pub fn standard() -> (classifier: Classifier)
        ensures
            classifier.images.deep_view() == standard_images(),
            classifier.videos.deep_view() == standard_videos(),
    {
        let mut images: Vec<String> = Vec::new();
        images.push(String::from_str("jpg"));
        images.push(String::from_str("jpeg"));
        images.push(String::from_str("png"));
        images.push(String::from_str("webp"));
        images.push(String::from_str("gif"));
        images.push(String::from_str("bmp"));
        let mut videos: Vec<String> = Vec::new();
        videos.push(String::from_str("mp4"));
        videos.push(String::from_str("mov"));
        videos.push(String::from_str("avi"));
        videos.push(String::from_str("mkv"));
        videos.push(String::from_str("webm"));
        assert(images.deep_view() =~= standard_images());
        assert(videos.deep_view() =~= standard_videos());
        Classifier { images, videos }
    }

    /// The kind of a file whose extension, already lower-cased, is `lowered`.
    pub fn classify_lowered(&self, lowered: &str) -> (kind: FileKind)
        ensures
            kind == kind_of_lowered(self.images.deep_view(), self.videos.deep_view(), lowered@),
    {
        let candidate = String::from_str(lowered);
        if lists(&self.images, &candidate) {
            FileKind::Image
        } else if lists(&self.videos, &candidate) {
            FileKind::Video
        } else {
            FileKind::Other
        }
    }

    /// The kind of a file with the given extension, whatever its case.
    pub fn classify(&self, extension: &str) -> (kind: FileKind)
        ensures
            kind == kind_of_lowered(
                self.images.deep_view(),
                self.videos.deep_view(),
                lowercase_of(extension@),
            ),
    {
        let lowered = to_lowercase(extension);
        self.classify_lowered(lowered.as_str())
    }
}

/// The extension of `path`, lower-cased, without the dot; empty where the
/// path has none.
pub fn get_extension(path: &str) -> (extension: String)
    ensures
        extension@ == extension_spec(path@),
{
    match extension_of(path) {
        Some(raw) => to_lowercase(raw.as_str()),
        None => String::new(),
    }
}

/// The kind of the file at `path`, judged by its extension alone.
pub fn file_kind(path: &str) -> (kind: FileKind)
    ensures
        kind == path_kind(path@),
{
    let extension = get_extension(path);
    Classifier::standard().classify_lowered(extension.as_str())
}

/// The word for the kind of the file at `path`: `image`, `video` or `other`.
pub fn get_file_type(path: &str) -> (word: &'static str)
    ensures
        word@ == kind_name(path_kind(path@)),
{
    file_kind(path).name()
}

} // verus!
