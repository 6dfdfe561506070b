//! Turning what a directory walk found into descriptors of media files.
//!
//! The host walks the tree and reads each regular file's length; the
//! functions here decide which entries are media files, describe them, and
//! say when a scan fails.

use vstd::prelude::*;
use vstd::string::StringExecFns;
use crate::classify::{
    extension_spec, file_kind, get_extension, kind_name, kind_named, lemma_kind_name_round_trip,
    path_kind, FileKind,
};
use crate::model::{CompressError, CompressErrorView, FileInfo, FileInfoView};
use crate::naming::{display_name, file_name_or_empty, relative_spec, relative_to};

verus! {

/// One entry met while walking a directory tree.
#[derive(Debug)]
pub struct WalkedEntry {
    /// Path of the entry, starting with the root that was walked.
    pub path: String,
    /// The entry is a regular file.
    pub is_file: bool,
    /// Length of the file in bytes, or what the system said when asked.
    pub size: Result<u64, String>,
}

/// Mathematical model of a length that was read, or of the failure to read it.
pub open spec fn size_view(size: Result<u64, String>) -> Result<nat, Seq<char>> {
    match size {
        Ok(bytes) => Ok(bytes as nat),
        Err(detail) => Err(detail@),
    }
}

/// Mathematical model of a [`WalkedEntry`].
pub ghost struct WalkedEntryView {
    pub path: Seq<char>,
    pub is_file: bool,
    pub size: Result<nat, Seq<char>>,
}

impl View for WalkedEntry {
    type V = WalkedEntryView;

    open spec fn view(&self) -> WalkedEntryView {
        WalkedEntryView { path: self.path@, is_file: self.is_file, size: size_view(self.size) }
    }
}

impl DeepView for WalkedEntry {
    type V = WalkedEntryView;

    open spec fn deep_view(&self) -> WalkedEntryView {
        self@
    }
}

/// What was learnt of a single path before a one-file job.
#[derive(Debug)]
pub struct PathProbe {
    /// Something exists at the path.
    pub exists: bool,
    /// It is a regular file.
    pub is_file: bool,
    /// Its length in bytes, or what the system said when asked.
    pub size: Result<u64, String>,
}

/// Mathematical model of a [`PathProbe`].
pub ghost struct PathProbeView {
    pub exists: bool,
    pub is_file: bool,
    pub size: Result<nat, Seq<char>>,
}

impl View for PathProbe {
    type V = PathProbeView;

    open spec fn view(&self) -> PathProbeView {
        PathProbeView { exists: self.exists, is_file: self.is_file, size: size_view(self.size) }
    }
}

impl DeepView for PathProbe {
    type V = PathProbeView;

    open spec fn deep_view(&self) -> PathProbeView {
        self@
    }
}

/// A descriptor names a media file: its type is `image` or `video`.
pub open spec fn is_media_descriptor(file: FileInfoView) -> bool {
    file.file_type == "image"@ || file.file_type == "video"@
}

/// The entry is a regular file with the extension of an image or a video.
pub open spec fn is_media(entry: WalkedEntryView) -> bool {
    entry.is_file && path_kind(entry.path) != FileKind::Other
}

/// [`is_media`] as a predicate value.
pub open spec fn media_filter() -> spec_fn(WalkedEntryView) -> bool {
    |entry: WalkedEntryView| is_media(entry)
}

/// The length that was read for an entry, zero where reading failed.
pub open spec fn size_or_zero(size: Result<nat, Seq<char>>) -> nat {
    match size {
        Ok(bytes) => bytes,
        Err(_) => 0,
    }
}

/// The descriptor of a media entry found under `root`.
pub open spec fn describe(root: Seq<char>, entry: WalkedEntryView) -> FileInfoView {
    FileInfoView {
        path: entry.path,
        name: relative_spec(entry.path, root),
        size: size_or_zero(entry.size),
        file_type: kind_name(path_kind(entry.path)),
        extension: extension_spec(entry.path),
    }
}

/// [`describe`] for a fixed root, as a function value.
pub open spec fn describe_under(root: Seq<char>) -> spec_fn(WalkedEntryView) -> FileInfoView {
    |entry: WalkedEntryView| describe(root, entry)
}

/// The descriptors of the media files among `entries`, in the order of the walk.
pub open spec fn media_descriptors(
    root: Seq<char>,
    entries: Seq<WalkedEntryView>,
) -> Seq<FileInfoView> {
    entries.filter(media_filter()).map_values(describe_under(root))
}

/// Entry `i` is a media file whose length could not be read.
pub open spec fn unreadable_at(entries: Seq<WalkedEntryView>, i: int) -> bool {
    0 <= i < entries.len() && is_media(entries[i]) && entries[i].size is Err
}

/// Entry `i` is the first media file whose length could not be read.
pub open spec fn first_unreadable(entries: Seq<WalkedEntryView>, i: int) -> bool {
    unreadable_at(entries, i) && forall|j: int| 0 <= j < i ==> !unreadable_at(entries, j)
}

/// What [`do_scan_folder`] returns: the descriptors of the media files, or
/// the system's message for the first media file whose length could not be
/// read.
pub open spec fn scan_folder_spec(root: Seq<char>, entries: Seq<WalkedEntryView>) -> Result<
    Seq<FileInfoView>,
    CompressErrorView,
> {
    if exists|i: int| unreadable_at(entries, i) {
        let first = choose|i: int| first_unreadable(entries, i);
        Err(CompressErrorView::Io(entries[first].size->Err_0))
    } else {
        Ok(media_descriptors(root, entries))
    }
}

/// Mathematical model of the outcome of a scan.
pub open spec fn scan_view(scanned: Result<Vec<FileInfo>, CompressError>) -> Result<
    Seq<FileInfoView>,
    CompressErrorView,
> {
    match scanned {
        Ok(files) => Ok(files.deep_view()),
        Err(error) => Err(error@),
    }
}

/// Only one entry can be the first whose length could not be read.
pub proof fn lemma_first_unreadable_unique(entries: Seq<WalkedEntryView>, i: int, j: int)
    requires
        first_unreadable(entries, i),
        first_unreadable(entries, j),
    ensures
        i == j,
{
    if i < j {
        assert(!unreadable_at(entries, i));
    } else if j < i {
        assert(!unreadable_at(entries, j));
    }
}

/// Describes the media files among the entries of a walk of `root`.
///
/// Entries that are no regular files, and files that are neither images nor
/// videos, are passed over in silence. A media file whose length could not be
/// read fails the whole scan with the system's message for the first such
/// file; there is no partial result.
pub fn do_scan_folder(root: &str, entries: &Vec<WalkedEntry>) -> (scanned: Result<
    Vec<FileInfo>,
    CompressError,
>)
    ensures
        scan_view(scanned) == scan_folder_spec(root@, entries.deep_view()),
        match scanned {
            Ok(files) => {
                &&& forall|i: int| !unreadable_at(entries.deep_view(), i)
                &&& files.deep_view() == media_descriptors(root@, entries.deep_view())
                &&& forall|j: int|
                    0 <= j < files.len() ==> is_media_descriptor(#[trigger] files.deep_view()[j])
            },
            Err(error) => exists|i: int|
                first_unreadable(entries.deep_view(), i) && error@ == CompressErrorView::Io(
                    #[trigger] entries.deep_view()[i].size->Err_0,
                ),
        },
{
    let ghost all = entries.deep_view();
    let mut files: Vec<FileInfo> = Vec::new();
    let mut i: usize = 0;
    proof {
        reveal(Seq::filter);
        assert(all.take(0) =~= Seq::<WalkedEntryView>::empty());
        assert(media_descriptors(root@, all.take(0)) =~= Seq::<FileInfoView>::empty());
    }
    while i < entries.len()
        invariant
            i <= entries.len(),
            all == entries.deep_view(),
            all.len() == entries.len(),
            forall|j: int| 0 <= j < i ==> !unreadable_at(all, j),
            files.deep_view() == media_descriptors(root@, all.take(i as int)),
            forall|j: int|
                0 <= j < files.len() ==> is_media_descriptor(#[trigger] files.deep_view()[j]),
        decreases entries.len() - i,
    {
        let entry = &entries[i];
        let ghost before = all.take(i as int);
        let ghost after = all.take(i + 1);
        proof {
            assert(all[i as int] == entry@);
            assert(after =~= before.push(entry@));
            Seq::lemma_filter_push(before, entry@, media_filter());
        }
        if entry.is_file {
            let kind = file_kind(entry.path.as_str());
            match kind {
                FileKind::Other => {},
                _ => {
                    match &entry.size {
                        Err(detail) => {
                            proof {
                                assert(first_unreadable(all, i as int));
                                let first = choose|k: int| first_unreadable(all, k);
                                lemma_first_unreadable_unique(all, i as int, first);
                            }
                            return Err(CompressError::Io(detail.clone()));
                        },
                        Ok(bytes) => {
                            let file = FileInfo {
                                path: entry.path.clone(),
                                name: relative_to(entry.path.as_str(), root),
                                size: *bytes,
                                file_type: String::from_str(kind.name()),
                                extension: get_extension(entry.path.as_str()),
                            };
                            proof {
                                assert(file@ == describe(root@, entry@));
                                before.filter(media_filter()).lemma_push_map_commute(
                                    describe_under(root@),
                                    entry@,
                                );
                                assert(files.deep_view().push(file@) =~= media_descriptors(
                                    root@,
                                    after,
                                ));
                            }
                            let ghost old_files = files.deep_view();
                            files.push(file);
                            assert(files.deep_view() =~= old_files.push(file@));
                        },
                    }
                },
            }
        }
        i += 1;
    }
    proof {
        assert(all.take(i as int) =~= all);
    }
    Ok(files)
}

/// Mathematical model of what a walk handed back.
pub open spec fn walked_view(walked: Result<Vec<WalkedEntry>, String>) -> Result<
    Seq<WalkedEntryView>,
    Seq<char>,
> {
    match walked {
        Ok(entries) => Ok(entries.deep_view()),
        Err(detail) => Err(detail@),
    }
}

/// What [`scan_walked`] returns: what the scan makes of the entries, or the
/// system's message where the root could not be walked.
pub open spec fn scan_walked_spec(
    root: Seq<char>,
    walked: Result<Seq<WalkedEntryView>, Seq<char>>,
) -> Result<Seq<FileInfoView>, CompressErrorView> {
    match walked {
        Ok(entries) => scan_folder_spec(root, entries),
        Err(detail) => Err(CompressErrorView::Io(detail)),
    }
}

/// Describes the media files under `root`, given what the walk of `root`
/// handed back. A root that could not be walked fails the scan with the
/// system's message: such a scan never comes back with an empty or partial
/// list. Else the entries are scanned as [`do_scan_folder`] does.
pub fn scan_walked(root: &str, walked: &Result<Vec<WalkedEntry>, String>) -> (scanned: Result<
    Vec<FileInfo>,
    CompressError,
>)
    ensures
        scan_view(scanned) == scan_walked_spec(root@, walked_view(*walked)),
        scanned matches Ok(files) ==> forall|j: int|
            0 <= j < files.len() ==> is_media_descriptor(#[trigger] files.deep_view()[j]),
{
    match walked {
        Ok(entries) => do_scan_folder(root, entries),
        Err(detail) => Err(CompressError::Io(detail.clone())),
    }
}

/// The type written into a descriptor names the kind that the file's
/// extension gives it, so a file is later handled as what the scan took it
/// for.
pub proof fn lemma_descriptor_type_names_kind(root: Seq<char>, entry: WalkedEntryView)
    ensures
        kind_named(describe(root, entry).file_type) == path_kind(entry.path),
        is_media(entry) ==> is_media_descriptor(describe(root, entry)),
{
    lemma_kind_name_round_trip(path_kind(entry.path));
}

/// The positions of the media files among `entries`, in ascending order.
pub open spec fn media_indices(entries: Seq<WalkedEntryView>) -> Seq<int>
    decreases entries.len(),
{
    if entries.len() == 0 {
        Seq::empty()
    } else {
        let earlier = media_indices(entries.drop_last());
        if is_media(entries.last()) {
            earlier.push(entries.len() - 1)
        } else {
            earlier
        }
    }
}

/// A scan lists every media file exactly once and nothing else.
///
/// The descriptors stand in one-to-one correspondence with the entries that
/// are media files: descriptor `j` describes the entry at position
/// `media_indices(entries)[j]`, these positions ascend strictly, each of them
/// holds a media file, and every position that holds a media file is among
/// them. An entry that is no regular file, or has another extension, has no
/// descriptor.
pub proof fn lemma_scan_lists_each_media_file_once(root: Seq<char>, entries: Seq<WalkedEntryView>)
    ensures
        media_indices(entries).len() == media_descriptors(root, entries).len(),
        forall|j: int|
            0 <= j < media_indices(entries).len() ==> {
                let i = #[trigger] media_indices(entries)[j];
                &&& 0 <= i < entries.len()
                &&& is_media(entries[i])
                &&& media_descriptors(root, entries)[j] == describe(root, entries[i])
            },
        forall|j: int, k: int|
            0 <= j < k < media_indices(entries).len() ==> #[trigger] media_indices(entries)[j]
                < #[trigger] media_indices(entries)[k],
        forall|i: int|
            0 <= i < entries.len() && is_media(#[trigger] entries[i]) ==> media_indices(
                entries,
            ).contains(i),
    decreases entries.len(),
{
    reveal(Seq::filter);
    if entries.len() > 0 {
        let shorter = entries.drop_last();
        let last = entries.last();
        lemma_scan_lists_each_media_file_once(root, shorter);
        let picks = media_indices(entries);
        let earlier = media_indices(shorter);
        let kept = shorter.filter(media_filter());
        if is_media(last) {
            kept.lemma_push_map_commute(describe_under(root), last);
            assert(media_descriptors(root, entries) =~= media_descriptors(root, shorter).push(
                describe(root, last),
            ));
        } else {
            assert(media_descriptors(root, entries) =~= media_descriptors(root, shorter));
        }
        assert forall|j: int| 0 <= j < picks.len() implies {
            let i = #[trigger] picks[j];
            &&& 0 <= i < entries.len()
            &&& is_media(entries[i])
            &&& media_descriptors(root, entries)[j] == describe(root, entries[i])
        } by {
            if j < earlier.len() {
                assert(picks[j] == earlier[j]);
                assert(entries[earlier[j]] == shorter[earlier[j]]);
            }
        }
        assert forall|j: int, k: int| 0 <= j < k < picks.len() implies #[trigger] picks[j]
            < #[trigger] picks[k] by {
            assert(picks[j] == earlier[j]);
            if k < earlier.len() {
                assert(picks[k] == earlier[k]);
            }
        }
        assert forall|i: int| 0 <= i < entries.len() && is_media(
            #[trigger] entries[i],
        ) implies picks.contains(i) by {
            if i < shorter.len() {
                assert(shorter[i] == entries[i]);
                assert(earlier.contains(i));
                let j = choose|j: int| 0 <= j < earlier.len() && earlier[j] == i;
                assert(picks[j] == i);
            } else {
                assert(picks[picks.len() - 1] == i);
            }
        }
    }
}

/// A scan that succeeds reports for every file the length that was read.
pub proof fn lemma_scan_reports_lengths_read(root: Seq<char>, entries: Seq<WalkedEntryView>)
    requires
        forall|i: int| !unreadable_at(entries, i),
    ensures
        forall|j: int|
            0 <= j < media_descriptors(root, entries).len() ==> entries[media_indices(
                entries,
            )[j]].size == Ok::<nat, Seq<char>>(
                (#[trigger] media_descriptors(root, entries)[j]).size,
            ),
{
    lemma_scan_lists_each_media_file_once(root, entries);
    assert forall|j: int| 0 <= j < media_descriptors(root, entries).len() implies entries[media_indices(
        entries,
    )[j]].size == Ok::<nat, Seq<char>>((#[trigger] media_descriptors(root, entries)[j]).size) by {
        let i = media_indices(entries)[j];
        assert(!unreadable_at(entries, i));
    }
}

/// Whether a failure met while walking ends the scan. Only a failure at the
/// root itself does, `depth` zero: the folder cannot be walked then. What
/// cannot be read further down is passed over.
pub fn walk_failure_is_fatal(depth: usize) -> (fatal: bool)
    ensures
        fatal == (depth == 0),
{
    depth == 0
}

/// What [`do_scan_file`] returns.
pub open spec fn scan_file_spec(path: Seq<char>, probe: PathProbeView) -> Result<
    FileInfoView,
    CompressErrorView,
> {
    if !probe.exists {
        Err(CompressErrorView::NotFound)
    } else if !probe.is_file {
        Err(CompressErrorView::NotAFile)
    } else if path_kind(path) == FileKind::Other {
        Err(CompressErrorView::UnsupportedType)
    } else {
        match probe.size {
            Err(detail) => Err(CompressErrorView::Io(detail)),
            Ok(bytes) => Ok(
                FileInfoView {
                    path: path,
                    name: file_name_or_empty(path),
                    size: bytes,
                    file_type: kind_name(path_kind(path)),
                    extension: extension_spec(path),
                },
            ),
        }
    }
}

/// Mathematical model of the outcome of scanning one path.
pub open spec fn scanned_view(scanned: Result<FileInfo, CompressError>) -> Result<
    FileInfoView,
    CompressErrorView,
> {
    match scanned {
        Ok(file) => Ok(file@),
        Err(error) => Err(error@),
    }
}

/// Describes the single file at `path`, given what was learnt of the path.
///
/// Fails with `NotFound` where nothing exists there, with `NotAFile` where it
/// is no regular file, with `UnsupportedType` where it is neither an image
/// nor a video, and with the system's message where its length could not be
/// read; the checks are made in this order.
pub fn do_scan_file(path: &str, probe: &PathProbe) -> (scanned: Result<FileInfo, CompressError>)
    ensures
        scanned_view(scanned) == scan_file_spec(path@, probe@),
        scanned matches Ok(file) ==> is_media_descriptor(file@),
{
    if !probe.exists {
        return Err(CompressError::NotFound);
    }
    if !probe.is_file {
        return Err(CompressError::NotAFile);
    }
    let kind = file_kind(path);
    match kind {
        FileKind::Other => Err(CompressError::UnsupportedType),
        _ => match &probe.size {
            Err(detail) => Err(CompressError::Io(detail.clone())),
            Ok(bytes) => Ok(
                FileInfo {
                    path: path.to_owned(),
                    name: display_name(path),
                    size: *bytes,
                    file_type: String::from_str(kind.name()),
                    extension: get_extension(path),
                },
            ),
        },
    }
}

} // verus!
