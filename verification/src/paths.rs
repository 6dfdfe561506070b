//! Path arithmetic on strings.
//!
//! The engine holds every path as a `String` and leaves the platform's rules
//! for splitting and joining paths to `std::path`. Each operation of
//! `std::path` that the engine uses has a name here, a specification function
//! without a body that stands for what the standard library computes on the
//! platform the crate is built for, and a small function that makes the call.

use vstd::prelude::*;
use vstd::string::StrSliceExecFns;
use std::path::Path;

verus! {

/// Whether `std::path::is_separator` accepts `c`.
pub uninterp spec fn is_path_separator(c: char) -> bool;

/// The result of `Path::extension` on `path`.
pub uninterp spec fn path_extension(path: Seq<char>) -> Option<Seq<char>>;

/// The result of `Path::file_stem` on `path`.
pub uninterp spec fn path_file_stem(path: Seq<char>) -> Option<Seq<char>>;

/// The result of `Path::file_name` on `path`.
pub uninterp spec fn path_file_name(path: Seq<char>) -> Option<Seq<char>>;

/// The result of `Path::parent` on `path`.
pub uninterp spec fn path_parent(path: Seq<char>) -> Option<Seq<char>>;

/// The result of `Path::with_extension` on `path` with `extension`.
pub uninterp spec fn path_with_extension(path: Seq<char>, extension: Seq<char>) -> Seq<char>;

/// The result of `Path::join` on `base` with `tail`.
pub uninterp spec fn path_join(base: Seq<char>, tail: Seq<char>) -> Seq<char>;

/// The result of `Path::strip_prefix` on `path` with `base`; `None` where it
/// reports that `base` is no prefix of `path`.
pub uninterp spec fn path_strip_prefix(path: Seq<char>, base: Seq<char>) -> Option<Seq<char>>;

/// No character of `text` is a path separator.
pub open spec fn free_of_separators(text: Seq<char>) -> bool {
    forall|i: int| 0 <= i < text.len() ==> !is_path_separator(#[trigger] text[i])
}

/// `text` holds neither a slash nor a backslash.
pub open spec fn free_of_slashes(text: Seq<char>) -> bool {
    forall|i: int| 0 <= i < text.len() ==> #[trigger] text[i] != '/' && text[i] != '\\'
}

/// Calls `std::path::is_separator`. Trusted: the result is what the name
/// `is_path_separator` stands for, and only a slash or a backslash is ever a
/// separator (the slash on Unix, both on Windows).
#[verifier::external_body]
fn is_separator(c: char) -> (b: bool)
    ensures
        b == is_path_separator(c),
        b ==> (c == '/' || c == '\\'),
{
    std::path::is_separator(c)
}

/// Calls `Path::extension`. Trusted: the result is what the name
/// `path_extension` stands for.
#[verifier::external_body]
pub(crate) fn extension_of(path: &str) -> (extension: Option<String>)
    ensures
        extension.deep_view() == path_extension(path@),
{
    Path::new(path).extension().map(|e| e.to_string_lossy().into_owned())
}

/// Calls `Path::file_stem`. Trusted: the result is what the name
/// `path_file_stem` stands for.
#[verifier::external_body]
pub(crate) fn file_stem_of(path: &str) -> (stem: Option<String>)
    ensures
        stem.deep_view() == path_file_stem(path@),
{
    Path::new(path).file_stem().map(|s| s.to_string_lossy().into_owned())
}

/// Calls `Path::file_name`. Trusted: the result is what the name
/// `path_file_name` stands for.
#[verifier::external_body]
pub(crate) fn file_name_of(path: &str) -> (name: Option<String>)
    ensures
        name.deep_view() == path_file_name(path@),
{
    Path::new(path).file_name().map(|n| n.to_string_lossy().into_owned())
}

/// Calls `Path::parent`. Trusted: the result is what the name `path_parent`
/// stands for.
#[verifier::external_body]
pub(crate) fn parent_of(path: &str) -> (parent: Option<String>)
    ensures
        parent.deep_view() == path_parent(path@),
{
    Path::new(path).parent().map(|p| p.to_string_lossy().into_owned())
}

/// Calls `Path::with_extension`, which panics on an extension that holds a
/// path separator. Trusted: the result is what the name `path_with_extension`
/// stands for.
#[verifier::external_body]
fn with_extension(path: &str, extension: &str) -> (changed: String)
    requires
        free_of_separators(extension@),
    ensures
        changed@ == path_with_extension(path@, extension@),
{
    Path::new(path).with_extension(extension).to_string_lossy().into_owned()
}

/// Calls `Path::join`. Trusted: the result is what the name `path_join`
/// stands for.
#[verifier::external_body]
pub(crate) fn join(base: &str, tail: &str) -> (joined: String)
    ensures
        joined@ == path_join(base@, tail@),
{
    Path::new(base).join(tail).to_string_lossy().into_owned()
}

/// Calls `Path::strip_prefix`. Trusted: the result is what the name
/// `path_strip_prefix` stands for, `None` standing for its error.
#[verifier::external_body]
pub(crate) fn strip_prefix(path: &str, base: &str) -> (rest: Option<String>)
    ensures
        rest.deep_view() == path_strip_prefix(path@, base@),
{
    Path::new(path).strip_prefix(base).ok().map(|p| p.to_string_lossy().into_owned())
}

/// Whether no character of `text` is a path separator.
pub fn has_no_separator(text: &str) -> (clean: bool)
    ensures
        clean == free_of_separators(text@),
        free_of_slashes(text@) ==> clean,
{
    let n = text.unicode_len();
    let mut i: usize = 0;
    while i < n
        invariant
            n == text@.len(),
            i <= n,
            forall|j: int| 0 <= j < i ==> !is_path_separator(#[trigger] text@[j]),
        decreases n - i,
    {
        let c = text.get_char(i);
        if is_separator(c) {
            assert(is_path_separator(text@[i as int]));
            assert(!free_of_slashes(text@)) by {
                assert(text@[i as int] == '/' || text@[i as int] == '\\');
            }
            return false;
        }
        i += 1;
    }
    true
}

/// What [`replace_extension`] returns.
pub open spec fn replaced_extension(path: Seq<char>, extension: Seq<char>) -> Seq<char> {
    if free_of_separators(extension) {
        path_with_extension(path, extension)
    } else {
        path
    }
}

/// `path` with its extension replaced by `extension`, or given one where it
/// had none; an empty `extension` removes it. An extension that holds a path
/// separator is not applied: the path comes back as it is.
pub fn replace_extension(path: &str, extension: &str) -> (changed: String)
    ensures
        changed@ == replaced_extension(path@, extension@),
        free_of_slashes(extension@) ==> changed@ == path_with_extension(path@, extension@),
{
    if has_no_separator(extension) {
        with_extension(path, extension)
    } else {
        path.to_owned()
    }
}

} // verus!
