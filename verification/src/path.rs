//! What the platform's path syntax reads from a path, and the facts about
//! those readings that hold on every platform.

use vstd::prelude::*;

verus! {

/// `ext` holds no dot and stands in `path` directly behind one.
pub open spec fn follows_dot(path: Seq<char>, ext: Seq<char>) -> bool {
    &&& forall|k: int| 0 <= k < ext.len() ==> ext[k] != '.'
    &&& exists|i: int|
        #![trigger path[i]]
        0 <= i && i + 1 + ext.len() <= path.len() && path[i] == '.' && path.subrange(
            i + 1,
            i + 1 + ext.len(),
        ) == ext
}

/// `head` is a beginning of `whole` and shorter than it.
pub open spec fn proper_prefix(head: Seq<char>, whole: Seq<char>) -> bool {
    head.len() < whole.len() && whole.subrange(0, head.len() as int) == head
}

/// The view of an optional string.
pub open spec fn text_of(s: Option<String>) -> Option<Seq<char>> {
    match s {
        Some(t) => Some(t@),
        None => None,
    }
}

/// What `extension_of` may return for `path`: nothing, or a dot-free piece
/// of `path` that directly follows a dot.
pub open spec fn extension_reading(path: Seq<char>, ext: Option<Seq<char>>) -> bool {
    ext matches Some(e) ==> follows_dot(path, e)
}

/// What `parent_of` may return for `path`: nothing, or a proper beginning of
/// `path`; nothing for the empty path.
pub open spec fn parent_reading(path: Seq<char>, parent: Option<Seq<char>>) -> bool {
    &&& path.len() == 0 ==> parent is None
    &&& parent matches Some(p) ==> proper_prefix(p, path)
}

/// The extension that the platform this library is built for reads from
/// `path`: what `std::path::Path::extension` returns for it.
pub uninterp spec fn extension_read(path: Seq<char>) -> Option<Seq<char>>;

/// The parent directory that the platform this library is built for reads
/// from `path`: what `std::path::Path::parent` returns for it.
pub uninterp spec fn parent_read(path: Seq<char>) -> Option<Seq<char>>;

/// Calls `std::path::Path::extension`.
///
/// Trusted: the result depends on the text of `path` alone and is the
/// reading named `extension_read`. If there is one, it is the part of the
/// file name behind its last dot, so it holds no dot and follows one in
/// `path`. Which part of `path` is the file name is left to the platform.
#[verifier::external_body]
pub(crate) fn extension_of(path: &str) -> (ext: Option<String>)
    ensures
        text_of(ext) == extension_read(path@),
        extension_reading(path@, text_of(ext)),
{
    Some(std::path::Path::new(path).extension()?.to_string_lossy().into_owned())
}

/// Calls `std::path::Path::parent`.
///
/// Trusted: the result depends on the text of `path` alone and is the
/// reading named `parent_read`. If there is one, it is `path` without its
/// final component, hence a proper beginning of it; the empty path has
/// none.
#[verifier::external_body]
pub(crate) fn parent_of(path: &str) -> (parent: Option<String>)
    ensures
        text_of(parent) == parent_read(path@),
        parent_reading(path@, text_of(parent)),
{
    Some(std::path::Path::new(path).parent()?.to_string_lossy().into_owned())
}

} // verus!
