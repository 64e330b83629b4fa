//! Paths as text: the parts of a path that the standard library's `Path`
//! gives, and joining a relative path onto a directory.

use vstd::prelude::*;
use crate::text::{chars_of, push_char, push_str, string_of};

verus! {

// ---------------------------------------------------------------------------
// Paths (std::path)
// ---------------------------------------------------------------------------

/// What `Path::file_stem` gives for a path, when it has one.
pub uninterp spec fn file_stem_of(p: Seq<char>) -> Option<Seq<char>>;

/// What `Path::parent` gives for a path, when it has one.
pub uninterp spec fn parent_of(p: Seq<char>) -> Option<Seq<char>>;

/// `Path::file_stem` of a path given as text: the claim is that the result
/// is determined by the path's characters.
#[verifier::external_body]
pub(crate) fn path_file_stem(p: &str) -> (r: Option<String>)
    ensures
        match r {
            Some(s) => file_stem_of(p@) == Some(s@),
            None => file_stem_of(p@) is None,
        },
{
    std::path::Path::new(p).file_stem().map(|s| s.to_string_lossy().into_owned())
}

/// `Path::parent` of a path given as text: the claim is that the result is
/// determined by the path's characters.
#[verifier::external_body]
pub(crate) fn path_parent(p: &str) -> (r: Option<String>)
    ensures
        match r {
            Some(s) => parent_of(p@) == Some(s@),
            None => parent_of(p@) is None,
        },
{
    std::path::Path::new(p).parent().map(|s| s.to_string_lossy().into_owned())
}

/// A path is absolute when it starts with `'/'`.
pub open spec fn is_absolute(p: Seq<char>) -> bool {
    p.len() > 0 && p[0] == '/'
}

/// `base.join(rel)` for a relative `rel`: `rel` alone under an empty base,
/// otherwise base and rel with one `'/'` between them.
pub open spec fn joined(base: Seq<char>, rel: Seq<char>) -> Seq<char> {
    if is_absolute(rel) {
        rel
    } else if base.len() == 0 {
        rel
    } else if base.last() == '/' {
        base + rel
    } else {
        base + seq!['/'] + rel
    }
}

/// Joins a path onto a base directory, as `Path::join` does.
pub fn join_path(base: &str, rel: &str) -> (r: String)
    ensures
        r@ == joined(base@, rel@),
{
    let b = chars_of(base);
    let p = chars_of(rel);
    if p.len() > 0 && p[0] == '/' {
        return string_of(&p);
    }
    if b.len() == 0 {
        return string_of(&p);
    }
    let mut r = string_of(&b);
    if b[b.len() - 1] != '/' {
        push_char(&mut r, '/');
    }
    push_str(&mut r, rel);
    r
}

/// What `Path::file_name` gives for a path, when it has one.
pub uninterp spec fn file_name_of(p: Seq<char>) -> Option<Seq<char>>;

/// `Path::file_name` of a path given as text: the claim is that the result
/// is determined by the path's characters.
#[verifier::external_body]
pub(crate) fn path_file_name(p: &str) -> (r: Option<String>)
    ensures
        match r {
            Some(s) => file_name_of(p@) == Some(s@),
            None => file_name_of(p@) is None,
        },
{
    std::path::Path::new(p).file_name().map(|s| s.to_string_lossy().into_owned())
}

/// What `Path::extension` gives for a path, when it has one.
pub uninterp spec fn extension_of(p: Seq<char>) -> Option<Seq<char>>;

/// `Path::extension` of a path given as text: the claim is that the result
/// is determined by the path's characters.
#[verifier::external_body]
pub(crate) fn path_extension(p: &str) -> (r: Option<String>)
    ensures
        match r {
            Some(s) => extension_of(p@) == Some(s@),
            None => extension_of(p@) is None,
        },
{
    std::path::Path::new(p).extension().map(|s| s.to_string_lossy().into_owned())
}

} // verus!

verus! {

/// What `Path::strip_prefix` gives for a path and a base, when the base is
/// a prefix (by components).
pub uninterp spec fn stripped_of(p: Seq<char>, base: Seq<char>) -> Option<Seq<char>>;

/// `Path::strip_prefix` on paths given as text: the claim is that the
/// result is determined by the two paths' characters.
#[verifier::external_body]
pub(crate) fn path_strip_prefix(p: &str, base: &str) -> (r: Option<String>)
    ensures
        match r {
            Some(s) => stripped_of(p@, base@) == Some(s@),
            None => stripped_of(p@, base@) is None,
        },
{
    std::path::Path::new(p).strip_prefix(base).ok().map(|s| s.to_string_lossy().into_owned())
}

/// What `PathBuf::set_extension` makes of a path.
pub uninterp spec fn with_extension_of(p: Seq<char>, ext: Seq<char>) -> Seq<char>;

/// `PathBuf::set_extension` on a path given as text: the claim is that the
/// result is determined by the path and the extension.  Its documentation
/// says it panics on an extension that holds a path separator, so such an
/// extension is left out.
#[verifier::external_body]
pub(crate) fn path_with_extension(p: &str, ext: &str) -> (r: String)
    requires
        !ext@.contains('/'),
    ensures
        r@ == with_extension_of(p@, ext@),
{
    let mut b = std::path::PathBuf::from(p);
    b.set_extension(ext);
    b.to_string_lossy().into_owned()
}

} // verus!

verus! {

/// Whether two paths are equal as `Path`s (component by component).
pub uninterp spec fn same_path(a: Seq<char>, b: Seq<char>) -> bool;

/// `Path` equality on paths given as text: the claim is that the answer is
/// determined by the two paths' characters.
#[verifier::external_body]
pub(crate) fn paths_equal(a: &str, b: &str) -> (r: bool)
    ensures
        r == same_path(a@, b@),
{
    std::path::Path::new(a) == std::path::Path::new(b)
}

/// A track's path as the database stores it: relative to the music
/// directory when it lies inside it, else as given.
pub fn to_relative(music_dir: &str, path: &str) -> (r: String)
    ensures
        r@ == match stripped_of(path@, music_dir@) {
            Some(s) => s,
            None => path@,
        },
{
    match path_strip_prefix(path, music_dir) {
        Some(s) => s,
        None => path.to_owned(),
    }
}

} // verus!
