//! File-system paths, as `std::path` holds them.
//!
//! A `PathBuf` is opaque to the verifier. The functions below call
//! `std::path` and state, over names, what each call returns. None of these
//! statements is proved. No function here touches the file system.

use std::path::PathBuf;
use vstd::prelude::*;

verus! {

#[verifier::external_type_specification]
#[verifier::external_body]
pub struct ExPathBuf(PathBuf);

/// The path that a text denotes.
pub uninterp spec fn path_of(text: Seq<char>) -> PathBuf;

/// The text of a path, with what is not Unicode replaced.
pub uninterp spec fn path_text(p: PathBuf) -> Seq<char>;

/// `base` extended by the path that `rel` denotes.
pub uninterp spec fn path_joined(base: PathBuf, rel: Seq<char>) -> PathBuf;

/// The components of `base` are the first components of `p`.
pub uninterp spec fn path_within(p: PathBuf, base: PathBuf) -> bool;

/// What is left of `p` once `base` is taken from its front, where `p` is
/// within `base`.
pub uninterp spec fn path_below(p: PathBuf, base: PathBuf) -> Option<PathBuf>;

/// The last component of a path as text, where it has one that is Unicode.
pub uninterp spec fn path_file_name(p: PathBuf) -> Option<Seq<char>>;

/// The stem of the last component of a path as text, where it has one
/// that is Unicode.
pub uninterp spec fn path_file_stem(p: PathBuf) -> Option<Seq<char>>;

/// `Path::file_stem`, as text. Trusted: the result is the named
/// `path_file_stem`.
#[verifier::external_body]
pub(crate) fn path_stem(p: &PathBuf) -> (r: Option<String>)
    ensures
        match r {
            Some(stem) => path_file_stem(*p) == Some(stem@),
            None => path_file_stem(*p) is None,
        },
{
    p.file_stem().and_then(|stem| stem.to_str()).map(|stem| stem.to_string())
}

/// `PathBuf::from` on a string. Trusted: the result is the named `path_of`.
#[verifier::external_body]
pub(crate) fn path_from(text: &str) -> (r: PathBuf)
    ensures
        r == path_of(text@),
{
    PathBuf::from(text)
}

/// `Path::to_string_lossy`. Trusted: the result is the named `path_text`.
#[verifier::external_body]
pub(crate) fn path_to_text(p: &PathBuf) -> (r: String)
    ensures
        r@ == path_text(*p),
{
    p.to_string_lossy().into_owned()
}

/// `Path::join` with a string. Trusted: the result is the named `path_joined`.
#[verifier::external_body]
pub(crate) fn path_join(base: &PathBuf, rel: &str) -> (r: PathBuf)
    ensures
        r == path_joined(*base, rel@),
{
    base.join(rel)
}

/// `Path::starts_with`. Trusted: the result is the named `path_within`.
#[verifier::external_body]
pub(crate) fn path_starts_with(p: &PathBuf, base: &PathBuf) -> (r: bool)
    ensures
        r == path_within(*p, *base),
{
    p.starts_with(base)
}

/// `Path::strip_prefix`. Trusted: the result is the named `path_below`.
#[verifier::external_body]
pub(crate) fn path_strip_prefix(p: &PathBuf, base: &PathBuf) -> (r: Option<PathBuf>)
    ensures
        r == path_below(*p, *base),
{
    p.strip_prefix(base).ok().map(|rest| rest.to_path_buf())
}

/// `Path::file_name`, as text. Trusted: the result is the named
/// `path_file_name`.
#[verifier::external_body]
pub(crate) fn path_last_name(p: &PathBuf) -> (r: Option<String>)
    ensures
        match r {
            Some(name) => path_file_name(*p) == Some(name@),
            None => path_file_name(*p) is None,
        },
{
    p.file_name().and_then(|name| name.to_str()).map(|name| name.to_string())
}

/// `PathBuf`'s `Clone`. Trusted: the copy is the same path.
pub assume_specification[ <PathBuf as Clone>::clone ](p: &PathBuf) -> (r: PathBuf)
    ensures
        r == *p,
;

} // verus!
