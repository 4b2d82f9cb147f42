//! Paths in the file system, as far as the plugins build them.
use std::path::PathBuf;
use vstd::prelude::*;

verus! {

/// `std::path::PathBuf`, carried as an opaque value.
#[verifier::external_type_specification]
#[verifier::external_body]
pub struct ExPathBuf(PathBuf);

/// The path that `PathBuf::from` makes of a text.
pub uninterp spec fn path_of_text(text: Seq<char>) -> PathBuf;

/// The path that `Path::join` makes of a path and one more component.
pub uninterp spec fn path_joined(base: PathBuf, component: Seq<char>) -> PathBuf;

/// `PathBuf::from`.
#[verifier::external_body]
pub(crate) fn text_path(text: &str) -> (path: PathBuf)
    ensures
        path == path_of_text(text@),
{
    PathBuf::from(text)
}

/// `Path::join`.
#[verifier::external_body]
pub(crate) fn join_path(base: &PathBuf, component: &str) -> (path: PathBuf)
    ensures
        path == path_joined(*base, component@),
{
    base.join(component)
}

/// The final component of a path as `Path::file_name` gives it, as a path
/// of its own.
pub uninterp spec fn path_last_component(path: PathBuf) -> Option<PathBuf>;

/// The extension of a path as `Path::extension` gives it, as a path of its
/// own.
pub uninterp spec fn path_suffix(path: PathBuf) -> Option<PathBuf>;

/// The text of a path as `Path::to_str` gives it: there where the path is
/// valid Unicode.
pub uninterp spec fn path_unicode(path: PathBuf) -> Option<Seq<char>>;

/// The final component of a path, where there is one and it is valid
/// Unicode.
pub open spec fn path_file_name(path: PathBuf) -> Option<Seq<char>> {
    match path_last_component(path) {
        Some(name) => path_unicode(name),
        None => None,
    }
}

/// The extension of a path, where there is one and it is valid Unicode.
pub open spec fn path_extension(path: PathBuf) -> Option<Seq<char>> {
    match path_suffix(path) {
        Some(extension) => path_unicode(extension),
        None => None,
    }
}

/// The text of a path as `Path::to_string_lossy` gives it.
pub uninterp spec fn path_text(path: PathBuf) -> Seq<char>;

/// `PathBuf::clone`.
#[verifier::external_body]
pub(crate) fn clone_path(path: &PathBuf) -> (copy: PathBuf)
    ensures
        copy == *path,
{
    path.clone()
}

/// `Path::file_name`, its result kept as a path.
#[verifier::external_body]
fn last_component(path: &PathBuf) -> (name: Option<PathBuf>)
    ensures
        name == path_last_component(*path),
{
    path.file_name().map(PathBuf::from)
}

/// `Path::extension`, its result kept as a path.
#[verifier::external_body]
fn suffix(path: &PathBuf) -> (extension: Option<PathBuf>)
    ensures
        extension == path_suffix(*path),
{
    path.extension().map(PathBuf::from)
}

/// `Path::to_str`.
#[verifier::external_body]
fn unicode_of(path: &PathBuf) -> (text: Option<String>)
    ensures
        match text {
            Some(text) => path_unicode(*path) == Some(text@),
            None => path_unicode(*path) is None,
        },
{
    path.to_str().map(String::from)
}

/// The final component of `path`, where there is one and it is valid
/// Unicode.
pub(crate) fn file_name_of(path: &PathBuf) -> (name: Option<String>)
    ensures
        match name {
            Some(text) => path_file_name(*path) == Some(text@),
            None => path_file_name(*path) is None,
        },
{
    match last_component(path) {
        Some(name) => unicode_of(&name),
        None => None,
    }
}

/// The extension of `path`, where there is one and it is valid Unicode.
pub(crate) fn extension_of(path: &PathBuf) -> (extension: Option<String>)
    ensures
        match extension {
            Some(text) => path_extension(*path) == Some(text@),
            None => path_extension(*path) is None,
        },
{
    match suffix(path) {
        Some(extension) => unicode_of(&extension),
        None => None,
    }
}

/// `Path::to_string_lossy`.
#[verifier::external_body]
pub(crate) fn text_of_path(path: &PathBuf) -> (text: String)
    ensures
        text@ == path_text(*path),
{
    path.to_string_lossy().into_owned()
}

} // verus!
