//! The parts of a path, as the standard library splits it.
//!
//! A path is split and joined by its text alone; no file is looked at. Which
//! characters separate directories differs between platforms, so the parts are
//! not spelled out here: each has a name, as a function of the path, and what is
//! done with the parts is stated and proved over these names.

use crate::labeling::{restore_file_name, restored_name, text_of};
use crate::split_image::{output_path, output_path_text};
use vstd::prelude::*;

verus! {

/// The file name of a path without its ending; `None` where the path names no
/// file.
pub uninterp spec fn path_file_stem(path: Seq<char>) -> Option<Seq<char>>;

/// The ending of the file name of a path; `None` where the path names no file or
/// the file name has no ending.
pub uninterp spec fn path_extension(path: Seq<char>) -> Option<Seq<char>>;

/// The last part of a path; `None` where the path ends in `..` or names nothing.
pub uninterp spec fn path_file_name(path: Seq<char>) -> Option<Seq<char>>;

/// A path without its last part; `None` where there is nothing above it.
pub uninterp spec fn path_parent(path: Seq<char>) -> Option<Seq<char>>;

/// The path of `name` inside the directory `base`.
pub uninterp spec fn path_joined(base: Seq<char>, name: Seq<char>) -> Seq<char>;

/// Takes the file name without its ending with `std::path::Path::file_stem`. The
/// contract gives the result its name, `path_file_stem`, and claims nothing else.
#[verifier::external_body]
fn file_stem_of(path: &str) -> (stem: Option<String>)
    ensures
        text_of(stem) == path_file_stem(path@),
{
    match std::path::Path::new(path).file_stem() {
        Some(stem) => Some(stem.to_string_lossy().into_owned()),
        None => None,
    }
}

/// Takes the ending of the file name with `std::path::Path::extension`. The
/// contract gives the result its name, `path_extension`, and claims nothing else.
#[verifier::external_body]
fn extension_of(path: &str) -> (extension: Option<String>)
    ensures
        text_of(extension) == path_extension(path@),
{
    match std::path::Path::new(path).extension() {
        Some(extension) => Some(extension.to_string_lossy().into_owned()),
        None => None,
    }
}

/// Takes the last part of the path with `std::path::Path::file_name`. The
/// contract gives the result its name, `path_file_name`, and claims nothing else.
#[verifier::external_body]
fn file_name_of(path: &str) -> (name: Option<String>)
    ensures
        text_of(name) == path_file_name(path@),
{
    match std::path::Path::new(path).file_name() {
        Some(name) => Some(name.to_string_lossy().into_owned()),
        None => None,
    }
}

/// Takes the path without its last part with `std::path::Path::parent`. The
/// contract gives the result its name, `path_parent`, and claims nothing else.
#[verifier::external_body]
fn parent_of(path: &str) -> (parent: Option<String>)
    ensures
        text_of(parent) == path_parent(path@),
{
    match std::path::Path::new(path).parent() {
        Some(parent) => Some(parent.to_string_lossy().into_owned()),
        None => None,
    }
}

/// Puts `name` into the directory `base` with `std::path::Path::join`. The
/// contract gives the result its name, `path_joined`, and claims nothing else.
#[verifier::external_body]
fn joined(base: &str, name: &str) -> (path: String)
    ensures
        path@ == path_joined(base@, name@),
{
    std::path::Path::new(base).join(name).to_string_lossy().into_owned()
}

/// An optional text; empty where there is none.
pub open spec fn text_or_empty(s: Option<Seq<char>>) -> Seq<char> {
    match s {
        Some(text) => text,
        None => Seq::empty(),
    }
}

/// The text of an optional string slice.
pub open spec fn slice_text(s: Option<&str>) -> Option<Seq<char>> {
    match s {
        Some(text) => Some(text@),
        None => None,
    }
}

/// Where the part number `idx` of the picture `file_path` is stored: in the
/// directory `save_path`, under the picture's name without its ending, followed
/// by `_split_`, the number, a dot and the ending. A picture without a name or
/// without an ending gets an empty one.
pub fn build_output_path(save_path: &str, file_path: &str, idx: usize) -> (path: String)
    ensures
        path@ == output_path_text(
            save_path@,
            text_or_empty(path_file_stem(file_path@)),
            text_or_empty(path_extension(file_path@)),
            idx as nat,
        ),
{
    let file_stem = file_stem_of(file_path);
    let extension = extension_of(file_path);
    proof {
        reveal_strlit("");
        assert(""@ =~= Seq::<char>::empty());
    }
    let stem_text = match &file_stem {
        Some(text) => text.as_str(),
        None => "",
    };
    let extension_text = match &extension {
        Some(text) => text.as_str(),
        None => "",
    };
    output_path(save_path, stem_text, extension_text, idx)
}

/// The directory and the name that a picture had before it was stored as
/// labelled, given the parts of the stored file's path: its file name, the
/// ending of that name, and the directory it lies in. The name is the one that
/// `restored_name` gives for the file name and its ending; the directory is the
/// one given, or empty where none is given. `None` where the file name or its
/// ending is missing, and where the name holds no label mark before its ending.
pub open spec fn restored_parts(
    file_name: Option<Seq<char>>,
    extension: Option<Seq<char>>,
    parent: Option<Seq<char>>,
) -> Option<(Seq<char>, Seq<char>)> {
    match (file_name, extension) {
        (Some(name), Some(ending)) => match restored_name(name, ending) {
            Some(restored) => Some((text_or_empty(parent), restored)),
            None => None,
        },
        _ => None,
    }
}

/// The path that a picture had before it was stored as labelled: the restored
/// name, put into the directory of the stored file.
pub open spec fn reversed_path(modified_path: Seq<char>) -> Option<Seq<char>> {
    match restored_parts(
        path_file_name(modified_path),
        path_extension(modified_path),
        path_parent(modified_path),
    ) {
        Some(parts) => Some(path_joined(parts.0, parts.1)),
        None => None,
    }
}

/// The directory and the name that a picture had before it was stored as
/// labelled, given the parts of the stored file's path.
pub fn restore_path_parts(file_name: Option<&str>, extension: Option<&str>, parent: Option<&str>) -> (parts: Option<
    (String, String),
>)
    ensures
        match parts {
            Some(found) => restored_parts(slice_text(file_name), slice_text(extension), slice_text(parent)) == Some(
                (found.0@, found.1@),
            ),
            None => restored_parts(slice_text(file_name), slice_text(extension), slice_text(parent)) is None,
        },
{
    let name = match file_name {
        Some(name) => name,
        None => {
            return None;
        },
    };
    let ending = match extension {
        Some(ending) => ending,
        None => {
            return None;
        },
    };
    let restored = match restore_file_name(name, ending) {
        Some(restored) => restored,
        None => {
            return None;
        },
    };
    let directory = match parent {
        Some(directory) => String::from_str(directory),
        None => String::new(),
    };
    Some((directory, restored))
}

/// The path that a picture had before it was stored as labelled: in the same
/// directory, under the name that `restore_file_name` gives for the stored file's
/// name and ending. `None` where the path names no file, where the file name has
/// no ending, and where the name holds no label mark.
pub fn reverse_modified_filename(modified_path: &str) -> (original: Option<String>)
    ensures
        text_of(original) == reversed_path(modified_path@),
{
    let file_name = file_name_of(modified_path);
    let extension = extension_of(modified_path);
    let parent = parent_of(modified_path);
    let name_text = match &file_name {
        Some(text) => Some(text.as_str()),
        None => None,
    };
    let extension_text = match &extension {
        Some(text) => Some(text.as_str()),
        None => None,
    };
    let parent_text = match &parent {
        Some(text) => Some(text.as_str()),
        None => None,
    };
    match restore_path_parts(name_text, extension_text, parent_text) {
        Some(parts) => Some(joined(parts.0.as_str(), parts.1.as_str())),
        None => None,
    }
}

} // verus!
