//! Copying one file onto a device.
//!
//! The file keeps its name: it goes to the path that the device's
//! directory and the last component of the source path make. A source path
//! without such a component names no file, and nothing is copied.

use vstd::prelude::*;
use vstd::string::*;
use crate::records::{opt_text, result_text};
use crate::text::joined;

verus! {

/// The last component of a path, where it is the name of a file or of a
/// directory: what `Path::file_name` makes of the text `path`. The rules are
/// those of the platform that the library is built for; under them the
/// result is a function of the text alone, and no file system is looked at.
pub uninterp spec fn path_file_name(path: Seq<char>) -> Option<Seq<char>>;

/// The path of `name` under `directory`: what `Path::join` makes of the two
/// texts, by the rules of the same platform and as a function of the texts
/// alone.
pub uninterp spec fn path_joined(directory: Seq<char>, name: Seq<char>) -> Seq<char>;

/// `Path::file_name` on the path that `path` writes, handed back as text.
/// The component is a part of a text, so it is itself text.
#[verifier::external_body]
pub(crate) fn file_name_of(path: &str) -> (r: Option<String>)
    ensures
        opt_text(r) == path_file_name(path@),
{
    match std::path::Path::new(path).file_name() {
        Some(name) => Some(name.to_string_lossy().into_owned()),
        None => None,
    }
}

/// `Path::join` on the paths that `directory` and `name` write, handed back
/// as text.
#[verifier::external_body]
pub(crate) fn path_under(directory: &str, name: &str) -> (r: String)
    ensures
        r@ == path_joined(directory@, name@),
{
    std::path::Path::new(directory).join(name).to_string_lossy().into_owned()
}

/// What is reported for a source path that names no file.
pub open spec fn no_file_name() -> Seq<char> {
    "Failed to copy file: source path has no file name"@
}

/// Where a file goes: under the device's directory, by its own name. A
/// source without a file name goes nowhere.
pub open spec fn destination_of(file_name: Option<Seq<char>>, usb_path: Seq<char>) -> Result<
    Seq<char>,
    Seq<char>,
> {
    match file_name {
        Some(name) => Ok(path_joined(usb_path, name)),
        None => Err(no_file_name()),
    }
}

/// Where a file of the given name goes under `usb_path`. A source without
/// a file name is refused.
pub fn destination_for(file_name: Option<String>, usb_path: &str) -> (r: Result<String, String>)
    ensures
        result_text(r) == destination_of(opt_text(file_name), usb_path@),
{
    match file_name {
        Some(name) => Ok(path_under(usb_path, name.as_str())),
        None => Err("Failed to copy file: source path has no file name".to_owned()),
    }
}

/// Where the file at `source_path` goes under `usb_path`: the file keeps
/// the name that is the last component of `source_path`, and is refused
/// where there is no such component.
pub fn copy_destination(source_path: &str, usb_path: &str) -> (r: Result<String, String>)
    ensures
        result_text(r) == destination_of(path_file_name(source_path@), usb_path@),
{
    destination_for(file_name_of(source_path), usb_path)
}

/// What the caller gets once the copy was tried: `true` where it was made;
/// else the reason, as the system gave it.
pub open spec fn copy_verdict(copied: Result<u64, String>) -> Result<bool, Seq<char>> {
    match copied {
        Ok(_) => Ok(true),
        Err(reason) => Err("Failed to copy file: "@ + reason@),
    }
}

/// The view of the outcome of a copy.
pub open spec fn copy_view(outcome: Result<bool, String>) -> Result<bool, Seq<char>> {
    match outcome {
        Ok(done) => Ok(done),
        Err(reason) => Err(reason@),
    }
}

/// Ends a copy. `copied` is the number of bytes written, or the reason why
/// the copy failed.
pub fn copy_result(copied: &Result<u64, String>) -> (r: Result<bool, String>)
    ensures
        copy_view(r) == copy_verdict(*copied),
{
    match copied {
        Ok(_) => Ok(true),
        Err(reason) => Err(joined("Failed to copy file: ", reason.as_str())),
    }
}

} // verus!
