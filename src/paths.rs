//! Checks on file and directory arguments before a command runs.

use crate::format::text_eq;
use vstd::prelude::*;
use vstd::string::StringExecFns;

verus! {

/// The message of a refused input file or directory.
pub const MISSING_FILE: &'static str = "File does not exists";

/// The parent of a path, read from its text alone, if it has one.
pub uninterp spec fn parent_of(path: Seq<char>) -> Option<Seq<char>>;

/// Relies on `Path::exists`: whether the file system has an entry at the
/// path now. Nothing is known of the answer.
#[verifier::external_body]
fn path_exists(path: &str) -> (r: bool) {
    std::path::Path::new(path).exists()
}

/// Relies on `Path::is_dir`: whether the file system has a directory at the
/// path now. Nothing is known of the answer.
#[verifier::external_body]
fn path_is_dir(path: &str) -> (r: bool) {
    std::path::Path::new(path).is_dir()
}

/// Relies on `Path::parent`: the path without its last component, read from
/// the text alone; none for a root or an empty path.
#[verifier::external_body]
fn path_parent(path: &str) -> (r: Option<String>)
    ensures
        match r {
            Some(p) => parent_of(path@) == Some(p@),
            None => parent_of(path@) is None,
        },
{
    match std::path::Path::new(path).parent() {
        Some(p) => Some(p.to_string_lossy().into_owned()),
        None => None,
    }
}

/// Accepts `-` (standard input) or a name for which an entry exists.
pub fn check_input_file(file_name: &str, found: bool) -> (r: Result<String, &'static str>)
    ensures
        file_name@ == "-"@ || found ==> r is Ok && r->Ok_0@ == file_name@,
        !(file_name@ == "-"@ || found) ==> r is Err && r->Err_0@ == MISSING_FILE@,
{
    if found || text_eq(file_name, "-") {
        Ok(String::from_str(file_name))
    } else {
        Err(MISSING_FILE)
    }
}

/// Accepts `-` (standard input) or the name of an existing file.
pub fn verify_input_file(file_name: &str) -> (r: Result<String, &'static str>)
    ensures
        file_name@ == "-"@ ==> r is Ok,
        r is Ok ==> r->Ok_0@ == file_name@,
        r is Err ==> r->Err_0@ == MISSING_FILE@ && file_name@ != "-"@,
{
    if text_eq(file_name, "-") {
        return Ok(String::from_str(file_name));
    }
    let found = path_exists(file_name);
    check_input_file(file_name, found)
}

/// Accepts a path for which an entry exists and is a directory.
pub fn check_dir(path: &str, found: bool, is_dir: bool) -> (r: Result<String, &'static str>)
    ensures
        found && is_dir ==> r is Ok && r->Ok_0@ == path@,
        !(found && is_dir) ==> r is Err && r->Err_0@ == MISSING_FILE@,
{
    if found && is_dir {
        Ok(String::from_str(path))
    } else {
        Err(MISSING_FILE)
    }
}

/// Accepts the path of an existing directory.
pub fn verify_path(path: &str) -> (r: Result<String, &'static str>)
    ensures
        r is Ok ==> r->Ok_0@ == path@,
        r is Err ==> r->Err_0@ == MISSING_FILE@,
{
    let found = path_exists(path);
    let is_dir = if found {
        path_is_dir(path)
    } else {
        false
    };
    check_dir(path, found, is_dir)
}

/// Why an output path was refused.
#[derive(Debug, Clone, Copy, PartialEq, Eq, Structural)]
pub enum OutputPathError {
    /// The directory the file would go in does not exist.
    ParentMissing,
    /// The path the file would go in is not a directory.
    ParentNotDirectory,
}

impl OutputPathError {
    /// The text that `message` gives.
    pub open spec fn spec_message(self) -> Seq<char> {
        match self {
            OutputPathError::ParentMissing => "Parent directory does not exist"@,
            OutputPathError::ParentNotDirectory => "Parent path is not a directory"@,
        }
    }

    /// A short description of the error.
    pub fn message(&self) -> (r: &'static str)
        ensures
            r@ == self.spec_message(),
    {
        match self {
            OutputPathError::ParentMissing => "Parent directory does not exist",
            OutputPathError::ParentNotDirectory => "Parent path is not a directory",
        }
    }
}

/// Accepts an output path whose named parent exists and is a directory.
pub fn check_output_parent(path: &str, parent_exists: bool, parent_is_dir: bool) -> (r: Result<
    String,
    OutputPathError,
>)
    ensures
        !parent_exists ==> r == Err::<String, OutputPathError>(OutputPathError::ParentMissing),
        parent_exists && !parent_is_dir ==> r == Err::<String, OutputPathError>(
            OutputPathError::ParentNotDirectory,
        ),
        parent_exists && parent_is_dir ==> r is Ok && r->Ok_0@ == path@,
{
    if !parent_exists {
        Err(OutputPathError::ParentMissing)
    } else if !parent_is_dir {
        Err(OutputPathError::ParentNotDirectory)
    } else {
        Ok(String::from_str(path))
    }
}

/// Accepts a path to write to: a bare file name, or one whose parent
/// directory exists.
pub fn verify_output_path(path: &str) -> (r: Result<String, OutputPathError>)
    ensures
        r is Ok ==> r->Ok_0@ == path@,
        (parent_of(path@) is None || parent_of(path@)->0.len() == 0) ==> r is Ok,
{
    match path_parent(path) {
        Some(parent) => {
            if parent.as_str().is_empty() {
                return Ok(String::from_str(path));
            }
            let parent_exists = path_exists(parent.as_str());
            let parent_is_dir = if parent_exists {
                path_is_dir(parent.as_str())
            } else {
                false
            };
            check_output_parent(path, parent_exists, parent_is_dir)
        },
        None => Ok(String::from_str(path)),
    }
}

} // verus!
