//! The answer of the static file server to one request.

use vstd::prelude::*;
use vstd::string::StringExecFns;

verus! {

/// What became of reading the requested file.
pub enum FileRead {
    /// No entry exists at the path.
    Missing,
    /// The file's text.
    Read(String),
    /// Reading failed, with this description.
    Failed(String),
}

/// The status code and body that answer a request for the file at `path`.
pub fn file_response(path: &str, read: FileRead) -> (r: (u16, String))
    ensures
        read is Missing ==> r.0 == 404 && r.1@ == "File "@ + path@ + " not found"@,
        read is Read ==> r.0 == 200 && r.1 == read->Read_0,
        read is Failed ==> r.0 == 500 && r.1 == read->Failed_0,
{
    match read {
        FileRead::Missing => {
            let mut body = String::from_str("File ");
            body.append(path);
            body.append(" not found");
            (404, body)
        },
        FileRead::Read(content) => (200, content),
        FileRead::Failed(reason) => (500, reason),
    }
}

} // verus!
