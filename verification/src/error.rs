//! The library's error type. Failures raised by outside code (HTTP,
//! JSON decoding, the filesystem) are carried as their rendered
//! messages; the shells around the library convert at the boundary.

use vstd::prelude::*;

verus! {

/// Every failure the pipeline distinguishes.
#[derive(Debug)]
pub enum Error {
    /// A transport-level HTTP failure.
    Http(String),
    /// A malformed response body.
    Json(String),
    /// A local I/O failure.
    Io(String),
    /// A success HTTP status carrying a non-zero application status.
    Api { message: String },
    /// A download that failed outright.
    Download(String),
    /// A local file operation that failed.
    File(String),
    /// A record lacking required fields.
    InvalidData(String),
}

} // verus!
