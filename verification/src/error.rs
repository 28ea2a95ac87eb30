//! Error type for file-access failures reported to callers of the
//! surrounding tooling. The resampling engine itself has no recoverable
//! errors; this type only carries a path and the underlying I/O error.

use vstd::prelude::*;

verus! {

/// Declares `std::path::PathBuf` so that it can stand in a field.
#[verifier::external_type_specification]
#[verifier::external_body]
pub struct ExPathBuf(std::path::PathBuf);

/// Declares `std::io::Error` so that it can stand in a field.
#[verifier::external_type_specification]
#[verifier::external_body]
pub struct ExIoError(std::io::Error);

/// A failure to access the file at `path`, caused by `inner`.
pub struct AccessError {
    pub path: std::path::PathBuf,
    pub inner: std::io::Error,
}

impl AccessError {
    /// Packages a path and the I/O error that accessing it produced.
    pub fn new(path: std::path::PathBuf, inner: std::io::Error) -> AccessError {
        AccessError { path, inner }
    }
}

} // verus!
