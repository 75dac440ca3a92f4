//! The error type shared by the whole library.
use vstd::prelude::*;

verus! {

/// The error type of an I/O operation, carried inside [`PpaassError::IoError`].
#[verifier::external_type_specification]
#[verifier::external_body]
pub struct ExIoError(std::io::Error);

/// The general error that can happen in the project.
#[derive(Debug)]
pub enum PpaassError {
    /// The bytes could not be encoded or decoded.
    CodecError,
    /// An I/O operation failed.
    IoError { source: std::io::Error },
    /// An operation timed out after `elapsed` seconds.
    TimeoutError { elapsed: u64 },
}

} // verus!
