//! The ways an installation can fail.
use vstd::prelude::*;

verus! {

/// Why an installation stopped.
#[derive(Clone, Copy, Debug, PartialEq, Eq, Structural)]
pub enum ErrorKind {
    /// A request or transfer failed, or a response lacked its declared length.
    NetworkError,
    /// The checksum resource held no digest.
    MalformedChecksum,
    /// The downloaded bytes do not hash to the expected digest.
    ChecksumMismatch,
    /// Decompressing or writing the archive failed.
    ExtractionError,
    /// A release lacks its checksum or its tarball asset.
    ConfigurationError,
}

} // verus!
