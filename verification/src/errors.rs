//! The error taxonomy of the download step.
//!
//! Probe-level transport errors are never surfaced (they are routine
//! failures, handled by classification); these errors belong to the
//! download step only, each naming the phase that failed.

use vstd::prelude::*;

verus! {

/// Why a download failed. The already-found URL is still a valid search
/// result when one of these occurs.
#[derive(Clone, Copy, Debug, PartialEq, Eq, Structural)]
pub enum DownloadError {
    /// The URL has no usable final path segment to derive a file name from.
    InvalidUrlFormat,
    /// The target directory could not be created.
    CreateDirFailed,
    /// The streaming request could not be issued or answered.
    RequestFailed,
    /// The output file could not be created.
    CreateFileFailed,
    /// Reading a chunk from the response stream failed.
    StreamReadFailed,
    /// Writing a chunk to the output file failed.
    WriteChunkFailed,
}

/// The message that describes each download error.
pub open spec fn error_message_chars(e: DownloadError) -> Seq<char> {
    match e {
        DownloadError::InvalidUrlFormat => "Invalid URL format"@,
        DownloadError::CreateDirFailed => "Failed to create directory"@,
        DownloadError::RequestFailed => "Download request failed"@,
        DownloadError::CreateFileFailed => "Failed to create file"@,
        DownloadError::StreamReadFailed => "Download stream error"@,
        DownloadError::WriteChunkFailed => "Write chunk failed"@,
    }
}

impl DownloadError {
    /// The human-readable message for this error.
    pub fn message(&self) -> (r: String)
        ensures
            r@ == error_message_chars(*self),
    {
        match self {
            DownloadError::InvalidUrlFormat => String::from_str("Invalid URL format"),
            DownloadError::CreateDirFailed => String::from_str("Failed to create directory"),
            DownloadError::RequestFailed => String::from_str("Download request failed"),
            DownloadError::CreateFileFailed => String::from_str("Failed to create file"),
            DownloadError::StreamReadFailed => String::from_str("Download stream error"),
            DownloadError::WriteChunkFailed => String::from_str("Write chunk failed"),
        }
    }
}

/// The message reported when the global search timeout fires without a
/// result.
pub fn timeout_message() -> (r: String)
    ensures
        r@ == "No valid URL found within time limit"@,
{
    String::from_str("No valid URL found within time limit")
}

} // verus!
