//! Error kinds surfaced by the coordination core.
//!
//! The core never performs I/O itself, so the `Io` variants carry no cause:
//! they tell the surrounding runtime code that a backing I/O failure is the
//! reason, and that code pairs the kind with the concrete error it observed.

use vstd::prelude::*;

verus! {

/// Why terminal completion of the write could not succeed.
#[derive(Debug, Clone, Copy, PartialEq, Eq, Structural)]
pub enum CompleteWritingError {
    /// A backing I/O error occurred.
    Io,
    /// Writing to the file had already failed.
    FileWritingFailed,
    /// The sync embedded in completion failed; the phase was still moved
    /// forward so later completion attempts cannot deadlock.
    SyncError,
}

/// Why a write was rejected.
#[derive(Debug, Clone, Copy, PartialEq, Eq, Structural)]
pub enum WriteError {
    /// A backing I/O error occurred, or writing had already failed.
    Io,
    /// The file was already closed: a non-empty write arrived after the
    /// phase completed.
    FileClosed,
}

/// Why a read was rejected.
#[derive(Debug, Clone, Copy, PartialEq, Eq, Structural)]
pub enum ReadError {
    /// A backing I/O error occurred.
    Io,
    /// The file was already closed: the writer failed, so the stream will
    /// never complete.
    FileClosed,
}

impl CompleteWritingError {
    /// A human-readable description of the error.
    pub fn message(&self) -> (m: &'static str)
        ensures
            *self == CompleteWritingError::Io ==> m@ == "An I/O error occurred"@,
            *self == CompleteWritingError::FileWritingFailed ==> m@ == "Writing to the file failed"@,
            *self == CompleteWritingError::SyncError ==> m@
                == "Failed to synchronize the file with the underlying buffer"@,
    {
        match self {
            CompleteWritingError::Io => "An I/O error occurred",
            CompleteWritingError::FileWritingFailed => "Writing to the file failed",
            CompleteWritingError::SyncError => "Failed to synchronize the file with the underlying buffer",
        }
    }
}

impl WriteError {
    /// A human-readable description of the error.
    pub fn message(&self) -> (m: &'static str)
        ensures
            *self == WriteError::Io ==> m@ == "An I/O error occurred"@,
            *self == WriteError::FileClosed ==> m@ == "The file was already closed"@,
    {
        match self {
            WriteError::Io => "An I/O error occurred",
            WriteError::FileClosed => "The file was already closed",
        }
    }
}

impl ReadError {
    /// A human-readable description of the error.
    pub fn message(&self) -> (m: &'static str)
        ensures
            *self == ReadError::Io ==> m@ == "An I/O error occurred"@,
            *self == ReadError::FileClosed ==> m@ == "The file was already closed"@,
    {
        match self {
            ReadError::Io => "An I/O error occurred",
            ReadError::FileClosed => "The file was already closed",
        }
    }
}

} // verus!
