//! The error taxonomy surfaced across the directory boundary.
//!
//! Every filesystem failure is mapped exactly once into this taxonomy and
//! returned to the caller: "not found" and "already exists" are expected,
//! recoverable outcomes; every other failure is opaque and carries the
//! offending path together with the kind of the underlying cause.

use vstd::prelude::*;

verus! {

/// The kind of an operating-system I/O failure, as the shell reports it
/// to the library. Only the kinds that the taxonomy distinguishes are
/// named; everything else is `Other`.
#[derive(Clone, Copy, Debug, PartialEq, Eq, Structural)]
pub enum IoErrorKind {
    NotFound,
    AlreadyExists,
    PermissionDenied,
    UnexpectedEof,
    Other,
}

/// What a successful metadata query reported the path to be.
#[derive(Clone, Copy, Debug, PartialEq, Eq, Structural)]
pub enum FileKind {
    File,
    Directory,
    Other,
}

/// A problem with the root path at construction time.
#[derive(Clone, Debug)]
pub enum OpenDirectoryError {
    DoesNotExist { directory_path: String },
    NotADirectory { directory_path: String },
    IoError { kind: IoErrorKind, directory_path: String },
}

/// A failure to open a file for reading.
#[derive(Clone, Debug)]
pub enum OpenReadError {
    FileDoesNotExist { filepath: String },
    IoError { kind: IoErrorKind, filepath: String },
}

/// A failure to open a file for writing.
#[derive(Clone, Debug)]
pub enum OpenWriteError {
    FileAlreadyExists { filepath: String },
    IoError { kind: IoErrorKind, filepath: String },
}

/// A failure to delete a file.
#[derive(Clone, Debug)]
pub enum DeleteError {
    FileDoesNotExist { filepath: String },
    IoError { kind: IoErrorKind, filepath: String },
}

} // verus!
