//! The directory core: resolution of relative paths against the root,
//! lazy materialization of the root directory tree, and the
//! interpretation of the outcome the operating system reports for each
//! directory operation.
//!
//! The operating-system calls themselves stand outside the library: a
//! thin shell performs them and hands their outcomes to the functions
//! here, which decide what each operation returns.

use vstd::prelude::*;

use crate::errors::{DeleteError, FileKind, IoErrorKind, OpenReadError, OpenWriteError};
use crate::handle::FsHandle;

verus! {

/// The resolution of a relative path against a root: the two joined by
/// one path separator, unless the root is empty or already ends with
/// one.
pub open spec fn join_path(root: Seq<char>, rel: Seq<char>) -> Seq<char> {
    if root.len() == 0 {
        rel
    } else if root.last() == '/' {
        root + rel
    } else {
        root + seq!['/'] + rel
    }
}

/// A filesystem directory: opaque byte-addressable files identified by
/// relative paths under one root directory. It does no caching of its
/// own and relies on the operating system's page cache.
#[derive(Clone, Debug)]
pub struct FsDirectory {
    /// The root directory all relative paths are resolved against.
    pub root: String,
    /// Whether the root directory tree is known to exist on disk.
    /// Seeded from the on-disk state at construction; set, and never
    /// reset, by the first write-triggering operation.
    pub created: bool,
}

/// What the operating system reported when a file was opened for
/// reading: the byte length from the file's metadata on success, or
/// the failure of the open itself, or the failure of the metadata
/// query after a successful open.
#[derive(Clone, Copy, Debug, PartialEq, Eq, Structural)]
pub enum ReadOpenEvent {
    Opened { length: u64 },
    OpenFailed { kind: IoErrorKind },
    MetadataFailed { kind: IoErrorKind },
}

/// What the operating system reported when a file was opened for
/// writing with exclusive-create semantics, or when the root directory
/// tree was being prepared before the attempt.
#[derive(Clone, Copy, Debug, PartialEq, Eq, Structural)]
pub enum WriteOpenEvent {
    Created,
    CreateFailed { kind: IoErrorKind },
    PrepareFailed { kind: IoErrorKind },
}

impl FsDirectory {
    /// Builds the directory over `root`. Construction touches the
    /// filesystem only through the existence test whose result it is
    /// given: it never creates the root directory.
    pub fn new(root: String, root_exists: bool) -> (d: FsDirectory)
        ensures
            d.root == root,
            d.created == root_exists,
    {
        FsDirectory { root, created: root_exists }
    }

    /// Resolves a relative path against the root.
    pub fn subpath(&self, path: &str) -> (r: String)
        ensures
            r@ == join_path(self.root@, path@),
    {
        let root_len = self.root.as_str().unicode_len();
        if root_len == 0 {
            path.to_owned()
        } else if self.root.as_str().get_char(root_len - 1) == '/' {
            let mut s = self.root.clone();
            s.append(path);
            s
        } else {
            let mut s = self.root.clone();
            s.append("/");
            s.append(path);
            proof {
                reveal_strlit("/");
                assert("/"@ =~= seq!['/']);
                assert(s@ =~= join_path(self.root@, path@));
            }
            s
        }
    }

    /// Whether the root directory tree is already known to exist, so
    /// that a write-triggering operation need not create it.
    pub fn materialized(&self) -> (b: bool)
        ensures
            b == self.created,
    {
        self.created
    }

    /// Records that the root directory tree now exists on disk. The
    /// flag, once set, is never reset for the directory's lifetime.
    pub fn mark_materialized(&mut self)
        ensures
            final(self).created,
            final(self).root == old(self).root,
    {
        self.created = true;
    }

    /// Directory-level durability is left to the operating system:
    /// there is nothing to flush, so synchronization always succeeds.
    pub fn sync_directory(&self) -> (r: Result<(), IoErrorKind>)
        ensures
            r is Ok,
    {
        Ok(())
    }
}

/// Decides what opening a read handle returns, given what the
/// operating system reported. A failed open maps to `FileDoesNotExist`
/// exactly when the file was not found; every other failure, of the
/// open or of the metadata query, is an opaque I/O error carrying the
/// path. On success the handle caches the reported byte length.
pub fn read_open_outcome(event: ReadOpenEvent, filepath: String) -> (r: Result<
    FsHandle,
    OpenReadError,
>)
    requires
        event matches ReadOpenEvent::Opened { length } ==> length <= usize::MAX,
    ensures
        (event matches ReadOpenEvent::Opened { length } ==> r matches Ok(h) && h.length
            == length),
        (event matches ReadOpenEvent::OpenFailed { kind } ==> if kind == IoErrorKind::NotFound {
            r == Err::<FsHandle, OpenReadError>(OpenReadError::FileDoesNotExist { filepath })
        } else {
            r == Err::<FsHandle, OpenReadError>(OpenReadError::IoError { kind, filepath })
        }),
        (event matches ReadOpenEvent::MetadataFailed { kind } ==> r == Err::<
            FsHandle,
            OpenReadError,
        >(OpenReadError::IoError { kind, filepath })),
{
    match event {
        ReadOpenEvent::Opened { length } => Ok(FsHandle { length: length as usize }),
        ReadOpenEvent::OpenFailed { kind } => {
            if kind == IoErrorKind::NotFound {
                Err(OpenReadError::FileDoesNotExist { filepath })
            } else {
                Err(OpenReadError::IoError { kind, filepath })
            }
        },
        ReadOpenEvent::MetadataFailed { kind } => Err(OpenReadError::IoError { kind, filepath }),
    }
}

/// Decides what opening a write sink returns. A failed exclusive
/// create maps to `FileAlreadyExists` exactly when the file was
/// already there; any other creation failure carries the full target
/// path, and a failure while preparing the root directory tree carries
/// the root path instead, as an opaque I/O error.
pub fn write_open_outcome(event: WriteOpenEvent, full_path: String, root_path: String) -> (r:
    Result<(), OpenWriteError>)
    ensures
        event == WriteOpenEvent::Created ==> r is Ok,
        (event matches WriteOpenEvent::CreateFailed { kind } ==> if kind
            == IoErrorKind::AlreadyExists {
            r == Err::<(), OpenWriteError>(
                OpenWriteError::FileAlreadyExists { filepath: full_path },
            )
        } else {
            r == Err::<(), OpenWriteError>(OpenWriteError::IoError { kind, filepath: full_path })
        }),
        (event matches WriteOpenEvent::PrepareFailed { kind } ==> r == Err::<(), OpenWriteError>(
            OpenWriteError::IoError { kind, filepath: root_path },
        )),
{
    match event {
        WriteOpenEvent::Created => Ok(()),
        WriteOpenEvent::CreateFailed { kind } => {
            if kind == IoErrorKind::AlreadyExists {
                Err(OpenWriteError::FileAlreadyExists { filepath: full_path })
            } else {
                Err(OpenWriteError::IoError { kind, filepath: full_path })
            }
        },
        WriteOpenEvent::PrepareFailed { kind } => Err(
            OpenWriteError::IoError { kind, filepath: root_path },
        ),
    }
}

/// Decides what the existence test returns, given the metadata the
/// operating system reported for the path. The path exists exactly
/// when it names a regular file; a not-found report is the answer
/// `false`, not an error; any other failure is an opaque I/O error.
pub fn exists_outcome(outcome: Result<FileKind, IoErrorKind>, filepath: String) -> (r: Result<
    bool,
    OpenReadError,
>)
    ensures
        (outcome matches Ok(k) ==> r == Ok::<bool, OpenReadError>(k == FileKind::File)),
        outcome == Err::<FileKind, IoErrorKind>(IoErrorKind::NotFound) ==> r == Ok::<
            bool,
            OpenReadError,
        >(false),
        (outcome matches Err(kind) ==> (kind != IoErrorKind::NotFound ==> r == Err::<
            bool,
            OpenReadError,
        >(OpenReadError::IoError { kind, filepath }))),
{
    match outcome {
        Ok(kind) => Ok(kind == FileKind::File),
        Err(kind) => {
            if kind == IoErrorKind::NotFound {
                Ok(false)
            } else {
                Err(OpenReadError::IoError { kind, filepath })
            }
        },
    }
}

/// Decides what deletion returns: success passes through, a not-found
/// failure maps to `FileDoesNotExist`, and every other failure is an
/// opaque I/O error carrying the path.
pub fn delete_outcome(outcome: Result<(), IoErrorKind>, filepath: String) -> (r: Result<
    (),
    DeleteError,
>)
    ensures
        outcome is Ok ==> r is Ok,
        (outcome matches Err(kind) ==> if kind == IoErrorKind::NotFound {
            r == Err::<(), DeleteError>(DeleteError::FileDoesNotExist { filepath })
        } else {
            r == Err::<(), DeleteError>(DeleteError::IoError { kind, filepath })
        }),
{
    match outcome {
        Ok(()) => Ok(()),
        Err(kind) => {
            if kind == IoErrorKind::NotFound {
                Err(DeleteError::FileDoesNotExist { filepath })
            } else {
                Err(DeleteError::IoError { kind, filepath })
            }
        },
    }
}

/// Decides what a whole-file read returns: on success exactly the
/// bytes the operating system handed back, a not-found failure maps to
/// `FileDoesNotExist`, and every other failure is an opaque I/O error
/// carrying the path.
pub fn atomic_read_outcome(outcome: Result<Vec<u8>, IoErrorKind>, filepath: String) -> (r: Result<
    Vec<u8>,
    OpenReadError,
>)
    ensures
        (outcome matches Ok(data) ==> r matches Ok(d) && d == data),
        (outcome matches Err(kind) ==> if kind == IoErrorKind::NotFound {
            r == Err::<Vec<u8>, OpenReadError>(OpenReadError::FileDoesNotExist { filepath })
        } else {
            r == Err::<Vec<u8>, OpenReadError>(OpenReadError::IoError { kind, filepath })
        }),
{
    match outcome {
        Ok(data) => Ok(data),
        Err(kind) => {
            if kind == IoErrorKind::NotFound {
                Err(OpenReadError::FileDoesNotExist { filepath })
            } else {
                Err(OpenReadError::IoError { kind, filepath })
            }
        },
    }
}

} // verus!
