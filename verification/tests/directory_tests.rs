use fs_directory::directory::{
    atomic_read_outcome, delete_outcome, exists_outcome, read_open_outcome, write_open_outcome,
    FsDirectory, ReadOpenEvent, WriteOpenEvent,
};
use fs_directory::errors::{DeleteError, FileKind, IoErrorKind, OpenReadError, OpenWriteError};
use fs_directory::meta_file_name;

#[test]
fn subpath_joins_with_separator() {
    let d = FsDirectory::new("idx".to_string(), false);
    assert_eq!(d.subpath("meta.json"), "idx/meta.json");
}

#[test]
fn subpath_keeps_existing_separator() {
    let d = FsDirectory::new("idx/".to_string(), false);
    assert_eq!(d.subpath("meta.json"), "idx/meta.json");
}

#[test]
fn subpath_with_empty_root() {
    let d = FsDirectory::new("".to_string(), false);
    assert_eq!(d.subpath("meta.json"), "meta.json");
}

#[test]
fn subpath_with_nested_relative_path() {
    let d = FsDirectory::new("/var/idx".to_string(), true);
    assert_eq!(d.subpath("seg/0001.data"), "/var/idx/seg/0001.data");
}

#[test]
fn construction_seeds_materialized_flag() {
    let d = FsDirectory::new("idx".to_string(), true);
    assert!(d.materialized());
    let d2 = FsDirectory::new("idx".to_string(), false);
    assert!(!d2.materialized());
}

#[test]
fn marking_materialized_sets_flag_once() {
    let mut d = FsDirectory::new("idx".to_string(), false);
    assert!(!d.materialized());
    d.mark_materialized();
    assert!(d.materialized());
    d.mark_materialized();
    assert!(d.materialized());
}

#[test]
fn sync_directory_always_succeeds() {
    let d = FsDirectory::new("idx".to_string(), false);
    assert!(d.sync_directory().is_ok());
}

#[test]
fn meta_file_name_is_fixed() {
    assert_eq!(meta_file_name(), "meta.json");
}

#[test]
fn read_open_missing_file_is_not_found() {
    let r = read_open_outcome(
        ReadOpenEvent::OpenFailed {
            kind: IoErrorKind::NotFound,
        },
        "seg/0001.data".to_string(),
    );
    match r {
        Err(OpenReadError::FileDoesNotExist { filepath }) => {
            assert_eq!(filepath, "seg/0001.data");
        }
        _ => panic!("expected a not-found failure"),
    }
}

#[test]
fn read_open_other_failure_is_io_error() {
    let r = read_open_outcome(
        ReadOpenEvent::OpenFailed {
            kind: IoErrorKind::PermissionDenied,
        },
        "seg/0001.data".to_string(),
    );
    match r {
        Err(OpenReadError::IoError { kind, filepath }) => {
            assert_eq!(kind, IoErrorKind::PermissionDenied);
            assert_eq!(filepath, "seg/0001.data");
        }
        _ => panic!("expected an opaque I/O failure"),
    }
}

#[test]
fn read_open_metadata_failure_is_io_error_even_when_not_found() {
    let r = read_open_outcome(
        ReadOpenEvent::MetadataFailed {
            kind: IoErrorKind::NotFound,
        },
        "seg/0001.data".to_string(),
    );
    assert!(matches!(r, Err(OpenReadError::IoError { .. })));
}

#[test]
fn read_open_success_caches_length() {
    let r = read_open_outcome(ReadOpenEvent::Opened { length: 4096 }, "f".to_string());
    assert_eq!(r.unwrap().len(), 4096);
}

#[test]
fn write_open_on_existing_file_is_already_exists() {
    let r = write_open_outcome(
        WriteOpenEvent::CreateFailed {
            kind: IoErrorKind::AlreadyExists,
        },
        "idx/f".to_string(),
        "idx".to_string(),
    );
    match r {
        Err(OpenWriteError::FileAlreadyExists { filepath }) => {
            assert_eq!(filepath, "idx/f");
        }
        _ => panic!("expected an already-exists failure"),
    }
}

#[test]
fn write_open_other_failure_carries_full_path() {
    let r = write_open_outcome(
        WriteOpenEvent::CreateFailed {
            kind: IoErrorKind::Other,
        },
        "idx/f".to_string(),
        "idx".to_string(),
    );
    match r {
        Err(OpenWriteError::IoError { kind, filepath }) => {
            assert_eq!(kind, IoErrorKind::Other);
            assert_eq!(filepath, "idx/f");
        }
        _ => panic!("expected an opaque I/O failure"),
    }
}

#[test]
fn write_open_prepare_failure_carries_root_path() {
    let r = write_open_outcome(
        WriteOpenEvent::PrepareFailed {
            kind: IoErrorKind::PermissionDenied,
        },
        "idx/f".to_string(),
        "idx".to_string(),
    );
    match r {
        Err(OpenWriteError::IoError { kind, filepath }) => {
            assert_eq!(kind, IoErrorKind::PermissionDenied);
            assert_eq!(filepath, "idx");
        }
        _ => panic!("expected an opaque I/O failure"),
    }
}

#[test]
fn write_open_created_is_ok() {
    let r = write_open_outcome(WriteOpenEvent::Created, "idx/f".to_string(), "idx".to_string());
    assert!(r.is_ok());
}

#[test]
fn exists_is_true_only_for_regular_files() {
    assert_eq!(
        exists_outcome(Ok(FileKind::File), "f".to_string()).unwrap(),
        true
    );
    assert_eq!(
        exists_outcome(Ok(FileKind::Directory), "f".to_string()).unwrap(),
        false
    );
    assert_eq!(
        exists_outcome(Ok(FileKind::Other), "f".to_string()).unwrap(),
        false
    );
}

#[test]
fn exists_missing_path_is_false_not_an_error() {
    let r = exists_outcome(Err(IoErrorKind::NotFound), "f".to_string());
    assert_eq!(r.unwrap(), false);
}

#[test]
fn exists_other_failure_is_io_error() {
    let r = exists_outcome(Err(IoErrorKind::PermissionDenied), "f".to_string());
    assert!(matches!(r, Err(OpenReadError::IoError { .. })));
}

#[test]
fn delete_missing_file_is_not_found() {
    let r = delete_outcome(Err(IoErrorKind::NotFound), "f".to_string());
    match r {
        Err(DeleteError::FileDoesNotExist { filepath }) => {
            assert_eq!(filepath, "f");
        }
        _ => panic!("expected a not-found failure"),
    }
}

#[test]
fn delete_success_passes_through() {
    assert!(delete_outcome(Ok(()), "f".to_string()).is_ok());
}

#[test]
fn delete_other_failure_is_io_error() {
    let r = delete_outcome(Err(IoErrorKind::Other), "f".to_string());
    assert!(matches!(r, Err(DeleteError::IoError { .. })));
}

#[test]
fn atomic_read_returns_exactly_the_bytes_read() {
    let r = atomic_read_outcome(Ok(vec![7u8, 8, 9]), "f".to_string());
    assert_eq!(r.unwrap(), vec![7u8, 8, 9]);
}

#[test]
fn atomic_read_missing_file_is_not_found() {
    let r = atomic_read_outcome(Err(IoErrorKind::NotFound), "f".to_string());
    assert!(matches!(r, Err(OpenReadError::FileDoesNotExist { .. })));
}
