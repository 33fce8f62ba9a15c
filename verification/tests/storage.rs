use gallery_core::fs::backend::{CleanupStep, FsStorageBackend, RemovalOutcome};
use gallery_core::fs::path::{StoragePath, shard};
use gallery_core::fs::result::StorageError;
use gallery_core::fs::stats::FsStats;
use std::path::PathBuf;

#[test]
fn path_length_counts_bytes() {
    let path = StoragePath::new("ab").join("é");
    assert_eq!(path.as_str(), "ab/é");
    assert_eq!(path.len(), 5);
    assert!(!path.is_empty());
    assert!(StoragePath::new("").is_empty());
    assert_eq!(path.to_string(), "ab/é".to_string());
}

#[test]
fn join_of_empty_part_adds_separator() {
    let path = StoragePath::new("a").join(String::new());
    assert_eq!(path.as_str(), "a/");
}

#[test]
fn shard_edge_cases() {
    assert_eq!(shard("abcdef", 0).unwrap(), "abcdef");
    assert_eq!(shard("abcdef", 10).unwrap(), "ab/cd/ef/abcdef");
    assert_eq!(shard("a", 3).unwrap(), "a");
    assert_eq!(shard("", 2).unwrap(), "");
    assert_eq!(shard("A_-9z", 2).unwrap(), "A_/-9/A_-9z");
    assert!(matches!(shard("a b", 1), Err(StorageError::InvalidPath)));
}

#[test]
fn resolve_write_refuses_read_only_storage() {
    let ro = FsStorageBackend::new(PathBuf::from("/tmp/ro"), true);
    let rw = FsStorageBackend::new(PathBuf::from("/tmp/rw"), false);
    assert!(matches!(ro.resolve_write(), Err(StorageError::ReadOnly)));
    assert!(rw.resolve_write().is_ok());
    assert_eq!(rw.resolve_path(&StoragePath::new("x").join("y")), PathBuf::from("/tmp/rw/x/y"));
}

#[test]
fn io_error_converts_to_storage_error() {
    let err: StorageError = std::io::Error::other("boom").into();
    assert!(matches!(err, StorageError::Io(_)));
}

#[test]
fn stats_from_blocks_scale_by_fragment_size() {
    let stats = FsStats::from_blocks(10, 20, 50, 4096);
    assert_eq!(stats.bytes_available(), 40960);
    assert_eq!(stats.bytes_free(), 81920);
    assert_eq!(stats.bytes_total(), 204800);
    assert_eq!(stats.bytes_used(), 122880);

    let bytes = FsStats::from_bytes(1, 2, 3);
    assert_eq!(bytes.bytes_used(), 1);
}

#[test]
fn parent_cleanup_stops_at_the_root() {
    let backend = FsStorageBackend::new(PathBuf::from("/data"), false);
    assert_eq!(
        backend.next_parent_to_remove(&PathBuf::from("/data/ab/cd/file")),
        Some(PathBuf::from("/data/ab/cd"))
    );
    assert_eq!(backend.next_parent_to_remove(&PathBuf::from("/data/ab")), None);
    assert_eq!(backend.next_parent_to_remove(&PathBuf::from("/")), None);
    assert_eq!(
        backend.next_parent_to_remove(&PathBuf::from("/elsewhere/x")),
        Some(PathBuf::from("/elsewhere"))
    );
}

#[test]
fn removal_outcome_decides_the_next_step() {
    assert_eq!(FsStorageBackend::after_removal(RemovalOutcome::Removed), CleanupStep::Continue);
    assert_eq!(FsStorageBackend::after_removal(RemovalOutcome::NotFound), CleanupStep::Done);
    assert_eq!(FsStorageBackend::after_removal(RemovalOutcome::NotEmpty), CleanupStep::Done);
    assert_eq!(FsStorageBackend::after_removal(RemovalOutcome::Failed), CleanupStep::Abort);
}

#[test]
fn storage_path_converts_to_file_system_paths() {
    let path = StoragePath::new("foo").join("bar");
    let as_str: &str = path.as_ref();
    assert_eq!(as_str, "foo/bar");
    let as_path: &std::path::Path = path.as_ref();
    assert_eq!(as_path, std::path::Path::new("foo/bar"));
    assert_eq!(path.as_path(), std::path::Path::new("foo/bar"));
    let buf: PathBuf = path.into();
    assert_eq!(buf, PathBuf::from("foo/bar"));
}

#[test]
fn join_length_adds_separator_and_part() {
    let base = StoragePath::new("é");
    let before = base.len();
    let joined = base.join("ab");
    assert_eq!(joined.len(), before + 1 + 2);
    assert_eq!(StoragePath::new("").join("a").as_str(), "/a");
    assert_eq!(StoragePath::new("x").join("").as_str(), "x/");
    assert_eq!(StoragePath::new("x").join("").len(), 2);
    let empty = StoragePath::new("");
    assert_eq!(empty.is_empty(), empty.len() == 0);
}
