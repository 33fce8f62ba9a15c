use std::path::PathBuf;

use gallery_core::fs::path::{StoragePath, shard};

#[test]
fn create_path() {
    let path = StoragePath::new("test")
        .join("foo")
        .join(shard("abcdef", 2).unwrap());

    assert_eq!(path.as_str(), "test/foo/ab/cd/abcdef");
}

#[test]
fn into_path() {
    let path = StoragePath::new("foo").join("bar");

    assert_eq!(path.into_path(), PathBuf::from("foo/bar"));
}

#[test]
fn validate_shard() {
    assert_eq!(shard("abcdef", 2).unwrap(), "ab/cd/abcdef");
    assert_eq!(shard("abc", 2).unwrap(), "ab/abc");
    assert!(shard("abc/def", 2).is_err());
    assert!(shard("../abc", 2).is_err());
    assert!(shard("💥", 2).is_err());
}
