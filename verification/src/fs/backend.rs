//! File storage backend statistics and the local file system backend.

use std::path::PathBuf;
use vstd::prelude::*;
use crate::fs::path::{ExPathBuf, StoragePath};
use crate::fs::result::StorageError;

verus! {

/// File storage statistics
pub struct FsStats {
    pub available: u64,
    pub free: u64,
    pub total: u64,
}

/// The path made of the directory `root` followed by the relative path whose text is `path`.
pub uninterp spec fn joined(root: PathBuf, path: Seq<char>) -> PathBuf;

/// Joins a relative path, given as text, onto a directory (`Path::join`).
///
/// The joined path depends on the directory and the text alone; it is named
/// [`joined`], and nothing else is claimed of it.
#[verifier::external_body]
fn join_path(root: &PathBuf, path: &str) -> (r: PathBuf)
    ensures
        r == joined(*root, path@),
{
    root.join(path)
}

/// The directory that contains `p`, if `p` has one.
pub uninterp spec fn parent_of(p: PathBuf) -> Option<PathBuf>;

/// `a` and `b` name the same path, compared component by component.
pub uninterp spec fn paths_equal(a: PathBuf, b: PathBuf) -> bool;

/// The directory that contains a path (`Path::parent`), as an owned path.
///
/// The parent is taken from the path's text alone, so it is named [`parent_of`];
/// nothing else is claimed of it.
#[verifier::external_body]
fn parent_dir(p: &PathBuf) -> (r: Option<PathBuf>)
    ensures
        r == parent_of(*p),
{
    p.parent().map(std::path::Path::to_path_buf)
}

/// Compares two paths (`PathBuf == PathBuf`).
///
/// The comparison goes by the paths' components alone, so it is named
/// [`paths_equal`]; nothing else is claimed of it.
#[verifier::external_body]
fn same_path(a: &PathBuf, b: &PathBuf) -> (r: bool)
    ensures
        r == paths_equal(*a, *b),
{
    a == b
}

/// How an attempt to remove an empty directory ended.
#[derive(Debug, Clone, Copy, PartialEq, Eq, Structural)]
pub enum RemovalOutcome {
    /// The directory was removed.
    Removed,
    /// The directory did not exist.
    NotFound,
    /// The directory still holds entries.
    NotEmpty,
    /// Removing it failed for another reason.
    Failed,
}

/// What the removal of empty parent directories does next.
#[derive(Debug, Clone, Copy, PartialEq, Eq, Structural)]
pub enum CleanupStep {
    /// Go on with the next parent directory.
    Continue,
    /// Stop: the remaining parents are in use or already gone.
    Done,
    /// Stop: the file system refused the removal.
    Abort,
}

/// File storage backend for the local file system
pub struct FsStorageBackend {
    root: PathBuf,
    read_only: bool,
}

impl FsStorageBackend {
    /// Makes a backend rooted at `root` (the directory is expected to exist)
    pub fn new(root: PathBuf, read_only: bool) -> (r: Self)
        ensures
            r.root_dir() == root,
            r.is_read_only() == read_only,
    {
        FsStorageBackend { root, read_only }
    }

    /// The directory that the storage is rooted at.
    pub closed spec fn root_dir(&self) -> PathBuf {
        self.root
    }

    /// The storage was opened in read-only mode.
    pub closed spec fn is_read_only(&self) -> bool {
        self.read_only
    }

    /// Returns an error if the file storage was created in read-only mode
    pub fn resolve_write(&self) -> (r: Result<(), StorageError>)
        ensures
            self.is_read_only() ==> r matches Err(StorageError::ReadOnly),
            !self.is_read_only() ==> r is Ok,
    {
        if self.read_only {
            Err(StorageError::ReadOnly)
        } else {
            Ok(())
        }
    }

    /// The next directory to remove while deleting the empty parent directories of a
    /// file: the directory that contains `current`, unless `current` has none or that
    /// directory is the storage root, which is never removed.
    pub fn next_parent_to_remove(&self, current: &PathBuf) -> (r: Option<PathBuf>)
        ensures
            r == (match parent_of(*current) {
                Some(q) => if paths_equal(q, self.root_dir()) {
                    None
                } else {
                    Some(q)
                },
                None => None::<PathBuf>,
            }),
    {
        match parent_dir(current) {
            Some(parent) => {
                if same_path(&parent, &self.root) {
                    None
                } else {
                    Some(parent)
                }
            },
            None => None,
        }
    }

    /// Decides how the deletion of empty parent directories goes on after one removal:
    /// a removed directory moves on to its parent, a missing or non-empty one ends the
    /// deletion, and any other failure aborts it.
    pub fn after_removal(outcome: RemovalOutcome) -> (r: CleanupStep)
        ensures
            outcome is Removed ==> r is Continue,
            (outcome is NotFound || outcome is NotEmpty) ==> r is Done,
            outcome is Failed ==> r is Abort,
    {
        match outcome {
            RemovalOutcome::Removed => CleanupStep::Continue,
            RemovalOutcome::NotFound => CleanupStep::Done,
            RemovalOutcome::NotEmpty => CleanupStep::Done,
            RemovalOutcome::Failed => CleanupStep::Abort,
        }
    }

    /// Creates an absolute path to the file in the storage
    pub fn resolve_path(&self, path: &StoragePath) -> (r: PathBuf)
        ensures
            r == joined(self.root_dir(), path@),
    {
        join_path(&self.root, path.as_str())
    }
}

} // verus!
