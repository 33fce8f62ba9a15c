//! Media libraries: a directory together with its manifest.

use std::path::PathBuf;
use vstd::prelude::*;
use crate::fs::path::{path_buf_from, path_of};
use crate::instance::manifest::{LibManifest, ManifestError};

verus! {

/// The directory of a library made by default.
pub const DEFAULT_LIBRARY_DIR: &'static str = "./storage";

/// Library model
#[derive(Debug, Clone)]
pub struct Library {
    /// Library directory
    pub dir: PathBuf,
    /// Library manifest
    pub manifest: LibManifest,
}

impl Library {
    /// Creates a new [`Library`]
    pub fn new(dir: PathBuf, manifest: LibManifest) -> (r: Self)
        ensures
            r.dir == dir,
            r.manifest == manifest,
    {
        Self { dir, manifest }
    }

    /// Takes in the outcome of loading the manifest of one directory entry while
    /// scanning for libraries: a loaded manifest adds a library to `found`, a
    /// missing manifest skips the entry, and any other error ends the scan.
    pub fn admit_entry(
        found: &mut Vec<Library>,
        dir: PathBuf,
        loaded: Result<LibManifest, LibraryError>,
    ) -> (r: Result<(), LibraryError>)
        ensures
            loaded matches Ok(m) ==> r is Ok && final(found)@ == old(found)@.push(
                Library { dir, manifest: m },
            ),
            loaded matches Err(LibraryError::ManifestNotFound) ==> r is Ok && final(found)@ == old(
                found,
            )@,
            loaded matches Err(e) ==> (!(e is ManifestNotFound) ==> r == Err::<(), LibraryError>(e)
                && final(found)@ == old(found)@),
    {
        match loaded {
            Ok(manifest) => {
                found.push(Library::new(dir, manifest));
                Ok(())
            },
            Err(LibraryError::ManifestNotFound) => Ok(()),
            Err(e) => Err(e),
        }
    }
}

impl Default for Library {
    fn default() -> (r: Self)
        ensures
            r.dir == path_of(DEFAULT_LIBRARY_DIR@),
            r.manifest@ == LibManifest::builder_default_build(0),
    {
        Library {
            dir: path_buf_from(String::from(DEFAULT_LIBRARY_DIR)),
            manifest: LibManifest::builder().build(0),
        }
    }
}

/// Error interacting with manifest
#[derive(Debug)]
pub enum LibraryError {
    /// Manifest deserialization error
    DeserializationFailed,
    /// Manifest serialization error
    SerializationFailed,
    /// The manifest file at the specified path was not found
    ManifestNotFound,
    /// Invalid/Missing library configuration
    InvalidLibraryConfig,
    Io(std::io::Error),
}

impl From<ManifestError> for LibraryError {
    fn from(e: ManifestError) -> (r: Self)
        ensures
            r == library_error_of(e),
    {
        match e {
            ManifestError::DeserializationFailed => LibraryError::DeserializationFailed,
            ManifestError::SerializationFailed => LibraryError::SerializationFailed,
            ManifestError::FileNotFound => LibraryError::ManifestNotFound,
            ManifestError::Io(err) => LibraryError::Io(err),
        }
    }
}

/// The library error that reports a manifest error.
pub open spec fn library_error_of(e: ManifestError) -> LibraryError {
    match e {
        ManifestError::DeserializationFailed => LibraryError::DeserializationFailed,
        ManifestError::SerializationFailed => LibraryError::SerializationFailed,
        ManifestError::FileNotFound => LibraryError::ManifestNotFound,
        ManifestError::Io(err) => LibraryError::Io(err),
    }
}

impl vstd::std_specs::convert::FromSpecImpl<ManifestError> for LibraryError {
    open spec fn obeys_from_spec() -> bool {
        true
    }

    open spec fn from_spec(v: ManifestError) -> Self {
        library_error_of(v)
    }
}

} // verus!
