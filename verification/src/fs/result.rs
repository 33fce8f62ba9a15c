use vstd::prelude::*;

verus! {

/// Declares the I/O error of the standard library, which is carried through opaquely.
#[verifier::external_type_specification]
#[verifier::external_body]
pub struct ExIoError(std::io::Error);

/// File storage error
#[derive(Debug)]
pub enum StorageError {
    /// An invalid path violating constraints was received
    InvalidPath,
    /// The file storage is mounted in read-only mode
    ReadOnly,
    /// [`std::io`] error
    Io(std::io::Error),
}

impl From<std::io::Error> for StorageError {
    fn from(err: std::io::Error) -> (r: Self)
        ensures
            r == StorageError::Io(err),
    {
        StorageError::Io(err)
    }
}

impl vstd::std_specs::convert::FromSpecImpl<std::io::Error> for StorageError {
    open spec fn obeys_from_spec() -> bool {
        true
    }

    open spec fn from_spec(v: std::io::Error) -> Self {
        StorageError::Io(v)
    }
}

} // verus!
