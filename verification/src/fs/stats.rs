//! Statistics describing the capacity and free space of a file system.

use vstd::prelude::*;

verus! {

/// Statistics describing the capacity and free space of a file system
#[derive(Debug, Clone)]
pub struct FsStats {
    /// Number of bytes available for the calling process
    b_available: u64,
    /// Number of unused bytes in the file system
    b_free: u64,
    /// Total capacity of the file system in bytes
    b_total: u64,
}

impl FsStats {
    /// Number of bytes available for the calling process
    pub closed spec fn available(&self) -> u64 {
        self.b_available
    }

    /// Number of unused bytes in the file system
    pub closed spec fn free(&self) -> u64 {
        self.b_free
    }

    /// Total capacity of the file system in bytes
    pub closed spec fn total(&self) -> u64 {
        self.b_total
    }

    /// Makes statistics from byte counts, as a disk-space query reports them
    pub fn from_bytes(available: u64, free: u64, total: u64) -> (r: Self)
        ensures
            r.available() == available,
            r.free() == free,
            r.total() == total,
    {
        FsStats { b_available: available, b_free: free, b_total: total }
    }

    /// Makes statistics from block counts and the fragment size in bytes,
    /// as `statvfs` reports them
    pub fn from_blocks(available: u64, free: u64, total: u64, fragment_size: u64) -> (r: Self)
        requires
            available * fragment_size <= u64::MAX,
            free * fragment_size <= u64::MAX,
            total * fragment_size <= u64::MAX,
        ensures
            r.available() == available * fragment_size,
            r.free() == free * fragment_size,
            r.total() == total * fragment_size,
    {
        FsStats {
            b_available: available * fragment_size,
            b_free: free * fragment_size,
            b_total: total * fragment_size,
        }
    }

    /// Returns the number of bytes available for the calling process
    pub fn bytes_available(&self) -> (r: u64)
        ensures
            r == self.available(),
    {
        self.b_available
    }

    /// Returns the number of unused bytes in the file system
    pub fn bytes_free(&self) -> (r: u64)
        ensures
            r == self.free(),
    {
        self.b_free
    }

    /// Returns the number of bytes currently occupied in the file system
    pub fn bytes_used(&self) -> (r: u64)
        requires
            self.free() <= self.total(),
        ensures
            r == self.total() - self.free(),
    {
        self.b_total - self.b_free
    }

    /// Returns the total capacity of the file system in bytes
    pub fn bytes_total(&self) -> (r: u64)
        ensures
            r == self.total(),
    {
        self.b_total
    }
}

} // verus!
