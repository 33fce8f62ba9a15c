//! File storage: relative storage paths, sharding, errors, statistics and backends.

pub mod backend;
pub mod path;
pub mod result;
pub mod stats;
