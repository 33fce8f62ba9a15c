//! Core logic of a self-hosted media library: database result types and
//! joins, flake identifiers, storage paths, file system statistics and
//! instance configuration.

pub mod db;
pub mod fs;
pub mod text;
pub mod instance;
pub mod flake;
