//! Instance configuration and media libraries.

pub mod config;
pub mod library;
pub mod manifest;
