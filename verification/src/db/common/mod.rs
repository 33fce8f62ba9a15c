//! Result types shared by the database operations.

pub mod result;
