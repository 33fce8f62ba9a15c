//! Database-facing models: operation results, field patches, rows, joins and
//! the bounds of similarity searches.

pub mod common;
pub mod database;
pub mod join;
pub mod rows;
pub mod similarity;
pub mod types;
