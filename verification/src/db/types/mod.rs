//! Types exchanged with the database drivers.

pub mod patches;
pub mod result;

pub use patches::PatchField;
