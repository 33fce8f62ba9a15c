//! Flake identifiers: `timestamp (41) | node_id (8) | sequence (14)`.
//!
//! To prevent collisions within a single millisecond, a sequence number is
//! used, enabling the generation of up to 16383 ids per millisecond for a
//! given node.

pub mod generator;

pub use generator::{FlakeId, GeneratorState};
