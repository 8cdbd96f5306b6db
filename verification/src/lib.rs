//! Typed binding of query results for an entity-component-system runtime.
//!
//! The storage engine hands out matched blocks of entities; this library
//! decides which memory of a block each member of a requested tuple of
//! components reads, for every row, and encodes and decodes the 64-bit
//! identifiers that name entities, relationship pairs and group keys.
//! Every function is verified against its contract; the engine's own calls
//! are made by the code around the library.

pub mod c_string;
pub mod c_types;
pub mod field;
pub mod group_by;
pub mod id;
pub mod iterable;
pub mod names;
pub mod traits;
mod sys;
