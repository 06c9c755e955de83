//! A schema-driven validation and coercion engine.
//!
//! A declarative schema is compiled once into an immutable tree of
//! validators plus a slot table for self-referential schemas; each call then
//! validates one input value, producing either a coerced output value or an
//! aggregated report of every violation found, with per-element locations.

pub mod errors;
pub mod input;
pub mod laws;
pub mod output;
pub mod recursion_guard;
pub mod schema;
pub mod strutil;
pub mod validators;
