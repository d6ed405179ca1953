//! Persistence and domain-invariant layer of a personal task scheduler.
//!
//! The library holds the entity model, the codec between entities and a
//! JSON-shaped wire value, the decisions of the store gateway (each operation is
//! a small state machine that asks the document store for one thing at a time),
//! the error taxonomy and the write-once configuration cell.
pub mod codec;
pub mod configuration;
pub mod error;
pub mod gateway;
pub mod list_codec;
pub mod model;
pub mod random;
pub mod segment_codec;
pub mod store;
pub mod text;
pub mod time;
pub mod wire;

pub use error::Error;
