//! A symbol-graph store for code-navigation indexes: qualified names with a
//! lossless text encoding, interning of every level of a name into a node
//! chain, and validated record builders.

pub mod error;
pub mod name;
pub mod recorder;
pub mod db;
pub mod time;
pub mod types;

pub use error::SourcetrailError;
