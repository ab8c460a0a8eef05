//! The crate's general runtime error.

pub mod runtime;

pub use runtime::Error;
