//! Importing a schema from the result of an introspection query.
pub mod introspection;
pub mod convert;

pub use convert::Retrospect;
