//! The syntax tree of GraphQL documents.
pub mod context;
pub mod types;
pub mod json;

pub use context::{Context, List, MultiThreadedContext, Shared, SmolStrContext};
pub mod spans;
pub mod node;
pub mod tokens;
pub mod congruence;
