//! Incremental bookkeeping of which definitions depend on which.
pub mod depgraph;
pub mod dependency;

pub use depgraph::DepGraph;
pub use dependency::{Dependency, Producer};
pub mod tracker;
pub mod compiler;
