pub mod traverse;
pub mod errors;
pub mod node_errors;
pub mod complete;
