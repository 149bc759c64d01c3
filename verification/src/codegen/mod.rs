//! Support for generated code: mapping byte offsets back to lines, and
//! keeping track of where generated text stands.
pub mod line_index;
pub mod position;

pub use line_index::LineIndex;
pub mod generator;
