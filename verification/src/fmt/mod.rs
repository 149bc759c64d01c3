//! Pretty-printing: a formatter that lays tokens out on lines of a given
//! width, and the measure that decides when a node must be broken up.
pub mod types;
pub mod measurer;
pub mod tokens;
pub mod diff;
pub mod wrappers;
pub mod values;
pub mod common;
pub mod type_refs;
pub mod selections;
pub mod executable;
pub mod schema;
pub mod layout;
pub mod written;
pub mod written_schema;

pub use diff::Diff;
pub use measurer::Measurer;
pub use types::{Error, Format, Formatter, Shape, Write};
