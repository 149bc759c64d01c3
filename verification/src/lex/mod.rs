pub mod span;
pub mod source;

pub use span::Span;
pub use source::{SourceId, SourceMap};
pub mod chars;
pub mod kind;
pub mod scan;
pub mod raw;
pub mod token;
pub mod lexer;
pub mod grammar;
