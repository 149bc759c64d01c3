//! A verified core for a GraphQL language toolchain: lexing, spans and
//! source bookkeeping, a recovering parser and the syntax tree it builds,
//! collection of the errors recorded in a tree, formatting, the dependency
//! graph and compiler state that drive incremental checking, and the
//! TypeScript declaration generator.

pub mod lex;
pub mod compiler;
pub mod fmt;
pub mod codegen;
pub mod ast;
pub mod diagnostics;
pub mod import;
pub mod chk;
pub mod syn;
