//! Front end for the XS rule-scripting language: an expression parser over a
//! token stream, and static checks that walk the syntax tree against a
//! scope-sensitive type environment and collect every diagnostic in one pass.
//!
//! Every executable function is verified against a contract stated over the
//! mathematical values of the data it handles: an expression is viewed as a
//! tree of sequences and integers, a type environment as a map from names to
//! types, and a list of diagnostics as a sequence of (kind, message, span)
//! records.
pub mod span;
pub mod ast;
pub mod lexer;
pub mod diagnostics;
pub mod type_env;
pub mod type_check;
pub mod parser;
