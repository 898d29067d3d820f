//! Parsing: from a sequence of tokens to syntax trees.
pub mod grammar;
pub mod error;
pub mod expression;
pub mod statement;
pub mod laws;
