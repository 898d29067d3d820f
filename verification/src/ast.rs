//! The syntax trees produced by parsing and consumed by the static checks.
pub mod identifier;
pub mod literal;
pub mod type_;
pub mod expr;
pub mod astree;
