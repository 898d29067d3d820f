//! The vocabulary that the parser reads.
pub mod token;
