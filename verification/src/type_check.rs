//! The static checks: every expression gets a type, every statement is held
//! to the rules of declaration, assignment, call and control flow, and every
//! violation becomes a diagnostic. Nothing here stops at the first problem.
pub mod rules;
pub mod util;
pub mod expression;
pub mod statement;
pub mod laws;
