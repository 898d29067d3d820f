//! Statement rules.
pub mod break_or_continue;
