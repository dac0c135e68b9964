pub mod error;
pub mod node;
pub mod expr;
pub mod stmt;
pub mod decl;
pub mod story;
