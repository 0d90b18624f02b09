//! The syntax tree of programs.

pub mod ast;
pub mod shape;
pub mod source;
pub mod distinctions;
pub mod equivalence;
pub mod object;
pub mod syntax_eq;
pub mod template_string;
