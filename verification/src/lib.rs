//! An event-remapping expression language: its syntax tree and the
//! syntactic equality on it, its runtime values and path lookups, the
//! evaluation context, and the collection and assertion functions of its
//! standard library.

pub mod diagnostic;
pub mod path;
pub mod parser;
pub mod value;
pub mod compiler;
pub mod stdlib;
