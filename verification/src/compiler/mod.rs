//! What evaluation needs: its context and state, its errors, closures over
//! collections, and the description of functions.

pub mod closure;
pub mod context;
pub mod expression;
pub mod function;
pub mod state;
