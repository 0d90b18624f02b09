//! Functions of the standard library.

pub mod all;
pub mod any;
pub mod assertion;
pub mod map;
pub mod util;
