//! The outcome of resolving an expression.

use crate::diagnostic::Span;
use crate::value::Value;
use vstd::prelude::*;

verus! {

/// Why an expression did not resolve to a value.
#[derive(Debug, PartialEq)]
pub enum ExpressionError {
    /// The program was aborted, with an optional message.
    Abort { span: Span, message: Option<String> },
    /// A value of kind `got` stood where a value of kind `expected` was needed.
    Expected { got: u16, expected: u16 },
    /// Any other failure, with its message.
    Error { message: String },
}

/// The result of resolving an expression.
pub type Resolved = Result<Value, ExpressionError>;

} // verus!
