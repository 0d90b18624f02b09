//! Kinds of values, as bit sets: a parameter or return type accepts every
//! kind whose bit is set.

use crate::value::{Value, ValueView};
use vstd::prelude::*;

verus! {

pub const BYTES: u16 = 2;

pub const INTEGER: u16 = 4;

pub const FLOAT: u16 = 8;

pub const BOOLEAN: u16 = 16;

pub const OBJECT: u16 = 32;

pub const ARRAY: u16 = 64;

pub const TIMESTAMP: u16 = 128;

pub const REGEX: u16 = 256;

pub const NULL: u16 = 512;

pub const UNDEFINED: u16 = 1024;

pub const ANY: u16 = 1022;

/// The kind of a value.
pub open spec fn kind_of(v: ValueView) -> u16 {
    match v {
        ValueView::Bytes(_) => BYTES,
        ValueView::Regex(_) => REGEX,
        ValueView::Integer(_) => INTEGER,
        ValueView::Float(_) => FLOAT,
        ValueView::Boolean(_) => BOOLEAN,
        ValueView::Timestamp(_) => TIMESTAMP,
        ValueView::Object(_) => OBJECT,
        ValueView::Array(_) => ARRAY,
        ValueView::Null => NULL,
    }
}

impl Value {
    /// The kind of the value.
    pub fn kind(&self) -> (r: u16)
        ensures
            r == kind_of(self@),
    {
        match self {
            Value::Bytes(_) => BYTES,
            Value::Regex(_) => REGEX,
            Value::Integer(_) => INTEGER,
            Value::Float(_) => FLOAT,
            Value::Boolean(_) => BOOLEAN,
            Value::Timestamp(_) => TIMESTAMP,
            Value::Object(_) => OBJECT,
            Value::Array(_) => ARRAY,
            Value::Null => NULL,
        }
    }
}

} // verus!
