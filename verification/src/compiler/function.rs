//! How a function of the standard library describes itself: its
//! parameters, examples, category and closure.

use vstd::prelude::*;

verus! {

/// A parameter of a function: its keyword, the kinds of value it accepts,
/// whether it must be given, and what it is for.
#[derive(Clone, Copy, Debug, PartialEq, Eq)]
pub struct Parameter {
    pub keyword: &'static str,
    pub kind: u16,
    pub required: bool,
    pub description: &'static str,
}

impl Parameter {
    /// A parameter that must be given.
    pub fn required(keyword: &'static str, kind: u16, description: &'static str) -> (r: Parameter)
        ensures
            r.keyword == keyword,
            r.kind == kind,
            r.required,
            r.description == description,
    {
        Parameter { keyword, kind, required: true, description }
    }

    /// A parameter that may be left out.
    pub fn optional(keyword: &'static str, kind: u16, description: &'static str) -> (r: Parameter)
        ensures
            r.keyword == keyword,
            r.kind == kind,
            !r.required,
            r.description == description,
    {
        Parameter { keyword, kind, required: false, description }
    }
}

/// An example program for a function, with what it resolves to or the
/// message it fails with.
#[derive(Clone, Copy, Debug, PartialEq, Eq)]
pub struct Example {
    pub title: &'static str,
    pub source: &'static str,
    pub result: Result<&'static str, &'static str>,
}

/// The group a function is listed under.
#[derive(Clone, Copy, Debug, PartialEq, Eq)]
pub enum Category {
    Debug,
    Enumerate,
}

impl Category {
    /// The name of the category.
    pub fn as_ref(&self) -> (r: &'static str)
        ensures
            r@ == match self {
                Category::Debug => "Debug"@,
                Category::Enumerate => "Enumerate"@,
            },
    {
        match self {
            Category::Debug => "Debug",
            Category::Enumerate => "Enumerate",
        }
    }
}

/// What a closure variable is bound to.
#[derive(Clone, Copy, Debug, PartialEq, Eq)]
pub enum VariableKind {
    /// A value of the given kinds.
    Exact(u16),
    /// The value the function is called on.
    Target,
    /// The value of the current item of the collection.
    TargetInnerValue,
    /// The key or index of the current item of the collection.
    TargetInnerKey,
}

#[derive(Clone, Copy, Debug, PartialEq, Eq)]
pub struct Variable {
    pub kind: VariableKind,
}

/// What a closure must resolve to.
#[derive(Clone, Copy, Debug, PartialEq, Eq)]
pub enum Output {
    /// An array whose elements are of the given kinds.
    Array { elements: u16 },
    /// A value of the given kinds.
    Kind(u16),
}

/// How a closure attaches to one parameter of a function.
#[derive(Debug)]
pub struct Input {
    pub parameter_keyword: &'static str,
    pub kind: u16,
    pub variables: Vec<Variable>,
    pub output: Output,
    pub example: Example,
}

/// The closure a function takes.
#[derive(Debug)]
pub struct Definition {
    pub inputs: Vec<Input>,
    pub is_iterator: bool,
}

} // verus!
