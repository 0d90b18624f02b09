//! Source positions.

use vstd::prelude::*;

verus! {

/// A byte range `start..end` within the source text of a program.
#[derive(Clone, Copy, Debug, Default, PartialEq, Eq, Hash, PartialOrd, Ord, Structural)]
pub struct Span {
    start: usize,
    end: usize,
}

impl Span {
    pub closed spec fn spec_start(&self) -> usize {
        self.start
    }

    pub closed spec fn spec_end(&self) -> usize {
        self.end
    }

    /// A span from `start` to `end`.
    pub fn new(start: usize, end: usize) -> (r: Span)
        ensures
            r.start() == start,
            r.end() == end,
    {
        Span { start, end }
    }

    /// The first byte of the span.
    #[verifier::when_used_as_spec(spec_start)]
    pub fn start(&self) -> (r: usize)
        ensures
            r == self.spec_start(),
    {
        self.start
    }

    /// The byte just past the span.
    #[verifier::when_used_as_spec(spec_end)]
    pub fn end(&self) -> (r: usize)
        ensures
            r == self.spec_end(),
    {
        self.end
    }

    /// Two spans are the same value exactly when their bounds are.
    pub proof fn lemma_eq_from_bounds(a: Span, b: Span)
        requires
            a.start() == b.start(),
            a.end() == b.end(),
        ensures
            a == b,
    {
    }
}

} // verus!
