use vstd::prelude::*;

verus! {

/// A half-open range `[start, end)` of character offsets into a document.
#[derive(Clone, Copy, Debug, PartialEq, Eq, Hash, Structural)]
pub struct Span {
    pub start: usize,
    pub end: usize,
}

impl Span {
    /// Whether `offset` lies inside the span.
    pub open spec fn spec_contains(self, offset: usize) -> bool {
        self.start <= offset && offset < self.end
    }

    /// The number of characters the span covers; zero where `end` precedes `start`.
    pub open spec fn spec_len(self) -> nat {
        if self.end >= self.start {
            (self.end - self.start) as nat
        } else {
            0
        }
    }

    /// The span `[start, end)`.
    pub fn new(start: usize, end: usize) -> (span: Span)
        ensures
            span.start == start,
            span.end == end,
    {
        Span { start, end }
    }
}

} // verus!
