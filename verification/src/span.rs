//! Source positions.
use vstd::prelude::*;

verus! {

/// A half-open range `start..end` of positions in the source text.
#[derive(Clone, Copy, Debug, PartialEq, Eq, Hash, Structural)]
pub struct Span {
    pub start: usize,
    pub end: usize,
}

impl View for Span {
    type V = Span;

    open spec fn view(&self) -> Span {
        *self
    }
}

/// A value together with the range of source text it was read from.
pub type Spanned<T> = (T, Span);

impl Span {
    /// The span that runs from the start of `first` to the end of `last`.
    pub open spec fn spec_cover(first: Span, last: Span) -> Span {
        Span { start: first.start, end: last.end }
    }

    #[verifier::when_used_as_spec(spec_cover)]
    pub fn cover(first: Span, last: Span) -> (s: Span)
        ensures
            s == Span::spec_cover(first, last),
    {
        Span { start: first.start, end: last.end }
    }

    /// The empty span at position `at`.
    pub open spec fn spec_point(at: usize) -> Span {
        Span { start: at, end: at }
    }

    #[verifier::when_used_as_spec(spec_point)]
    pub fn point(at: usize) -> (s: Span)
        ensures
            s == Span::spec_point(at),
    {
        Span { start: at, end: at }
    }
}

} // verus!
