//! Source positions.

use vstd::prelude::*;

verus! {

/// A stretch of source text, with the syntax context that it was expanded in.
#[derive(Debug, Clone, Copy, PartialEq, Eq, Structural)]
pub struct Span {
    pub lo: u32,
    pub hi: u32,
    pub ctxt: u32,
}

/// The span of a node that stands nowhere in the source text.
pub open spec fn dummy_span() -> Span {
    Span { lo: 0, hi: 0, ctxt: 0 }
}

/// The span that every node made by a script gets.
pub fn dummy_sp() -> (span: Span)
    ensures
        span == dummy_span(),
{
    Span { lo: 0, hi: 0, ctxt: 0 }
}

/// A value together with its span.
#[derive(Debug, Copy, PartialEq, Eq)]
pub struct Spanned<T> {
    pub node: T,
    pub span: Span,
}

impl<T: Clone> Clone for Spanned<T> {
    fn clone(&self) -> (copy: Spanned<T>)
        ensures
            call_ensures(T::clone, (&self.node,), copy.node),
            copy.span == self.span,
    {
        Spanned { node: self.node.clone(), span: self.span }
    }
}

impl<T> Spanned<T> {
    /// The value.
    pub fn get_node(&self) -> (node: &T)
        ensures
            *node == self.node,
    {
        &self.node
    }

    /// Where the value stands.
    pub fn get_span(&self) -> (span: Span)
        ensures
            span == self.span,
    {
        self.span
    }
}

/// A value that stands nowhere in the source text.
pub fn dummy_spanned<T>(node: T) -> (spanned: Spanned<T>)
    ensures
        spanned == (Spanned { node, span: dummy_span() }),
{
    Spanned { node, span: dummy_sp() }
}

} // verus!
