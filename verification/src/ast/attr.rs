//! Attributes and macros.

use vstd::prelude::*;

use crate::ast::flags::{AttrStyle, MacDelimiter};
use crate::ast::ident::{AttrId, SimplePath};
use crate::ast::span::Span;

verus! {

/// An attribute such as `#[derive(Clone)]`.
#[derive(Debug, PartialEq)]
pub struct Attribute {
    /// The attribute's name.
    pub path: SimplePath,
    /// The tokens behind the name, as text.
    pub tokens: String,
    pub id: AttrId,
    pub style: AttrStyle,
    /// Written as a doc comment.
    pub is_sugared_doc: bool,
    pub span: Span,
}

impl Attribute {
    /// Both values hold the same contents.
    pub open spec fn same(self, other: Attribute) -> bool
        decreases self,
    {
        &&& self.path.same(other.path)
        &&& self.tokens@ == other.tokens@
        &&& self.id == other.id
        &&& self.style == other.style
        &&& self.is_sugared_doc == other.is_sugared_doc
        &&& self.span == other.span
    }

    /// Every value holds the same contents as itself.
    pub proof fn same_as_itself(self)
        ensures
            self.same(self),
        decreases self,
    {
        self.path.same_as_itself();
    }
}

impl Clone for Attribute {
    fn clone(&self) -> (copy: Attribute)
        ensures
            self.same(copy),
        decreases *self,
    {
        Attribute {
            path: self.path.clone(),
            tokens: self.tokens.clone(),
            id: self.id,
            style: self.style,
            is_sugared_doc: self.is_sugared_doc,
            span: self.span,
        }
    }
}

/// A macro call. Its tokens are kept as text.
#[derive(Debug, PartialEq)]
pub struct Mac {
    pub path: SimplePath,
    pub delim: MacDelimiter,
    pub tts: String,
    pub span: Span,
}

impl Mac {
    /// Both values hold the same contents.
    pub open spec fn same(self, other: Mac) -> bool
        decreases self,
    {
        &&& self.path.same(other.path)
        &&& self.delim == other.delim
        &&& self.tts@ == other.tts@
        &&& self.span == other.span
    }

    /// Every value holds the same contents as itself.
    pub proof fn same_as_itself(self)
        ensures
            self.same(self),
        decreases self,
    {
        self.path.same_as_itself();
    }
}

impl Clone for Mac {
    fn clone(&self) -> (copy: Mac)
        ensures
            self.same(copy),
        decreases *self,
    {
        Mac {
            path: self.path.clone(),
            delim: self.delim,
            tts: self.tts.clone(),
            span: self.span,
        }
    }
}

/// A macro definition. Its tokens are kept as text.
#[derive(Debug, PartialEq)]
pub struct MacroDef {
    pub tokens: String,
    /// Written with `macro_rules!`.
    pub legacy: bool,
}

impl MacroDef {
    /// Both values hold the same contents.
    pub open spec fn same(self, other: MacroDef) -> bool
        decreases self,
    {
        &&& self.tokens@ == other.tokens@
        &&& self.legacy == other.legacy
    }

    /// Every value holds the same contents as itself.
    pub proof fn same_as_itself(self)
        ensures
            self.same(self),
        decreases self,
    {
    }
}

impl Clone for MacroDef {
    fn clone(&self) -> (copy: MacroDef)
        ensures
            self.same(copy),
        decreases *self,
    {
        MacroDef {
            tokens: self.tokens.clone(),
            legacy: self.legacy,
        }
    }
}

/// Both lists hold the same attributes in the same order.
pub open spec fn same_attributes(list: Seq<Attribute>, other: Seq<Attribute>) -> bool
    decreases list,
{
    &&& list.len() == other.len()
    &&& forall|i: int| 0 <= i < list.len() ==> (#[trigger] list[i]).same(other[i])
}

/// Every list of attributes is the same as itself.
pub proof fn attributes_same_as_themselves(list: Seq<Attribute>)
    ensures
        same_attributes(list, list),
    decreases list,
{
    assert forall|i: int| 0 <= i < list.len() implies (#[trigger] list[i]).same(list[i]) by {
        list[i].same_as_itself();
    }
}

/// A copy of a list of attributes.
pub fn clone_attributes(list: &Vec<Attribute>) -> (copy: Vec<Attribute>)
    ensures
        same_attributes(list@, copy@),
    decreases *list,
{
    let mut copy: Vec<Attribute> = Vec::new();
    let mut i: usize = 0;
    while i < list.len()
        invariant
            i <= list@.len(),
            copy@.len() == i,
            forall|j: int| 0 <= j < i ==> (#[trigger] list@[j]).same(copy@[j]),
        decreases list@.len() - i,
    {
        copy.push(list[i].clone());
        i += 1;
    }
    copy
}

} // verus!
