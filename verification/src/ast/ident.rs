//! Node ids, identifiers and what is made of identifiers alone.

use vstd::prelude::*;

use crate::ast::span::{Span, dummy_sp, dummy_span};

verus! {

/// The largest node id.
pub const MAX_NODE_ID: u32 = 0xFFFF_FF00;

/// The id of a node of the tree.
#[derive(Debug, Clone, Copy, PartialEq, Eq, Structural)]
pub struct NodeId(pub u32);

/// The id of a node that has not been numbered yet.
pub open spec fn dummy_id() -> NodeId {
    NodeId(MAX_NODE_ID)
}

/// The id that every node made by a script gets.
pub fn dummy_node_id() -> (id: NodeId)
    ensures
        id == dummy_id(),
{
    NodeId(MAX_NODE_ID)
}

impl NodeId {
    /// The node id with this number.
    pub fn from_u32(value: u32) -> (id: NodeId)
        requires
            value <= MAX_NODE_ID,
        ensures
            id == NodeId(value),
    {
        NodeId(value)
    }

    /// The number of this node id.
    pub fn as_u32(self) -> (value: u32)
        ensures
            value == self.0,
    {
        self.0
    }
}

/// The id of an attribute.
#[derive(Debug, Clone, Copy, PartialEq, Eq, Structural)]
pub struct AttrId(pub usize);

/// The identifier with this text that a script makes.
pub open spec fn fresh_ident(name: String) -> Ident {
    Ident { name, span: dummy_span() }
}

impl Ident {
    /// An identifier that stands nowhere in the source text.
    pub fn from_str(name: String) -> (ident: Ident)
        ensures
            ident == fresh_ident(name),
    {
        Ident { name, span: dummy_sp() }
    }

    /// Both identifiers have the same text in the same syntax context.
    pub open spec fn matches_ident(self, other: Ident) -> bool {
        self.name@ == other.name@ && self.span.ctxt == other.span.ctxt
    }

    /// Whether the two identifiers mean the same name.
    pub fn is(&self, other: &Ident) -> (equal: bool)
        ensures
            equal == self.matches_ident(*other),
    {
        self.name == other.name && self.span.ctxt == other.span.ctxt
    }
}

/// An identifier: its text and where it stands.
#[derive(Debug, PartialEq)]
pub struct Ident {
    pub name: String,
    pub span: Span,
}

impl Ident {
    /// Both values hold the same contents.
    pub open spec fn same(self, other: Ident) -> bool
        decreases self,
    {
        &&& self.name@ == other.name@
        &&& self.span == other.span
    }

    /// Every value holds the same contents as itself.
    pub proof fn same_as_itself(self)
        ensures
            self.same(self),
        decreases self,
    {
    }
}

impl Clone for Ident {
    fn clone(&self) -> (copy: Ident)
        ensures
            self.same(copy),
        decreases *self,
    {
        Ident {
            name: self.name.clone(),
            span: self.span,
        }
    }
}

/// A loop or block label.
#[derive(Debug, PartialEq)]
pub struct Label {
    pub ident: Ident,
}

impl Label {
    /// Both values hold the same contents.
    pub open spec fn same(self, other: Label) -> bool
        decreases self,
    {
        &&& self.ident.same(other.ident)
    }

    /// Every value holds the same contents as itself.
    pub proof fn same_as_itself(self)
        ensures
            self.same(self),
        decreases self,
    {
        self.ident.same_as_itself();
    }
}

impl Clone for Label {
    fn clone(&self) -> (copy: Label)
        ensures
            self.same(copy),
        decreases *self,
    {
        Label {
            ident: self.ident.clone(),
        }
    }
}

/// A lifetime; its name starts with an apostrophe.
#[derive(Debug, PartialEq)]
pub struct Lifetime {
    pub id: NodeId,
    pub ident: Ident,
}

impl Lifetime {
    /// Both values hold the same contents.
    pub open spec fn same(self, other: Lifetime) -> bool
        decreases self,
    {
        &&& self.id == other.id
        &&& self.ident.same(other.ident)
    }

    /// Every value holds the same contents as itself.
    pub proof fn same_as_itself(self)
        ensures
            self.same(self),
        decreases self,
    {
        self.ident.same_as_itself();
    }
}

impl Clone for Lifetime {
    fn clone(&self) -> (copy: Lifetime)
        ensures
            self.same(copy),
        decreases *self,
    {
        Lifetime {
            id: self.id,
            ident: self.ident.clone(),
        }
    }
}

/// A path made of identifiers alone, as in a `use` item, a macro call or an attribute.
#[derive(Debug, PartialEq)]
pub struct SimplePath {
    pub span: Span,
    pub segments: Vec<Ident>,
}

impl SimplePath {
    /// Both values hold the same contents.
    pub open spec fn same(self, other: SimplePath) -> bool
        decreases self,
    {
        &&& self.span == other.span
        &&& same_idents(self.segments@, other.segments@)
    }

    /// Every value holds the same contents as itself.
    pub proof fn same_as_itself(self)
        ensures
            self.same(self),
        decreases self,
    {
        idents_same_as_themselves(self.segments@);
    }
}

impl Clone for SimplePath {
    fn clone(&self) -> (copy: SimplePath)
        ensures
            self.same(copy),
        decreases *self,
    {
        SimplePath {
            span: self.span,
            segments: clone_idents(&self.segments),
        }
    }
}

/// Both lists hold the same identifiers in the same order.
pub open spec fn same_idents(list: Seq<Ident>, other: Seq<Ident>) -> bool
    decreases list,
{
    &&& list.len() == other.len()
    &&& forall|i: int| 0 <= i < list.len() ==> (#[trigger] list[i]).same(other[i])
}

/// Every list of identifiers is the same as itself.
pub proof fn idents_same_as_themselves(list: Seq<Ident>)
    ensures
        same_idents(list, list),
    decreases list,
{
    assert forall|i: int| 0 <= i < list.len() implies (#[trigger] list[i]).same(list[i]) by {
        list[i].same_as_itself();
    }
}

/// A copy of a list of identifiers.
pub fn clone_idents(list: &Vec<Ident>) -> (copy: Vec<Ident>)
    ensures
        same_idents(list@, copy@),
    decreases *list,
{
    let mut copy: Vec<Ident> = Vec::new();
    let mut i: usize = 0;
    while i < list.len()
        invariant
            i <= list@.len(),
            copy@.len() == i,
            forall|j: int| 0 <= j < i ==> (#[trigger] list@[j]).same(copy@[j]),
        decreases list@.len() - i,
    {
        copy.push(list[i].clone());
        i += 1;
    }
    copy
}

} // verus!
