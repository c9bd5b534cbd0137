//! Visibility qualifiers.

use vstd::prelude::*;

use crate::ast::flags::CrateSugar;
use crate::ast::ident::{NodeId, SimplePath};
use crate::ast::span::Spanned;

verus! {

/// A visibility qualifier.
pub type Visibility = Spanned<VisibilityKind>;

/// Both qualifiers hold the same contents.
pub open spec fn same_visibility(vis: Visibility, other: Visibility) -> bool {
    &&& vis.node.same(other.node)
    &&& vis.span == other.span
}

/// A copy of a visibility qualifier.
pub fn clone_visibility(vis: &Visibility) -> (copy: Visibility)
    ensures
        same_visibility(*vis, copy),
{
    Spanned { node: vis.node.clone(), span: vis.span }
}

/// How far an item can be seen.
#[derive(Debug, PartialEq)]
pub enum VisibilityKind {
    Public,
    Crate(CrateSugar),
    Restricted { path: Box<SimplePath>, id: NodeId },
    Inherited,
}

impl VisibilityKind {
    /// Both values hold the same contents.
    pub open spec fn same(self, other: VisibilityKind) -> bool
        decreases self,
    {
        match (self, other) {
            (VisibilityKind::Public, VisibilityKind::Public) => true,
            (VisibilityKind::Crate(sugar), VisibilityKind::Crate(sugar2)) => sugar == sugar2,
            (
                VisibilityKind::Restricted { path, id },
                VisibilityKind::Restricted { path: path2, id: id2 },
            ) => {
                &&& path.same(*path2)
                &&& id == id2
            },
            (VisibilityKind::Inherited, VisibilityKind::Inherited) => true,
            _ => false,
        }
    }

    /// Every value holds the same contents as itself.
    pub proof fn same_as_itself(self)
        ensures
            self.same(self),
        decreases self,
    {
        match self {
            VisibilityKind::Restricted { path, .. } => {
                path.same_as_itself();
            },
            _ => {},
        }
    }
}

impl Clone for VisibilityKind {
    fn clone(&self) -> (copy: VisibilityKind)
        ensures
            self.same(copy),
        decreases *self,
    {
        match self {
            VisibilityKind::Public => VisibilityKind::Public,
            VisibilityKind::Crate(sugar) => VisibilityKind::Crate(*sugar),
            VisibilityKind::Restricted { path, id } => VisibilityKind::Restricted {
                path: Box::new((**path).clone()),
                id: *id,
            },
            VisibilityKind::Inherited => VisibilityKind::Inherited,
        }
    }
}

} // verus!
