//! Copies of visibilities.

use vstd::prelude::*;

use crate::ast::vis::{Visibility, VisibilityKind, same_visibility};

verus! {

/// A copy of a visibility agrees with it in every field.
pub proof fn copied_visibility_kind_agrees(node: VisibilityKind, copy: VisibilityKind)
    requires
        node.same(copy),
    ensures
        match (node, copy) {
            (VisibilityKind::Public, VisibilityKind::Public) => true,
            (VisibilityKind::Crate(sugar), VisibilityKind::Crate(sugar2)) => {
                &&& sugar == sugar2
            },
            (
                VisibilityKind::Restricted { path, id },
                VisibilityKind::Restricted { path: path2, id: id2 },
            ) => {
                &&& path.same(*path2)
                &&& id == id2
            },
            (VisibilityKind::Inherited, VisibilityKind::Inherited) => true,
            _ => false,
        },
{
}

/// A copy of a visibility qualifier agrees with it in every field.
pub proof fn copied_visibility_agrees(vis: Visibility, copy: Visibility)
    requires
        same_visibility(vis, copy),
    ensures
        vis.node.same(copy.node),
        vis.span == copy.span,
{
}

} // verus!
