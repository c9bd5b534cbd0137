//! Copies of identifiers.

use vstd::prelude::*;

use crate::ast::ident::{Ident, Label, Lifetime, SimplePath};

verus! {

/// A copy of an identifier agrees with it in every field.
pub proof fn copied_ident_agrees(node: Ident, copy: Ident)
    requires
        node.same(copy),
    ensures
        node.name@ == copy.name@,
        node.span == copy.span,
{
}

/// A copy of a label agrees with it in every field.
pub proof fn copied_label_agrees(node: Label, copy: Label)
    requires
        node.same(copy),
    ensures
        node.ident.same(copy.ident),
{
}

/// A copy of a lifetime agrees with it in every field.
pub proof fn copied_lifetime_agrees(node: Lifetime, copy: Lifetime)
    requires
        node.same(copy),
    ensures
        node.id == copy.id,
        node.ident.same(copy.ident),
{
}

/// A copy of a path of plain names agrees with it in every field.
pub proof fn copied_simple_path_agrees(node: SimplePath, copy: SimplePath)
    requires
        node.same(copy),
    ensures
        node.span == copy.span,
        node.segments@.len() == copy.segments@.len() && (
            forall|i: int| 0 <= i < node.segments@.len() ==> (#[trigger] node.segments@[i]).same(
                copy.segments@[i],
            )
        ),
{
}

} // verus!
