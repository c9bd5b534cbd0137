//! Copies of attributes and macros.

use vstd::prelude::*;

use crate::ast::attr::{Attribute, Mac, MacroDef};

verus! {

/// A copy of an attribute agrees with it in every field.
pub proof fn copied_attribute_agrees(node: Attribute, copy: Attribute)
    requires
        node.same(copy),
    ensures
        node.path.same(copy.path),
        node.tokens@ == copy.tokens@,
        node.id == copy.id,
        node.style == copy.style,
        node.is_sugared_doc == copy.is_sugared_doc,
        node.span == copy.span,
{
}

/// A copy of a macro call agrees with it in every field.
pub proof fn copied_mac_agrees(node: Mac, copy: Mac)
    requires
        node.same(copy),
    ensures
        node.path.same(copy.path),
        node.delim == copy.delim,
        node.tts@ == copy.tts@,
        node.span == copy.span,
{
}

/// A copy of a macro definition agrees with it in every field.
pub proof fn copied_macro_def_agrees(node: MacroDef, copy: MacroDef)
    requires
        node.same(copy),
    ensures
        node.tokens@ == copy.tokens@,
        node.legacy == copy.legacy,
{
}

} // verus!
