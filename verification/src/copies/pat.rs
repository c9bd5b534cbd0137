//! Copies of patterns.

use vstd::prelude::*;

use crate::ast::pat::{FieldPat, Pat, PatKind};

verus! {

/// A copy of a field pattern agrees with it in every field.
pub proof fn copied_field_pat_agrees(node: FieldPat, copy: FieldPat)
    requires
        node.same(copy),
    ensures
        node.ident.same(copy.ident),
        node.pat.same(*copy.pat),
        node.is_shorthand == copy.is_shorthand,
        node.attrs@.len() == copy.attrs@.len() && (
            forall|i: int| 0 <= i < node.attrs@.len() ==> (#[trigger] node.attrs@[i]).same(
                copy.attrs@[i],
            )
        ),
        node.id == copy.id,
        node.span == copy.span,
        node.is_placeholder == copy.is_placeholder,
{
}

/// A copy of the form of a pattern agrees with it in every field.
pub proof fn copied_pat_kind_agrees(node: PatKind, copy: PatKind)
    requires
        node.same(copy),
    ensures
        match (node, copy) {
            (PatKind::Wild, PatKind::Wild) => true,
            (PatKind::Ident(mode, ident, pat), PatKind::Ident(mode2, ident2, pat2)) => {
                &&& mode == mode2
                &&& ident.same(ident2)
                &&& match (pat, pat2) {
                    (Some(x), Some(y)) => x.same(*y),
                    (None, None) => true,
                    _ => false,
                }
            },
            (PatKind::Struct(path, fields, flag), PatKind::Struct(path2, fields2, flag2)) => {
                &&& path.same(path2)
                &&& fields@.len() == fields2@.len() && (
                    forall|i: int| 0 <= i < fields@.len() ==> (#[trigger] fields@[i]).same(
                        fields2@[i],
                    )
                )
                &&& flag == flag2
            },
            (PatKind::TupleStruct(path, pats), PatKind::TupleStruct(path2, pats2)) => {
                &&& path.same(path2)
                &&& pats@.len() == pats2@.len() && (
                    forall|i: int| 0 <= i < pats@.len() ==> (#[trigger] pats@[i]).same(pats2@[i])
                )
            },
            (PatKind::Or(pats), PatKind::Or(pats2)) => {
                &&& pats@.len() == pats2@.len() && (
                    forall|i: int| 0 <= i < pats@.len() ==> (#[trigger] pats@[i]).same(pats2@[i])
                )
            },
            (PatKind::Path(qself, path), PatKind::Path(qself2, path2)) => {
                &&& match (qself, qself2) {
                    (Some(x), Some(y)) => x.same(y),
                    (None, None) => true,
                    _ => false,
                }
                &&& path.same(path2)
            },
            (PatKind::Tuple(pats), PatKind::Tuple(pats2)) => {
                &&& pats@.len() == pats2@.len() && (
                    forall|i: int| 0 <= i < pats@.len() ==> (#[trigger] pats@[i]).same(pats2@[i])
                )
            },
            (PatKind::Box(pat), PatKind::Box(pat2)) => {
                &&& pat.same(*pat2)
            },
            (PatKind::Ref(pat, mutability), PatKind::Ref(pat2, mutability2)) => {
                &&& pat.same(*pat2)
                &&& mutability == mutability2
            },
            (PatKind::Lit(expr), PatKind::Lit(expr2)) => {
                &&& expr.same(*expr2)
            },
            (PatKind::Range(left, right, end), PatKind::Range(left2, right2, end2)) => {
                &&& left.same(*left2)
                &&& right.same(*right2)
                &&& end == end2
            },
            (PatKind::Slice(pats), PatKind::Slice(pats2)) => {
                &&& pats@.len() == pats2@.len() && (
                    forall|i: int| 0 <= i < pats@.len() ==> (#[trigger] pats@[i]).same(pats2@[i])
                )
            },
            (PatKind::Rest, PatKind::Rest) => true,
            (PatKind::Paren(pat), PatKind::Paren(pat2)) => {
                &&& pat.same(*pat2)
            },
            (PatKind::Mac(mac), PatKind::Mac(mac2)) => {
                &&& mac.same(mac2)
            },
            _ => false,
        },
{
}

/// A copy of a pattern agrees with it in every field.
pub proof fn copied_pat_agrees(node: Pat, copy: Pat)
    requires
        node.same(copy),
    ensures
        node.id == copy.id,
        node.kind.same(copy.kind),
        node.span == copy.span,
{
}

} // verus!
