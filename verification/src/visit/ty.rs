//! What is visited in types.

use vstd::prelude::*;

use crate::ast::ty::{BareFnTy, MutTy, Ty, TyKind};
use crate::visit::{Visited, group_joined, joined, joined_is_associative};
use crate::visit::expr::{list_anon_const, nodes_in_anon_const};
use crate::visit::func::{list_fn_decl, nodes_in_fn_decl};
use crate::visit::generics::{
    list_bounds, list_generic_params, nodes_in_bounds, nodes_in_generic_params,
};
use crate::visit::path::{list_path, list_q_self, nodes_in_path, nodes_in_q_self};

verus! {

/// What is visited in a type behind a pointer.
pub open spec fn nodes_in_mut_ty<'a>(node: MutTy) -> Seq<Visited<'a>>
    decreases node,
{
    nodes_in_ty(*node.ty)
}

/// Lists what is visited in a type behind a pointer.
pub(crate) fn list_mut_ty<'a>(node: &'a MutTy, list: &mut Vec<Visited<'a>>)
    ensures
        final(list)@ == joined(old(list)@, nodes_in_mut_ty(*node)),
    decreases *node,
{
    broadcast use group_joined;

    list_ty(&node.ty, list);
}

/// What is visited in a function pointer type.
pub open spec fn nodes_in_bare_fn<'a>(node: BareFnTy) -> Seq<Visited<'a>>
    decreases node,
{
    joined(
        nodes_in_generic_params(node.generic_params@, node.generic_params@.len() as int),
        nodes_in_fn_decl(*node.decl),
    )
}

/// Lists what is visited in a function pointer type.
pub(crate) fn list_bare_fn<'a>(node: &'a BareFnTy, list: &mut Vec<Visited<'a>>)
    ensures
        final(list)@ == joined(old(list)@, nodes_in_bare_fn(*node)),
    decreases *node,
{
    broadcast use group_joined;

    list_generic_params(&node.generic_params, list);
    list_fn_decl(&node.decl, list);
}

/// What is visited in the form of a type.
pub open spec fn nodes_in_ty_kind<'a>(node: TyKind) -> Seq<Visited<'a>>
    decreases node,
{
    match node {
        TyKind::Slice(ty) => nodes_in_ty(*ty),
        TyKind::Array(ty, constant) => joined(nodes_in_ty(*ty), nodes_in_anon_const(constant)),
        TyKind::Ptr(mut_ty) => nodes_in_mut_ty(mut_ty),
        TyKind::Rptr(_, mut_ty) => nodes_in_mut_ty(mut_ty),
        TyKind::BareFn(bare_fn) => nodes_in_bare_fn(*bare_fn),
        TyKind::Tup(tys) => nodes_in_tys(tys@, tys@.len() as int),
        TyKind::Path(qself, path) => {
            joined(
                match qself {
                    Some(x) => nodes_in_q_self(x),
                    None => seq![],
                },
                nodes_in_path(path),
            )
        },
        TyKind::TraitObject(bounds, _) => nodes_in_bounds(bounds@, bounds@.len() as int),
        TyKind::ImplTrait(_, bounds) => nodes_in_bounds(bounds@, bounds@.len() as int),
        TyKind::Paren(ty) => nodes_in_ty(*ty),
        TyKind::Typeof(constant) => nodes_in_anon_const(constant),
        _ => seq![],
    }
}

/// Lists what is visited in the form of a type.
pub(crate) fn list_ty_kind<'a>(node: &'a TyKind, list: &mut Vec<Visited<'a>>)
    ensures
        final(list)@ == joined(old(list)@, nodes_in_ty_kind(*node)),
    decreases *node,
{
    broadcast use group_joined;

    match node {
        TyKind::Slice(ty) => list_ty(ty, list),
        TyKind::Array(ty, constant) => {
            list_ty(ty, list);
            list_anon_const(constant, list);
        },
        TyKind::Ptr(mut_ty) => list_mut_ty(mut_ty, list),
        TyKind::Rptr(_, mut_ty) => list_mut_ty(mut_ty, list),
        TyKind::BareFn(bare_fn) => list_bare_fn(bare_fn, list),
        TyKind::Tup(tys) => list_tys(tys, list),
        TyKind::Path(qself, path) => {
            if let Some(x) = qself {
                list_q_self(x, list);
            }
            list_path(path, list);
        },
        TyKind::TraitObject(bounds, _) => list_bounds(bounds, list),
        TyKind::ImplTrait(_, bounds) => list_bounds(bounds, list),
        TyKind::Paren(ty) => list_ty(ty, list),
        TyKind::Typeof(constant) => list_anon_const(constant, list),
        _ => {},
    }
}

/// What is visited in a type.
pub open spec fn nodes_in_ty<'a>(node: Ty) -> Seq<Visited<'a>>
    decreases node,
{
    nodes_in_ty_kind(node.kind)
}

/// Lists what is visited in a type.
pub(crate) fn list_ty<'a>(node: &'a Ty, list: &mut Vec<Visited<'a>>)
    ensures
        final(list)@ == joined(old(list)@, nodes_in_ty(*node)),
    decreases *node,
{
    broadcast use group_joined;

    list_ty_kind(&node.kind, list);
}

/// What is visited in the first `count` of a list of types.
pub open spec fn nodes_in_tys<'a>(list: Seq<Ty>, count: int) -> Seq<Visited<'a>>
    decreases list, count,
{
    if 0 < count <= list.len() {
        joined(nodes_in_tys(list, count - 1), nodes_in_ty(list[count - 1]))
    } else {
        seq![]
    }
}

/// Lists what is visited in a list of types.
pub(crate) fn list_tys<'a>(nodes: &'a Vec<Ty>, list: &mut Vec<Visited<'a>>)
    ensures
        final(list)@ == joined(old(list)@, nodes_in_tys(nodes@, nodes@.len() as int)),
    decreases *nodes,
{
    broadcast use group_joined;

    let mut i: usize = 0;
    while i < nodes.len()
        invariant
            i <= nodes@.len(),
            list@ == joined(old(list)@, nodes_in_tys(nodes@, i as int)),
        decreases nodes@.len() - i,
    {
        list_ty(&nodes[i], list);
        i += 1;
        proof {
            joined_is_associative(
                old(list)@,
                nodes_in_tys(nodes@, i - 1),
                nodes_in_ty(nodes@[i - 1]),
            );
        }
    }
}

} // verus!
