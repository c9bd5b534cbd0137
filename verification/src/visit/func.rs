//! What is visited in function signatures.

use vstd::prelude::*;

use crate::ast::func::{FnDecl, FunctionRetTy, MethodSig, Param};
use crate::visit::{Visited, group_joined, joined, joined_is_associative};
use crate::visit::pat::{list_pat, nodes_in_pat};
use crate::visit::ty::{list_ty, nodes_in_ty};

verus! {

/// What is visited in a parameter.
pub open spec fn nodes_in_param<'a>(node: Param) -> Seq<Visited<'a>>
    decreases node,
{
    joined(nodes_in_pat(*node.pat), nodes_in_ty(*node.ty))
}

/// Lists what is visited in a parameter.
pub(crate) fn list_param<'a>(node: &'a Param, list: &mut Vec<Visited<'a>>)
    ensures
        final(list)@ == joined(old(list)@, nodes_in_param(*node)),
    decreases *node,
{
    broadcast use group_joined;

    list_pat(&node.pat, list);
    list_ty(&node.ty, list);
}

/// What is visited in the first `count` of a list of parameters.
pub open spec fn nodes_in_params<'a>(list: Seq<Param>, count: int) -> Seq<Visited<'a>>
    decreases list, count,
{
    if 0 < count <= list.len() {
        joined(nodes_in_params(list, count - 1), nodes_in_param(list[count - 1]))
    } else {
        seq![]
    }
}

/// Lists what is visited in a list of parameters.
pub(crate) fn list_params<'a>(nodes: &'a Vec<Param>, list: &mut Vec<Visited<'a>>)
    ensures
        final(list)@ == joined(old(list)@, nodes_in_params(nodes@, nodes@.len() as int)),
    decreases *nodes,
{
    broadcast use group_joined;

    let mut i: usize = 0;
    while i < nodes.len()
        invariant
            i <= nodes@.len(),
            list@ == joined(old(list)@, nodes_in_params(nodes@, i as int)),
        decreases nodes@.len() - i,
    {
        list_param(&nodes[i], list);
        i += 1;
        proof {
            joined_is_associative(
                old(list)@,
                nodes_in_params(nodes@, i - 1),
                nodes_in_param(nodes@[i - 1]),
            );
        }
    }
}

/// What is visited in a return type.
pub open spec fn nodes_in_return_ty<'a>(node: FunctionRetTy) -> Seq<Visited<'a>>
    decreases node,
{
    match node {
        FunctionRetTy::Ty(ty) => nodes_in_ty(*ty),
        _ => seq![],
    }
}

/// Lists what is visited in a return type.
pub(crate) fn list_return_ty<'a>(node: &'a FunctionRetTy, list: &mut Vec<Visited<'a>>)
    ensures
        final(list)@ == joined(old(list)@, nodes_in_return_ty(*node)),
    decreases *node,
{
    broadcast use group_joined;

    match node {
        FunctionRetTy::Ty(ty) => list_ty(ty, list),
        _ => {},
    }
}

/// What is visited in a function declaration.
pub open spec fn nodes_in_fn_decl<'a>(node: FnDecl) -> Seq<Visited<'a>>
    decreases node,
{
    joined(
        nodes_in_params(node.inputs@, node.inputs@.len() as int),
        nodes_in_return_ty(node.output),
    )
}

/// Lists what is visited in a function declaration.
pub(crate) fn list_fn_decl<'a>(node: &'a FnDecl, list: &mut Vec<Visited<'a>>)
    ensures
        final(list)@ == joined(old(list)@, nodes_in_fn_decl(*node)),
    decreases *node,
{
    broadcast use group_joined;

    list_params(&node.inputs, list);
    list_return_ty(&node.output, list);
}

/// What is visited in a method signature.
pub open spec fn nodes_in_method_sig<'a>(node: MethodSig) -> Seq<Visited<'a>>
    decreases node,
{
    nodes_in_fn_decl(*node.decl)
}

/// Lists what is visited in a method signature.
pub(crate) fn list_method_sig<'a>(node: &'a MethodSig, list: &mut Vec<Visited<'a>>)
    ensures
        final(list)@ == joined(old(list)@, nodes_in_method_sig(*node)),
    decreases *node,
{
    broadcast use group_joined;

    list_fn_decl(&node.decl, list);
}

} // verus!
