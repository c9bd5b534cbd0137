//! What is visited in paths.

use vstd::prelude::*;

use crate::ast::path::{
    AngleBracketedArgs, AssocTyConstraint, AssocTyConstraintKind, GenericArg, GenericArgs,
    ParenthesizedArgs, Path, PathSegment, QSelf,
};
use crate::visit::{Visited, group_joined, joined, joined_is_associative};
use crate::visit::expr::{list_anon_const, nodes_in_anon_const};
use crate::visit::generics::{list_bounds, nodes_in_bounds};
use crate::visit::ty::{list_ty, list_tys, nodes_in_ty, nodes_in_tys};

verus! {

/// What is visited in a path.
pub open spec fn nodes_in_path<'a>(node: Path) -> Seq<Visited<'a>>
    decreases node,
{
    nodes_in_segments(node.segments@, node.segments@.len() as int)
}

/// Lists what is visited in a path.
pub(crate) fn list_path<'a>(node: &'a Path, list: &mut Vec<Visited<'a>>)
    ensures
        final(list)@ == joined(old(list)@, nodes_in_path(*node)),
    decreases *node,
{
    broadcast use group_joined;

    list_segments(&node.segments, list);
}

/// What is visited in a path segment.
pub open spec fn nodes_in_segment<'a>(node: PathSegment) -> Seq<Visited<'a>>
    decreases node,
{
    match node.args {
        Some(x) => nodes_in_generic_args(*x),
        None => seq![],
    }
}

/// Lists what is visited in a path segment.
pub(crate) fn list_segment<'a>(node: &'a PathSegment, list: &mut Vec<Visited<'a>>)
    ensures
        final(list)@ == joined(old(list)@, nodes_in_segment(*node)),
    decreases *node,
{
    broadcast use group_joined;

    if let Some(x) = &node.args {
        list_generic_args(x, list);
    }
}

/// What is visited in the first `count` of a list of path segments.
pub open spec fn nodes_in_segments<'a>(list: Seq<PathSegment>, count: int) -> Seq<Visited<'a>>
    decreases list, count,
{
    if 0 < count <= list.len() {
        joined(nodes_in_segments(list, count - 1), nodes_in_segment(list[count - 1]))
    } else {
        seq![]
    }
}

/// Lists what is visited in a list of path segments.
pub(crate) fn list_segments<'a>(nodes: &'a Vec<PathSegment>, list: &mut Vec<Visited<'a>>)
    ensures
        final(list)@ == joined(old(list)@, nodes_in_segments(nodes@, nodes@.len() as int)),
    decreases *nodes,
{
    broadcast use group_joined;

    let mut i: usize = 0;
    while i < nodes.len()
        invariant
            i <= nodes@.len(),
            list@ == joined(old(list)@, nodes_in_segments(nodes@, i as int)),
        decreases nodes@.len() - i,
    {
        list_segment(&nodes[i], list);
        i += 1;
        proof {
            joined_is_associative(
                old(list)@,
                nodes_in_segments(nodes@, i - 1),
                nodes_in_segment(nodes@[i - 1]),
            );
        }
    }
}

/// What is visited in generic arguments.
pub open spec fn nodes_in_generic_args<'a>(node: GenericArgs) -> Seq<Visited<'a>>
    decreases node,
{
    match node {
        GenericArgs::AngleBracketed(args) => nodes_in_angle_bracketed_args(args),
        GenericArgs::Parenthesized(args) => nodes_in_parenthesized_args(args),
    }
}

/// Lists what is visited in generic arguments.
pub(crate) fn list_generic_args<'a>(node: &'a GenericArgs, list: &mut Vec<Visited<'a>>)
    ensures
        final(list)@ == joined(old(list)@, nodes_in_generic_args(*node)),
    decreases *node,
{
    broadcast use group_joined;

    match node {
        GenericArgs::AngleBracketed(args) => list_angle_bracketed_args(args, list),
        GenericArgs::Parenthesized(args) => list_parenthesized_args(args, list),
    }
}

/// What is visited in a generic argument.
pub open spec fn nodes_in_generic_arg<'a>(node: GenericArg) -> Seq<Visited<'a>>
    decreases node,
{
    match node {
        GenericArg::Type(ty) => nodes_in_ty(*ty),
        GenericArg::Const(constant) => nodes_in_anon_const(constant),
        _ => seq![],
    }
}

/// Lists what is visited in a generic argument.
pub(crate) fn list_generic_arg<'a>(node: &'a GenericArg, list: &mut Vec<Visited<'a>>)
    ensures
        final(list)@ == joined(old(list)@, nodes_in_generic_arg(*node)),
    decreases *node,
{
    broadcast use group_joined;

    match node {
        GenericArg::Type(ty) => list_ty(ty, list),
        GenericArg::Const(constant) => list_anon_const(constant, list),
        _ => {},
    }
}

/// What is visited in the first `count` of a list of generic arguments.
pub open spec fn nodes_in_generic_arg_list<'a>(
    list: Seq<GenericArg>,
    count: int,
) -> Seq<Visited<'a>>
    decreases list, count,
{
    if 0 < count <= list.len() {
        joined(nodes_in_generic_arg_list(list, count - 1), nodes_in_generic_arg(list[count - 1]))
    } else {
        seq![]
    }
}

/// Lists what is visited in a list of generic arguments.
pub(crate) fn list_generic_arg_list<'a>(nodes: &'a Vec<GenericArg>, list: &mut Vec<Visited<'a>>)
    ensures
        final(list)@ == joined(old(list)@, nodes_in_generic_arg_list(nodes@, nodes@.len() as int)),
    decreases *nodes,
{
    broadcast use group_joined;

    let mut i: usize = 0;
    while i < nodes.len()
        invariant
            i <= nodes@.len(),
            list@ == joined(old(list)@, nodes_in_generic_arg_list(nodes@, i as int)),
        decreases nodes@.len() - i,
    {
        list_generic_arg(&nodes[i], list);
        i += 1;
        proof {
            joined_is_associative(
                old(list)@,
                nodes_in_generic_arg_list(nodes@, i - 1),
                nodes_in_generic_arg(nodes@[i - 1]),
            );
        }
    }
}

/// What is visited in arguments between angle brackets.
pub open spec fn nodes_in_angle_bracketed_args<'a>(node: AngleBracketedArgs) -> Seq<Visited<'a>>
    decreases node,
{
    joined(
        nodes_in_generic_arg_list(node.args@, node.args@.len() as int),
        nodes_in_constraints(node.constraints@, node.constraints@.len() as int),
    )
}

/// Lists what is visited in arguments between angle brackets.
pub(crate) fn list_angle_bracketed_args<'a>(
    node: &'a AngleBracketedArgs,
    list: &mut Vec<Visited<'a>>,
)
    ensures
        final(list)@ == joined(old(list)@, nodes_in_angle_bracketed_args(*node)),
    decreases *node,
{
    broadcast use group_joined;

    list_generic_arg_list(&node.args, list);
    list_constraints(&node.constraints, list);
}

/// What is visited in arguments between round brackets.
pub open spec fn nodes_in_parenthesized_args<'a>(node: ParenthesizedArgs) -> Seq<Visited<'a>>
    decreases node,
{
    joined(
        nodes_in_tys(node.inputs@, node.inputs@.len() as int),
        match node.output {
            Some(x) => nodes_in_ty(*x),
            None => seq![],
        },
    )
}

/// Lists what is visited in arguments between round brackets.
pub(crate) fn list_parenthesized_args<'a>(node: &'a ParenthesizedArgs, list: &mut Vec<Visited<'a>>)
    ensures
        final(list)@ == joined(old(list)@, nodes_in_parenthesized_args(*node)),
    decreases *node,
{
    broadcast use group_joined;

    list_tys(&node.inputs, list);
    if let Some(x) = &node.output {
        list_ty(x, list);
    }
}

/// What is visited in a constraint.
pub open spec fn nodes_in_constraint<'a>(node: AssocTyConstraint) -> Seq<Visited<'a>>
    decreases node,
{
    nodes_in_constraint_kind(node.kind)
}

/// Lists what is visited in a constraint.
pub(crate) fn list_constraint<'a>(node: &'a AssocTyConstraint, list: &mut Vec<Visited<'a>>)
    ensures
        final(list)@ == joined(old(list)@, nodes_in_constraint(*node)),
    decreases *node,
{
    broadcast use group_joined;

    list_constraint_kind(&node.kind, list);
}

/// What is visited in the first `count` of a list of constraints.
pub open spec fn nodes_in_constraints<'a>(
    list: Seq<AssocTyConstraint>,
    count: int,
) -> Seq<Visited<'a>>
    decreases list, count,
{
    if 0 < count <= list.len() {
        joined(nodes_in_constraints(list, count - 1), nodes_in_constraint(list[count - 1]))
    } else {
        seq![]
    }
}

/// Lists what is visited in a list of constraints.
pub(crate) fn list_constraints<'a>(nodes: &'a Vec<AssocTyConstraint>, list: &mut Vec<Visited<'a>>)
    ensures
        final(list)@ == joined(old(list)@, nodes_in_constraints(nodes@, nodes@.len() as int)),
    decreases *nodes,
{
    broadcast use group_joined;

    let mut i: usize = 0;
    while i < nodes.len()
        invariant
            i <= nodes@.len(),
            list@ == joined(old(list)@, nodes_in_constraints(nodes@, i as int)),
        decreases nodes@.len() - i,
    {
        list_constraint(&nodes[i], list);
        i += 1;
        proof {
            joined_is_associative(
                old(list)@,
                nodes_in_constraints(nodes@, i - 1),
                nodes_in_constraint(nodes@[i - 1]),
            );
        }
    }
}

/// What is visited in the form of a constraint.
pub open spec fn nodes_in_constraint_kind<'a>(node: AssocTyConstraintKind) -> Seq<Visited<'a>>
    decreases node,
{
    match node {
        AssocTyConstraintKind::Equality { ty } => nodes_in_ty(*ty),
        AssocTyConstraintKind::Bound { bounds } => nodes_in_bounds(bounds@, bounds@.len() as int),
    }
}

/// Lists what is visited in the form of a constraint.
pub(crate) fn list_constraint_kind<'a>(node: &'a AssocTyConstraintKind, list: &mut Vec<Visited<'a>>)
    ensures
        final(list)@ == joined(old(list)@, nodes_in_constraint_kind(*node)),
    decreases *node,
{
    broadcast use group_joined;

    match node {
        AssocTyConstraintKind::Equality { ty } => list_ty(ty, list),
        AssocTyConstraintKind::Bound { bounds } => list_bounds(bounds, list),
    }
}

/// What is visited in an explicit self type.
pub open spec fn nodes_in_q_self<'a>(node: QSelf) -> Seq<Visited<'a>>
    decreases node,
{
    nodes_in_ty(*node.ty)
}

/// Lists what is visited in an explicit self type.
pub(crate) fn list_q_self<'a>(node: &'a QSelf, list: &mut Vec<Visited<'a>>)
    ensures
        final(list)@ == joined(old(list)@, nodes_in_q_self(*node)),
    decreases *node,
{
    broadcast use group_joined;

    list_ty(&node.ty, list);
}

} // verus!
