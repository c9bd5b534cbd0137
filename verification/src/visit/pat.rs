//! What is visited in patterns.

use vstd::prelude::*;

use crate::ast::pat::{FieldPat, Pat, PatKind};
use crate::visit::{Visited, group_joined, joined, joined_is_associative};
use crate::visit::expr::{list_expr, nodes_in_expr};
use crate::visit::path::{list_path, list_q_self, nodes_in_path, nodes_in_q_self};

verus! {

/// What is visited in a field pattern.
pub open spec fn nodes_in_field_pat<'a>(node: FieldPat) -> Seq<Visited<'a>>
    decreases node,
{
    nodes_in_pat(*node.pat)
}

/// Lists what is visited in a field pattern.
pub(crate) fn list_field_pat<'a>(node: &'a FieldPat, list: &mut Vec<Visited<'a>>)
    ensures
        final(list)@ == joined(old(list)@, nodes_in_field_pat(*node)),
    decreases *node,
{
    broadcast use group_joined;

    list_pat(&node.pat, list);
}

/// What is visited in the first `count` of a list of field patterns.
pub open spec fn nodes_in_field_pats<'a>(list: Seq<FieldPat>, count: int) -> Seq<Visited<'a>>
    decreases list, count,
{
    if 0 < count <= list.len() {
        joined(nodes_in_field_pats(list, count - 1), nodes_in_field_pat(list[count - 1]))
    } else {
        seq![]
    }
}

/// Lists what is visited in a list of field patterns.
pub(crate) fn list_field_pats<'a>(nodes: &'a Vec<FieldPat>, list: &mut Vec<Visited<'a>>)
    ensures
        final(list)@ == joined(old(list)@, nodes_in_field_pats(nodes@, nodes@.len() as int)),
    decreases *nodes,
{
    broadcast use group_joined;

    let mut i: usize = 0;
    while i < nodes.len()
        invariant
            i <= nodes@.len(),
            list@ == joined(old(list)@, nodes_in_field_pats(nodes@, i as int)),
        decreases nodes@.len() - i,
    {
        list_field_pat(&nodes[i], list);
        i += 1;
        proof {
            joined_is_associative(
                old(list)@,
                nodes_in_field_pats(nodes@, i - 1),
                nodes_in_field_pat(nodes@[i - 1]),
            );
        }
    }
}

/// What is visited in the form of a pattern.
pub open spec fn nodes_in_pat_kind<'a>(node: PatKind) -> Seq<Visited<'a>>
    decreases node,
{
    match node {
        PatKind::Ident(_, _, pat) => {
            match pat {
                Some(x) => nodes_in_pat(*x),
                None => seq![],
            }
        },
        PatKind::Struct(path, fields, _) => {
            joined(nodes_in_path(path), nodes_in_field_pats(fields@, fields@.len() as int))
        },
        PatKind::TupleStruct(path, pats) => {
            joined(nodes_in_path(path), nodes_in_pats(pats@, pats@.len() as int))
        },
        PatKind::Or(pats) => nodes_in_pats(pats@, pats@.len() as int),
        PatKind::Path(qself, path) => {
            joined(
                match qself {
                    Some(x) => nodes_in_q_self(x),
                    None => seq![],
                },
                nodes_in_path(path),
            )
        },
        PatKind::Tuple(pats) => nodes_in_pats(pats@, pats@.len() as int),
        PatKind::Box(pat) => nodes_in_pat(*pat),
        PatKind::Ref(pat, _) => nodes_in_pat(*pat),
        PatKind::Lit(expr) => nodes_in_expr(*expr),
        PatKind::Range(left, right, _) => joined(nodes_in_expr(*left), nodes_in_expr(*right)),
        PatKind::Slice(pats) => nodes_in_pats(pats@, pats@.len() as int),
        PatKind::Paren(pat) => nodes_in_pat(*pat),
        _ => seq![],
    }
}

/// Lists what is visited in the form of a pattern.
pub(crate) fn list_pat_kind<'a>(node: &'a PatKind, list: &mut Vec<Visited<'a>>)
    ensures
        final(list)@ == joined(old(list)@, nodes_in_pat_kind(*node)),
    decreases *node,
{
    broadcast use group_joined;

    match node {
        PatKind::Ident(_, _, pat) => {
            if let Some(x) = pat {
                list_pat(x, list);
            }
        },
        PatKind::Struct(path, fields, _) => {
            list_path(path, list);
            list_field_pats(fields, list);
        },
        PatKind::TupleStruct(path, pats) => {
            list_path(path, list);
            list_pats(pats, list);
        },
        PatKind::Or(pats) => list_pats(pats, list),
        PatKind::Path(qself, path) => {
            if let Some(x) = qself {
                list_q_self(x, list);
            }
            list_path(path, list);
        },
        PatKind::Tuple(pats) => list_pats(pats, list),
        PatKind::Box(pat) => list_pat(pat, list),
        PatKind::Ref(pat, _) => list_pat(pat, list),
        PatKind::Lit(expr) => list_expr(expr, list),
        PatKind::Range(left, right, _) => {
            list_expr(left, list);
            list_expr(right, list);
        },
        PatKind::Slice(pats) => list_pats(pats, list),
        PatKind::Paren(pat) => list_pat(pat, list),
        _ => {},
    }
}

/// What is visited in a pattern.
pub open spec fn nodes_in_pat<'a>(node: Pat) -> Seq<Visited<'a>>
    decreases node,
{
    nodes_in_pat_kind(node.kind)
}

/// Lists what is visited in a pattern.
pub(crate) fn list_pat<'a>(node: &'a Pat, list: &mut Vec<Visited<'a>>)
    ensures
        final(list)@ == joined(old(list)@, nodes_in_pat(*node)),
    decreases *node,
{
    broadcast use group_joined;

    list_pat_kind(&node.kind, list);
}

/// What is visited in the first `count` of a list of patterns.
pub open spec fn nodes_in_pats<'a>(list: Seq<Pat>, count: int) -> Seq<Visited<'a>>
    decreases list, count,
{
    if 0 < count <= list.len() {
        joined(nodes_in_pats(list, count - 1), nodes_in_pat(list[count - 1]))
    } else {
        seq![]
    }
}

/// Lists what is visited in a list of patterns.
pub(crate) fn list_pats<'a>(nodes: &'a Vec<Pat>, list: &mut Vec<Visited<'a>>)
    ensures
        final(list)@ == joined(old(list)@, nodes_in_pats(nodes@, nodes@.len() as int)),
    decreases *nodes,
{
    broadcast use group_joined;

    let mut i: usize = 0;
    while i < nodes.len()
        invariant
            i <= nodes@.len(),
            list@ == joined(old(list)@, nodes_in_pats(nodes@, i as int)),
        decreases nodes@.len() - i,
    {
        list_pat(&nodes[i], list);
        i += 1;
        proof {
            joined_is_associative(
                old(list)@,
                nodes_in_pats(nodes@, i - 1),
                nodes_in_pat(nodes@[i - 1]),
            );
        }
    }
}

} // verus!
