//! What is visited in statements.

use vstd::prelude::*;

use crate::ast::stmt::{Block, Local, Stmt, StmtKind};
use crate::visit::{Visited, group_joined, joined, joined_is_associative, lemma_pushed};
use crate::visit::expr::{list_expr, nodes_in_expr};
use crate::visit::item::{list_item, nodes_in_item};
use crate::visit::pat::{list_pat, nodes_in_pat};
use crate::visit::ty::{list_ty, nodes_in_ty};

verus! {

/// What is visited in a block.
pub open spec fn nodes_in_block<'a>(node: Block) -> Seq<Visited<'a>>
    decreases node,
{
    nodes_in_stmts(node.stmts@, node.stmts@.len() as int)
}

/// Lists what is visited in a block.
pub(crate) fn list_block<'a>(node: &'a Block, list: &mut Vec<Visited<'a>>)
    ensures
        final(list)@ == joined(old(list)@, nodes_in_block(*node)),
    decreases *node,
{
    broadcast use group_joined;

    list_stmts(&node.stmts, list);
}

/// What is visited in a `let` statement.
pub open spec fn nodes_in_local<'a>(node: Local) -> Seq<Visited<'a>>
    decreases node,
{
    joined(
        nodes_in_pat(*node.pat),
        joined(
            match node.ty {
                Some(x) => nodes_in_ty(*x),
                None => seq![],
            },
            match node.init {
                Some(x) => nodes_in_expr(*x),
                None => seq![],
            },
        ),
    )
}

/// Lists what is visited in a `let` statement.
pub(crate) fn list_local<'a>(node: &'a Local, list: &mut Vec<Visited<'a>>)
    ensures
        final(list)@ == joined(old(list)@, nodes_in_local(*node)),
    decreases *node,
{
    broadcast use group_joined;

    list_pat(&node.pat, list);
    if let Some(x) = &node.ty {
        list_ty(x, list);
    }
    if let Some(x) = &node.init {
        list_expr(x, list);
    }
}

/// What is visited in the form of a statement.
pub open spec fn nodes_in_stmt_kind<'a>(node: StmtKind) -> Seq<Visited<'a>>
    decreases node,
{
    match node {
        StmtKind::Local(local) => nodes_in_local(*local),
        StmtKind::Item(item) => nodes_in_item(*item),
        StmtKind::Expr(expr) => nodes_in_expr(*expr),
        StmtKind::Semi(expr) => nodes_in_expr(*expr),
        _ => seq![],
    }
}

/// Lists what is visited in the form of a statement.
pub(crate) fn list_stmt_kind<'a>(node: &'a StmtKind, list: &mut Vec<Visited<'a>>)
    ensures
        final(list)@ == joined(old(list)@, nodes_in_stmt_kind(*node)),
    decreases *node,
{
    broadcast use group_joined;

    match node {
        StmtKind::Local(local) => list_local(local, list),
        StmtKind::Item(item) => list_item(item, list),
        StmtKind::Expr(expr) => list_expr(expr, list),
        StmtKind::Semi(expr) => list_expr(expr, list),
        _ => {},
    }
}

/// What is visited in a statement.
pub open spec fn nodes_in_stmt<'a>(node: Stmt) -> Seq<Visited<'a>>
    decreases node,
{
    joined(seq![Visited::Stmt(&node)], nodes_in_stmt_kind(node.kind))
}

/// Lists what is visited in a statement.
pub(crate) fn list_stmt<'a>(node: &'a Stmt, list: &mut Vec<Visited<'a>>)
    ensures
        final(list)@ == joined(old(list)@, nodes_in_stmt(*node)),
    decreases *node,
{
    broadcast use group_joined;

    list.push(Visited::Stmt(node));
    proof {
        lemma_pushed(old(list)@, Visited::Stmt(node));
    }
    list_stmt_kind(&node.kind, list);
}

/// What is visited in the first `count` of a list of statements.
pub open spec fn nodes_in_stmts<'a>(list: Seq<Stmt>, count: int) -> Seq<Visited<'a>>
    decreases list, count,
{
    if 0 < count <= list.len() {
        joined(nodes_in_stmts(list, count - 1), nodes_in_stmt(list[count - 1]))
    } else {
        seq![]
    }
}

/// Lists what is visited in a list of statements.
pub(crate) fn list_stmts<'a>(nodes: &'a Vec<Stmt>, list: &mut Vec<Visited<'a>>)
    ensures
        final(list)@ == joined(old(list)@, nodes_in_stmts(nodes@, nodes@.len() as int)),
    decreases *nodes,
{
    broadcast use group_joined;

    let mut i: usize = 0;
    while i < nodes.len()
        invariant
            i <= nodes@.len(),
            list@ == joined(old(list)@, nodes_in_stmts(nodes@, i as int)),
        decreases nodes@.len() - i,
    {
        list_stmt(&nodes[i], list);
        i += 1;
        proof {
            joined_is_associative(
                old(list)@,
                nodes_in_stmts(nodes@, i - 1),
                nodes_in_stmt(nodes@[i - 1]),
            );
        }
    }
}

} // verus!
