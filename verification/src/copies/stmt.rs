//! Copies of statements.

use vstd::prelude::*;

use crate::ast::stmt::{Block, Local, MacStmt, Stmt, StmtKind};

verus! {

/// A copy of a block agrees with it in every field.
pub proof fn copied_block_agrees(node: Block, copy: Block)
    requires
        node.same(copy),
    ensures
        node.stmts@.len() == copy.stmts@.len() && (
            forall|i: int| 0 <= i < node.stmts@.len() ==> (#[trigger] node.stmts@[i]).same(
                copy.stmts@[i],
            )
        ),
        node.id == copy.id,
        node.rules == copy.rules,
        node.span == copy.span,
{
}

/// A copy of a `let` statement agrees with it in every field.
pub proof fn copied_local_agrees(node: Local, copy: Local)
    requires
        node.same(copy),
    ensures
        node.id == copy.id,
        node.pat.same(*copy.pat),
        match (node.ty, copy.ty) {
            (Some(x), Some(y)) => x.same(*y),
            (None, None) => true,
            _ => false,
        },
        match (node.init, copy.init) {
            (Some(x), Some(y)) => x.same(*y),
            (None, None) => true,
            _ => false,
        },
        node.span == copy.span,
        node.attrs@.len() == copy.attrs@.len() && (
            forall|i: int| 0 <= i < node.attrs@.len() ==> (#[trigger] node.attrs@[i]).same(
                copy.attrs@[i],
            )
        ),
{
}

/// A copy of a macro call in statement position agrees with it in every field.
pub proof fn copied_mac_stmt_agrees(node: MacStmt, copy: MacStmt)
    requires
        node.same(copy),
    ensures
        node.mac.same(copy.mac),
        node.style == copy.style,
        node.attrs@.len() == copy.attrs@.len() && (
            forall|i: int| 0 <= i < node.attrs@.len() ==> (#[trigger] node.attrs@[i]).same(
                copy.attrs@[i],
            )
        ),
{
}

/// A copy of the form of a statement agrees with it in every field.
pub proof fn copied_stmt_kind_agrees(node: StmtKind, copy: StmtKind)
    requires
        node.same(copy),
    ensures
        match (node, copy) {
            (StmtKind::Local(local), StmtKind::Local(local2)) => {
                &&& local.same(*local2)
            },
            (StmtKind::Item(item), StmtKind::Item(item2)) => {
                &&& item.same(*item2)
            },
            (StmtKind::Expr(expr), StmtKind::Expr(expr2)) => {
                &&& expr.same(*expr2)
            },
            (StmtKind::Semi(expr), StmtKind::Semi(expr2)) => {
                &&& expr.same(*expr2)
            },
            (StmtKind::Mac(mac_stmt), StmtKind::Mac(mac_stmt2)) => {
                &&& mac_stmt.same(*mac_stmt2)
            },
            _ => false,
        },
{
}

/// A copy of a statement agrees with it in every field.
pub proof fn copied_stmt_agrees(node: Stmt, copy: Stmt)
    requires
        node.same(copy),
    ensures
        node.id == copy.id,
        node.kind.same(copy.kind),
        node.span == copy.span,
{
}

} // verus!
