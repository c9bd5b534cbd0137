//! Parentheses in statements.

use vstd::prelude::*;

use crate::ast::stmt::{Block, Local, MacStmt, Stmt, StmtKind};

verus! {

impl Block {
    /// All parentheses in it have the ids of what stands between them.
    pub open spec fn settled(self) -> bool
        decreases self,
    {
        settled_stmts(self.stmts@)
    }
}

impl Local {
    /// All parentheses in it have the ids of what stands between them.
    pub open spec fn settled(self) -> bool
        decreases self,
    {
        &&& self.pat.settled()
        &&& (self.ty matches Some(x) ==> x.settled())
        &&& (self.init matches Some(x) ==> x.settled())
    }
}

impl MacStmt {
    /// All parentheses in it have the ids of what stands between them.
    pub open spec fn settled(self) -> bool
        decreases self,
    {
        true
    }
}

impl StmtKind {
    /// All parentheses in it have the ids of what stands between them.
    pub open spec fn settled(self) -> bool
        decreases self,
    {
        match self {
            StmtKind::Local(local) => local.settled(),
            StmtKind::Item(item) => item.settled(),
            StmtKind::Expr(expr) => expr.settled(),
            StmtKind::Semi(expr) => expr.settled(),
            _ => true,
        }
    }
}

impl Stmt {
    /// All parentheses in it have the ids of what stands between them.
    pub open spec fn settled(self) -> bool
        decreases self,
    {
        self.kind.settled()
    }
}

/// All parentheses in a list of statements have the ids of what stands between them.
pub open spec fn settled_stmts(list: Seq<Stmt>) -> bool
    decreases list,
{
    forall|i: int| 0 <= i < list.len() ==> (#[trigger] list[i]).settled()
}

} // verus!
