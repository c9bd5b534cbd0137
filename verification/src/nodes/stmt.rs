//! Statements and patterns.

use vstd::prelude::*;

use crate::ast::attr::Attribute;
use crate::ast::expr::Expr;
use crate::ast::ident::{Ident, NodeId, dummy_id, dummy_node_id};
use crate::ast::item::Item;
use crate::ast::pat::{Pat, PatKind};
use crate::ast::span::{dummy_sp, dummy_span};
use crate::ast::stmt::{Local, Stmt, StmtKind};
use crate::ast::ty::Ty;
use crate::error::Error;
use crate::lists::refs;

verus! {

/// The node that a statement is made of.
#[derive(Debug, PartialEq)]
pub enum StmtNode<'a> {
    Expr(&'a Expr),
    Local(&'a Local),
    Item(&'a Item),
}

/// The node that a statement of this form is made of; a macro call is made of none.
pub open spec fn stmt_node<'a>(kind: StmtKind) -> Option<StmtNode<'a>> {
    match kind {
        StmtKind::Expr(expr) => Some(StmtNode::Expr(&*expr)),
        StmtKind::Semi(expr) => Some(StmtNode::Expr(&*expr)),
        StmtKind::Local(local) => Some(StmtNode::Local(&*local)),
        StmtKind::Item(item) => Some(StmtNode::Item(&*item)),
        StmtKind::Mac(_) => None,
    }
}

impl Stmt {
    /// The node that the statement is made of.
    pub fn get_node(&self) -> (result: Result<StmtNode<'_>, Error>)
        ensures
            match stmt_node(self.kind) {
                Some(node) => result == Ok::<StmtNode<'_>, Error>(node),
                None => result == Err::<StmtNode<'_>, Error>(Error::MacStmt),
            },
    {
        match &self.kind {
            StmtKind::Expr(expr) => Ok(StmtNode::Expr(expr)),
            StmtKind::Semi(expr) => Ok(StmtNode::Expr(expr)),
            StmtKind::Local(local) => Ok(StmtNode::Local(local)),
            StmtKind::Item(item) => Ok(StmtNode::Item(item)),
            StmtKind::Mac(_) => Err(Error::MacStmt),
        }
    }

    /// Turns the statement into an expression statement.
    pub fn to_expr(&mut self, expr: Expr, is_semi: bool)
        ensures
            *final(self) == (Stmt {
                kind: if is_semi {
                    StmtKind::Semi(Box::new(expr))
                } else {
                    StmtKind::Expr(Box::new(expr))
                },
                ..*old(self)
            }),
    {
        self.kind = if is_semi {
            StmtKind::Semi(Box::new(expr))
        } else {
            StmtKind::Expr(Box::new(expr))
        };
    }
}

impl Pat {
    /// The name that a plain binding binds.
    pub fn get_ident(&self) -> (result: Option<&Ident>)
        ensures
            match self.kind {
                PatKind::Ident(_, ident, _) => result == Some(&ident),
                _ => result is None,
            },
    {
        if let PatKind::Ident(_, ident, _) = &self.kind {
            Some(ident)
        } else {
            None
        }
    }
}

impl Local {
    /// Replaces the type, or takes it away.
    pub fn set_ty(&mut self, ty: Option<Ty>)
        ensures
            *final(self) == (Local { ty: final(self).ty, ..*old(self) }),
            match ty {
                Some(ty) => final(self).ty == Some(Box::new(ty)),
                None => final(self).ty is None,
            },
    {
        self.ty = match ty {
            Some(ty) => Some(Box::new(ty)),
            None => None,
        };
    }

    /// Replaces the initial value, or takes it away.
    pub fn set_init(&mut self, init: Option<Expr>)
        ensures
            *final(self) == (Local { init: final(self).init, ..*old(self) }),
            match init {
                Some(init) => final(self).init == Some(Box::new(init)),
                None => final(self).init is None,
            },
    {
        self.init = match init {
            Some(init) => Some(Box::new(init)),
            None => None,
        };
    }

    /// The pattern that is bound.
    pub fn get_pat(&self) -> (pat: &Pat)
        ensures
            *pat == *self.pat,
    {
        &self.pat
    }

    /// The id of the pattern that is bound.
    pub fn get_pat_id(&self) -> (id: NodeId)
        ensures
            id == self.pat.id,
    {
        self.pat.id
    }

    /// The attributes of the statement.
    pub fn get_attrs(&self) -> (attrs: Vec<&Attribute>)
        ensures
            attrs@.unref() == self.attrs@,
    {
        refs(&self.attrs)
    }

    /// The statement made of this `let`.
    pub fn to_stmt(self) -> (stmt: Stmt)
        ensures
            stmt == (Stmt {
                id: dummy_id(),
                span: dummy_span(),
                kind: StmtKind::Local(Box::new(self)),
            }),
    {
        Stmt { id: dummy_node_id(), span: dummy_sp(), kind: StmtKind::Local(Box::new(self)) }
    }
}

} // verus!
