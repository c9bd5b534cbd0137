//! Blocks and statements.

use vstd::prelude::*;

use crate::ast::attr::{
    Attribute, Mac, attributes_same_as_themselves, clone_attributes, same_attributes,
};
use crate::ast::expr::Expr;
use crate::ast::flags::{BlockCheckMode, MacStmtStyle};
use crate::ast::ident::NodeId;
use crate::ast::item::Item;
use crate::ast::pat::Pat;
use crate::ast::span::Span;
use crate::ast::ty::Ty;

verus! {

/// A block of statements.
#[derive(Debug, PartialEq)]
pub struct Block {
    pub stmts: Vec<Stmt>,
    pub id: NodeId,
    pub rules: BlockCheckMode,
    pub span: Span,
}

impl Block {
    /// Both values hold the same contents.
    pub open spec fn same(self, other: Block) -> bool
        decreases self,
    {
        &&& same_stmts(self.stmts@, other.stmts@)
        &&& self.id == other.id
        &&& self.rules == other.rules
        &&& self.span == other.span
    }

    /// Every value holds the same contents as itself.
    pub proof fn same_as_itself(self)
        ensures
            self.same(self),
        decreases self,
    {
        stmts_same_as_themselves(self.stmts@);
    }
}

impl Clone for Block {
    fn clone(&self) -> (copy: Block)
        ensures
            self.same(copy),
        decreases *self,
    {
        Block {
            stmts: clone_stmts(&self.stmts),
            id: self.id,
            rules: self.rules,
            span: self.span,
        }
    }
}

/// A `let` statement.
#[derive(Debug, PartialEq)]
pub struct Local {
    pub id: NodeId,
    pub pat: Box<Pat>,
    pub ty: Option<Box<Ty>>,
    pub init: Option<Box<Expr>>,
    pub span: Span,
    pub attrs: Vec<Attribute>,
}

impl Local {
    /// Both values hold the same contents.
    pub open spec fn same(self, other: Local) -> bool
        decreases self,
    {
        &&& self.id == other.id
        &&& self.pat.same(*other.pat)
        &&& match (self.ty, other.ty) {
            (Some(x), Some(y)) => x.same(*y),
            (None, None) => true,
            _ => false,
        }
        &&& match (self.init, other.init) {
            (Some(x), Some(y)) => x.same(*y),
            (None, None) => true,
            _ => false,
        }
        &&& self.span == other.span
        &&& same_attributes(self.attrs@, other.attrs@)
    }

    /// Every value holds the same contents as itself.
    pub proof fn same_as_itself(self)
        ensures
            self.same(self),
        decreases self,
    {
        self.pat.same_as_itself();
        if let Some(x) = self.ty {
            x.same_as_itself();
        }
        if let Some(x) = self.init {
            x.same_as_itself();
        }
        attributes_same_as_themselves(self.attrs@);
    }
}

impl Clone for Local {
    fn clone(&self) -> (copy: Local)
        ensures
            self.same(copy),
        decreases *self,
    {
        Local {
            id: self.id,
            pat: Box::new((*self.pat).clone()),
            ty: match &self.ty {
                Some(x) => Some(Box::new((**x).clone())),
                None => None,
            },
            init: match &self.init {
                Some(x) => Some(Box::new((**x).clone())),
                None => None,
            },
            span: self.span,
            attrs: clone_attributes(&self.attrs),
        }
    }
}

/// A macro call in statement position.
#[derive(Debug, PartialEq)]
pub struct MacStmt {
    pub mac: Mac,
    pub style: MacStmtStyle,
    pub attrs: Vec<Attribute>,
}

impl MacStmt {
    /// Both values hold the same contents.
    pub open spec fn same(self, other: MacStmt) -> bool
        decreases self,
    {
        &&& self.mac.same(other.mac)
        &&& self.style == other.style
        &&& same_attributes(self.attrs@, other.attrs@)
    }

    /// Every value holds the same contents as itself.
    pub proof fn same_as_itself(self)
        ensures
            self.same(self),
        decreases self,
    {
        self.mac.same_as_itself();
        attributes_same_as_themselves(self.attrs@);
    }
}

impl Clone for MacStmt {
    fn clone(&self) -> (copy: MacStmt)
        ensures
            self.same(copy),
        decreases *self,
    {
        MacStmt {
            mac: self.mac.clone(),
            style: self.style,
            attrs: clone_attributes(&self.attrs),
        }
    }
}

/// The form of a statement.
#[derive(Debug, PartialEq)]
pub enum StmtKind {
    Local(Box<Local>),
    Item(Box<Item>),
    /// An expression without a semicolon.
    Expr(Box<Expr>),
    /// An expression with a semicolon.
    Semi(Box<Expr>),
    Mac(Box<MacStmt>),
}

impl StmtKind {
    /// Both values hold the same contents.
    pub open spec fn same(self, other: StmtKind) -> bool
        decreases self,
    {
        match (self, other) {
            (StmtKind::Local(local), StmtKind::Local(local2)) => local.same(*local2),
            (StmtKind::Item(item), StmtKind::Item(item2)) => item.same(*item2),
            (StmtKind::Expr(expr), StmtKind::Expr(expr2)) => expr.same(*expr2),
            (StmtKind::Semi(expr), StmtKind::Semi(expr2)) => expr.same(*expr2),
            (StmtKind::Mac(mac_stmt), StmtKind::Mac(mac_stmt2)) => mac_stmt.same(*mac_stmt2),
            _ => false,
        }
    }

    /// Every value holds the same contents as itself.
    pub proof fn same_as_itself(self)
        ensures
            self.same(self),
        decreases self,
    {
        match self {
            StmtKind::Local(local) => {
                local.same_as_itself();
            },
            StmtKind::Item(item) => {
                item.same_as_itself();
            },
            StmtKind::Expr(expr) => {
                expr.same_as_itself();
            },
            StmtKind::Semi(expr) => {
                expr.same_as_itself();
            },
            StmtKind::Mac(mac_stmt) => {
                mac_stmt.same_as_itself();
            },
        }
    }
}

impl Clone for StmtKind {
    fn clone(&self) -> (copy: StmtKind)
        ensures
            self.same(copy),
        decreases *self,
    {
        match self {
            StmtKind::Local(local) => StmtKind::Local(Box::new((**local).clone())),
            StmtKind::Item(item) => StmtKind::Item(Box::new((**item).clone())),
            StmtKind::Expr(expr) => StmtKind::Expr(Box::new((**expr).clone())),
            StmtKind::Semi(expr) => StmtKind::Semi(Box::new((**expr).clone())),
            StmtKind::Mac(mac_stmt) => StmtKind::Mac(Box::new((**mac_stmt).clone())),
        }
    }
}

/// A statement.
#[derive(Debug, PartialEq)]
pub struct Stmt {
    pub id: NodeId,
    pub kind: StmtKind,
    pub span: Span,
}

impl Stmt {
    /// Both values hold the same contents.
    pub open spec fn same(self, other: Stmt) -> bool
        decreases self,
    {
        &&& self.id == other.id
        &&& self.kind.same(other.kind)
        &&& self.span == other.span
    }

    /// Every value holds the same contents as itself.
    pub proof fn same_as_itself(self)
        ensures
            self.same(self),
        decreases self,
    {
        self.kind.same_as_itself();
    }
}

impl Clone for Stmt {
    fn clone(&self) -> (copy: Stmt)
        ensures
            self.same(copy),
        decreases *self,
    {
        Stmt {
            id: self.id,
            kind: self.kind.clone(),
            span: self.span,
        }
    }
}

/// Both lists hold the same statements in the same order.
pub open spec fn same_stmts(list: Seq<Stmt>, other: Seq<Stmt>) -> bool
    decreases list,
{
    &&& list.len() == other.len()
    &&& forall|i: int| 0 <= i < list.len() ==> (#[trigger] list[i]).same(other[i])
}

/// Every list of statements is the same as itself.
pub proof fn stmts_same_as_themselves(list: Seq<Stmt>)
    ensures
        same_stmts(list, list),
    decreases list,
{
    assert forall|i: int| 0 <= i < list.len() implies (#[trigger] list[i]).same(list[i]) by {
        list[i].same_as_itself();
    }
}

/// A copy of a list of statements.
pub fn clone_stmts(list: &Vec<Stmt>) -> (copy: Vec<Stmt>)
    ensures
        same_stmts(list@, copy@),
    decreases *list,
{
    let mut copy: Vec<Stmt> = Vec::new();
    let mut i: usize = 0;
    while i < list.len()
        invariant
            i <= list@.len(),
            copy@.len() == i,
            forall|j: int| 0 <= j < i ==> (#[trigger] list@[j]).same(copy@[j]),
        decreases list@.len() - i,
    {
        copy.push(list[i].clone());
        i += 1;
    }
    copy
}

} // verus!
