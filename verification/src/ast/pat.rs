//! Patterns.

use vstd::prelude::*;

use crate::ast::attr::{
    Attribute, Mac, attributes_same_as_themselves, clone_attributes, same_attributes,
};
use crate::ast::expr::Expr;
use crate::ast::flags::{BindingMode, Mutability, RangeEnd};
use crate::ast::ident::{Ident, NodeId};
use crate::ast::path::{Path, QSelf};
use crate::ast::span::{Span, Spanned};

verus! {

/// A field of a struct pattern.
#[derive(Debug, PartialEq)]
pub struct FieldPat {
    pub ident: Ident,
    pub pat: Box<Pat>,
    pub is_shorthand: bool,
    pub attrs: Vec<Attribute>,
    pub id: NodeId,
    pub span: Span,
    pub is_placeholder: bool,
}

impl FieldPat {
    /// Both values hold the same contents.
    pub open spec fn same(self, other: FieldPat) -> bool
        decreases self,
    {
        &&& self.ident.same(other.ident)
        &&& self.pat.same(*other.pat)
        &&& self.is_shorthand == other.is_shorthand
        &&& same_attributes(self.attrs@, other.attrs@)
        &&& self.id == other.id
        &&& self.span == other.span
        &&& self.is_placeholder == other.is_placeholder
    }

    /// Every value holds the same contents as itself.
    pub proof fn same_as_itself(self)
        ensures
            self.same(self),
        decreases self,
    {
        self.ident.same_as_itself();
        self.pat.same_as_itself();
        attributes_same_as_themselves(self.attrs@);
    }
}

impl Clone for FieldPat {
    fn clone(&self) -> (copy: FieldPat)
        ensures
            self.same(copy),
        decreases *self,
    {
        FieldPat {
            ident: self.ident.clone(),
            pat: Box::new((*self.pat).clone()),
            is_shorthand: self.is_shorthand,
            attrs: clone_attributes(&self.attrs),
            id: self.id,
            span: self.span,
            is_placeholder: self.is_placeholder,
        }
    }
}

/// The form of a pattern.
#[derive(Debug, PartialEq)]
pub enum PatKind {
    Wild,
    Ident(BindingMode, Ident, Option<Box<Pat>>),
    Struct(Path, Vec<FieldPat>, bool),
    TupleStruct(Path, Vec<Pat>),
    Or(Vec<Pat>),
    Path(Option<QSelf>, Path),
    Tuple(Vec<Pat>),
    Box(Box<Pat>),
    Ref(Box<Pat>, Mutability),
    Lit(Box<Expr>),
    Range(Box<Expr>, Box<Expr>, Spanned<RangeEnd>),
    Slice(Vec<Pat>),
    Rest,
    Paren(Box<Pat>),
    Mac(Mac),
}

impl PatKind {
    /// Both values hold the same contents.
    pub open spec fn same(self, other: PatKind) -> bool
        decreases self,
    {
        match (self, other) {
            (PatKind::Wild, PatKind::Wild) => true,
            (PatKind::Ident(mode, ident, pat), PatKind::Ident(mode2, ident2, pat2)) => {
                &&& mode == mode2
                &&& ident.same(ident2)
                &&& match (pat, pat2) {
                    (Some(x), Some(y)) => x.same(*y),
                    (None, None) => true,
                    _ => false,
                }
            },
            (PatKind::Struct(path, fields, flag), PatKind::Struct(path2, fields2, flag2)) => {
                &&& path.same(path2)
                &&& same_field_pats(fields@, fields2@)
                &&& flag == flag2
            },
            (PatKind::TupleStruct(path, pats), PatKind::TupleStruct(path2, pats2)) => {
                &&& path.same(path2)
                &&& same_pats(pats@, pats2@)
            },
            (PatKind::Or(pats), PatKind::Or(pats2)) => same_pats(pats@, pats2@),
            (PatKind::Path(qself, path), PatKind::Path(qself2, path2)) => {
                &&& match (qself, qself2) {
                    (Some(x), Some(y)) => x.same(y),
                    (None, None) => true,
                    _ => false,
                }
                &&& path.same(path2)
            },
            (PatKind::Tuple(pats), PatKind::Tuple(pats2)) => same_pats(pats@, pats2@),
            (PatKind::Box(pat), PatKind::Box(pat2)) => pat.same(*pat2),
            (PatKind::Ref(pat, mutability), PatKind::Ref(pat2, mutability2)) => {
                &&& pat.same(*pat2)
                &&& mutability == mutability2
            },
            (PatKind::Lit(expr), PatKind::Lit(expr2)) => expr.same(*expr2),
            (PatKind::Range(left, right, end), PatKind::Range(left2, right2, end2)) => {
                &&& left.same(*left2)
                &&& right.same(*right2)
                &&& end == end2
            },
            (PatKind::Slice(pats), PatKind::Slice(pats2)) => same_pats(pats@, pats2@),
            (PatKind::Rest, PatKind::Rest) => true,
            (PatKind::Paren(pat), PatKind::Paren(pat2)) => pat.same(*pat2),
            (PatKind::Mac(mac), PatKind::Mac(mac2)) => mac.same(mac2),
            _ => false,
        }
    }

    /// Every value holds the same contents as itself.
    pub proof fn same_as_itself(self)
        ensures
            self.same(self),
        decreases self,
    {
        match self {
            PatKind::Ident(_, ident, pat) => {
                ident.same_as_itself();
                if let Some(x) = pat {
                    x.same_as_itself();
                }
            },
            PatKind::Struct(path, fields, _) => {
                path.same_as_itself();
                field_pats_same_as_themselves(fields@);
            },
            PatKind::TupleStruct(path, pats) => {
                path.same_as_itself();
                pats_same_as_themselves(pats@);
            },
            PatKind::Or(pats) => {
                pats_same_as_themselves(pats@);
            },
            PatKind::Path(qself, path) => {
                if let Some(x) = qself {
                    x.same_as_itself();
                }
                path.same_as_itself();
            },
            PatKind::Tuple(pats) => {
                pats_same_as_themselves(pats@);
            },
            PatKind::Box(pat) => {
                pat.same_as_itself();
            },
            PatKind::Ref(pat, _) => {
                pat.same_as_itself();
            },
            PatKind::Lit(expr) => {
                expr.same_as_itself();
            },
            PatKind::Range(left, right, _) => {
                left.same_as_itself();
                right.same_as_itself();
            },
            PatKind::Slice(pats) => {
                pats_same_as_themselves(pats@);
            },
            PatKind::Paren(pat) => {
                pat.same_as_itself();
            },
            PatKind::Mac(mac) => {
                mac.same_as_itself();
            },
            _ => {},
        }
    }
}

impl Clone for PatKind {
    fn clone(&self) -> (copy: PatKind)
        ensures
            self.same(copy),
        decreases *self,
    {
        match self {
            PatKind::Wild => PatKind::Wild,
            PatKind::Ident(mode, ident, pat) => PatKind::Ident(
                *mode,
                ident.clone(),
                match pat {
                    Some(x) => Some(Box::new((**x).clone())),
                    None => None,
                },
            ),
            PatKind::Struct(path, fields, flag) => PatKind::Struct(
                path.clone(),
                clone_field_pats(fields),
                *flag,
            ),
            PatKind::TupleStruct(path, pats) => PatKind::TupleStruct(
                path.clone(),
                clone_pats(pats),
            ),
            PatKind::Or(pats) => PatKind::Or(clone_pats(pats)),
            PatKind::Path(qself, path) => PatKind::Path(
                match qself {
                    Some(x) => Some(x.clone()),
                    None => None,
                },
                path.clone(),
            ),
            PatKind::Tuple(pats) => PatKind::Tuple(clone_pats(pats)),
            PatKind::Box(pat) => PatKind::Box(Box::new((**pat).clone())),
            PatKind::Ref(pat, mutability) => PatKind::Ref(Box::new((**pat).clone()), *mutability),
            PatKind::Lit(expr) => PatKind::Lit(Box::new((**expr).clone())),
            PatKind::Range(left, right, end) => PatKind::Range(
                Box::new((**left).clone()),
                Box::new((**right).clone()),
                *end,
            ),
            PatKind::Slice(pats) => PatKind::Slice(clone_pats(pats)),
            PatKind::Rest => PatKind::Rest,
            PatKind::Paren(pat) => PatKind::Paren(Box::new((**pat).clone())),
            PatKind::Mac(mac) => PatKind::Mac(mac.clone()),
        }
    }
}

/// A pattern.
#[derive(Debug, PartialEq)]
pub struct Pat {
    pub id: NodeId,
    pub kind: PatKind,
    pub span: Span,
}

impl Pat {
    /// Both values hold the same contents.
    pub open spec fn same(self, other: Pat) -> bool
        decreases self,
    {
        &&& self.id == other.id
        &&& self.kind.same(other.kind)
        &&& self.span == other.span
    }

    /// Every value holds the same contents as itself.
    pub proof fn same_as_itself(self)
        ensures
            self.same(self),
        decreases self,
    {
        self.kind.same_as_itself();
    }
}

impl Clone for Pat {
    fn clone(&self) -> (copy: Pat)
        ensures
            self.same(copy),
        decreases *self,
    {
        Pat {
            id: self.id,
            kind: self.kind.clone(),
            span: self.span,
        }
    }
}

/// Both lists hold the same patterns in the same order.
pub open spec fn same_pats(list: Seq<Pat>, other: Seq<Pat>) -> bool
    decreases list,
{
    &&& list.len() == other.len()
    &&& forall|i: int| 0 <= i < list.len() ==> (#[trigger] list[i]).same(other[i])
}

/// Every list of patterns is the same as itself.
pub proof fn pats_same_as_themselves(list: Seq<Pat>)
    ensures
        same_pats(list, list),
    decreases list,
{
    assert forall|i: int| 0 <= i < list.len() implies (#[trigger] list[i]).same(list[i]) by {
        list[i].same_as_itself();
    }
}

/// A copy of a list of patterns.
pub fn clone_pats(list: &Vec<Pat>) -> (copy: Vec<Pat>)
    ensures
        same_pats(list@, copy@),
    decreases *list,
{
    let mut copy: Vec<Pat> = Vec::new();
    let mut i: usize = 0;
    while i < list.len()
        invariant
            i <= list@.len(),
            copy@.len() == i,
            forall|j: int| 0 <= j < i ==> (#[trigger] list@[j]).same(copy@[j]),
        decreases list@.len() - i,
    {
        copy.push(list[i].clone());
        i += 1;
    }
    copy
}

/// Both lists hold the same field patterns in the same order.
pub open spec fn same_field_pats(list: Seq<FieldPat>, other: Seq<FieldPat>) -> bool
    decreases list,
{
    &&& list.len() == other.len()
    &&& forall|i: int| 0 <= i < list.len() ==> (#[trigger] list[i]).same(other[i])
}

/// Every list of field patterns is the same as itself.
pub proof fn field_pats_same_as_themselves(list: Seq<FieldPat>)
    ensures
        same_field_pats(list, list),
    decreases list,
{
    assert forall|i: int| 0 <= i < list.len() implies (#[trigger] list[i]).same(list[i]) by {
        list[i].same_as_itself();
    }
}

/// A copy of a list of field patterns.
pub fn clone_field_pats(list: &Vec<FieldPat>) -> (copy: Vec<FieldPat>)
    ensures
        same_field_pats(list@, copy@),
    decreases *list,
{
    let mut copy: Vec<FieldPat> = Vec::new();
    let mut i: usize = 0;
    while i < list.len()
        invariant
            i <= list@.len(),
            copy@.len() == i,
            forall|j: int| 0 <= j < i ==> (#[trigger] list@[j]).same(copy@[j]),
        decreases list@.len() - i,
    {
        copy.push(list[i].clone());
        i += 1;
    }
    copy
}

} // verus!
