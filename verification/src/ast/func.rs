//! Function signatures.

use vstd::prelude::*;

use crate::ast::attr::{Attribute, attributes_same_as_themselves, clone_attributes, same_attributes};
use crate::ast::flags::FnHeader;
use crate::ast::ident::NodeId;
use crate::ast::pat::Pat;
use crate::ast::span::Span;
use crate::ast::ty::Ty;

verus! {

/// A function parameter.
#[derive(Debug, PartialEq)]
pub struct Param {
    pub attrs: Vec<Attribute>,
    pub ty: Box<Ty>,
    pub pat: Box<Pat>,
    pub id: NodeId,
    pub span: Span,
    pub is_placeholder: bool,
}

impl Param {
    /// Both values hold the same contents.
    pub open spec fn same(self, other: Param) -> bool
        decreases self,
    {
        &&& same_attributes(self.attrs@, other.attrs@)
        &&& self.ty.same(*other.ty)
        &&& self.pat.same(*other.pat)
        &&& self.id == other.id
        &&& self.span == other.span
        &&& self.is_placeholder == other.is_placeholder
    }

    /// Every value holds the same contents as itself.
    pub proof fn same_as_itself(self)
        ensures
            self.same(self),
        decreases self,
    {
        attributes_same_as_themselves(self.attrs@);
        self.ty.same_as_itself();
        self.pat.same_as_itself();
    }
}

impl Clone for Param {
    fn clone(&self) -> (copy: Param)
        ensures
            self.same(copy),
        decreases *self,
    {
        Param {
            attrs: clone_attributes(&self.attrs),
            ty: Box::new((*self.ty).clone()),
            pat: Box::new((*self.pat).clone()),
            id: self.id,
            span: self.span,
            is_placeholder: self.is_placeholder,
        }
    }
}

/// The return type of a function.
#[derive(Debug, PartialEq)]
pub enum FunctionRetTy {
    /// No type is written.
    Default(Span),
    Ty(Box<Ty>),
}

impl FunctionRetTy {
    /// Both values hold the same contents.
    pub open spec fn same(self, other: FunctionRetTy) -> bool
        decreases self,
    {
        match (self, other) {
            (FunctionRetTy::Default(span), FunctionRetTy::Default(span2)) => span == span2,
            (FunctionRetTy::Ty(ty), FunctionRetTy::Ty(ty2)) => ty.same(*ty2),
            _ => false,
        }
    }

    /// Every value holds the same contents as itself.
    pub proof fn same_as_itself(self)
        ensures
            self.same(self),
        decreases self,
    {
        match self {
            FunctionRetTy::Ty(ty) => {
                ty.same_as_itself();
            },
            _ => {},
        }
    }
}

impl Clone for FunctionRetTy {
    fn clone(&self) -> (copy: FunctionRetTy)
        ensures
            self.same(copy),
        decreases *self,
    {
        match self {
            FunctionRetTy::Default(span) => FunctionRetTy::Default(*span),
            FunctionRetTy::Ty(ty) => FunctionRetTy::Ty(Box::new((**ty).clone())),
        }
    }
}

/// The parameters and the return type of a function.
#[derive(Debug, PartialEq)]
pub struct FnDecl {
    pub inputs: Vec<Param>,
    pub output: FunctionRetTy,
}

impl FnDecl {
    /// Both values hold the same contents.
    pub open spec fn same(self, other: FnDecl) -> bool
        decreases self,
    {
        &&& same_params(self.inputs@, other.inputs@)
        &&& self.output.same(other.output)
    }

    /// Every value holds the same contents as itself.
    pub proof fn same_as_itself(self)
        ensures
            self.same(self),
        decreases self,
    {
        params_same_as_themselves(self.inputs@);
        self.output.same_as_itself();
    }
}

impl Clone for FnDecl {
    fn clone(&self) -> (copy: FnDecl)
        ensures
            self.same(copy),
        decreases *self,
    {
        FnDecl {
            inputs: clone_params(&self.inputs),
            output: self.output.clone(),
        }
    }
}

/// The signature of a method.
#[derive(Debug, PartialEq)]
pub struct MethodSig {
    pub header: FnHeader,
    pub decl: Box<FnDecl>,
}

impl MethodSig {
    /// Both values hold the same contents.
    pub open spec fn same(self, other: MethodSig) -> bool
        decreases self,
    {
        &&& self.header == other.header
        &&& self.decl.same(*other.decl)
    }

    /// Every value holds the same contents as itself.
    pub proof fn same_as_itself(self)
        ensures
            self.same(self),
        decreases self,
    {
        self.decl.same_as_itself();
    }
}

impl Clone for MethodSig {
    fn clone(&self) -> (copy: MethodSig)
        ensures
            self.same(copy),
        decreases *self,
    {
        MethodSig {
            header: self.header,
            decl: Box::new((*self.decl).clone()),
        }
    }
}

/// Both lists hold the same parameters in the same order.
pub open spec fn same_params(list: Seq<Param>, other: Seq<Param>) -> bool
    decreases list,
{
    &&& list.len() == other.len()
    &&& forall|i: int| 0 <= i < list.len() ==> (#[trigger] list[i]).same(other[i])
}

/// Every list of parameters is the same as itself.
pub proof fn params_same_as_themselves(list: Seq<Param>)
    ensures
        same_params(list, list),
    decreases list,
{
    assert forall|i: int| 0 <= i < list.len() implies (#[trigger] list[i]).same(list[i]) by {
        list[i].same_as_itself();
    }
}

/// A copy of a list of parameters.
pub fn clone_params(list: &Vec<Param>) -> (copy: Vec<Param>)
    ensures
        same_params(list@, copy@),
    decreases *list,
{
    let mut copy: Vec<Param> = Vec::new();
    let mut i: usize = 0;
    while i < list.len()
        invariant
            i <= list@.len(),
            copy@.len() == i,
            forall|j: int| 0 <= j < i ==> (#[trigger] list@[j]).same(copy@[j]),
        decreases list@.len() - i,
    {
        copy.push(list[i].clone());
        i += 1;
    }
    copy
}

} // verus!
