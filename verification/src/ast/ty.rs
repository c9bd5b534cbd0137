//! Types.

use vstd::prelude::*;

use crate::ast::attr::Mac;
use crate::ast::expr::AnonConst;
use crate::ast::flags::{Abi, Mutability, TraitObjectSyntax, Unsafety};
use crate::ast::func::FnDecl;
use crate::ast::generics::{
    GenericBound, GenericParam, bounds_same_as_themselves, clone_bounds, clone_generic_params,
    generic_params_same_as_themselves, same_bounds, same_generic_params,
};
use crate::ast::ident::{Lifetime, NodeId};
use crate::ast::path::{Path, QSelf};
use crate::ast::span::Span;

verus! {

/// A type behind a pointer or a reference.
#[derive(Debug, PartialEq)]
pub struct MutTy {
    pub ty: Box<Ty>,
    pub mutbl: Mutability,
}

impl MutTy {
    /// Both values hold the same contents.
    pub open spec fn same(self, other: MutTy) -> bool
        decreases self,
    {
        &&& self.ty.same(*other.ty)
        &&& self.mutbl == other.mutbl
    }

    /// Every value holds the same contents as itself.
    pub proof fn same_as_itself(self)
        ensures
            self.same(self),
        decreases self,
    {
        self.ty.same_as_itself();
    }
}

impl Clone for MutTy {
    fn clone(&self) -> (copy: MutTy)
        ensures
            self.same(copy),
        decreases *self,
    {
        MutTy {
            ty: Box::new((*self.ty).clone()),
            mutbl: self.mutbl,
        }
    }
}

/// A function pointer type.
#[derive(Debug, PartialEq)]
pub struct BareFnTy {
    pub unsafety: Unsafety,
    pub abi: Abi,
    pub generic_params: Vec<GenericParam>,
    pub decl: Box<FnDecl>,
}

impl BareFnTy {
    /// Both values hold the same contents.
    pub open spec fn same(self, other: BareFnTy) -> bool
        decreases self,
    {
        &&& self.unsafety == other.unsafety
        &&& self.abi == other.abi
        &&& same_generic_params(self.generic_params@, other.generic_params@)
        &&& self.decl.same(*other.decl)
    }

    /// Every value holds the same contents as itself.
    pub proof fn same_as_itself(self)
        ensures
            self.same(self),
        decreases self,
    {
        generic_params_same_as_themselves(self.generic_params@);
        self.decl.same_as_itself();
    }
}

impl Clone for BareFnTy {
    fn clone(&self) -> (copy: BareFnTy)
        ensures
            self.same(copy),
        decreases *self,
    {
        BareFnTy {
            unsafety: self.unsafety,
            abi: self.abi,
            generic_params: clone_generic_params(&self.generic_params),
            decl: Box::new((*self.decl).clone()),
        }
    }
}

/// The form of a type.
#[derive(Debug, PartialEq)]
pub enum TyKind {
    Slice(Box<Ty>),
    Array(Box<Ty>, AnonConst),
    Ptr(MutTy),
    Rptr(Option<Lifetime>, MutTy),
    BareFn(Box<BareFnTy>),
    Never,
    Tup(Vec<Ty>),
    Path(Option<QSelf>, Path),
    TraitObject(Vec<GenericBound>, TraitObjectSyntax),
    ImplTrait(NodeId, Vec<GenericBound>),
    Paren(Box<Ty>),
    Typeof(AnonConst),
    Infer,
    ImplicitSelf,
    Mac(Mac),
    /// A type that could not be parsed.
    Invalid,
    CVarArgs,
}

impl TyKind {
    /// Both values hold the same contents.
    pub open spec fn same(self, other: TyKind) -> bool
        decreases self,
    {
        match (self, other) {
            (TyKind::Slice(ty), TyKind::Slice(ty2)) => ty.same(*ty2),
            (TyKind::Array(ty, constant), TyKind::Array(ty2, constant2)) => {
                &&& ty.same(*ty2)
                &&& constant.same(constant2)
            },
            (TyKind::Ptr(mut_ty), TyKind::Ptr(mut_ty2)) => mut_ty.same(mut_ty2),
            (TyKind::Rptr(lifetime, mut_ty), TyKind::Rptr(lifetime2, mut_ty2)) => {
                &&& match (lifetime, lifetime2) {
                    (Some(x), Some(y)) => x.same(y),
                    (None, None) => true,
                    _ => false,
                }
                &&& mut_ty.same(mut_ty2)
            },
            (TyKind::BareFn(bare_fn), TyKind::BareFn(bare_fn2)) => bare_fn.same(*bare_fn2),
            (TyKind::Never, TyKind::Never) => true,
            (TyKind::Tup(tys), TyKind::Tup(tys2)) => same_tys(tys@, tys2@),
            (TyKind::Path(qself, path), TyKind::Path(qself2, path2)) => {
                &&& match (qself, qself2) {
                    (Some(x), Some(y)) => x.same(y),
                    (None, None) => true,
                    _ => false,
                }
                &&& path.same(path2)
            },
            (TyKind::TraitObject(bounds, syntax), TyKind::TraitObject(bounds2, syntax2)) => {
                &&& same_bounds(bounds@, bounds2@)
                &&& syntax == syntax2
            },
            (TyKind::ImplTrait(id, bounds), TyKind::ImplTrait(id2, bounds2)) => {
                &&& id == id2
                &&& same_bounds(bounds@, bounds2@)
            },
            (TyKind::Paren(ty), TyKind::Paren(ty2)) => ty.same(*ty2),
            (TyKind::Typeof(constant), TyKind::Typeof(constant2)) => constant.same(constant2),
            (TyKind::Infer, TyKind::Infer) => true,
            (TyKind::ImplicitSelf, TyKind::ImplicitSelf) => true,
            (TyKind::Mac(mac), TyKind::Mac(mac2)) => mac.same(mac2),
            (TyKind::Invalid, TyKind::Invalid) => true,
            (TyKind::CVarArgs, TyKind::CVarArgs) => true,
            _ => false,
        }
    }

    /// Every value holds the same contents as itself.
    pub proof fn same_as_itself(self)
        ensures
            self.same(self),
        decreases self,
    {
        match self {
            TyKind::Slice(ty) => {
                ty.same_as_itself();
            },
            TyKind::Array(ty, constant) => {
                ty.same_as_itself();
                constant.same_as_itself();
            },
            TyKind::Ptr(mut_ty) => {
                mut_ty.same_as_itself();
            },
            TyKind::Rptr(lifetime, mut_ty) => {
                if let Some(x) = lifetime {
                    x.same_as_itself();
                }
                mut_ty.same_as_itself();
            },
            TyKind::BareFn(bare_fn) => {
                bare_fn.same_as_itself();
            },
            TyKind::Tup(tys) => {
                tys_same_as_themselves(tys@);
            },
            TyKind::Path(qself, path) => {
                if let Some(x) = qself {
                    x.same_as_itself();
                }
                path.same_as_itself();
            },
            TyKind::TraitObject(bounds, _) => {
                bounds_same_as_themselves(bounds@);
            },
            TyKind::ImplTrait(_, bounds) => {
                bounds_same_as_themselves(bounds@);
            },
            TyKind::Paren(ty) => {
                ty.same_as_itself();
            },
            TyKind::Typeof(constant) => {
                constant.same_as_itself();
            },
            TyKind::Mac(mac) => {
                mac.same_as_itself();
            },
            _ => {},
        }
    }
}

impl Clone for TyKind {
    fn clone(&self) -> (copy: TyKind)
        ensures
            self.same(copy),
        decreases *self,
    {
        match self {
            TyKind::Slice(ty) => TyKind::Slice(Box::new((**ty).clone())),
            TyKind::Array(ty, constant) => TyKind::Array(
                Box::new((**ty).clone()),
                constant.clone(),
            ),
            TyKind::Ptr(mut_ty) => TyKind::Ptr(mut_ty.clone()),
            TyKind::Rptr(lifetime, mut_ty) => TyKind::Rptr(
                match lifetime {
                    Some(x) => Some(x.clone()),
                    None => None,
                },
                mut_ty.clone(),
            ),
            TyKind::BareFn(bare_fn) => TyKind::BareFn(Box::new((**bare_fn).clone())),
            TyKind::Never => TyKind::Never,
            TyKind::Tup(tys) => TyKind::Tup(clone_tys(tys)),
            TyKind::Path(qself, path) => TyKind::Path(
                match qself {
                    Some(x) => Some(x.clone()),
                    None => None,
                },
                path.clone(),
            ),
            TyKind::TraitObject(bounds, syntax) => TyKind::TraitObject(
                clone_bounds(bounds),
                *syntax,
            ),
            TyKind::ImplTrait(id, bounds) => TyKind::ImplTrait(*id, clone_bounds(bounds)),
            TyKind::Paren(ty) => TyKind::Paren(Box::new((**ty).clone())),
            TyKind::Typeof(constant) => TyKind::Typeof(constant.clone()),
            TyKind::Infer => TyKind::Infer,
            TyKind::ImplicitSelf => TyKind::ImplicitSelf,
            TyKind::Mac(mac) => TyKind::Mac(mac.clone()),
            TyKind::Invalid => TyKind::Invalid,
            TyKind::CVarArgs => TyKind::CVarArgs,
        }
    }
}

/// A type.
#[derive(Debug, PartialEq)]
pub struct Ty {
    pub id: NodeId,
    pub kind: TyKind,
    pub span: Span,
}

impl Ty {
    /// Both values hold the same contents.
    pub open spec fn same(self, other: Ty) -> bool
        decreases self,
    {
        &&& self.id == other.id
        &&& self.kind.same(other.kind)
        &&& self.span == other.span
    }

    /// Every value holds the same contents as itself.
    pub proof fn same_as_itself(self)
        ensures
            self.same(self),
        decreases self,
    {
        self.kind.same_as_itself();
    }
}

impl Clone for Ty {
    fn clone(&self) -> (copy: Ty)
        ensures
            self.same(copy),
        decreases *self,
    {
        Ty {
            id: self.id,
            kind: self.kind.clone(),
            span: self.span,
        }
    }
}

/// Both lists hold the same types in the same order.
pub open spec fn same_tys(list: Seq<Ty>, other: Seq<Ty>) -> bool
    decreases list,
{
    &&& list.len() == other.len()
    &&& forall|i: int| 0 <= i < list.len() ==> (#[trigger] list[i]).same(other[i])
}

/// Every list of types is the same as itself.
pub proof fn tys_same_as_themselves(list: Seq<Ty>)
    ensures
        same_tys(list, list),
    decreases list,
{
    assert forall|i: int| 0 <= i < list.len() implies (#[trigger] list[i]).same(list[i]) by {
        list[i].same_as_itself();
    }
}

/// A copy of a list of types.
pub fn clone_tys(list: &Vec<Ty>) -> (copy: Vec<Ty>)
    ensures
        same_tys(list@, copy@),
    decreases *list,
{
    let mut copy: Vec<Ty> = Vec::new();
    let mut i: usize = 0;
    while i < list.len()
        invariant
            i <= list@.len(),
            copy@.len() == i,
            forall|j: int| 0 <= j < i ==> (#[trigger] list@[j]).same(copy@[j]),
        decreases list@.len() - i,
    {
        copy.push(list[i].clone());
        i += 1;
    }
    copy
}

} // verus!
