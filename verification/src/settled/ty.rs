//! Parentheses in types.

use vstd::prelude::*;

use crate::ast::ty::{BareFnTy, MutTy, Ty, TyKind};
use crate::settled::generics::{settled_bounds, settled_generic_params};

verus! {

impl MutTy {
    /// All parentheses in it have the ids of what stands between them.
    pub open spec fn settled(self) -> bool
        decreases self,
    {
        self.ty.settled()
    }
}

impl BareFnTy {
    /// All parentheses in it have the ids of what stands between them.
    pub open spec fn settled(self) -> bool
        decreases self,
    {
        &&& settled_generic_params(self.generic_params@)
        &&& self.decl.settled()
    }
}

impl TyKind {
    /// All parentheses in it have the ids of what stands between them.
    pub open spec fn settled(self) -> bool
        decreases self,
    {
        match self {
            TyKind::Slice(ty) => ty.settled(),
            TyKind::Array(ty, constant) => {
                &&& ty.settled()
                &&& constant.settled()
            },
            TyKind::Ptr(mut_ty) => mut_ty.settled(),
            TyKind::Rptr(_, mut_ty) => mut_ty.settled(),
            TyKind::BareFn(bare_fn) => bare_fn.settled(),
            TyKind::Tup(tys) => settled_tys(tys@),
            TyKind::Path(qself, path) => {
                &&& (qself matches Some(x) ==> x.settled())
                &&& path.settled()
            },
            TyKind::TraitObject(bounds, _) => settled_bounds(bounds@),
            TyKind::ImplTrait(_, bounds) => settled_bounds(bounds@),
            TyKind::Paren(ty) => ty.settled(),
            TyKind::Typeof(constant) => constant.settled(),
            _ => true,
        }
    }
}

impl Ty {
    /// All parentheses in it have the ids of what stands between them.
    pub open spec fn settled(self) -> bool
        decreases self,
    {
        self.kind.settled()
    }
}

/// All parentheses in a list of types have the ids of what stands between them.
pub open spec fn settled_tys(list: Seq<Ty>) -> bool
    decreases list,
{
    forall|i: int| 0 <= i < list.len() ==> (#[trigger] list[i]).settled()
}

} // verus!
