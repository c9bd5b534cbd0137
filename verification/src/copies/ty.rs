//! Copies of types.

use vstd::prelude::*;

use crate::ast::ty::{BareFnTy, MutTy, Ty, TyKind};

verus! {

/// A copy of a type behind a pointer agrees with it in every field.
pub proof fn copied_mut_ty_agrees(node: MutTy, copy: MutTy)
    requires
        node.same(copy),
    ensures
        node.ty.same(*copy.ty),
        node.mutbl == copy.mutbl,
{
}

/// A copy of a function pointer type agrees with it in every field.
pub proof fn copied_bare_fn_agrees(node: BareFnTy, copy: BareFnTy)
    requires
        node.same(copy),
    ensures
        node.unsafety == copy.unsafety,
        node.abi == copy.abi,
        node.generic_params@.len() == copy.generic_params@.len() && (
            forall|i: int|
                0 <= i < node.generic_params@.len() ==>
                    (#[trigger] node.generic_params@[i]).same(copy.generic_params@[i])
        ),
        node.decl.same(*copy.decl),
{
}

/// A copy of the form of a type agrees with it in every field.
pub proof fn copied_ty_kind_agrees(node: TyKind, copy: TyKind)
    requires
        node.same(copy),
    ensures
        match (node, copy) {
            (TyKind::Slice(ty), TyKind::Slice(ty2)) => {
                &&& ty.same(*ty2)
            },
            (TyKind::Array(ty, constant), TyKind::Array(ty2, constant2)) => {
                &&& ty.same(*ty2)
                &&& constant.same(constant2)
            },
            (TyKind::Ptr(mut_ty), TyKind::Ptr(mut_ty2)) => {
                &&& mut_ty.same(mut_ty2)
            },
            (TyKind::Rptr(lifetime, mut_ty), TyKind::Rptr(lifetime2, mut_ty2)) => {
                &&& match (lifetime, lifetime2) {
                    (Some(x), Some(y)) => x.same(y),
                    (None, None) => true,
                    _ => false,
                }
                &&& mut_ty.same(mut_ty2)
            },
            (TyKind::BareFn(bare_fn), TyKind::BareFn(bare_fn2)) => {
                &&& bare_fn.same(*bare_fn2)
            },
            (TyKind::Never, TyKind::Never) => true,
            (TyKind::Tup(tys), TyKind::Tup(tys2)) => {
                &&& tys@.len() == tys2@.len() && (
                    forall|i: int| 0 <= i < tys@.len() ==> (#[trigger] tys@[i]).same(tys2@[i])
                )
            },
            (TyKind::Path(qself, path), TyKind::Path(qself2, path2)) => {
                &&& match (qself, qself2) {
                    (Some(x), Some(y)) => x.same(y),
                    (None, None) => true,
                    _ => false,
                }
                &&& path.same(path2)
            },
            (TyKind::TraitObject(bounds, syntax), TyKind::TraitObject(bounds2, syntax2)) => {
                &&& bounds@.len() == bounds2@.len() && (
                    forall|i: int| 0 <= i < bounds@.len() ==> (#[trigger] bounds@[i]).same(
                        bounds2@[i],
                    )
                )
                &&& syntax == syntax2
            },
            (TyKind::ImplTrait(id, bounds), TyKind::ImplTrait(id2, bounds2)) => {
                &&& id == id2
                &&& bounds@.len() == bounds2@.len() && (
                    forall|i: int| 0 <= i < bounds@.len() ==> (#[trigger] bounds@[i]).same(
                        bounds2@[i],
                    )
                )
            },
            (TyKind::Paren(ty), TyKind::Paren(ty2)) => {
                &&& ty.same(*ty2)
            },
            (TyKind::Typeof(constant), TyKind::Typeof(constant2)) => {
                &&& constant.same(constant2)
            },
            (TyKind::Infer, TyKind::Infer) => true,
            (TyKind::ImplicitSelf, TyKind::ImplicitSelf) => true,
            (TyKind::Mac(mac), TyKind::Mac(mac2)) => {
                &&& mac.same(mac2)
            },
            (TyKind::Invalid, TyKind::Invalid) => true,
            (TyKind::CVarArgs, TyKind::CVarArgs) => true,
            _ => false,
        },
{
}

/// A copy of a type agrees with it in every field.
pub proof fn copied_ty_agrees(node: Ty, copy: Ty)
    requires
        node.same(copy),
    ensures
        node.id == copy.id,
        node.kind.same(copy.kind),
        node.span == copy.span,
{
}

} // verus!
