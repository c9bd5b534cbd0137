//! Copies of function signatures.

use vstd::prelude::*;

use crate::ast::func::{FnDecl, FunctionRetTy, MethodSig, Param};

verus! {

/// A copy of a parameter agrees with it in every field.
pub proof fn copied_param_agrees(node: Param, copy: Param)
    requires
        node.same(copy),
    ensures
        node.attrs@.len() == copy.attrs@.len() && (
            forall|i: int| 0 <= i < node.attrs@.len() ==> (#[trigger] node.attrs@[i]).same(
                copy.attrs@[i],
            )
        ),
        node.ty.same(*copy.ty),
        node.pat.same(*copy.pat),
        node.id == copy.id,
        node.span == copy.span,
        node.is_placeholder == copy.is_placeholder,
{
}

/// A copy of a return type agrees with it in every field.
pub proof fn copied_return_ty_agrees(node: FunctionRetTy, copy: FunctionRetTy)
    requires
        node.same(copy),
    ensures
        match (node, copy) {
            (FunctionRetTy::Default(span), FunctionRetTy::Default(span2)) => {
                &&& span == span2
            },
            (FunctionRetTy::Ty(ty), FunctionRetTy::Ty(ty2)) => {
                &&& ty.same(*ty2)
            },
            _ => false,
        },
{
}

/// A copy of a function declaration agrees with it in every field.
pub proof fn copied_fn_decl_agrees(node: FnDecl, copy: FnDecl)
    requires
        node.same(copy),
    ensures
        node.inputs@.len() == copy.inputs@.len() && (
            forall|i: int| 0 <= i < node.inputs@.len() ==> (#[trigger] node.inputs@[i]).same(
                copy.inputs@[i],
            )
        ),
        node.output.same(copy.output),
{
}

/// A copy of a method signature agrees with it in every field.
pub proof fn copied_method_sig_agrees(node: MethodSig, copy: MethodSig)
    requires
        node.same(copy),
    ensures
        node.header == copy.header,
        node.decl.same(*copy.decl),
{
}

} // verus!
