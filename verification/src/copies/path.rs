//! Copies of paths.

use vstd::prelude::*;

use crate::ast::path::{
    AngleBracketedArgs, AssocTyConstraint, AssocTyConstraintKind, GenericArg, GenericArgs,
    ParenthesizedArgs, Path, PathSegment, QSelf,
};

verus! {

/// A copy of a path agrees with it in every field.
pub proof fn copied_path_agrees(node: Path, copy: Path)
    requires
        node.same(copy),
    ensures
        node.span == copy.span,
        node.segments@.len() == copy.segments@.len() && (
            forall|i: int| 0 <= i < node.segments@.len() ==> (#[trigger] node.segments@[i]).same(
                copy.segments@[i],
            )
        ),
{
}

/// A copy of a path segment agrees with it in every field.
pub proof fn copied_segment_agrees(node: PathSegment, copy: PathSegment)
    requires
        node.same(copy),
    ensures
        node.ident.same(copy.ident),
        node.id == copy.id,
        match (node.args, copy.args) {
            (Some(x), Some(y)) => x.same(*y),
            (None, None) => true,
            _ => false,
        },
{
}

/// A copy of generic arguments agrees with it in every field.
pub proof fn copied_generic_args_agrees(node: GenericArgs, copy: GenericArgs)
    requires
        node.same(copy),
    ensures
        match (node, copy) {
            (GenericArgs::AngleBracketed(args), GenericArgs::AngleBracketed(args2)) => {
                &&& args.same(args2)
            },
            (GenericArgs::Parenthesized(args), GenericArgs::Parenthesized(args2)) => {
                &&& args.same(args2)
            },
            _ => false,
        },
{
}

/// A copy of a generic argument agrees with it in every field.
pub proof fn copied_generic_arg_agrees(node: GenericArg, copy: GenericArg)
    requires
        node.same(copy),
    ensures
        match (node, copy) {
            (GenericArg::Lifetime(lifetime), GenericArg::Lifetime(lifetime2)) => {
                &&& lifetime.same(lifetime2)
            },
            (GenericArg::Type(ty), GenericArg::Type(ty2)) => {
                &&& ty.same(*ty2)
            },
            (GenericArg::Const(constant), GenericArg::Const(constant2)) => {
                &&& constant.same(constant2)
            },
            _ => false,
        },
{
}

/// A copy of arguments between angle brackets agrees with it in every field.
pub proof fn copied_angle_bracketed_args_agrees(node: AngleBracketedArgs, copy: AngleBracketedArgs)
    requires
        node.same(copy),
    ensures
        node.span == copy.span,
        node.args@.len() == copy.args@.len() && (
            forall|i: int| 0 <= i < node.args@.len() ==> (#[trigger] node.args@[i]).same(
                copy.args@[i],
            )
        ),
        node.constraints@.len() == copy.constraints@.len() && (
            forall|i: int|
                0 <= i < node.constraints@.len() ==>
                    (#[trigger] node.constraints@[i]).same(copy.constraints@[i])
        ),
{
}

/// A copy of arguments between round brackets agrees with it in every field.
pub proof fn copied_parenthesized_args_agrees(node: ParenthesizedArgs, copy: ParenthesizedArgs)
    requires
        node.same(copy),
    ensures
        node.span == copy.span,
        node.inputs@.len() == copy.inputs@.len() && (
            forall|i: int| 0 <= i < node.inputs@.len() ==> (#[trigger] node.inputs@[i]).same(
                copy.inputs@[i],
            )
        ),
        match (node.output, copy.output) {
            (Some(x), Some(y)) => x.same(*y),
            (None, None) => true,
            _ => false,
        },
{
}

/// A copy of a constraint agrees with it in every field.
pub proof fn copied_constraint_agrees(node: AssocTyConstraint, copy: AssocTyConstraint)
    requires
        node.same(copy),
    ensures
        node.id == copy.id,
        node.ident.same(copy.ident),
        node.kind.same(copy.kind),
        node.span == copy.span,
{
}

/// A copy of the form of a constraint agrees with it in every field.
pub proof fn copied_constraint_kind_agrees(node: AssocTyConstraintKind, copy: AssocTyConstraintKind)
    requires
        node.same(copy),
    ensures
        match (node, copy) {
            (
                AssocTyConstraintKind::Equality { ty },
                AssocTyConstraintKind::Equality { ty: ty2 },
            ) => {
                &&& ty.same(*ty2)
            },
            (
                AssocTyConstraintKind::Bound { bounds },
                AssocTyConstraintKind::Bound { bounds: bounds2 },
            ) => {
                &&& bounds@.len() == bounds2@.len() && (
                    forall|i: int| 0 <= i < bounds@.len() ==> (#[trigger] bounds@[i]).same(
                        bounds2@[i],
                    )
                )
            },
            _ => false,
        },
{
}

/// A copy of an explicit self type agrees with it in every field.
pub proof fn copied_q_self_agrees(node: QSelf, copy: QSelf)
    requires
        node.same(copy),
    ensures
        node.ty.same(*copy.ty),
        node.path_span == copy.path_span,
        node.position == copy.position,
{
}

} // verus!
