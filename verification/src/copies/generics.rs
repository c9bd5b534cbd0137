//! Copies of generic parameters and bounds.

use vstd::prelude::*;

use crate::ast::generics::{
    GenericBound, GenericParam, GenericParamKind, Generics, PolyTraitRef, TraitRef,
    WhereBoundPredicate, WhereClause, WhereEqPredicate, WherePredicate, WhereRegionPredicate,
};

verus! {

/// A copy of a bound agrees with it in every field.
pub proof fn copied_bound_agrees(node: GenericBound, copy: GenericBound)
    requires
        node.same(copy),
    ensures
        match (node, copy) {
            (
                GenericBound::Trait(trait_ref, modifier),
                GenericBound::Trait(trait_ref2, modifier2),
            ) => {
                &&& trait_ref.same(trait_ref2)
                &&& modifier == modifier2
            },
            (GenericBound::Outlives(lifetime), GenericBound::Outlives(lifetime2)) => {
                &&& lifetime.same(lifetime2)
            },
            _ => false,
        },
{
}

/// A copy of a trait reference agrees with it in every field.
pub proof fn copied_trait_ref_agrees(node: TraitRef, copy: TraitRef)
    requires
        node.same(copy),
    ensures
        node.path.same(copy.path),
        node.ref_id == copy.ref_id,
{
}

/// A copy of a trait reference under `for` agrees with it in every field.
pub proof fn copied_poly_trait_ref_agrees(node: PolyTraitRef, copy: PolyTraitRef)
    requires
        node.same(copy),
    ensures
        node.bound_generic_params@.len() == copy.bound_generic_params@.len() && (
            forall|i: int|
                0 <= i < node.bound_generic_params@.len() ==>
                    (#[trigger] node.bound_generic_params@[i]).same(copy.bound_generic_params@[i])
        ),
        node.trait_ref.same(copy.trait_ref),
        node.span == copy.span,
{
}

/// A copy of the form of a generic parameter agrees with it in every field.
pub proof fn copied_generic_param_kind_agrees(node: GenericParamKind, copy: GenericParamKind)
    requires
        node.same(copy),
    ensures
        match (node, copy) {
            (GenericParamKind::Lifetime, GenericParamKind::Lifetime) => true,
            (GenericParamKind::Type { default }, GenericParamKind::Type { default: default2 }) => {
                &&& match (default, default2) {
                    (Some(x), Some(y)) => x.same(*y),
                    (None, None) => true,
                    _ => false,
                }
            },
            (GenericParamKind::Const { ty }, GenericParamKind::Const { ty: ty2 }) => {
                &&& ty.same(*ty2)
            },
            _ => false,
        },
{
}

/// A copy of a generic parameter agrees with it in every field.
pub proof fn copied_generic_param_agrees(node: GenericParam, copy: GenericParam)
    requires
        node.same(copy),
    ensures
        node.id == copy.id,
        node.ident.same(copy.ident),
        node.attrs@.len() == copy.attrs@.len() && (
            forall|i: int| 0 <= i < node.attrs@.len() ==> (#[trigger] node.attrs@[i]).same(
                copy.attrs@[i],
            )
        ),
        node.bounds@.len() == copy.bounds@.len() && (
            forall|i: int| 0 <= i < node.bounds@.len() ==> (#[trigger] node.bounds@[i]).same(
                copy.bounds@[i],
            )
        ),
        node.is_placeholder == copy.is_placeholder,
        node.kind.same(copy.kind),
{
}

/// A copy of a bound predicate agrees with it in every field.
pub proof fn copied_bound_predicate_agrees(node: WhereBoundPredicate, copy: WhereBoundPredicate)
    requires
        node.same(copy),
    ensures
        node.span == copy.span,
        node.bound_generic_params@.len() == copy.bound_generic_params@.len() && (
            forall|i: int|
                0 <= i < node.bound_generic_params@.len() ==>
                    (#[trigger] node.bound_generic_params@[i]).same(copy.bound_generic_params@[i])
        ),
        node.bounded_ty.same(*copy.bounded_ty),
        node.bounds@.len() == copy.bounds@.len() && (
            forall|i: int| 0 <= i < node.bounds@.len() ==> (#[trigger] node.bounds@[i]).same(
                copy.bounds@[i],
            )
        ),
{
}

/// A copy of a lifetime predicate agrees with it in every field.
pub proof fn copied_region_predicate_agrees(node: WhereRegionPredicate, copy: WhereRegionPredicate)
    requires
        node.same(copy),
    ensures
        node.span == copy.span,
        node.lifetime.same(copy.lifetime),
        node.bounds@.len() == copy.bounds@.len() && (
            forall|i: int| 0 <= i < node.bounds@.len() ==> (#[trigger] node.bounds@[i]).same(
                copy.bounds@[i],
            )
        ),
{
}

/// A copy of an equality predicate agrees with it in every field.
pub proof fn copied_eq_predicate_agrees(node: WhereEqPredicate, copy: WhereEqPredicate)
    requires
        node.same(copy),
    ensures
        node.id == copy.id,
        node.span == copy.span,
        node.lhs_ty.same(*copy.lhs_ty),
        node.rhs_ty.same(*copy.rhs_ty),
{
}

/// A copy of a predicate agrees with it in every field.
pub proof fn copied_predicate_agrees(node: WherePredicate, copy: WherePredicate)
    requires
        node.same(copy),
    ensures
        match (node, copy) {
            (
                WherePredicate::BoundPredicate(predicate),
                WherePredicate::BoundPredicate(predicate2),
            ) => {
                &&& predicate.same(predicate2)
            },
            (
                WherePredicate::RegionPredicate(predicate),
                WherePredicate::RegionPredicate(predicate2),
            ) => {
                &&& predicate.same(predicate2)
            },
            (WherePredicate::EqPredicate(predicate), WherePredicate::EqPredicate(predicate2)) => {
                &&& predicate.same(predicate2)
            },
            _ => false,
        },
{
}

/// A copy of a `where` clause agrees with it in every field.
pub proof fn copied_where_clause_agrees(node: WhereClause, copy: WhereClause)
    requires
        node.same(copy),
    ensures
        node.predicates@.len() == copy.predicates@.len() && (
            forall|i: int|
                0 <= i < node.predicates@.len() ==>
                    (#[trigger] node.predicates@[i]).same(copy.predicates@[i])
        ),
        node.span == copy.span,
{
}

/// A copy of generic parameters agrees with it in every field.
pub proof fn copied_generics_agrees(node: Generics, copy: Generics)
    requires
        node.same(copy),
    ensures
        node.params@.len() == copy.params@.len() && (
            forall|i: int| 0 <= i < node.params@.len() ==> (#[trigger] node.params@[i]).same(
                copy.params@[i],
            )
        ),
        node.where_clause.same(copy.where_clause),
        node.span == copy.span,
{
}

} // verus!
