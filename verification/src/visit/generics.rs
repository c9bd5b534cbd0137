//! What is visited in generic parameters and bounds.

use vstd::prelude::*;

use crate::ast::generics::{
    GenericBound, GenericParam, GenericParamKind, Generics, PolyTraitRef, TraitRef,
    WhereBoundPredicate, WhereClause, WhereEqPredicate, WherePredicate, WhereRegionPredicate,
};
use crate::visit::{Visited, group_joined, joined, joined_is_associative};
use crate::visit::path::{list_path, nodes_in_path};
use crate::visit::ty::{list_ty, nodes_in_ty};

verus! {

/// What is visited in a bound.
pub open spec fn nodes_in_bound<'a>(node: GenericBound) -> Seq<Visited<'a>>
    decreases node,
{
    match node {
        GenericBound::Trait(trait_ref, _) => nodes_in_poly_trait_ref(trait_ref),
        _ => seq![],
    }
}

/// Lists what is visited in a bound.
pub(crate) fn list_bound<'a>(node: &'a GenericBound, list: &mut Vec<Visited<'a>>)
    ensures
        final(list)@ == joined(old(list)@, nodes_in_bound(*node)),
    decreases *node,
{
    broadcast use group_joined;

    match node {
        GenericBound::Trait(trait_ref, _) => list_poly_trait_ref(trait_ref, list),
        _ => {},
    }
}

/// What is visited in the first `count` of a list of bounds.
pub open spec fn nodes_in_bounds<'a>(list: Seq<GenericBound>, count: int) -> Seq<Visited<'a>>
    decreases list, count,
{
    if 0 < count <= list.len() {
        joined(nodes_in_bounds(list, count - 1), nodes_in_bound(list[count - 1]))
    } else {
        seq![]
    }
}

/// Lists what is visited in a list of bounds.
pub(crate) fn list_bounds<'a>(nodes: &'a Vec<GenericBound>, list: &mut Vec<Visited<'a>>)
    ensures
        final(list)@ == joined(old(list)@, nodes_in_bounds(nodes@, nodes@.len() as int)),
    decreases *nodes,
{
    broadcast use group_joined;

    let mut i: usize = 0;
    while i < nodes.len()
        invariant
            i <= nodes@.len(),
            list@ == joined(old(list)@, nodes_in_bounds(nodes@, i as int)),
        decreases nodes@.len() - i,
    {
        list_bound(&nodes[i], list);
        i += 1;
        proof {
            joined_is_associative(
                old(list)@,
                nodes_in_bounds(nodes@, i - 1),
                nodes_in_bound(nodes@[i - 1]),
            );
        }
    }
}

/// What is visited in a trait reference.
pub open spec fn nodes_in_trait_ref<'a>(node: TraitRef) -> Seq<Visited<'a>>
    decreases node,
{
    nodes_in_path(node.path)
}

/// Lists what is visited in a trait reference.
pub(crate) fn list_trait_ref<'a>(node: &'a TraitRef, list: &mut Vec<Visited<'a>>)
    ensures
        final(list)@ == joined(old(list)@, nodes_in_trait_ref(*node)),
    decreases *node,
{
    broadcast use group_joined;

    list_path(&node.path, list);
}

/// What is visited in a trait reference under `for`.
pub open spec fn nodes_in_poly_trait_ref<'a>(node: PolyTraitRef) -> Seq<Visited<'a>>
    decreases node,
{
    joined(
        nodes_in_generic_params(
            node.bound_generic_params@,
            node.bound_generic_params@.len() as int,
        ),
        nodes_in_trait_ref(node.trait_ref),
    )
}

/// Lists what is visited in a trait reference under `for`.
pub(crate) fn list_poly_trait_ref<'a>(node: &'a PolyTraitRef, list: &mut Vec<Visited<'a>>)
    ensures
        final(list)@ == joined(old(list)@, nodes_in_poly_trait_ref(*node)),
    decreases *node,
{
    broadcast use group_joined;

    list_generic_params(&node.bound_generic_params, list);
    list_trait_ref(&node.trait_ref, list);
}

/// What is visited in the form of a generic parameter.
pub open spec fn nodes_in_generic_param_kind<'a>(node: GenericParamKind) -> Seq<Visited<'a>>
    decreases node,
{
    match node {
        GenericParamKind::Type { default } => {
            match default {
                Some(x) => nodes_in_ty(*x),
                None => seq![],
            }
        },
        GenericParamKind::Const { ty } => nodes_in_ty(*ty),
        _ => seq![],
    }
}

/// Lists what is visited in the form of a generic parameter.
pub(crate) fn list_generic_param_kind<'a>(node: &'a GenericParamKind, list: &mut Vec<Visited<'a>>)
    ensures
        final(list)@ == joined(old(list)@, nodes_in_generic_param_kind(*node)),
    decreases *node,
{
    broadcast use group_joined;

    match node {
        GenericParamKind::Type { default } => {
            if let Some(x) = default {
                list_ty(x, list);
            }
        },
        GenericParamKind::Const { ty } => list_ty(ty, list),
        _ => {},
    }
}

/// What is visited in a generic parameter.
pub open spec fn nodes_in_generic_param<'a>(node: GenericParam) -> Seq<Visited<'a>>
    decreases node,
{
    joined(
        nodes_in_bounds(node.bounds@, node.bounds@.len() as int),
        nodes_in_generic_param_kind(node.kind),
    )
}

/// Lists what is visited in a generic parameter.
pub(crate) fn list_generic_param<'a>(node: &'a GenericParam, list: &mut Vec<Visited<'a>>)
    ensures
        final(list)@ == joined(old(list)@, nodes_in_generic_param(*node)),
    decreases *node,
{
    broadcast use group_joined;

    list_bounds(&node.bounds, list);
    list_generic_param_kind(&node.kind, list);
}

/// What is visited in the first `count` of a list of generic parameters.
pub open spec fn nodes_in_generic_params<'a>(
    list: Seq<GenericParam>,
    count: int,
) -> Seq<Visited<'a>>
    decreases list, count,
{
    if 0 < count <= list.len() {
        joined(nodes_in_generic_params(list, count - 1), nodes_in_generic_param(list[count - 1]))
    } else {
        seq![]
    }
}

/// Lists what is visited in a list of generic parameters.
pub(crate) fn list_generic_params<'a>(nodes: &'a Vec<GenericParam>, list: &mut Vec<Visited<'a>>)
    ensures
        final(list)@ == joined(old(list)@, nodes_in_generic_params(nodes@, nodes@.len() as int)),
    decreases *nodes,
{
    broadcast use group_joined;

    let mut i: usize = 0;
    while i < nodes.len()
        invariant
            i <= nodes@.len(),
            list@ == joined(old(list)@, nodes_in_generic_params(nodes@, i as int)),
        decreases nodes@.len() - i,
    {
        list_generic_param(&nodes[i], list);
        i += 1;
        proof {
            joined_is_associative(
                old(list)@,
                nodes_in_generic_params(nodes@, i - 1),
                nodes_in_generic_param(nodes@[i - 1]),
            );
        }
    }
}

/// What is visited in a bound predicate.
pub open spec fn nodes_in_bound_predicate<'a>(node: WhereBoundPredicate) -> Seq<Visited<'a>>
    decreases node,
{
    joined(
        nodes_in_ty(*node.bounded_ty),
        joined(
            nodes_in_bounds(node.bounds@, node.bounds@.len() as int),
            nodes_in_generic_params(
                node.bound_generic_params@,
                node.bound_generic_params@.len() as int,
            ),
        ),
    )
}

/// Lists what is visited in a bound predicate.
pub(crate) fn list_bound_predicate<'a>(node: &'a WhereBoundPredicate, list: &mut Vec<Visited<'a>>)
    ensures
        final(list)@ == joined(old(list)@, nodes_in_bound_predicate(*node)),
    decreases *node,
{
    broadcast use group_joined;

    list_ty(&node.bounded_ty, list);
    list_bounds(&node.bounds, list);
    list_generic_params(&node.bound_generic_params, list);
}

/// What is visited in a lifetime predicate.
pub open spec fn nodes_in_region_predicate<'a>(node: WhereRegionPredicate) -> Seq<Visited<'a>>
    decreases node,
{
    nodes_in_bounds(node.bounds@, node.bounds@.len() as int)
}

/// Lists what is visited in a lifetime predicate.
pub(crate) fn list_region_predicate<'a>(node: &'a WhereRegionPredicate, list: &mut Vec<Visited<'a>>)
    ensures
        final(list)@ == joined(old(list)@, nodes_in_region_predicate(*node)),
    decreases *node,
{
    broadcast use group_joined;

    list_bounds(&node.bounds, list);
}

/// What is visited in an equality predicate.
pub open spec fn nodes_in_eq_predicate<'a>(node: WhereEqPredicate) -> Seq<Visited<'a>>
    decreases node,
{
    joined(nodes_in_ty(*node.lhs_ty), nodes_in_ty(*node.rhs_ty))
}

/// Lists what is visited in an equality predicate.
pub(crate) fn list_eq_predicate<'a>(node: &'a WhereEqPredicate, list: &mut Vec<Visited<'a>>)
    ensures
        final(list)@ == joined(old(list)@, nodes_in_eq_predicate(*node)),
    decreases *node,
{
    broadcast use group_joined;

    list_ty(&node.lhs_ty, list);
    list_ty(&node.rhs_ty, list);
}

/// What is visited in a predicate.
pub open spec fn nodes_in_predicate<'a>(node: WherePredicate) -> Seq<Visited<'a>>
    decreases node,
{
    match node {
        WherePredicate::BoundPredicate(predicate) => nodes_in_bound_predicate(predicate),
        WherePredicate::RegionPredicate(predicate) => nodes_in_region_predicate(predicate),
        WherePredicate::EqPredicate(predicate) => nodes_in_eq_predicate(predicate),
    }
}

/// Lists what is visited in a predicate.
pub(crate) fn list_predicate<'a>(node: &'a WherePredicate, list: &mut Vec<Visited<'a>>)
    ensures
        final(list)@ == joined(old(list)@, nodes_in_predicate(*node)),
    decreases *node,
{
    broadcast use group_joined;

    match node {
        WherePredicate::BoundPredicate(predicate) => list_bound_predicate(predicate, list),
        WherePredicate::RegionPredicate(predicate) => list_region_predicate(predicate, list),
        WherePredicate::EqPredicate(predicate) => list_eq_predicate(predicate, list),
    }
}

/// What is visited in the first `count` of a list of predicates.
pub open spec fn nodes_in_predicates<'a>(list: Seq<WherePredicate>, count: int) -> Seq<Visited<'a>>
    decreases list, count,
{
    if 0 < count <= list.len() {
        joined(nodes_in_predicates(list, count - 1), nodes_in_predicate(list[count - 1]))
    } else {
        seq![]
    }
}

/// Lists what is visited in a list of predicates.
pub(crate) fn list_predicates<'a>(nodes: &'a Vec<WherePredicate>, list: &mut Vec<Visited<'a>>)
    ensures
        final(list)@ == joined(old(list)@, nodes_in_predicates(nodes@, nodes@.len() as int)),
    decreases *nodes,
{
    broadcast use group_joined;

    let mut i: usize = 0;
    while i < nodes.len()
        invariant
            i <= nodes@.len(),
            list@ == joined(old(list)@, nodes_in_predicates(nodes@, i as int)),
        decreases nodes@.len() - i,
    {
        list_predicate(&nodes[i], list);
        i += 1;
        proof {
            joined_is_associative(
                old(list)@,
                nodes_in_predicates(nodes@, i - 1),
                nodes_in_predicate(nodes@[i - 1]),
            );
        }
    }
}

/// What is visited in a `where` clause.
pub open spec fn nodes_in_where_clause<'a>(node: WhereClause) -> Seq<Visited<'a>>
    decreases node,
{
    nodes_in_predicates(node.predicates@, node.predicates@.len() as int)
}

/// Lists what is visited in a `where` clause.
pub(crate) fn list_where_clause<'a>(node: &'a WhereClause, list: &mut Vec<Visited<'a>>)
    ensures
        final(list)@ == joined(old(list)@, nodes_in_where_clause(*node)),
    decreases *node,
{
    broadcast use group_joined;

    list_predicates(&node.predicates, list);
}

/// What is visited in generic parameters.
pub open spec fn nodes_in_generics<'a>(node: Generics) -> Seq<Visited<'a>>
    decreases node,
{
    joined(
        nodes_in_generic_params(node.params@, node.params@.len() as int),
        nodes_in_where_clause(node.where_clause),
    )
}

/// Lists what is visited in generic parameters.
pub(crate) fn list_generics<'a>(node: &'a Generics, list: &mut Vec<Visited<'a>>)
    ensures
        final(list)@ == joined(old(list)@, nodes_in_generics(*node)),
    decreases *node,
{
    broadcast use group_joined;

    list_generic_params(&node.params, list);
    list_where_clause(&node.where_clause, list);
}

} // verus!
