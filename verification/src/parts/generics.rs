//! What generic parameters and bounds are made of.

use vstd::prelude::*;

use crate::ast::attr::Mac;
use crate::ast::expr::Expr;
use crate::ast::generics::{
    GenericBound, GenericParam, GenericParamKind, Generics, PolyTraitRef, TraitRef,
    WhereBoundPredicate, WhereClause, WhereEqPredicate, WherePredicate, WhereRegionPredicate,
};
use crate::filter_map::{Rules, between};
use crate::parts::ty::optional_ty_parts;
use crate::parts::{
    Part, group_contains, nodes_in_joined_parts, nodes_in_one_part, nodes_in_parts, parts,
};
use crate::visit::generics::{
    nodes_in_bound, nodes_in_bound_predicate, nodes_in_bounds, nodes_in_eq_predicate,
    nodes_in_generic_param, nodes_in_generic_param_kind, nodes_in_generic_params, nodes_in_generics,
    nodes_in_poly_trait_ref, nodes_in_predicate, nodes_in_predicates, nodes_in_region_predicate,
    nodes_in_trait_ref, nodes_in_where_clause,
};

verus! {

/// What a bound is made of, in the order of the text.
pub open spec fn parts_of_bound(node: GenericBound) -> Seq<Part> {
    match node {
        GenericBound::Trait(trait_ref, _) => seq![Part::PolyTraitRef(trait_ref)],
        _ => seq![],
    }
}

/// Bounds as parts.
pub open spec fn bounds_parts(list: Seq<GenericBound>) -> Seq<Part> {
    list.map_values(|x: GenericBound| Part::GenericBound(x))
}

impl<
    S,
    F: Fn(&S, &str) -> (S, bool),
    G: Fn(&S, &Expr) -> (S, Expr),
    H: Fn(&S, &Mac) -> S,
> Rules<S, F, G, H> {
    /// Going through a bound is going through what it is made of, part by part.
    pub proof fn goes_through_the_parts_of_bound(
        self,
        from: S,
        before: GenericBound,
        to: S,
        after: GenericBound,
    )
        requires
            self.visited_bound(from, before, to, after),
        ensures
            self.visited_parts(from, parts_of_bound(before), to, parts_of_bound(after)),
    {
        match (before, after) {
            (GenericBound::Trait(trait_ref, _), GenericBound::Trait(trait_ref2, _)) => {
                self.single_part(
                    from,
                    Part::PolyTraitRef(trait_ref),
                    to,
                    Part::PolyTraitRef(trait_ref2),
                );
            },
            _ => {},
        }
    }

    /// A visitor whose calls can always be made can go through a bound.
    pub(crate) proof fn total_goes_through_bound(self, node: GenericBound)
        requires
            self.is_total(),
        ensures
            self.can_visit_bound(node),
        decreases node,
    {
        match node {
            GenericBound::Trait(trait_ref, _) => {
                self.total_goes_through_poly_trait_ref(trait_ref);
            },
            _ => {},
        }
    }

    /// Going through a list of bounds is going through them one by one.
    pub(crate) proof fn bounds_are_parts(
        self,
        from: S,
        before: Seq<GenericBound>,
        to: S,
        after: Seq<GenericBound>,
    )
        requires
            self.visited_bounds(from, before, to, after),
        ensures
            self.visited_parts(from, bounds_parts(before), to, bounds_parts(after)),
        decreases before.len(),
    {
        if before.len() > 0 {
            let mid = choose|mid: S|
                {
                    &&& #[trigger] between(mid)
                    &&& self.visited_bounds(from, before.drop_last(), mid, after.drop_last())
                    &&& self.visited_bound(mid, before.last(), to, after.last())
                };
            self.bounds_are_parts(from, before.drop_last(), mid, after.drop_last());
            assert(bounds_parts(before).drop_last() =~= bounds_parts(before.drop_last()));
            assert(bounds_parts(after).drop_last() =~= bounds_parts(after.drop_last()));
        }
    }
}

/// What is visited in a bound is what is visited in what it is made of, part by part.
pub proof fn visits_the_parts_of_bound(node: GenericBound)
    ensures
        nodes_in_bound(node) == nodes_in_parts(parts_of_bound(node)),
{
    match node {
        GenericBound::Trait(trait_ref, _) => {
            nodes_in_one_part(Part::PolyTraitRef(trait_ref));
        },
        _ => {},
    }
}

/// What is visited in a list of bounds is what is visited in them one by one.
pub(crate) proof fn nodes_in_bounds_parts(list: Seq<GenericBound>, count: int)
    requires
        0 <= count <= list.len(),
    ensures
        nodes_in_bounds(list, count) == nodes_in_parts(bounds_parts(list.take(count))),
    decreases count,
{
    if count > 0 {
        nodes_in_bounds_parts(list, count - 1);
        assert(bounds_parts(list.take(count)).drop_last() =~= bounds_parts(list.take(count - 1)));
    }
}

/// Every node that a bound holds in a field is a part of it.
pub proof fn fields_of_bound_are_parts(node: GenericBound)
    ensures
        node matches GenericBound::Trait(
            trait_ref,
            _,
        ) ==> parts(Part::GenericBound(node)).contains(Part::PolyTraitRef(trait_ref)),
{
    broadcast use group_contains;

}

/// What a trait reference is made of, in the order of the text.
pub open spec fn parts_of_trait_ref(node: TraitRef) -> Seq<Part> {
    seq![Part::Path(node.path)]
}

/// A trait reference as a part, where it is there.
pub open spec fn optional_trait_ref_parts(node: Option<TraitRef>) -> Seq<Part> {
    match node {
        Some(x) => seq![Part::TraitRef(x)],
        None => seq![],
    }
}

impl<
    S,
    F: Fn(&S, &str) -> (S, bool),
    G: Fn(&S, &Expr) -> (S, Expr),
    H: Fn(&S, &Mac) -> S,
> Rules<S, F, G, H> {
    /// Going through a trait reference is going through what it is made of, part by part.
    pub proof fn goes_through_the_parts_of_trait_ref(
        self,
        from: S,
        before: TraitRef,
        to: S,
        after: TraitRef,
    )
        requires
            self.visited_trait_ref(from, before, to, after),
        ensures
            self.visited_parts(from, parts_of_trait_ref(before), to, parts_of_trait_ref(after)),
    {
        self.single_part(from, Part::Path(before.path), to, Part::Path(after.path));
    }

    /// A visitor whose calls can always be made can go through a trait reference.
    pub(crate) proof fn total_goes_through_trait_ref(self, node: TraitRef)
        requires
            self.is_total(),
        ensures
            self.can_visit_trait_ref(node),
        decreases node,
    {
        self.total_goes_through_path(node.path);
    }

    /// Going through what may be there is going through it as a part.
    pub(crate) proof fn optional_trait_ref_is_part(
        self,
        from: S,
        before: Option<TraitRef>,
        to: S,
        after: Option<TraitRef>,
    )
        requires
            self.visited_optional_trait_ref(from, before, to, after),
        ensures
            self.visited_parts(
                from,
                optional_trait_ref_parts(before),
                to,
                optional_trait_ref_parts(after),
            ),
    {
        if let (Some(x), Some(y)) = (before, after) {
            self.single_part(from, Part::TraitRef(x), to, Part::TraitRef(y));
        }
    }
}

/// What is visited in a trait reference is what is visited in what it is made of, part by part.
pub proof fn visits_the_parts_of_trait_ref(node: TraitRef)
    ensures
        nodes_in_trait_ref(node) == nodes_in_parts(parts_of_trait_ref(node)),
{
    nodes_in_one_part(Part::Path(node.path));
}

/// Every node that a trait reference holds in a field is a part of it.
pub proof fn fields_of_trait_ref_are_parts(node: TraitRef)
    ensures
        parts(Part::TraitRef(node)).contains(Part::Path(node.path)),
{
    broadcast use group_contains;

}

/// What a trait reference under `for` is made of, in the order of the text.
pub open spec fn parts_of_poly_trait_ref(node: PolyTraitRef) -> Seq<Part> {
    generic_params_parts(node.bound_generic_params@) + seq![Part::TraitRef(node.trait_ref)]
}

impl<
    S,
    F: Fn(&S, &str) -> (S, bool),
    G: Fn(&S, &Expr) -> (S, Expr),
    H: Fn(&S, &Mac) -> S,
> Rules<S, F, G, H> {
    /// Going through a trait reference under `for` is going through what it is made of, part by
    /// part.
    pub proof fn goes_through_the_parts_of_poly_trait_ref(
        self,
        from: S,
        before: PolyTraitRef,
        to: S,
        after: PolyTraitRef,
    )
        requires
            self.visited_poly_trait_ref(from, before, to, after),
        ensures
            self.visited_parts(
                from,
                parts_of_poly_trait_ref(before),
                to,
                parts_of_poly_trait_ref(after),
            ),
    {
        let mid = choose|mid: S|
            {
                &&& #[trigger] between(mid)
                &&& self.visited_generic_params(
                    from,
                    before.bound_generic_params@,
                    mid,
                    after.bound_generic_params@,
                )
                &&& self.visited_trait_ref(mid, before.trait_ref, to, after.trait_ref)
            };
        self.generic_params_are_parts(
            from,
            before.bound_generic_params@,
            mid,
            after.bound_generic_params@,
        );
        self.single_part(
            mid,
            Part::TraitRef(before.trait_ref),
            to,
            Part::TraitRef(after.trait_ref),
        );
        self.joined_parts(
            from,
            generic_params_parts(before.bound_generic_params@),
            mid,
            generic_params_parts(after.bound_generic_params@),
            seq![Part::TraitRef(before.trait_ref)],
            to,
            seq![Part::TraitRef(after.trait_ref)],
        );
    }

    /// A visitor whose calls can always be made can go through a trait reference under `for`.
    pub(crate) proof fn total_goes_through_poly_trait_ref(self, node: PolyTraitRef)
        requires
            self.is_total(),
        ensures
            self.can_visit_poly_trait_ref(node),
        decreases node,
    {
        assert forall|i: int|
            0 <= i < node.bound_generic_params@.len() implies self.can_visit_generic_param(
            #[trigger] node.bound_generic_params@[i],
        ) by {
            self.total_goes_through_generic_param(node.bound_generic_params@[i]);
        }
        self.total_goes_through_trait_ref(node.trait_ref);
    }
}

/// What is visited in a trait reference under `for` is what is visited in what it is made of, part
/// by part.
pub proof fn visits_the_parts_of_poly_trait_ref(node: PolyTraitRef)
    ensures
        nodes_in_poly_trait_ref(node) == nodes_in_parts(parts_of_poly_trait_ref(node)),
{
    nodes_in_generic_params_parts(
        node.bound_generic_params@,
        node.bound_generic_params@.len() as int,
    );
    assert(
        node.bound_generic_params@.take(
            node.bound_generic_params@.len() as int,
        ) =~= node.bound_generic_params@
    );
    nodes_in_one_part(Part::TraitRef(node.trait_ref));
    nodes_in_joined_parts(
        generic_params_parts(node.bound_generic_params@),
        seq![Part::TraitRef(node.trait_ref)],
    );
}

/// Every node that a trait reference under `for` holds in a field is a part of it.
pub proof fn fields_of_poly_trait_ref_are_parts(node: PolyTraitRef)
    ensures
        (
            forall|i: int| 0 <= i < node.bound_generic_params@.len() ==> parts(
                Part::PolyTraitRef(node),
            ).contains(Part::GenericParam(#[trigger] node.bound_generic_params@[i]))
        ),
        parts(Part::PolyTraitRef(node)).contains(Part::TraitRef(node.trait_ref)),
{
    broadcast use group_contains;

    assert forall|i: int| 0 <= i < node.bound_generic_params@.len() implies generic_params_parts(
        node.bound_generic_params@,
    ).contains(
        Part::GenericParam(#[trigger] node.bound_generic_params@[i]),
    ) by {
        assert(
            generic_params_parts(
                node.bound_generic_params@,
            )[i] == Part::GenericParam(node.bound_generic_params@[i])
        );
    }
}

/// The parts of a trait reference under `for` stand in the order of the text.
pub proof fn parts_of_poly_trait_ref_stand_in_order(node: PolyTraitRef)
    ensures
        parts(Part::PolyTraitRef(node)).len() == (node.bound_generic_params@.len() as int) + 1,
        (
            forall|i: int| 0 <= i < node.bound_generic_params@.len() ==> parts(
                Part::PolyTraitRef(node),
            )[i] == Part::GenericParam(#[trigger] node.bound_generic_params@[i])
        ),
        parts(
            Part::PolyTraitRef(node),
        )[(node.bound_generic_params@.len() as int)] == Part::TraitRef(node.trait_ref),
{
}

/// What the form of a generic parameter is made of, in the order of the text.
pub open spec fn parts_of_generic_param_kind(node: GenericParamKind) -> Seq<Part> {
    match node {
        GenericParamKind::Type { default } => optional_ty_parts(default),
        GenericParamKind::Const { ty } => seq![Part::Ty(*ty)],
        _ => seq![],
    }
}

impl<
    S,
    F: Fn(&S, &str) -> (S, bool),
    G: Fn(&S, &Expr) -> (S, Expr),
    H: Fn(&S, &Mac) -> S,
> Rules<S, F, G, H> {
    /// Going through the form of a generic parameter is going through what it is made of, part by
    /// part.
    pub proof fn goes_through_the_parts_of_generic_param_kind(
        self,
        from: S,
        before: GenericParamKind,
        to: S,
        after: GenericParamKind,
    )
        requires
            self.visited_generic_param_kind(from, before, to, after),
        ensures
            self.visited_parts(
                from,
                parts_of_generic_param_kind(before),
                to,
                parts_of_generic_param_kind(after),
            ),
    {
        match (before, after) {
            (GenericParamKind::Type { default }, GenericParamKind::Type { default: default2 }) => {
                self.optional_ty_is_part(from, default, to, default2);
            },
            (GenericParamKind::Const { ty }, GenericParamKind::Const { ty: ty2 }) => {
                self.single_part(from, Part::Ty(*ty), to, Part::Ty(*ty2));
            },
            _ => {},
        }
    }

    /// A visitor whose calls can always be made can go through the form of a generic parameter.
    pub(crate) proof fn total_goes_through_generic_param_kind(self, node: GenericParamKind)
        requires
            self.is_total(),
        ensures
            self.can_visit_generic_param_kind(node),
        decreases node,
    {
        match node {
            GenericParamKind::Type { default } => {
                if let Some(x) = default {
                    self.total_goes_through_ty(*x);
                }
            },
            GenericParamKind::Const { ty } => {
                self.total_goes_through_ty(*ty);
            },
            _ => {},
        }
    }
}

/// What is visited in the form of a generic parameter is what is visited in what it is made of,
/// part by part.
pub proof fn visits_the_parts_of_generic_param_kind(node: GenericParamKind)
    ensures
        nodes_in_generic_param_kind(node) == nodes_in_parts(parts_of_generic_param_kind(node)),
{
    match node {
        GenericParamKind::Type { default } => {
            if let Some(x) = default {
                nodes_in_one_part(Part::Ty(*x));
            }
        },
        GenericParamKind::Const { ty } => {
            nodes_in_one_part(Part::Ty(*ty));
        },
        _ => {},
    }
}

/// Every node that the form of a generic parameter holds in a field is a part of it.
pub proof fn fields_of_generic_param_kind_are_parts(node: GenericParamKind)
    ensures
        node matches GenericParamKind::Type { default } ==> (
            default matches Some(x) ==> parts(Part::GenericParamKind(node)).contains(Part::Ty(*x))
        ),
        node matches GenericParamKind::Const { ty } ==> parts(
            Part::GenericParamKind(node),
        ).contains(Part::Ty(*ty)),
{
    broadcast use group_contains;

}

/// What a generic parameter is made of, in the order of the text.
pub open spec fn parts_of_generic_param(node: GenericParam) -> Seq<Part> {
    bounds_parts(node.bounds@) + seq![Part::GenericParamKind(node.kind)]
}

/// Generic parameters as parts.
pub open spec fn generic_params_parts(list: Seq<GenericParam>) -> Seq<Part> {
    list.map_values(|x: GenericParam| Part::GenericParam(x))
}

impl<
    S,
    F: Fn(&S, &str) -> (S, bool),
    G: Fn(&S, &Expr) -> (S, Expr),
    H: Fn(&S, &Mac) -> S,
> Rules<S, F, G, H> {
    /// Going through a generic parameter is going through what it is made of, part by part.
    pub proof fn goes_through_the_parts_of_generic_param(
        self,
        from: S,
        before: GenericParam,
        to: S,
        after: GenericParam,
    )
        requires
            self.visited_generic_param(from, before, to, after),
        ensures
            self.visited_parts(
                from,
                parts_of_generic_param(before),
                to,
                parts_of_generic_param(after),
            ),
    {
        let mid = choose|mid: S|
            {
                &&& #[trigger] between(mid)
                &&& self.visited_bounds(from, before.bounds@, mid, after.bounds@)
                &&& self.visited_generic_param_kind(mid, before.kind, to, after.kind)
            };
        self.bounds_are_parts(from, before.bounds@, mid, after.bounds@);
        self.single_part(
            mid,
            Part::GenericParamKind(before.kind),
            to,
            Part::GenericParamKind(after.kind),
        );
        self.joined_parts(
            from,
            bounds_parts(before.bounds@),
            mid,
            bounds_parts(after.bounds@),
            seq![Part::GenericParamKind(before.kind)],
            to,
            seq![Part::GenericParamKind(after.kind)],
        );
    }

    /// A visitor whose calls can always be made can go through a generic parameter.
    pub(crate) proof fn total_goes_through_generic_param(self, node: GenericParam)
        requires
            self.is_total(),
        ensures
            self.can_visit_generic_param(node),
        decreases node,
    {
        assert forall|i: int| 0 <= i < node.bounds@.len() implies self.can_visit_bound(
            #[trigger] node.bounds@[i],
        ) by {
            self.total_goes_through_bound(node.bounds@[i]);
        }
        self.total_goes_through_generic_param_kind(node.kind);
    }

    /// Going through a list of generic parameters is going through them one by one.
    pub(crate) proof fn generic_params_are_parts(
        self,
        from: S,
        before: Seq<GenericParam>,
        to: S,
        after: Seq<GenericParam>,
    )
        requires
            self.visited_generic_params(from, before, to, after),
        ensures
            self.visited_parts(from, generic_params_parts(before), to, generic_params_parts(after)),
        decreases before.len(),
    {
        if before.len() > 0 {
            let mid = choose|mid: S|
                {
                    &&& #[trigger] between(mid)
                    &&& self.visited_generic_params(
                        from,
                        before.drop_last(),
                        mid,
                        after.drop_last(),
                    )
                    &&& self.visited_generic_param(mid, before.last(), to, after.last())
                };
            self.generic_params_are_parts(from, before.drop_last(), mid, after.drop_last());
            assert(
                generic_params_parts(
                    before,
                ).drop_last() =~= generic_params_parts(before.drop_last())
            );
            assert(
                generic_params_parts(after).drop_last() =~= generic_params_parts(after.drop_last())
            );
        }
    }
}

/// What is visited in a generic parameter is what is visited in what it is made of, part by part.
pub proof fn visits_the_parts_of_generic_param(node: GenericParam)
    ensures
        nodes_in_generic_param(node) == nodes_in_parts(parts_of_generic_param(node)),
{
    nodes_in_bounds_parts(node.bounds@, node.bounds@.len() as int);
    assert(node.bounds@.take(node.bounds@.len() as int) =~= node.bounds@);
    nodes_in_one_part(Part::GenericParamKind(node.kind));
    nodes_in_joined_parts(bounds_parts(node.bounds@), seq![Part::GenericParamKind(node.kind)]);
}

/// What is visited in a list of generic parameters is what is visited in them one by one.
pub(crate) proof fn nodes_in_generic_params_parts(list: Seq<GenericParam>, count: int)
    requires
        0 <= count <= list.len(),
    ensures
        nodes_in_generic_params(
            list,
            count,
        ) == nodes_in_parts(generic_params_parts(list.take(count))),
    decreases count,
{
    if count > 0 {
        nodes_in_generic_params_parts(list, count - 1);
        assert(
            generic_params_parts(
                list.take(count),
            ).drop_last() =~= generic_params_parts(list.take(count - 1))
        );
    }
}

/// Every node that a generic parameter holds in a field is a part of it.
pub proof fn fields_of_generic_param_are_parts(node: GenericParam)
    ensures
        (
            forall|i: int| 0 <= i < node.bounds@.len() ==> parts(
                Part::GenericParam(node),
            ).contains(Part::GenericBound(#[trigger] node.bounds@[i]))
        ),
        parts(Part::GenericParam(node)).contains(Part::GenericParamKind(node.kind)),
{
    broadcast use group_contains;

    assert forall|i: int| 0 <= i < node.bounds@.len() implies bounds_parts(node.bounds@).contains(
        Part::GenericBound(#[trigger] node.bounds@[i]),
    ) by {
        assert(bounds_parts(node.bounds@)[i] == Part::GenericBound(node.bounds@[i]));
    }
}

/// The parts of a generic parameter stand in the order of the text.
pub proof fn parts_of_generic_param_stand_in_order(node: GenericParam)
    ensures
        parts(Part::GenericParam(node)).len() == (node.bounds@.len() as int) + 1,
        (
            forall|i: int| 0 <= i < node.bounds@.len() ==> parts(
                Part::GenericParam(node),
            )[i] == Part::GenericBound(#[trigger] node.bounds@[i])
        ),
        parts(
            Part::GenericParam(node),
        )[(node.bounds@.len() as int)] == Part::GenericParamKind(node.kind),
{
}

/// What a bound predicate is made of, in the order of the text.
pub open spec fn parts_of_bound_predicate(node: WhereBoundPredicate) -> Seq<Part> {
    generic_params_parts(node.bound_generic_params@)
        + (seq![Part::Ty(*node.bounded_ty)] + bounds_parts(node.bounds@))
}

impl<
    S,
    F: Fn(&S, &str) -> (S, bool),
    G: Fn(&S, &Expr) -> (S, Expr),
    H: Fn(&S, &Mac) -> S,
> Rules<S, F, G, H> {
    /// Going through a bound predicate is going through what it is made of, part by part.
    pub proof fn goes_through_the_parts_of_bound_predicate(
        self,
        from: S,
        before: WhereBoundPredicate,
        to: S,
        after: WhereBoundPredicate,
    )
        requires
            self.visited_bound_predicate(from, before, to, after),
        ensures
            self.visited_parts(
                from,
                parts_of_bound_predicate(before),
                to,
                parts_of_bound_predicate(after),
            ),
    {
        let (first_mid, second_mid) = choose|first_mid: S, second_mid: S|
            {
                &&& #[trigger] between(first_mid)
                &&& #[trigger] between(second_mid)
                &&& self.visited_generic_params(
                    from,
                    before.bound_generic_params@,
                    first_mid,
                    after.bound_generic_params@,
                )
                &&& self.visited_ty(first_mid, *before.bounded_ty, second_mid, *after.bounded_ty)
                &&& self.visited_bounds(second_mid, before.bounds@, to, after.bounds@)
            };
        self.generic_params_are_parts(
            from,
            before.bound_generic_params@,
            first_mid,
            after.bound_generic_params@,
        );
        self.single_part(
            first_mid,
            Part::Ty(*before.bounded_ty),
            second_mid,
            Part::Ty(*after.bounded_ty),
        );
        self.bounds_are_parts(second_mid, before.bounds@, to, after.bounds@);
        self.joined_parts(
            first_mid,
            seq![Part::Ty(*before.bounded_ty)],
            second_mid,
            seq![Part::Ty(*after.bounded_ty)],
            bounds_parts(before.bounds@),
            to,
            bounds_parts(after.bounds@),
        );
        self.joined_parts(
            from,
            generic_params_parts(before.bound_generic_params@),
            first_mid,
            generic_params_parts(after.bound_generic_params@),
            seq![Part::Ty(*before.bounded_ty)] + bounds_parts(before.bounds@),
            to,
            seq![Part::Ty(*after.bounded_ty)] + bounds_parts(after.bounds@),
        );
    }

    /// A visitor whose calls can always be made can go through a bound predicate.
    pub(crate) proof fn total_goes_through_bound_predicate(self, node: WhereBoundPredicate)
        requires
            self.is_total(),
        ensures
            self.can_visit_bound_predicate(node),
        decreases node,
    {
        assert forall|i: int|
            0 <= i < node.bound_generic_params@.len() implies self.can_visit_generic_param(
            #[trigger] node.bound_generic_params@[i],
        ) by {
            self.total_goes_through_generic_param(node.bound_generic_params@[i]);
        }
        self.total_goes_through_ty(*node.bounded_ty);
        assert forall|i: int| 0 <= i < node.bounds@.len() implies self.can_visit_bound(
            #[trigger] node.bounds@[i],
        ) by {
            self.total_goes_through_bound(node.bounds@[i]);
        }
    }
}

/// What a bound predicate is made of, in the order in which it is visited.
pub open spec fn visit_parts_of_bound_predicate(node: WhereBoundPredicate) -> Seq<Part> {
    seq![Part::Ty(*node.bounded_ty)]
        + (bounds_parts(node.bounds@) + generic_params_parts(node.bound_generic_params@))
}

/// What is visited in a bound predicate is what is visited in what it is made of, part by part.
pub proof fn visits_the_parts_of_bound_predicate(node: WhereBoundPredicate)
    ensures
        nodes_in_bound_predicate(node) == nodes_in_parts(visit_parts_of_bound_predicate(node)),
{
    nodes_in_one_part(Part::Ty(*node.bounded_ty));
    nodes_in_bounds_parts(node.bounds@, node.bounds@.len() as int);
    assert(node.bounds@.take(node.bounds@.len() as int) =~= node.bounds@);
    nodes_in_generic_params_parts(
        node.bound_generic_params@,
        node.bound_generic_params@.len() as int,
    );
    assert(
        node.bound_generic_params@.take(
            node.bound_generic_params@.len() as int,
        ) =~= node.bound_generic_params@
    );
    nodes_in_joined_parts(
        bounds_parts(node.bounds@),
        generic_params_parts(node.bound_generic_params@),
    );
    nodes_in_joined_parts(
        seq![Part::Ty(*node.bounded_ty)],
        bounds_parts(node.bounds@) + generic_params_parts(node.bound_generic_params@),
    );
}

/// Every node that a bound predicate holds in a field is a part of it.
pub proof fn fields_of_bound_predicate_are_parts(node: WhereBoundPredicate)
    ensures
        (
            forall|i: int| 0 <= i < node.bound_generic_params@.len() ==> parts(
                Part::WhereBoundPredicate(node),
            ).contains(Part::GenericParam(#[trigger] node.bound_generic_params@[i]))
        ),
        parts(Part::WhereBoundPredicate(node)).contains(Part::Ty(*node.bounded_ty)),
        (
            forall|i: int| 0 <= i < node.bounds@.len() ==> parts(
                Part::WhereBoundPredicate(node),
            ).contains(Part::GenericBound(#[trigger] node.bounds@[i]))
        ),
{
    broadcast use group_contains;

    assert forall|i: int| 0 <= i < node.bound_generic_params@.len() implies generic_params_parts(
        node.bound_generic_params@,
    ).contains(
        Part::GenericParam(#[trigger] node.bound_generic_params@[i]),
    ) by {
        assert(
            generic_params_parts(
                node.bound_generic_params@,
            )[i] == Part::GenericParam(node.bound_generic_params@[i])
        );
    }
    assert forall|i: int| 0 <= i < node.bounds@.len() implies bounds_parts(node.bounds@).contains(
        Part::GenericBound(#[trigger] node.bounds@[i]),
    ) by {
        assert(bounds_parts(node.bounds@)[i] == Part::GenericBound(node.bounds@[i]));
    }
}

/// The parts of a bound predicate stand in the order of the text.
pub proof fn parts_of_bound_predicate_stand_in_order(node: WhereBoundPredicate)
    ensures
        parts(
            Part::WhereBoundPredicate(node),
        ).len() == (node.bound_generic_params@.len() as int) + (node.bounds@.len() as int) + 1,
        (
            forall|i: int| 0 <= i < node.bound_generic_params@.len() ==> parts(
                Part::WhereBoundPredicate(node),
            )[i] == Part::GenericParam(#[trigger] node.bound_generic_params@[i])
        ),
        parts(
            Part::WhereBoundPredicate(node),
        )[(node.bound_generic_params@.len() as int)] == Part::Ty(*node.bounded_ty),
        (
            forall|i: int| 0 <= i < node.bounds@.len() ==> parts(
                Part::WhereBoundPredicate(node),
            )[(
                node.bound_generic_params@.len() as int
            ) + 1 + i] == Part::GenericBound(#[trigger] node.bounds@[i])
        ),
{
}

/// What a lifetime predicate is made of, in the order of the text.
pub open spec fn parts_of_region_predicate(node: WhereRegionPredicate) -> Seq<Part> {
    bounds_parts(node.bounds@)
}

impl<
    S,
    F: Fn(&S, &str) -> (S, bool),
    G: Fn(&S, &Expr) -> (S, Expr),
    H: Fn(&S, &Mac) -> S,
> Rules<S, F, G, H> {
    /// Going through a lifetime predicate is going through what it is made of, part by part.
    pub proof fn goes_through_the_parts_of_region_predicate(
        self,
        from: S,
        before: WhereRegionPredicate,
        to: S,
        after: WhereRegionPredicate,
    )
        requires
            self.visited_region_predicate(from, before, to, after),
        ensures
            self.visited_parts(
                from,
                parts_of_region_predicate(before),
                to,
                parts_of_region_predicate(after),
            ),
    {
        self.bounds_are_parts(from, before.bounds@, to, after.bounds@);
    }

    /// A visitor whose calls can always be made can go through a lifetime predicate.
    pub(crate) proof fn total_goes_through_region_predicate(self, node: WhereRegionPredicate)
        requires
            self.is_total(),
        ensures
            self.can_visit_region_predicate(node),
        decreases node,
    {
        assert forall|i: int| 0 <= i < node.bounds@.len() implies self.can_visit_bound(
            #[trigger] node.bounds@[i],
        ) by {
            self.total_goes_through_bound(node.bounds@[i]);
        }
    }
}

/// What is visited in a lifetime predicate is what is visited in what it is made of, part by part.
pub proof fn visits_the_parts_of_region_predicate(node: WhereRegionPredicate)
    ensures
        nodes_in_region_predicate(node) == nodes_in_parts(parts_of_region_predicate(node)),
{
    nodes_in_bounds_parts(node.bounds@, node.bounds@.len() as int);
    assert(node.bounds@.take(node.bounds@.len() as int) =~= node.bounds@);
}

/// Every node that a lifetime predicate holds in a field is a part of it.
pub proof fn fields_of_region_predicate_are_parts(node: WhereRegionPredicate)
    ensures
        (
            forall|i: int| 0 <= i < node.bounds@.len() ==> parts(
                Part::WhereRegionPredicate(node),
            ).contains(Part::GenericBound(#[trigger] node.bounds@[i]))
        ),
{
    broadcast use group_contains;

    assert forall|i: int| 0 <= i < node.bounds@.len() implies bounds_parts(node.bounds@).contains(
        Part::GenericBound(#[trigger] node.bounds@[i]),
    ) by {
        assert(bounds_parts(node.bounds@)[i] == Part::GenericBound(node.bounds@[i]));
    }
}

/// What an equality predicate is made of, in the order of the text.
pub open spec fn parts_of_eq_predicate(node: WhereEqPredicate) -> Seq<Part> {
    seq![Part::Ty(*node.lhs_ty)] + seq![Part::Ty(*node.rhs_ty)]
}

impl<
    S,
    F: Fn(&S, &str) -> (S, bool),
    G: Fn(&S, &Expr) -> (S, Expr),
    H: Fn(&S, &Mac) -> S,
> Rules<S, F, G, H> {
    /// Going through an equality predicate is going through what it is made of, part by part.
    pub proof fn goes_through_the_parts_of_eq_predicate(
        self,
        from: S,
        before: WhereEqPredicate,
        to: S,
        after: WhereEqPredicate,
    )
        requires
            self.visited_eq_predicate(from, before, to, after),
        ensures
            self.visited_parts(
                from,
                parts_of_eq_predicate(before),
                to,
                parts_of_eq_predicate(after),
            ),
    {
        let mid = choose|mid: S|
            {
                &&& #[trigger] between(mid)
                &&& self.visited_ty(from, *before.lhs_ty, mid, *after.lhs_ty)
                &&& self.visited_ty(mid, *before.rhs_ty, to, *after.rhs_ty)
            };
        self.single_part(from, Part::Ty(*before.lhs_ty), mid, Part::Ty(*after.lhs_ty));
        self.single_part(mid, Part::Ty(*before.rhs_ty), to, Part::Ty(*after.rhs_ty));
        self.joined_parts(
            from,
            seq![Part::Ty(*before.lhs_ty)],
            mid,
            seq![Part::Ty(*after.lhs_ty)],
            seq![Part::Ty(*before.rhs_ty)],
            to,
            seq![Part::Ty(*after.rhs_ty)],
        );
    }

    /// A visitor whose calls can always be made can go through an equality predicate.
    pub(crate) proof fn total_goes_through_eq_predicate(self, node: WhereEqPredicate)
        requires
            self.is_total(),
        ensures
            self.can_visit_eq_predicate(node),
        decreases node,
    {
        self.total_goes_through_ty(*node.lhs_ty);
        self.total_goes_through_ty(*node.rhs_ty);
    }
}

/// What is visited in an equality predicate is what is visited in what it is made of, part by part.
pub proof fn visits_the_parts_of_eq_predicate(node: WhereEqPredicate)
    ensures
        nodes_in_eq_predicate(node) == nodes_in_parts(parts_of_eq_predicate(node)),
{
    nodes_in_one_part(Part::Ty(*node.lhs_ty));
    nodes_in_one_part(Part::Ty(*node.rhs_ty));
    nodes_in_joined_parts(seq![Part::Ty(*node.lhs_ty)], seq![Part::Ty(*node.rhs_ty)]);
}

/// Every node that an equality predicate holds in a field is a part of it.
pub proof fn fields_of_eq_predicate_are_parts(node: WhereEqPredicate)
    ensures
        parts(Part::WhereEqPredicate(node)).contains(Part::Ty(*node.lhs_ty)),
        parts(Part::WhereEqPredicate(node)).contains(Part::Ty(*node.rhs_ty)),
{
    broadcast use group_contains;

}

/// The parts of an equality predicate stand in the order of the text.
pub proof fn parts_of_eq_predicate_stand_in_order(node: WhereEqPredicate)
    ensures
        parts(Part::WhereEqPredicate(node)).len() == 2,
        parts(Part::WhereEqPredicate(node))[0] == Part::Ty(*node.lhs_ty),
        parts(Part::WhereEqPredicate(node))[1] == Part::Ty(*node.rhs_ty),
{
}

/// What a predicate is made of, in the order of the text.
pub open spec fn parts_of_predicate(node: WherePredicate) -> Seq<Part> {
    match node {
        WherePredicate::BoundPredicate(predicate) => seq![Part::WhereBoundPredicate(predicate)],
        WherePredicate::RegionPredicate(predicate) => seq![Part::WhereRegionPredicate(predicate)],
        WherePredicate::EqPredicate(predicate) => seq![Part::WhereEqPredicate(predicate)],
    }
}

/// Predicates as parts.
pub open spec fn predicates_parts(list: Seq<WherePredicate>) -> Seq<Part> {
    list.map_values(|x: WherePredicate| Part::WherePredicate(x))
}

impl<
    S,
    F: Fn(&S, &str) -> (S, bool),
    G: Fn(&S, &Expr) -> (S, Expr),
    H: Fn(&S, &Mac) -> S,
> Rules<S, F, G, H> {
    /// Going through a predicate is going through what it is made of, part by part.
    pub proof fn goes_through_the_parts_of_predicate(
        self,
        from: S,
        before: WherePredicate,
        to: S,
        after: WherePredicate,
    )
        requires
            self.visited_predicate(from, before, to, after),
        ensures
            self.visited_parts(from, parts_of_predicate(before), to, parts_of_predicate(after)),
    {
        match (before, after) {
            (
                WherePredicate::BoundPredicate(predicate),
                WherePredicate::BoundPredicate(predicate2),
            ) => {
                self.single_part(
                    from,
                    Part::WhereBoundPredicate(predicate),
                    to,
                    Part::WhereBoundPredicate(predicate2),
                );
            },
            (
                WherePredicate::RegionPredicate(predicate),
                WherePredicate::RegionPredicate(predicate2),
            ) => {
                self.single_part(
                    from,
                    Part::WhereRegionPredicate(predicate),
                    to,
                    Part::WhereRegionPredicate(predicate2),
                );
            },
            (WherePredicate::EqPredicate(predicate), WherePredicate::EqPredicate(predicate2)) => {
                self.single_part(
                    from,
                    Part::WhereEqPredicate(predicate),
                    to,
                    Part::WhereEqPredicate(predicate2),
                );
            },
            _ => {},
        }
    }

    /// A visitor whose calls can always be made can go through a predicate.
    pub(crate) proof fn total_goes_through_predicate(self, node: WherePredicate)
        requires
            self.is_total(),
        ensures
            self.can_visit_predicate(node),
        decreases node,
    {
        match node {
            WherePredicate::BoundPredicate(predicate) => {
                self.total_goes_through_bound_predicate(predicate);
            },
            WherePredicate::RegionPredicate(predicate) => {
                self.total_goes_through_region_predicate(predicate);
            },
            WherePredicate::EqPredicate(predicate) => {
                self.total_goes_through_eq_predicate(predicate);
            },
        }
    }

    /// Going through a list of predicates is going through them one by one.
    pub(crate) proof fn predicates_are_parts(
        self,
        from: S,
        before: Seq<WherePredicate>,
        to: S,
        after: Seq<WherePredicate>,
    )
        requires
            self.visited_predicates(from, before, to, after),
        ensures
            self.visited_parts(from, predicates_parts(before), to, predicates_parts(after)),
        decreases before.len(),
    {
        if before.len() > 0 {
            let mid = choose|mid: S|
                {
                    &&& #[trigger] between(mid)
                    &&& self.visited_predicates(from, before.drop_last(), mid, after.drop_last())
                    &&& self.visited_predicate(mid, before.last(), to, after.last())
                };
            self.predicates_are_parts(from, before.drop_last(), mid, after.drop_last());
            assert(predicates_parts(before).drop_last() =~= predicates_parts(before.drop_last()));
            assert(predicates_parts(after).drop_last() =~= predicates_parts(after.drop_last()));
        }
    }
}

/// What is visited in a predicate is what is visited in what it is made of, part by part.
pub proof fn visits_the_parts_of_predicate(node: WherePredicate)
    ensures
        nodes_in_predicate(node) == nodes_in_parts(parts_of_predicate(node)),
{
    match node {
        WherePredicate::BoundPredicate(predicate) => {
            nodes_in_one_part(Part::WhereBoundPredicate(predicate));
        },
        WherePredicate::RegionPredicate(predicate) => {
            nodes_in_one_part(Part::WhereRegionPredicate(predicate));
        },
        WherePredicate::EqPredicate(predicate) => {
            nodes_in_one_part(Part::WhereEqPredicate(predicate));
        },
    }
}

/// What is visited in a list of predicates is what is visited in them one by one.
pub(crate) proof fn nodes_in_predicates_parts(list: Seq<WherePredicate>, count: int)
    requires
        0 <= count <= list.len(),
    ensures
        nodes_in_predicates(list, count) == nodes_in_parts(predicates_parts(list.take(count))),
    decreases count,
{
    if count > 0 {
        nodes_in_predicates_parts(list, count - 1);
        assert(
            predicates_parts(
                list.take(count),
            ).drop_last() =~= predicates_parts(list.take(count - 1))
        );
    }
}

/// Every node that a predicate holds in a field is a part of it.
pub proof fn fields_of_predicate_are_parts(node: WherePredicate)
    ensures
        node matches WherePredicate::BoundPredicate(
            predicate,
        ) ==> parts(Part::WherePredicate(node)).contains(Part::WhereBoundPredicate(predicate)),
        node matches WherePredicate::RegionPredicate(
            predicate,
        ) ==> parts(Part::WherePredicate(node)).contains(Part::WhereRegionPredicate(predicate)),
        node matches WherePredicate::EqPredicate(
            predicate,
        ) ==> parts(Part::WherePredicate(node)).contains(Part::WhereEqPredicate(predicate)),
{
    broadcast use group_contains;

}

/// What a `where` clause is made of, in the order of the text.
pub open spec fn parts_of_where_clause(node: WhereClause) -> Seq<Part> {
    predicates_parts(node.predicates@)
}

impl<
    S,
    F: Fn(&S, &str) -> (S, bool),
    G: Fn(&S, &Expr) -> (S, Expr),
    H: Fn(&S, &Mac) -> S,
> Rules<S, F, G, H> {
    /// Going through a `where` clause is going through what it is made of, part by part.
    pub proof fn goes_through_the_parts_of_where_clause(
        self,
        from: S,
        before: WhereClause,
        to: S,
        after: WhereClause,
    )
        requires
            self.visited_where_clause(from, before, to, after),
        ensures
            self.visited_parts(
                from,
                parts_of_where_clause(before),
                to,
                parts_of_where_clause(after),
            ),
    {
        self.predicates_are_parts(from, before.predicates@, to, after.predicates@);
    }

    /// A visitor whose calls can always be made can go through a `where` clause.
    pub(crate) proof fn total_goes_through_where_clause(self, node: WhereClause)
        requires
            self.is_total(),
        ensures
            self.can_visit_where_clause(node),
        decreases node,
    {
        assert forall|i: int| 0 <= i < node.predicates@.len() implies self.can_visit_predicate(
            #[trigger] node.predicates@[i],
        ) by {
            self.total_goes_through_predicate(node.predicates@[i]);
        }
    }
}

/// What is visited in a `where` clause is what is visited in what it is made of, part by part.
pub proof fn visits_the_parts_of_where_clause(node: WhereClause)
    ensures
        nodes_in_where_clause(node) == nodes_in_parts(parts_of_where_clause(node)),
{
    nodes_in_predicates_parts(node.predicates@, node.predicates@.len() as int);
    assert(node.predicates@.take(node.predicates@.len() as int) =~= node.predicates@);
}

/// Every node that a `where` clause holds in a field is a part of it.
pub proof fn fields_of_where_clause_are_parts(node: WhereClause)
    ensures
        (
            forall|i: int| 0 <= i < node.predicates@.len() ==> parts(
                Part::WhereClause(node),
            ).contains(Part::WherePredicate(#[trigger] node.predicates@[i]))
        ),
{
    broadcast use group_contains;

    assert forall|i: int| 0 <= i < node.predicates@.len() implies predicates_parts(
        node.predicates@,
    ).contains(
        Part::WherePredicate(#[trigger] node.predicates@[i]),
    ) by {
        assert(predicates_parts(node.predicates@)[i] == Part::WherePredicate(node.predicates@[i]));
    }
}

/// What generic parameters is made of, in the order of the text.
pub open spec fn parts_of_generics(node: Generics) -> Seq<Part> {
    generic_params_parts(node.params@) + seq![Part::WhereClause(node.where_clause)]
}

impl<
    S,
    F: Fn(&S, &str) -> (S, bool),
    G: Fn(&S, &Expr) -> (S, Expr),
    H: Fn(&S, &Mac) -> S,
> Rules<S, F, G, H> {
    /// Going through generic parameters is going through what it is made of, part by part.
    pub proof fn goes_through_the_parts_of_generics(
        self,
        from: S,
        before: Generics,
        to: S,
        after: Generics,
    )
        requires
            self.visited_generics(from, before, to, after),
        ensures
            self.visited_parts(from, parts_of_generics(before), to, parts_of_generics(after)),
    {
        let mid = choose|mid: S|
            {
                &&& #[trigger] between(mid)
                &&& self.visited_generic_params(from, before.params@, mid, after.params@)
                &&& self.visited_where_clause(mid, before.where_clause, to, after.where_clause)
            };
        self.generic_params_are_parts(from, before.params@, mid, after.params@);
        self.single_part(
            mid,
            Part::WhereClause(before.where_clause),
            to,
            Part::WhereClause(after.where_clause),
        );
        self.joined_parts(
            from,
            generic_params_parts(before.params@),
            mid,
            generic_params_parts(after.params@),
            seq![Part::WhereClause(before.where_clause)],
            to,
            seq![Part::WhereClause(after.where_clause)],
        );
    }

    /// A visitor whose calls can always be made can go through generic parameters.
    pub(crate) proof fn total_goes_through_generics(self, node: Generics)
        requires
            self.is_total(),
        ensures
            self.can_visit_generics(node),
        decreases node,
    {
        assert forall|i: int|
            0 <= i < node.params@.len() implies self.can_visit_generic_param(
            #[trigger] node.params@[i],
        ) by {
            self.total_goes_through_generic_param(node.params@[i]);
        }
        self.total_goes_through_where_clause(node.where_clause);
    }
}

/// What is visited in generic parameters is what is visited in what it is made of, part by part.
pub proof fn visits_the_parts_of_generics(node: Generics)
    ensures
        nodes_in_generics(node) == nodes_in_parts(parts_of_generics(node)),
{
    nodes_in_generic_params_parts(node.params@, node.params@.len() as int);
    assert(node.params@.take(node.params@.len() as int) =~= node.params@);
    nodes_in_one_part(Part::WhereClause(node.where_clause));
    nodes_in_joined_parts(
        generic_params_parts(node.params@),
        seq![Part::WhereClause(node.where_clause)],
    );
}

/// Every node that generic parameters holds in a field is a part of it.
pub proof fn fields_of_generics_are_parts(node: Generics)
    ensures
        (
            forall|i: int| 0 <= i < node.params@.len() ==> parts(
                Part::Generics(node),
            ).contains(Part::GenericParam(#[trigger] node.params@[i]))
        ),
        parts(Part::Generics(node)).contains(Part::WhereClause(node.where_clause)),
{
    broadcast use group_contains;

    assert forall|i: int| 0 <= i < node.params@.len() implies generic_params_parts(
        node.params@,
    ).contains(
        Part::GenericParam(#[trigger] node.params@[i]),
    ) by {
        assert(generic_params_parts(node.params@)[i] == Part::GenericParam(node.params@[i]));
    }
}

/// The parts of generic parameters stand in the order of the text.
pub proof fn parts_of_generics_stand_in_order(node: Generics)
    ensures
        parts(Part::Generics(node)).len() == (node.params@.len() as int) + 1,
        (
            forall|i: int| 0 <= i < node.params@.len() ==> parts(
                Part::Generics(node),
            )[i] == Part::GenericParam(#[trigger] node.params@[i])
        ),
        parts(
            Part::Generics(node),
        )[(node.params@.len() as int)] == Part::WhereClause(node.where_clause),
{
}

} // verus!
