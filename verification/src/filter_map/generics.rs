//! The visitor on generic parameters and bounds.

use vstd::prelude::*;

use crate::ast::attr::{Mac, attributes_same_as_themselves};
use crate::ast::expr::Expr;
use crate::ast::generics::{
    GenericBound, GenericParam, GenericParamKind, Generics, PolyTraitRef, TraitRef,
    WhereBoundPredicate, WhereClause, WhereEqPredicate, WherePredicate, WhereRegionPredicate,
    same_bounds, same_generic_params, same_predicates,
};
use crate::filter_map::{Rules, between};
use crate::settled::generics::{settled_bounds, settled_generic_params, settled_predicates};

verus! {

impl<
    S,
    F: Fn(&S, &str) -> (S, bool),
    G: Fn(&S, &Expr) -> (S, Expr),
    H: Fn(&S, &Mac) -> S,
> Rules<S, F, G, H> {
    /// A bound can be gone through.
    pub open spec fn can_visit_bound(self, node: GenericBound) -> bool
        decreases node,
    {
        match node {
            GenericBound::Trait(trait_ref, _) => self.can_visit_poly_trait_ref(trait_ref),
            _ => true,
        }
    }

    /// `after` is `before` with every expression in it visited in order.
    pub open spec fn visited_bound(
        self,
        from: S,
        before: GenericBound,
        to: S,
        after: GenericBound,
    ) -> bool
        decreases before,
    {
        match (before, after) {
            (
                GenericBound::Trait(trait_ref, modifier),
                GenericBound::Trait(trait_ref2, modifier2),
            ) => {
                &&& self.visited_poly_trait_ref(from, trait_ref, to, trait_ref2)
                &&& modifier == modifier2
            },
            _ => before == after && from == to,
        }
    }

    /// Goes through a bound.
    pub fn visit_bound(&self, state: &mut S, node: &mut GenericBound)
        requires
            self.can_visit_bound(*old(node)),
        ensures
            self.visited_bound(*old(state), *old(node), *final(state), *final(node)),
        decreases *old(node),
    {
        match node {
            GenericBound::Trait(trait_ref, _) => {
                self.visit_poly_trait_ref(state, trait_ref);
            },
            _ => {},
        }
    }

    /// A visit that accepts nothing settles a bound, and leaves it as it is where it was settled.
    pub(crate) proof fn quiet_visit_of_bound(
        self,
        from: S,
        before: GenericBound,
        to: S,
        after: GenericBound,
    )
        requires
            self.accepts_nothing(),
            self.visited_bound(from, before, to, after),
        ensures
            after.settled(),
            before.settled() ==> before.same(after),
        decreases before,
    {
        match (before, after) {
            (GenericBound::Trait(trait_ref, _), GenericBound::Trait(trait_ref2, _)) => {
                self.quiet_visit_of_poly_trait_ref(from, trait_ref, to, trait_ref2);
            },
            _ => {
                before.same_as_itself();
            },
        }
    }

    /// A list of bounds can be gone through.
    pub open spec fn can_visit_bounds(self, list: Seq<GenericBound>) -> bool
        decreases list,
    {
        forall|i: int| 0 <= i < list.len() ==> self.can_visit_bound(#[trigger] list[i])
    }

    /// `after` is `before` with every expression in it visited in order.
    pub open spec fn visited_bounds(
        self,
        from: S,
        before: Seq<GenericBound>,
        to: S,
        after: Seq<GenericBound>,
    ) -> bool
        decreases before,
    {
        &&& before.len() == after.len()
        &&& if before.len() == 0 {
            from == to
        } else {
            exists|mid: S|
                {
                    &&& #[trigger] between(mid)
                    &&& self.visited_bounds(from, before.drop_last(), mid, after.drop_last())
                    &&& self.visited_bound(mid, before.last(), to, after.last())
                }
        }
    }

    /// Goes through a list of bounds.
    pub fn visit_bounds(&self, state: &mut S, list: &mut Vec<GenericBound>)
        requires
            self.can_visit_bounds(old(list)@),
        ensures
            self.visited_bounds(*old(state), old(list)@, *final(state), final(list)@),
        decreases *old(list),
    {
        let ghost from = *state;
        let mut i: usize = 0;
        while i < list.len()
            invariant
                i <= list@.len(),
                list@.len() == old(list)@.len(),
                self.can_visit_bounds(old(list)@),
                self.visited_bounds(
                    from,
                    old(list)@.take(i as int),
                    *state,
                    list@.take(i as int),
                ),
                forall|j: int| i <= j < list@.len() ==> list@[j] == old(list)@[j],
            decreases list@.len() - i,
        {
            let ghost done = list@.take(i as int);
            assert(between(*state));
            assert(list@[i as int] == old(list)@[i as int]);
            self.visit_bound(state, &mut list[i]);
            i += 1;
            assert(old(list)@.take(i as int).drop_last() =~= old(list)@.take(i - 1));
            assert(list@.take(i as int).drop_last() =~= done);
        }
        assert(old(list)@.take(i as int) =~= old(list)@);
        assert(list@.take(i as int) =~= list@);
    }

    /// A visit that accepts nothing settles a list, and leaves it as it is where it was settled.
    pub(crate) proof fn quiet_visit_of_bounds(
        self,
        from: S,
        before: Seq<GenericBound>,
        to: S,
        after: Seq<GenericBound>,
    )
        requires
            self.accepts_nothing(),
            self.visited_bounds(from, before, to, after),
        ensures
            settled_bounds(after),
            settled_bounds(before) ==> same_bounds(before, after),
        decreases before,
    {
        if before.len() > 0 {
            let mid = choose|mid: S|
                {
                    &&& #[trigger] between(mid)
                    &&& self.visited_bounds(from, before.drop_last(), mid, after.drop_last())
                    &&& self.visited_bound(mid, before.last(), to, after.last())
                };
            self.quiet_visit_of_bounds(from, before.drop_last(), mid, after.drop_last());
            self.quiet_visit_of_bound(mid, before.last(), to, after.last());
            assert forall|i: int| 0 <= i < after.len() implies (#[trigger] after[i]).settled() by {
                if i < after.len() - 1 {
                    assert(after[i] == after.drop_last()[i]);
                }
            }
            if settled_bounds(before) {
                assert forall|i: int| 0 <= i < before.len() - 1 implies (
                    #[trigger] before.drop_last()[i]
                ).settled() by {
                    assert(before.drop_last()[i] == before[i]);
                }
                assert forall|i: int| 0 <= i < before.len() implies (#[trigger] before[i]).same(
                    after[i],
                ) by {
                    if i < before.len() - 1 {
                        assert(before.drop_last()[i].same(after.drop_last()[i]));
                    }
                }
            }
        }
    }

    /// A trait reference can be gone through.
    pub open spec fn can_visit_trait_ref(self, node: TraitRef) -> bool
        decreases node,
    {
        self.can_visit_path(node.path)
    }

    /// `after` is `before` with every expression in it visited in order.
    pub open spec fn visited_trait_ref(
        self,
        from: S,
        before: TraitRef,
        to: S,
        after: TraitRef,
    ) -> bool
        decreases before,
    {
        &&& self.visited_path(from, before.path, to, after.path)
        &&& before.ref_id == after.ref_id
    }

    /// Goes through a trait reference.
    pub fn visit_trait_ref(&self, state: &mut S, node: &mut TraitRef)
        requires
            self.can_visit_trait_ref(*old(node)),
        ensures
            self.visited_trait_ref(*old(state), *old(node), *final(state), *final(node)),
        decreases *old(node),
    {
        self.visit_path(state, &mut node.path);
    }

    /// A visit that accepts nothing settles a trait reference, and leaves it as it is where it was
    /// settled.
    pub(crate) proof fn quiet_visit_of_trait_ref(
        self,
        from: S,
        before: TraitRef,
        to: S,
        after: TraitRef,
    )
        requires
            self.accepts_nothing(),
            self.visited_trait_ref(from, before, to, after),
        ensures
            after.settled(),
            before.settled() ==> before.same(after),
        decreases before,
    {
        self.quiet_visit_of_path(from, before.path, to, after.path);
    }

    /// `after` is `before`, with every expression in it visited in order where it is there.
    pub open spec fn visited_optional_trait_ref(
        self,
        from: S,
        before: Option<TraitRef>,
        to: S,
        after: Option<TraitRef>,
    ) -> bool
        decreases before,
    {
        match (before, after) {
            (Some(x), Some(y)) => self.visited_trait_ref(from, x, to, y),
            (None, None) => from == to,
            _ => false,
        }
    }

    /// Goes through a trait reference where it is there.
    pub fn visit_optional_trait_ref(&self, state: &mut S, node: &mut Option<TraitRef>)
        requires
            *old(node) matches Some(x) ==> self.can_visit_trait_ref(x),
        ensures
            self.visited_optional_trait_ref(*old(state), *old(node), *final(state), *final(node)),
        decreases *old(node),
    {
        if let Some(x) = node {
            self.visit_trait_ref(state, x);
        }
    }

    /// A visit that accepts nothing settles what is there, and leaves it as it is where it was
    /// settled.
    pub(crate) proof fn quiet_visit_of_optional_trait_ref(
        self,
        from: S,
        before: Option<TraitRef>,
        to: S,
        after: Option<TraitRef>,
    )
        requires
            self.accepts_nothing(),
            self.visited_optional_trait_ref(from, before, to, after),
        ensures
            after matches Some(y) ==> y.settled(),
            match (before, after) {
                (Some(x), Some(y)) => x.settled() ==> x.same(y),
                (None, None) => true,
                _ => false,
            },
        decreases before,
    {
        if let (Some(x), Some(y)) = (before, after) {
            self.quiet_visit_of_trait_ref(from, x, to, y);
        }
    }

    /// A trait reference under `for` can be gone through.
    pub open spec fn can_visit_poly_trait_ref(self, node: PolyTraitRef) -> bool
        decreases node,
    {
        &&& self.can_visit_generic_params(node.bound_generic_params@)
        &&& self.can_visit_trait_ref(node.trait_ref)
    }

    /// `after` is `before` with every expression in it visited in order.
    pub open spec fn visited_poly_trait_ref(
        self,
        from: S,
        before: PolyTraitRef,
        to: S,
        after: PolyTraitRef,
    ) -> bool
        decreases before,
    {
        &&& exists|mid: S|
            {
                &&& #[trigger] between(mid)
                &&& self.visited_generic_params(
                    from,
                    before.bound_generic_params@,
                    mid,
                    after.bound_generic_params@,
                )
                &&& self.visited_trait_ref(mid, before.trait_ref, to, after.trait_ref)
            }
        &&& before.span == after.span
    }

    /// Goes through a trait reference under `for`.
    pub fn visit_poly_trait_ref(&self, state: &mut S, node: &mut PolyTraitRef)
        requires
            self.can_visit_poly_trait_ref(*old(node)),
        ensures
            self.visited_poly_trait_ref(*old(state), *old(node), *final(state), *final(node)),
        decreases *old(node),
    {
        self.visit_generic_params(state, &mut node.bound_generic_params);
        assert(between(*state));
        self.visit_trait_ref(state, &mut node.trait_ref);
    }

    /// A visit that accepts nothing settles a trait reference under `for`, and leaves it as it is
    /// where it was settled.
    pub(crate) proof fn quiet_visit_of_poly_trait_ref(
        self,
        from: S,
        before: PolyTraitRef,
        to: S,
        after: PolyTraitRef,
    )
        requires
            self.accepts_nothing(),
            self.visited_poly_trait_ref(from, before, to, after),
        ensures
            after.settled(),
            before.settled() ==> before.same(after),
        decreases before,
    {
        let mid = choose|mid: S|
            {
                &&& #[trigger] between(mid)
                &&& self.visited_generic_params(
                    from,
                    before.bound_generic_params@,
                    mid,
                    after.bound_generic_params@,
                )
                &&& self.visited_trait_ref(mid, before.trait_ref, to, after.trait_ref)
            };
        self.quiet_visit_of_generic_params(
            from,
            before.bound_generic_params@,
            mid,
            after.bound_generic_params@,
        );
        self.quiet_visit_of_trait_ref(mid, before.trait_ref, to, after.trait_ref);
    }

    /// The form of a generic parameter can be gone through.
    pub open spec fn can_visit_generic_param_kind(self, node: GenericParamKind) -> bool
        decreases node,
    {
        match node {
            GenericParamKind::Type { default } => {
                match default {
                    Some(x) => self.can_visit_ty(*x),
                    None => true,
                }
            },
            GenericParamKind::Const { ty } => self.can_visit_ty(*ty),
            _ => true,
        }
    }

    /// `after` is `before` with every expression in it visited in order.
    pub open spec fn visited_generic_param_kind(
        self,
        from: S,
        before: GenericParamKind,
        to: S,
        after: GenericParamKind,
    ) -> bool
        decreases before,
    {
        match (before, after) {
            (
                GenericParamKind::Type { default },
                GenericParamKind::Type { default: default2 },
            ) => self.visited_optional_ty(from, default, to, default2),
            (GenericParamKind::Const { ty }, GenericParamKind::Const { ty: ty2 }) => {
                self.visited_ty(from, *ty, to, *ty2)
            },
            _ => before == after && from == to,
        }
    }

    /// Goes through the form of a generic parameter.
    pub fn visit_generic_param_kind(&self, state: &mut S, node: &mut GenericParamKind)
        requires
            self.can_visit_generic_param_kind(*old(node)),
        ensures
            self.visited_generic_param_kind(*old(state), *old(node), *final(state), *final(node)),
        decreases *old(node),
    {
        match node {
            GenericParamKind::Type { default } => {
                self.visit_optional_ty(state, default);
            },
            GenericParamKind::Const { ty } => {
                self.visit_ty(state, ty);
            },
            _ => {},
        }
    }

    /// A visit that accepts nothing settles the form of a generic parameter, and leaves it as it is
    /// where it was settled.
    pub(crate) proof fn quiet_visit_of_generic_param_kind(
        self,
        from: S,
        before: GenericParamKind,
        to: S,
        after: GenericParamKind,
    )
        requires
            self.accepts_nothing(),
            self.visited_generic_param_kind(from, before, to, after),
        ensures
            after.settled(),
            before.settled() ==> before.same(after),
        decreases before,
    {
        match (before, after) {
            (
                GenericParamKind::Type { default },
                GenericParamKind::Type { default: default2 },
            ) => {
                self.quiet_visit_of_optional_ty(from, default, to, default2);
            },
            (GenericParamKind::Const { ty }, GenericParamKind::Const { ty: ty2 }) => {
                self.quiet_visit_of_ty(from, *ty, to, *ty2);
            },
            _ => {
                before.same_as_itself();
            },
        }
    }

    /// A generic parameter can be gone through.
    pub open spec fn can_visit_generic_param(self, node: GenericParam) -> bool
        decreases node,
    {
        &&& self.can_visit_bounds(node.bounds@)
        &&& self.can_visit_generic_param_kind(node.kind)
    }

    /// `after` is `before` with every expression in it visited in order.
    pub open spec fn visited_generic_param(
        self,
        from: S,
        before: GenericParam,
        to: S,
        after: GenericParam,
    ) -> bool
        decreases before,
    {
        &&& exists|mid: S|
            {
                &&& #[trigger] between(mid)
                &&& self.visited_bounds(from, before.bounds@, mid, after.bounds@)
                &&& self.visited_generic_param_kind(mid, before.kind, to, after.kind)
            }
        &&& before.id == after.id
        &&& before.ident == after.ident
        &&& before.attrs == after.attrs
        &&& before.is_placeholder == after.is_placeholder
    }

    /// Goes through a generic parameter.
    pub fn visit_generic_param(&self, state: &mut S, node: &mut GenericParam)
        requires
            self.can_visit_generic_param(*old(node)),
        ensures
            self.visited_generic_param(*old(state), *old(node), *final(state), *final(node)),
        decreases *old(node),
    {
        self.visit_bounds(state, &mut node.bounds);
        assert(between(*state));
        self.visit_generic_param_kind(state, &mut node.kind);
    }

    /// A visit that accepts nothing settles a generic parameter, and leaves it as it is where it
    /// was settled.
    pub(crate) proof fn quiet_visit_of_generic_param(
        self,
        from: S,
        before: GenericParam,
        to: S,
        after: GenericParam,
    )
        requires
            self.accepts_nothing(),
            self.visited_generic_param(from, before, to, after),
        ensures
            after.settled(),
            before.settled() ==> before.same(after),
        decreases before,
    {
        let mid = choose|mid: S|
            {
                &&& #[trigger] between(mid)
                &&& self.visited_bounds(from, before.bounds@, mid, after.bounds@)
                &&& self.visited_generic_param_kind(mid, before.kind, to, after.kind)
            };
        self.quiet_visit_of_bounds(from, before.bounds@, mid, after.bounds@);
        self.quiet_visit_of_generic_param_kind(mid, before.kind, to, after.kind);
        before.ident.same_as_itself();
        attributes_same_as_themselves(before.attrs@);
    }

    /// A list of generic parameters can be gone through.
    pub open spec fn can_visit_generic_params(self, list: Seq<GenericParam>) -> bool
        decreases list,
    {
        forall|i: int| 0 <= i < list.len() ==> self.can_visit_generic_param(#[trigger] list[i])
    }

    /// `after` is `before` with every expression in it visited in order.
    pub open spec fn visited_generic_params(
        self,
        from: S,
        before: Seq<GenericParam>,
        to: S,
        after: Seq<GenericParam>,
    ) -> bool
        decreases before,
    {
        &&& before.len() == after.len()
        &&& if before.len() == 0 {
            from == to
        } else {
            exists|mid: S|
                {
                    &&& #[trigger] between(mid)
                    &&& self.visited_generic_params(
                        from,
                        before.drop_last(),
                        mid,
                        after.drop_last(),
                    )
                    &&& self.visited_generic_param(mid, before.last(), to, after.last())
                }
        }
    }

    /// Goes through a list of generic parameters.
    pub fn visit_generic_params(&self, state: &mut S, list: &mut Vec<GenericParam>)
        requires
            self.can_visit_generic_params(old(list)@),
        ensures
            self.visited_generic_params(*old(state), old(list)@, *final(state), final(list)@),
        decreases *old(list),
    {
        let ghost from = *state;
        let mut i: usize = 0;
        while i < list.len()
            invariant
                i <= list@.len(),
                list@.len() == old(list)@.len(),
                self.can_visit_generic_params(old(list)@),
                self.visited_generic_params(
                    from,
                    old(list)@.take(i as int),
                    *state,
                    list@.take(i as int),
                ),
                forall|j: int| i <= j < list@.len() ==> list@[j] == old(list)@[j],
            decreases list@.len() - i,
        {
            let ghost done = list@.take(i as int);
            assert(between(*state));
            assert(list@[i as int] == old(list)@[i as int]);
            self.visit_generic_param(state, &mut list[i]);
            i += 1;
            assert(old(list)@.take(i as int).drop_last() =~= old(list)@.take(i - 1));
            assert(list@.take(i as int).drop_last() =~= done);
        }
        assert(old(list)@.take(i as int) =~= old(list)@);
        assert(list@.take(i as int) =~= list@);
    }

    /// A visit that accepts nothing settles a list, and leaves it as it is where it was settled.
    pub(crate) proof fn quiet_visit_of_generic_params(
        self,
        from: S,
        before: Seq<GenericParam>,
        to: S,
        after: Seq<GenericParam>,
    )
        requires
            self.accepts_nothing(),
            self.visited_generic_params(from, before, to, after),
        ensures
            settled_generic_params(after),
            settled_generic_params(before) ==> same_generic_params(before, after),
        decreases before,
    {
        if before.len() > 0 {
            let mid = choose|mid: S|
                {
                    &&& #[trigger] between(mid)
                    &&& self.visited_generic_params(
                        from,
                        before.drop_last(),
                        mid,
                        after.drop_last(),
                    )
                    &&& self.visited_generic_param(mid, before.last(), to, after.last())
                };
            self.quiet_visit_of_generic_params(from, before.drop_last(), mid, after.drop_last());
            self.quiet_visit_of_generic_param(mid, before.last(), to, after.last());
            assert forall|i: int| 0 <= i < after.len() implies (#[trigger] after[i]).settled() by {
                if i < after.len() - 1 {
                    assert(after[i] == after.drop_last()[i]);
                }
            }
            if settled_generic_params(before) {
                assert forall|i: int| 0 <= i < before.len() - 1 implies (
                    #[trigger] before.drop_last()[i]
                ).settled() by {
                    assert(before.drop_last()[i] == before[i]);
                }
                assert forall|i: int| 0 <= i < before.len() implies (#[trigger] before[i]).same(
                    after[i],
                ) by {
                    if i < before.len() - 1 {
                        assert(before.drop_last()[i].same(after.drop_last()[i]));
                    }
                }
            }
        }
    }

    /// A bound predicate can be gone through.
    pub open spec fn can_visit_bound_predicate(self, node: WhereBoundPredicate) -> bool
        decreases node,
    {
        &&& self.can_visit_generic_params(node.bound_generic_params@)
        &&& self.can_visit_ty(*node.bounded_ty)
        &&& self.can_visit_bounds(node.bounds@)
    }

    /// `after` is `before` with every expression in it visited in order.
    pub open spec fn visited_bound_predicate(
        self,
        from: S,
        before: WhereBoundPredicate,
        to: S,
        after: WhereBoundPredicate,
    ) -> bool
        decreases before,
    {
        &&& exists|first_mid: S, second_mid: S|
            {
                &&& #[trigger] between(first_mid)
                &&& #[trigger] between(second_mid)
                &&& self.visited_generic_params(
                    from,
                    before.bound_generic_params@,
                    first_mid,
                    after.bound_generic_params@,
                )
                &&& self.visited_ty(first_mid, *before.bounded_ty, second_mid, *after.bounded_ty)
                &&& self.visited_bounds(second_mid, before.bounds@, to, after.bounds@)
            }
        &&& before.span == after.span
    }

    /// Goes through a bound predicate.
    pub fn visit_bound_predicate(&self, state: &mut S, node: &mut WhereBoundPredicate)
        requires
            self.can_visit_bound_predicate(*old(node)),
        ensures
            self.visited_bound_predicate(*old(state), *old(node), *final(state), *final(node)),
        decreases *old(node),
    {
        self.visit_generic_params(state, &mut node.bound_generic_params);
        assert(between(*state));
        self.visit_ty(state, &mut node.bounded_ty);
        assert(between(*state));
        self.visit_bounds(state, &mut node.bounds);
    }

    /// A visit that accepts nothing settles a bound predicate, and leaves it as it is where it was
    /// settled.
    pub(crate) proof fn quiet_visit_of_bound_predicate(
        self,
        from: S,
        before: WhereBoundPredicate,
        to: S,
        after: WhereBoundPredicate,
    )
        requires
            self.accepts_nothing(),
            self.visited_bound_predicate(from, before, to, after),
        ensures
            after.settled(),
            before.settled() ==> before.same(after),
        decreases before,
    {
        let (first_mid, second_mid) = choose|first_mid: S, second_mid: S|
            {
                &&& #[trigger] between(first_mid)
                &&& #[trigger] between(second_mid)
                &&& self.visited_generic_params(
                    from,
                    before.bound_generic_params@,
                    first_mid,
                    after.bound_generic_params@,
                )
                &&& self.visited_ty(first_mid, *before.bounded_ty, second_mid, *after.bounded_ty)
                &&& self.visited_bounds(second_mid, before.bounds@, to, after.bounds@)
            };
        self.quiet_visit_of_generic_params(
            from,
            before.bound_generic_params@,
            first_mid,
            after.bound_generic_params@,
        );
        self.quiet_visit_of_ty(first_mid, *before.bounded_ty, second_mid, *after.bounded_ty);
        self.quiet_visit_of_bounds(second_mid, before.bounds@, to, after.bounds@);
    }

    /// A lifetime predicate can be gone through.
    pub open spec fn can_visit_region_predicate(self, node: WhereRegionPredicate) -> bool
        decreases node,
    {
        self.can_visit_bounds(node.bounds@)
    }

    /// `after` is `before` with every expression in it visited in order.
    pub open spec fn visited_region_predicate(
        self,
        from: S,
        before: WhereRegionPredicate,
        to: S,
        after: WhereRegionPredicate,
    ) -> bool
        decreases before,
    {
        &&& self.visited_bounds(from, before.bounds@, to, after.bounds@)
        &&& before.span == after.span
        &&& before.lifetime == after.lifetime
    }

    /// Goes through a lifetime predicate.
    pub fn visit_region_predicate(&self, state: &mut S, node: &mut WhereRegionPredicate)
        requires
            self.can_visit_region_predicate(*old(node)),
        ensures
            self.visited_region_predicate(*old(state), *old(node), *final(state), *final(node)),
        decreases *old(node),
    {
        self.visit_bounds(state, &mut node.bounds);
    }

    /// A visit that accepts nothing settles a lifetime predicate, and leaves it as it is where it
    /// was settled.
    pub(crate) proof fn quiet_visit_of_region_predicate(
        self,
        from: S,
        before: WhereRegionPredicate,
        to: S,
        after: WhereRegionPredicate,
    )
        requires
            self.accepts_nothing(),
            self.visited_region_predicate(from, before, to, after),
        ensures
            after.settled(),
            before.settled() ==> before.same(after),
        decreases before,
    {
        self.quiet_visit_of_bounds(from, before.bounds@, to, after.bounds@);
        before.lifetime.same_as_itself();
    }

    /// An equality predicate can be gone through.
    pub open spec fn can_visit_eq_predicate(self, node: WhereEqPredicate) -> bool
        decreases node,
    {
        &&& self.can_visit_ty(*node.lhs_ty)
        &&& self.can_visit_ty(*node.rhs_ty)
    }

    /// `after` is `before` with every expression in it visited in order.
    pub open spec fn visited_eq_predicate(
        self,
        from: S,
        before: WhereEqPredicate,
        to: S,
        after: WhereEqPredicate,
    ) -> bool
        decreases before,
    {
        &&& exists|mid: S|
            {
                &&& #[trigger] between(mid)
                &&& self.visited_ty(from, *before.lhs_ty, mid, *after.lhs_ty)
                &&& self.visited_ty(mid, *before.rhs_ty, to, *after.rhs_ty)
            }
        &&& before.id == after.id
        &&& before.span == after.span
    }

    /// Goes through an equality predicate.
    pub fn visit_eq_predicate(&self, state: &mut S, node: &mut WhereEqPredicate)
        requires
            self.can_visit_eq_predicate(*old(node)),
        ensures
            self.visited_eq_predicate(*old(state), *old(node), *final(state), *final(node)),
        decreases *old(node),
    {
        self.visit_ty(state, &mut node.lhs_ty);
        assert(between(*state));
        self.visit_ty(state, &mut node.rhs_ty);
    }

    /// A visit that accepts nothing settles an equality predicate, and leaves it as it is where it
    /// was settled.
    pub(crate) proof fn quiet_visit_of_eq_predicate(
        self,
        from: S,
        before: WhereEqPredicate,
        to: S,
        after: WhereEqPredicate,
    )
        requires
            self.accepts_nothing(),
            self.visited_eq_predicate(from, before, to, after),
        ensures
            after.settled(),
            before.settled() ==> before.same(after),
        decreases before,
    {
        let mid = choose|mid: S|
            {
                &&& #[trigger] between(mid)
                &&& self.visited_ty(from, *before.lhs_ty, mid, *after.lhs_ty)
                &&& self.visited_ty(mid, *before.rhs_ty, to, *after.rhs_ty)
            };
        self.quiet_visit_of_ty(from, *before.lhs_ty, mid, *after.lhs_ty);
        self.quiet_visit_of_ty(mid, *before.rhs_ty, to, *after.rhs_ty);
    }

    /// A predicate can be gone through.
    pub open spec fn can_visit_predicate(self, node: WherePredicate) -> bool
        decreases node,
    {
        match node {
            WherePredicate::BoundPredicate(predicate) => self.can_visit_bound_predicate(predicate),
            WherePredicate::RegionPredicate(predicate) => {
                self.can_visit_region_predicate(predicate)
            },
            WherePredicate::EqPredicate(predicate) => self.can_visit_eq_predicate(predicate),
        }
    }

    /// `after` is `before` with every expression in it visited in order.
    pub open spec fn visited_predicate(
        self,
        from: S,
        before: WherePredicate,
        to: S,
        after: WherePredicate,
    ) -> bool
        decreases before,
    {
        match (before, after) {
            (
                WherePredicate::BoundPredicate(predicate),
                WherePredicate::BoundPredicate(predicate2),
            ) => self.visited_bound_predicate(from, predicate, to, predicate2),
            (
                WherePredicate::RegionPredicate(predicate),
                WherePredicate::RegionPredicate(predicate2),
            ) => self.visited_region_predicate(from, predicate, to, predicate2),
            (
                WherePredicate::EqPredicate(predicate),
                WherePredicate::EqPredicate(predicate2),
            ) => self.visited_eq_predicate(from, predicate, to, predicate2),
            _ => before == after && from == to,
        }
    }

    /// Goes through a predicate.
    pub fn visit_predicate(&self, state: &mut S, node: &mut WherePredicate)
        requires
            self.can_visit_predicate(*old(node)),
        ensures
            self.visited_predicate(*old(state), *old(node), *final(state), *final(node)),
        decreases *old(node),
    {
        match node {
            WherePredicate::BoundPredicate(predicate) => {
                self.visit_bound_predicate(state, predicate);
            },
            WherePredicate::RegionPredicate(predicate) => {
                self.visit_region_predicate(state, predicate);
            },
            WherePredicate::EqPredicate(predicate) => {
                self.visit_eq_predicate(state, predicate);
            },
        }
    }

    /// A visit that accepts nothing settles a predicate, and leaves it as it is where it was
    /// settled.
    pub(crate) proof fn quiet_visit_of_predicate(
        self,
        from: S,
        before: WherePredicate,
        to: S,
        after: WherePredicate,
    )
        requires
            self.accepts_nothing(),
            self.visited_predicate(from, before, to, after),
        ensures
            after.settled(),
            before.settled() ==> before.same(after),
        decreases before,
    {
        match (before, after) {
            (
                WherePredicate::BoundPredicate(predicate),
                WherePredicate::BoundPredicate(predicate2),
            ) => {
                self.quiet_visit_of_bound_predicate(from, predicate, to, predicate2);
            },
            (
                WherePredicate::RegionPredicate(predicate),
                WherePredicate::RegionPredicate(predicate2),
            ) => {
                self.quiet_visit_of_region_predicate(from, predicate, to, predicate2);
            },
            (
                WherePredicate::EqPredicate(predicate),
                WherePredicate::EqPredicate(predicate2),
            ) => {
                self.quiet_visit_of_eq_predicate(from, predicate, to, predicate2);
            },
            _ => {},
        }
    }

    /// A list of predicates can be gone through.
    pub open spec fn can_visit_predicates(self, list: Seq<WherePredicate>) -> bool
        decreases list,
    {
        forall|i: int| 0 <= i < list.len() ==> self.can_visit_predicate(#[trigger] list[i])
    }

    /// `after` is `before` with every expression in it visited in order.
    pub open spec fn visited_predicates(
        self,
        from: S,
        before: Seq<WherePredicate>,
        to: S,
        after: Seq<WherePredicate>,
    ) -> bool
        decreases before,
    {
        &&& before.len() == after.len()
        &&& if before.len() == 0 {
            from == to
        } else {
            exists|mid: S|
                {
                    &&& #[trigger] between(mid)
                    &&& self.visited_predicates(from, before.drop_last(), mid, after.drop_last())
                    &&& self.visited_predicate(mid, before.last(), to, after.last())
                }
        }
    }

    /// Goes through a list of predicates.
    pub fn visit_predicates(&self, state: &mut S, list: &mut Vec<WherePredicate>)
        requires
            self.can_visit_predicates(old(list)@),
        ensures
            self.visited_predicates(*old(state), old(list)@, *final(state), final(list)@),
        decreases *old(list),
    {
        let ghost from = *state;
        let mut i: usize = 0;
        while i < list.len()
            invariant
                i <= list@.len(),
                list@.len() == old(list)@.len(),
                self.can_visit_predicates(old(list)@),
                self.visited_predicates(
                    from,
                    old(list)@.take(i as int),
                    *state,
                    list@.take(i as int),
                ),
                forall|j: int| i <= j < list@.len() ==> list@[j] == old(list)@[j],
            decreases list@.len() - i,
        {
            let ghost done = list@.take(i as int);
            assert(between(*state));
            assert(list@[i as int] == old(list)@[i as int]);
            self.visit_predicate(state, &mut list[i]);
            i += 1;
            assert(old(list)@.take(i as int).drop_last() =~= old(list)@.take(i - 1));
            assert(list@.take(i as int).drop_last() =~= done);
        }
        assert(old(list)@.take(i as int) =~= old(list)@);
        assert(list@.take(i as int) =~= list@);
    }

    /// A visit that accepts nothing settles a list, and leaves it as it is where it was settled.
    pub(crate) proof fn quiet_visit_of_predicates(
        self,
        from: S,
        before: Seq<WherePredicate>,
        to: S,
        after: Seq<WherePredicate>,
    )
        requires
            self.accepts_nothing(),
            self.visited_predicates(from, before, to, after),
        ensures
            settled_predicates(after),
            settled_predicates(before) ==> same_predicates(before, after),
        decreases before,
    {
        if before.len() > 0 {
            let mid = choose|mid: S|
                {
                    &&& #[trigger] between(mid)
                    &&& self.visited_predicates(from, before.drop_last(), mid, after.drop_last())
                    &&& self.visited_predicate(mid, before.last(), to, after.last())
                };
            self.quiet_visit_of_predicates(from, before.drop_last(), mid, after.drop_last());
            self.quiet_visit_of_predicate(mid, before.last(), to, after.last());
            assert forall|i: int| 0 <= i < after.len() implies (#[trigger] after[i]).settled() by {
                if i < after.len() - 1 {
                    assert(after[i] == after.drop_last()[i]);
                }
            }
            if settled_predicates(before) {
                assert forall|i: int| 0 <= i < before.len() - 1 implies (
                    #[trigger] before.drop_last()[i]
                ).settled() by {
                    assert(before.drop_last()[i] == before[i]);
                }
                assert forall|i: int| 0 <= i < before.len() implies (#[trigger] before[i]).same(
                    after[i],
                ) by {
                    if i < before.len() - 1 {
                        assert(before.drop_last()[i].same(after.drop_last()[i]));
                    }
                }
            }
        }
    }

    /// A `where` clause can be gone through.
    pub open spec fn can_visit_where_clause(self, node: WhereClause) -> bool
        decreases node,
    {
        self.can_visit_predicates(node.predicates@)
    }

    /// `after` is `before` with every expression in it visited in order.
    pub open spec fn visited_where_clause(
        self,
        from: S,
        before: WhereClause,
        to: S,
        after: WhereClause,
    ) -> bool
        decreases before,
    {
        &&& self.visited_predicates(from, before.predicates@, to, after.predicates@)
        &&& before.span == after.span
    }

    /// Goes through a `where` clause.
    pub fn visit_where_clause(&self, state: &mut S, node: &mut WhereClause)
        requires
            self.can_visit_where_clause(*old(node)),
        ensures
            self.visited_where_clause(*old(state), *old(node), *final(state), *final(node)),
        decreases *old(node),
    {
        self.visit_predicates(state, &mut node.predicates);
    }

    /// A visit that accepts nothing settles a `where` clause, and leaves it as it is where it was
    /// settled.
    pub(crate) proof fn quiet_visit_of_where_clause(
        self,
        from: S,
        before: WhereClause,
        to: S,
        after: WhereClause,
    )
        requires
            self.accepts_nothing(),
            self.visited_where_clause(from, before, to, after),
        ensures
            after.settled(),
            before.settled() ==> before.same(after),
        decreases before,
    {
        self.quiet_visit_of_predicates(from, before.predicates@, to, after.predicates@);
    }

    /// Generic parameters can be gone through.
    pub open spec fn can_visit_generics(self, node: Generics) -> bool
        decreases node,
    {
        &&& self.can_visit_generic_params(node.params@)
        &&& self.can_visit_where_clause(node.where_clause)
    }

    /// `after` is `before` with every expression in it visited in order.
    pub open spec fn visited_generics(
        self,
        from: S,
        before: Generics,
        to: S,
        after: Generics,
    ) -> bool
        decreases before,
    {
        &&& exists|mid: S|
            {
                &&& #[trigger] between(mid)
                &&& self.visited_generic_params(from, before.params@, mid, after.params@)
                &&& self.visited_where_clause(mid, before.where_clause, to, after.where_clause)
            }
        &&& before.span == after.span
    }

    /// Goes through generic parameters.
    pub fn visit_generics(&self, state: &mut S, node: &mut Generics)
        requires
            self.can_visit_generics(*old(node)),
        ensures
            self.visited_generics(*old(state), *old(node), *final(state), *final(node)),
        decreases *old(node),
    {
        self.visit_generic_params(state, &mut node.params);
        assert(between(*state));
        self.visit_where_clause(state, &mut node.where_clause);
    }

    /// A visit that accepts nothing settles generic parameters, and leaves it as it is where it was
    /// settled.
    pub(crate) proof fn quiet_visit_of_generics(
        self,
        from: S,
        before: Generics,
        to: S,
        after: Generics,
    )
        requires
            self.accepts_nothing(),
            self.visited_generics(from, before, to, after),
        ensures
            after.settled(),
            before.settled() ==> before.same(after),
        decreases before,
    {
        let mid = choose|mid: S|
            {
                &&& #[trigger] between(mid)
                &&& self.visited_generic_params(from, before.params@, mid, after.params@)
                &&& self.visited_where_clause(mid, before.where_clause, to, after.where_clause)
            };
        self.quiet_visit_of_generic_params(from, before.params@, mid, after.params@);
        self.quiet_visit_of_where_clause(mid, before.where_clause, to, after.where_clause);
    }
}

} // verus!
