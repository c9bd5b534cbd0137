//! Parentheses in generic parameters and bounds.

use vstd::prelude::*;

use crate::ast::generics::{
    GenericBound, GenericParam, GenericParamKind, Generics, PolyTraitRef, TraitRef,
    WhereBoundPredicate, WhereClause, WhereEqPredicate, WherePredicate, WhereRegionPredicate,
};

verus! {

impl GenericBound {
    /// All parentheses in it have the ids of what stands between them.
    pub open spec fn settled(self) -> bool
        decreases self,
    {
        match self {
            GenericBound::Trait(trait_ref, _) => trait_ref.settled(),
            _ => true,
        }
    }
}

/// All parentheses in a list of bounds have the ids of what stands between them.
pub open spec fn settled_bounds(list: Seq<GenericBound>) -> bool
    decreases list,
{
    forall|i: int| 0 <= i < list.len() ==> (#[trigger] list[i]).settled()
}

impl TraitRef {
    /// All parentheses in it have the ids of what stands between them.
    pub open spec fn settled(self) -> bool
        decreases self,
    {
        self.path.settled()
    }
}

impl PolyTraitRef {
    /// All parentheses in it have the ids of what stands between them.
    pub open spec fn settled(self) -> bool
        decreases self,
    {
        &&& settled_generic_params(self.bound_generic_params@)
        &&& self.trait_ref.settled()
    }
}

impl GenericParamKind {
    /// All parentheses in it have the ids of what stands between them.
    pub open spec fn settled(self) -> bool
        decreases self,
    {
        match self {
            GenericParamKind::Type { default } => (default matches Some(x) ==> x.settled()),
            GenericParamKind::Const { ty } => ty.settled(),
            _ => true,
        }
    }
}

impl GenericParam {
    /// All parentheses in it have the ids of what stands between them.
    pub open spec fn settled(self) -> bool
        decreases self,
    {
        &&& settled_bounds(self.bounds@)
        &&& self.kind.settled()
    }
}

/// All parentheses in a list of generic parameters have the ids of what stands between them.
pub open spec fn settled_generic_params(list: Seq<GenericParam>) -> bool
    decreases list,
{
    forall|i: int| 0 <= i < list.len() ==> (#[trigger] list[i]).settled()
}

impl WhereBoundPredicate {
    /// All parentheses in it have the ids of what stands between them.
    pub open spec fn settled(self) -> bool
        decreases self,
    {
        &&& settled_generic_params(self.bound_generic_params@)
        &&& self.bounded_ty.settled()
        &&& settled_bounds(self.bounds@)
    }
}

impl WhereRegionPredicate {
    /// All parentheses in it have the ids of what stands between them.
    pub open spec fn settled(self) -> bool
        decreases self,
    {
        settled_bounds(self.bounds@)
    }
}

impl WhereEqPredicate {
    /// All parentheses in it have the ids of what stands between them.
    pub open spec fn settled(self) -> bool
        decreases self,
    {
        &&& self.lhs_ty.settled()
        &&& self.rhs_ty.settled()
    }
}

impl WherePredicate {
    /// All parentheses in it have the ids of what stands between them.
    pub open spec fn settled(self) -> bool
        decreases self,
    {
        match self {
            WherePredicate::BoundPredicate(predicate) => predicate.settled(),
            WherePredicate::RegionPredicate(predicate) => predicate.settled(),
            WherePredicate::EqPredicate(predicate) => predicate.settled(),
        }
    }
}

/// All parentheses in a list of predicates have the ids of what stands between them.
pub open spec fn settled_predicates(list: Seq<WherePredicate>) -> bool
    decreases list,
{
    forall|i: int| 0 <= i < list.len() ==> (#[trigger] list[i]).settled()
}

impl WhereClause {
    /// All parentheses in it have the ids of what stands between them.
    pub open spec fn settled(self) -> bool
        decreases self,
    {
        settled_predicates(self.predicates@)
    }
}

impl Generics {
    /// All parentheses in it have the ids of what stands between them.
    pub open spec fn settled(self) -> bool
        decreases self,
    {
        &&& settled_generic_params(self.params@)
        &&& self.where_clause.settled()
    }
}

} // verus!
