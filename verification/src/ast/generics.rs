//! Generic parameters, bounds and `where` clauses.

use vstd::prelude::*;

use crate::ast::attr::{Attribute, attributes_same_as_themselves, clone_attributes, same_attributes};
use crate::ast::flags::TraitBoundModifier;
use crate::ast::ident::{Ident, Lifetime, NodeId};
use crate::ast::path::Path;
use crate::ast::span::Span;
use crate::ast::ty::Ty;

verus! {

/// A bound on a type or a lifetime.
#[derive(Debug, PartialEq)]
pub enum GenericBound {
    Trait(PolyTraitRef, TraitBoundModifier),
    Outlives(Lifetime),
}

impl GenericBound {
    /// Both values hold the same contents.
    pub open spec fn same(self, other: GenericBound) -> bool
        decreases self,
    {
        match (self, other) {
            (
                GenericBound::Trait(trait_ref, modifier),
                GenericBound::Trait(trait_ref2, modifier2),
            ) => {
                &&& trait_ref.same(trait_ref2)
                &&& modifier == modifier2
            },
            (GenericBound::Outlives(lifetime), GenericBound::Outlives(lifetime2)) => {
                &&& lifetime.same(lifetime2)
            },
            _ => false,
        }
    }

    /// Every value holds the same contents as itself.
    pub proof fn same_as_itself(self)
        ensures
            self.same(self),
        decreases self,
    {
        match self {
            GenericBound::Trait(trait_ref, _) => {
                trait_ref.same_as_itself();
            },
            GenericBound::Outlives(lifetime) => {
                lifetime.same_as_itself();
            },
        }
    }
}

impl Clone for GenericBound {
    fn clone(&self) -> (copy: GenericBound)
        ensures
            self.same(copy),
        decreases *self,
    {
        match self {
            GenericBound::Trait(trait_ref, modifier) => GenericBound::Trait(
                trait_ref.clone(),
                *modifier,
            ),
            GenericBound::Outlives(lifetime) => GenericBound::Outlives(lifetime.clone()),
        }
    }
}

/// A reference to a trait.
#[derive(Debug, PartialEq)]
pub struct TraitRef {
    pub path: Path,
    pub ref_id: NodeId,
}

impl TraitRef {
    /// Both values hold the same contents.
    pub open spec fn same(self, other: TraitRef) -> bool
        decreases self,
    {
        &&& self.path.same(other.path)
        &&& self.ref_id == other.ref_id
    }

    /// Every value holds the same contents as itself.
    pub proof fn same_as_itself(self)
        ensures
            self.same(self),
        decreases self,
    {
        self.path.same_as_itself();
    }
}

impl Clone for TraitRef {
    fn clone(&self) -> (copy: TraitRef)
        ensures
            self.same(copy),
        decreases *self,
    {
        TraitRef {
            path: self.path.clone(),
            ref_id: self.ref_id,
        }
    }
}

/// A trait reference under `for<..>`.
#[derive(Debug, PartialEq)]
pub struct PolyTraitRef {
    pub bound_generic_params: Vec<GenericParam>,
    pub trait_ref: TraitRef,
    pub span: Span,
}

impl PolyTraitRef {
    /// Both values hold the same contents.
    pub open spec fn same(self, other: PolyTraitRef) -> bool
        decreases self,
    {
        &&& same_generic_params(self.bound_generic_params@, other.bound_generic_params@)
        &&& self.trait_ref.same(other.trait_ref)
        &&& self.span == other.span
    }

    /// Every value holds the same contents as itself.
    pub proof fn same_as_itself(self)
        ensures
            self.same(self),
        decreases self,
    {
        generic_params_same_as_themselves(self.bound_generic_params@);
        self.trait_ref.same_as_itself();
    }
}

impl Clone for PolyTraitRef {
    fn clone(&self) -> (copy: PolyTraitRef)
        ensures
            self.same(copy),
        decreases *self,
    {
        PolyTraitRef {
            bound_generic_params: clone_generic_params(&self.bound_generic_params),
            trait_ref: self.trait_ref.clone(),
            span: self.span,
        }
    }
}

/// What a generic parameter ranges over.
#[derive(Debug, PartialEq)]
pub enum GenericParamKind {
    Lifetime,
    Type { default: Option<Box<Ty>> },
    Const { ty: Box<Ty> },
}

impl GenericParamKind {
    /// Both values hold the same contents.
    pub open spec fn same(self, other: GenericParamKind) -> bool
        decreases self,
    {
        match (self, other) {
            (GenericParamKind::Lifetime, GenericParamKind::Lifetime) => true,
            (GenericParamKind::Type { default }, GenericParamKind::Type { default: default2 }) => {
                &&& match (default, default2) {
                    (Some(x), Some(y)) => x.same(*y),
                    (None, None) => true,
                    _ => false,
                }
            },
            (GenericParamKind::Const { ty }, GenericParamKind::Const { ty: ty2 }) => {
                &&& ty.same(*ty2)
            },
            _ => false,
        }
    }

    /// Every value holds the same contents as itself.
    pub proof fn same_as_itself(self)
        ensures
            self.same(self),
        decreases self,
    {
        match self {
            GenericParamKind::Type { default } => {
                if let Some(x) = default {
                    x.same_as_itself();
                }
            },
            GenericParamKind::Const { ty } => {
                ty.same_as_itself();
            },
            _ => {},
        }
    }
}

impl Clone for GenericParamKind {
    fn clone(&self) -> (copy: GenericParamKind)
        ensures
            self.same(copy),
        decreases *self,
    {
        match self {
            GenericParamKind::Lifetime => GenericParamKind::Lifetime,
            GenericParamKind::Type { default } => GenericParamKind::Type {
                default: match default {
                    Some(x) => Some(Box::new((**x).clone())),
                    None => None,
                },
            },
            GenericParamKind::Const { ty } => GenericParamKind::Const {
                ty: Box::new((**ty).clone()),
            },
        }
    }
}

/// A generic parameter.
#[derive(Debug, PartialEq)]
pub struct GenericParam {
    pub id: NodeId,
    pub ident: Ident,
    pub attrs: Vec<Attribute>,
    pub bounds: Vec<GenericBound>,
    pub is_placeholder: bool,
    pub kind: GenericParamKind,
}

impl GenericParam {
    /// Both values hold the same contents.
    pub open spec fn same(self, other: GenericParam) -> bool
        decreases self,
    {
        &&& self.id == other.id
        &&& self.ident.same(other.ident)
        &&& same_attributes(self.attrs@, other.attrs@)
        &&& same_bounds(self.bounds@, other.bounds@)
        &&& self.is_placeholder == other.is_placeholder
        &&& self.kind.same(other.kind)
    }

    /// Every value holds the same contents as itself.
    pub proof fn same_as_itself(self)
        ensures
            self.same(self),
        decreases self,
    {
        self.ident.same_as_itself();
        attributes_same_as_themselves(self.attrs@);
        bounds_same_as_themselves(self.bounds@);
        self.kind.same_as_itself();
    }
}

impl Clone for GenericParam {
    fn clone(&self) -> (copy: GenericParam)
        ensures
            self.same(copy),
        decreases *self,
    {
        GenericParam {
            id: self.id,
            ident: self.ident.clone(),
            attrs: clone_attributes(&self.attrs),
            bounds: clone_bounds(&self.bounds),
            is_placeholder: self.is_placeholder,
            kind: self.kind.clone(),
        }
    }
}

/// `for<..> T: A + B`.
#[derive(Debug, PartialEq)]
pub struct WhereBoundPredicate {
    pub span: Span,
    pub bound_generic_params: Vec<GenericParam>,
    pub bounded_ty: Box<Ty>,
    pub bounds: Vec<GenericBound>,
}

impl WhereBoundPredicate {
    /// Both values hold the same contents.
    pub open spec fn same(self, other: WhereBoundPredicate) -> bool
        decreases self,
    {
        &&& self.span == other.span
        &&& same_generic_params(self.bound_generic_params@, other.bound_generic_params@)
        &&& self.bounded_ty.same(*other.bounded_ty)
        &&& same_bounds(self.bounds@, other.bounds@)
    }

    /// Every value holds the same contents as itself.
    pub proof fn same_as_itself(self)
        ensures
            self.same(self),
        decreases self,
    {
        generic_params_same_as_themselves(self.bound_generic_params@);
        self.bounded_ty.same_as_itself();
        bounds_same_as_themselves(self.bounds@);
    }
}

impl Clone for WhereBoundPredicate {
    fn clone(&self) -> (copy: WhereBoundPredicate)
        ensures
            self.same(copy),
        decreases *self,
    {
        WhereBoundPredicate {
            span: self.span,
            bound_generic_params: clone_generic_params(&self.bound_generic_params),
            bounded_ty: Box::new((*self.bounded_ty).clone()),
            bounds: clone_bounds(&self.bounds),
        }
    }
}

/// `'a: 'b + 'c`.
#[derive(Debug, PartialEq)]
pub struct WhereRegionPredicate {
    pub span: Span,
    pub lifetime: Lifetime,
    pub bounds: Vec<GenericBound>,
}

impl WhereRegionPredicate {
    /// Both values hold the same contents.
    pub open spec fn same(self, other: WhereRegionPredicate) -> bool
        decreases self,
    {
        &&& self.span == other.span
        &&& self.lifetime.same(other.lifetime)
        &&& same_bounds(self.bounds@, other.bounds@)
    }

    /// Every value holds the same contents as itself.
    pub proof fn same_as_itself(self)
        ensures
            self.same(self),
        decreases self,
    {
        self.lifetime.same_as_itself();
        bounds_same_as_themselves(self.bounds@);
    }
}

impl Clone for WhereRegionPredicate {
    fn clone(&self) -> (copy: WhereRegionPredicate)
        ensures
            self.same(copy),
        decreases *self,
    {
        WhereRegionPredicate {
            span: self.span,
            lifetime: self.lifetime.clone(),
            bounds: clone_bounds(&self.bounds),
        }
    }
}

/// `T = U`.
#[derive(Debug, PartialEq)]
pub struct WhereEqPredicate {
    pub id: NodeId,
    pub span: Span,
    pub lhs_ty: Box<Ty>,
    pub rhs_ty: Box<Ty>,
}

impl WhereEqPredicate {
    /// Both values hold the same contents.
    pub open spec fn same(self, other: WhereEqPredicate) -> bool
        decreases self,
    {
        &&& self.id == other.id
        &&& self.span == other.span
        &&& self.lhs_ty.same(*other.lhs_ty)
        &&& self.rhs_ty.same(*other.rhs_ty)
    }

    /// Every value holds the same contents as itself.
    pub proof fn same_as_itself(self)
        ensures
            self.same(self),
        decreases self,
    {
        self.lhs_ty.same_as_itself();
        self.rhs_ty.same_as_itself();
    }
}

impl Clone for WhereEqPredicate {
    fn clone(&self) -> (copy: WhereEqPredicate)
        ensures
            self.same(copy),
        decreases *self,
    {
        WhereEqPredicate {
            id: self.id,
            span: self.span,
            lhs_ty: Box::new((*self.lhs_ty).clone()),
            rhs_ty: Box::new((*self.rhs_ty).clone()),
        }
    }
}

/// One predicate of a `where` clause.
#[derive(Debug, PartialEq)]
pub enum WherePredicate {
    BoundPredicate(WhereBoundPredicate),
    RegionPredicate(WhereRegionPredicate),
    EqPredicate(WhereEqPredicate),
}

impl WherePredicate {
    /// Both values hold the same contents.
    pub open spec fn same(self, other: WherePredicate) -> bool
        decreases self,
    {
        match (self, other) {
            (
                WherePredicate::BoundPredicate(predicate),
                WherePredicate::BoundPredicate(predicate2),
            ) => {
                &&& predicate.same(predicate2)
            },
            (
                WherePredicate::RegionPredicate(predicate),
                WherePredicate::RegionPredicate(predicate2),
            ) => {
                &&& predicate.same(predicate2)
            },
            (WherePredicate::EqPredicate(predicate), WherePredicate::EqPredicate(predicate2)) => {
                &&& predicate.same(predicate2)
            },
            _ => false,
        }
    }

    /// Every value holds the same contents as itself.
    pub proof fn same_as_itself(self)
        ensures
            self.same(self),
        decreases self,
    {
        match self {
            WherePredicate::BoundPredicate(predicate) => {
                predicate.same_as_itself();
            },
            WherePredicate::RegionPredicate(predicate) => {
                predicate.same_as_itself();
            },
            WherePredicate::EqPredicate(predicate) => {
                predicate.same_as_itself();
            },
        }
    }
}

impl Clone for WherePredicate {
    fn clone(&self) -> (copy: WherePredicate)
        ensures
            self.same(copy),
        decreases *self,
    {
        match self {
            WherePredicate::BoundPredicate(predicate) => WherePredicate::BoundPredicate(
                predicate.clone(),
            ),
            WherePredicate::RegionPredicate(predicate) => WherePredicate::RegionPredicate(
                predicate.clone(),
            ),
            WherePredicate::EqPredicate(predicate) => WherePredicate::EqPredicate(
                predicate.clone(),
            ),
        }
    }
}

/// A `where` clause.
#[derive(Debug, PartialEq)]
pub struct WhereClause {
    pub predicates: Vec<WherePredicate>,
    pub span: Span,
}

impl WhereClause {
    /// Both values hold the same contents.
    pub open spec fn same(self, other: WhereClause) -> bool
        decreases self,
    {
        &&& same_predicates(self.predicates@, other.predicates@)
        &&& self.span == other.span
    }

    /// Every value holds the same contents as itself.
    pub proof fn same_as_itself(self)
        ensures
            self.same(self),
        decreases self,
    {
        predicates_same_as_themselves(self.predicates@);
    }
}

impl Clone for WhereClause {
    fn clone(&self) -> (copy: WhereClause)
        ensures
            self.same(copy),
        decreases *self,
    {
        WhereClause {
            predicates: clone_predicates(&self.predicates),
            span: self.span,
        }
    }
}

/// The generic parameters of an item.
#[derive(Debug, PartialEq)]
pub struct Generics {
    pub params: Vec<GenericParam>,
    pub where_clause: WhereClause,
    pub span: Span,
}

impl Generics {
    /// Both values hold the same contents.
    pub open spec fn same(self, other: Generics) -> bool
        decreases self,
    {
        &&& same_generic_params(self.params@, other.params@)
        &&& self.where_clause.same(other.where_clause)
        &&& self.span == other.span
    }

    /// Every value holds the same contents as itself.
    pub proof fn same_as_itself(self)
        ensures
            self.same(self),
        decreases self,
    {
        generic_params_same_as_themselves(self.params@);
        self.where_clause.same_as_itself();
    }
}

impl Clone for Generics {
    fn clone(&self) -> (copy: Generics)
        ensures
            self.same(copy),
        decreases *self,
    {
        Generics {
            params: clone_generic_params(&self.params),
            where_clause: self.where_clause.clone(),
            span: self.span,
        }
    }
}

/// Both lists hold the same bounds in the same order.
pub open spec fn same_bounds(list: Seq<GenericBound>, other: Seq<GenericBound>) -> bool
    decreases list,
{
    &&& list.len() == other.len()
    &&& forall|i: int| 0 <= i < list.len() ==> (#[trigger] list[i]).same(other[i])
}

/// Every list of bounds is the same as itself.
pub proof fn bounds_same_as_themselves(list: Seq<GenericBound>)
    ensures
        same_bounds(list, list),
    decreases list,
{
    assert forall|i: int| 0 <= i < list.len() implies (#[trigger] list[i]).same(list[i]) by {
        list[i].same_as_itself();
    }
}

/// A copy of a list of bounds.
pub fn clone_bounds(list: &Vec<GenericBound>) -> (copy: Vec<GenericBound>)
    ensures
        same_bounds(list@, copy@),
    decreases *list,
{
    let mut copy: Vec<GenericBound> = Vec::new();
    let mut i: usize = 0;
    while i < list.len()
        invariant
            i <= list@.len(),
            copy@.len() == i,
            forall|j: int| 0 <= j < i ==> (#[trigger] list@[j]).same(copy@[j]),
        decreases list@.len() - i,
    {
        copy.push(list[i].clone());
        i += 1;
    }
    copy
}

/// Both lists hold the same generic parameters in the same order.
pub open spec fn same_generic_params(list: Seq<GenericParam>, other: Seq<GenericParam>) -> bool
    decreases list,
{
    &&& list.len() == other.len()
    &&& forall|i: int| 0 <= i < list.len() ==> (#[trigger] list[i]).same(other[i])
}

/// Every list of generic parameters is the same as itself.
pub proof fn generic_params_same_as_themselves(list: Seq<GenericParam>)
    ensures
        same_generic_params(list, list),
    decreases list,
{
    assert forall|i: int| 0 <= i < list.len() implies (#[trigger] list[i]).same(list[i]) by {
        list[i].same_as_itself();
    }
}

/// A copy of a list of generic parameters.
pub fn clone_generic_params(list: &Vec<GenericParam>) -> (copy: Vec<GenericParam>)
    ensures
        same_generic_params(list@, copy@),
    decreases *list,
{
    let mut copy: Vec<GenericParam> = Vec::new();
    let mut i: usize = 0;
    while i < list.len()
        invariant
            i <= list@.len(),
            copy@.len() == i,
            forall|j: int| 0 <= j < i ==> (#[trigger] list@[j]).same(copy@[j]),
        decreases list@.len() - i,
    {
        copy.push(list[i].clone());
        i += 1;
    }
    copy
}

/// Both lists hold the same predicates in the same order.
pub open spec fn same_predicates(list: Seq<WherePredicate>, other: Seq<WherePredicate>) -> bool
    decreases list,
{
    &&& list.len() == other.len()
    &&& forall|i: int| 0 <= i < list.len() ==> (#[trigger] list[i]).same(other[i])
}

/// Every list of predicates is the same as itself.
pub proof fn predicates_same_as_themselves(list: Seq<WherePredicate>)
    ensures
        same_predicates(list, list),
    decreases list,
{
    assert forall|i: int| 0 <= i < list.len() implies (#[trigger] list[i]).same(list[i]) by {
        list[i].same_as_itself();
    }
}

/// A copy of a list of predicates.
pub fn clone_predicates(list: &Vec<WherePredicate>) -> (copy: Vec<WherePredicate>)
    ensures
        same_predicates(list@, copy@),
    decreases *list,
{
    let mut copy: Vec<WherePredicate> = Vec::new();
    let mut i: usize = 0;
    while i < list.len()
        invariant
            i <= list@.len(),
            copy@.len() == i,
            forall|j: int| 0 <= j < i ==> (#[trigger] list@[j]).same(copy@[j]),
        decreases list@.len() - i,
    {
        copy.push(list[i].clone());
        i += 1;
    }
    copy
}

} // verus!
