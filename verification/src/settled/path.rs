//! Parentheses in paths.

use vstd::prelude::*;

use crate::ast::path::{
    AngleBracketedArgs, AssocTyConstraint, AssocTyConstraintKind, GenericArg, GenericArgs,
    ParenthesizedArgs, Path, PathSegment, QSelf,
};
use crate::settled::generics::settled_bounds;
use crate::settled::ty::settled_tys;

verus! {

impl Path {
    /// All parentheses in it have the ids of what stands between them.
    pub open spec fn settled(self) -> bool
        decreases self,
    {
        settled_segments(self.segments@)
    }
}

impl PathSegment {
    /// All parentheses in it have the ids of what stands between them.
    pub open spec fn settled(self) -> bool
        decreases self,
    {
        (self.args matches Some(x) ==> x.settled())
    }
}

/// All parentheses in a list of path segments have the ids of what stands between them.
pub open spec fn settled_segments(list: Seq<PathSegment>) -> bool
    decreases list,
{
    forall|i: int| 0 <= i < list.len() ==> (#[trigger] list[i]).settled()
}

impl GenericArgs {
    /// All parentheses in it have the ids of what stands between them.
    pub open spec fn settled(self) -> bool
        decreases self,
    {
        match self {
            GenericArgs::AngleBracketed(args) => args.settled(),
            GenericArgs::Parenthesized(args) => args.settled(),
        }
    }
}

impl GenericArg {
    /// All parentheses in it have the ids of what stands between them.
    pub open spec fn settled(self) -> bool
        decreases self,
    {
        match self {
            GenericArg::Type(ty) => ty.settled(),
            GenericArg::Const(constant) => constant.settled(),
            _ => true,
        }
    }
}

/// All parentheses in a list of generic arguments have the ids of what stands between them.
pub open spec fn settled_generic_arg_list(list: Seq<GenericArg>) -> bool
    decreases list,
{
    forall|i: int| 0 <= i < list.len() ==> (#[trigger] list[i]).settled()
}

impl AngleBracketedArgs {
    /// All parentheses in it have the ids of what stands between them.
    pub open spec fn settled(self) -> bool
        decreases self,
    {
        &&& settled_generic_arg_list(self.args@)
        &&& settled_constraints(self.constraints@)
    }
}

impl ParenthesizedArgs {
    /// All parentheses in it have the ids of what stands between them.
    pub open spec fn settled(self) -> bool
        decreases self,
    {
        &&& settled_tys(self.inputs@)
        &&& (self.output matches Some(x) ==> x.settled())
    }
}

impl AssocTyConstraint {
    /// All parentheses in it have the ids of what stands between them.
    pub open spec fn settled(self) -> bool
        decreases self,
    {
        self.kind.settled()
    }
}

/// All parentheses in a list of constraints have the ids of what stands between them.
pub open spec fn settled_constraints(list: Seq<AssocTyConstraint>) -> bool
    decreases list,
{
    forall|i: int| 0 <= i < list.len() ==> (#[trigger] list[i]).settled()
}

impl AssocTyConstraintKind {
    /// All parentheses in it have the ids of what stands between them.
    pub open spec fn settled(self) -> bool
        decreases self,
    {
        match self {
            AssocTyConstraintKind::Equality { ty } => ty.settled(),
            AssocTyConstraintKind::Bound { bounds } => settled_bounds(bounds@),
        }
    }
}

impl QSelf {
    /// All parentheses in it have the ids of what stands between them.
    pub open spec fn settled(self) -> bool
        decreases self,
    {
        self.ty.settled()
    }
}

} // verus!
