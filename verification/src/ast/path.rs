//! Paths and their generic arguments.

use vstd::prelude::*;

use crate::ast::expr::AnonConst;
use crate::ast::generics::{GenericBound, bounds_same_as_themselves, clone_bounds, same_bounds};
use crate::ast::ident::{Ident, Lifetime, NodeId, dummy_id, dummy_node_id};
use crate::ast::span::Span;
use crate::ast::ty::{Ty, clone_tys, same_tys, tys_same_as_themselves};

verus! {

impl Path {
    /// The path of this one name.
    pub fn from_ident(ident: Ident) -> (path: Path)
        ensures
            path.span == ident.span,
            path.segments@ == seq![PathSegment { ident, id: dummy_id(), args: None }],
    {
        let span: Span = ident.span;
        let segment = PathSegment::from_ident(ident);
        Path { span, segments: vec![segment] }
    }
}

impl PathSegment {
    /// The segment of this name, without generic arguments.
    pub fn from_ident(ident: Ident) -> (segment: PathSegment)
        ensures
            segment == (PathSegment { ident, id: dummy_id(), args: None }),
    {
        PathSegment { ident, id: dummy_node_id(), args: None }
    }
}

/// A path such as `std::vec::Vec<u8>`.
#[derive(Debug, PartialEq)]
pub struct Path {
    pub span: Span,
    pub segments: Vec<PathSegment>,
}

impl Path {
    /// Both values hold the same contents.
    pub open spec fn same(self, other: Path) -> bool
        decreases self,
    {
        &&& self.span == other.span
        &&& same_segments(self.segments@, other.segments@)
    }

    /// Every value holds the same contents as itself.
    pub proof fn same_as_itself(self)
        ensures
            self.same(self),
        decreases self,
    {
        segments_same_as_themselves(self.segments@);
    }
}

impl Clone for Path {
    fn clone(&self) -> (copy: Path)
        ensures
            self.same(copy),
        decreases *self,
    {
        Path {
            span: self.span,
            segments: clone_segments(&self.segments),
        }
    }
}

/// One segment of a path, with its generic arguments.
#[derive(Debug, PartialEq)]
pub struct PathSegment {
    pub ident: Ident,
    pub id: NodeId,
    pub args: Option<Box<GenericArgs>>,
}

impl PathSegment {
    /// Both values hold the same contents.
    pub open spec fn same(self, other: PathSegment) -> bool
        decreases self,
    {
        &&& self.ident.same(other.ident)
        &&& self.id == other.id
        &&& match (self.args, other.args) {
            (Some(x), Some(y)) => x.same(*y),
            (None, None) => true,
            _ => false,
        }
    }

    /// Every value holds the same contents as itself.
    pub proof fn same_as_itself(self)
        ensures
            self.same(self),
        decreases self,
    {
        self.ident.same_as_itself();
        if let Some(x) = self.args {
            x.same_as_itself();
        }
    }
}

impl Clone for PathSegment {
    fn clone(&self) -> (copy: PathSegment)
        ensures
            self.same(copy),
        decreases *self,
    {
        PathSegment {
            ident: self.ident.clone(),
            id: self.id,
            args: match &self.args {
                Some(x) => Some(Box::new((**x).clone())),
                None => None,
            },
        }
    }
}

/// The generic arguments of a path segment.
#[derive(Debug, PartialEq)]
pub enum GenericArgs {
    AngleBracketed(AngleBracketedArgs),
    Parenthesized(ParenthesizedArgs),
}

impl GenericArgs {
    /// Both values hold the same contents.
    pub open spec fn same(self, other: GenericArgs) -> bool
        decreases self,
    {
        match (self, other) {
            (GenericArgs::AngleBracketed(args), GenericArgs::AngleBracketed(args2)) => {
                &&& args.same(args2)
            },
            (GenericArgs::Parenthesized(args), GenericArgs::Parenthesized(args2)) => {
                &&& args.same(args2)
            },
            _ => false,
        }
    }

    /// Every value holds the same contents as itself.
    pub proof fn same_as_itself(self)
        ensures
            self.same(self),
        decreases self,
    {
        match self {
            GenericArgs::AngleBracketed(args) => {
                args.same_as_itself();
            },
            GenericArgs::Parenthesized(args) => {
                args.same_as_itself();
            },
        }
    }
}

impl Clone for GenericArgs {
    fn clone(&self) -> (copy: GenericArgs)
        ensures
            self.same(copy),
        decreases *self,
    {
        match self {
            GenericArgs::AngleBracketed(args) => GenericArgs::AngleBracketed(args.clone()),
            GenericArgs::Parenthesized(args) => GenericArgs::Parenthesized(args.clone()),
        }
    }
}

/// One generic argument.
#[derive(Debug, PartialEq)]
pub enum GenericArg {
    Lifetime(Lifetime),
    Type(Box<Ty>),
    Const(AnonConst),
}

impl GenericArg {
    /// Both values hold the same contents.
    pub open spec fn same(self, other: GenericArg) -> bool
        decreases self,
    {
        match (self, other) {
            (GenericArg::Lifetime(lifetime), GenericArg::Lifetime(lifetime2)) => {
                &&& lifetime.same(lifetime2)
            },
            (GenericArg::Type(ty), GenericArg::Type(ty2)) => ty.same(*ty2),
            (GenericArg::Const(constant), GenericArg::Const(constant2)) => {
                &&& constant.same(constant2)
            },
            _ => false,
        }
    }

    /// Every value holds the same contents as itself.
    pub proof fn same_as_itself(self)
        ensures
            self.same(self),
        decreases self,
    {
        match self {
            GenericArg::Lifetime(lifetime) => {
                lifetime.same_as_itself();
            },
            GenericArg::Type(ty) => {
                ty.same_as_itself();
            },
            GenericArg::Const(constant) => {
                constant.same_as_itself();
            },
        }
    }
}

impl Clone for GenericArg {
    fn clone(&self) -> (copy: GenericArg)
        ensures
            self.same(copy),
        decreases *self,
    {
        match self {
            GenericArg::Lifetime(lifetime) => GenericArg::Lifetime(lifetime.clone()),
            GenericArg::Type(ty) => GenericArg::Type(Box::new((**ty).clone())),
            GenericArg::Const(constant) => GenericArg::Const(constant.clone()),
        }
    }
}

/// Arguments between angle brackets.
#[derive(Debug, PartialEq)]
pub struct AngleBracketedArgs {
    pub span: Span,
    pub args: Vec<GenericArg>,
    pub constraints: Vec<AssocTyConstraint>,
}

impl AngleBracketedArgs {
    /// Both values hold the same contents.
    pub open spec fn same(self, other: AngleBracketedArgs) -> bool
        decreases self,
    {
        &&& self.span == other.span
        &&& same_generic_args(self.args@, other.args@)
        &&& same_constraints(self.constraints@, other.constraints@)
    }

    /// Every value holds the same contents as itself.
    pub proof fn same_as_itself(self)
        ensures
            self.same(self),
        decreases self,
    {
        generic_args_same_as_themselves(self.args@);
        constraints_same_as_themselves(self.constraints@);
    }
}

impl Clone for AngleBracketedArgs {
    fn clone(&self) -> (copy: AngleBracketedArgs)
        ensures
            self.same(copy),
        decreases *self,
    {
        AngleBracketedArgs {
            span: self.span,
            args: clone_generic_args(&self.args),
            constraints: clone_constraints(&self.constraints),
        }
    }
}

/// Arguments between round brackets, as in `Fn(A) -> B`.
#[derive(Debug, PartialEq)]
pub struct ParenthesizedArgs {
    pub span: Span,
    pub inputs: Vec<Ty>,
    pub output: Option<Box<Ty>>,
}

impl ParenthesizedArgs {
    /// Both values hold the same contents.
    pub open spec fn same(self, other: ParenthesizedArgs) -> bool
        decreases self,
    {
        &&& self.span == other.span
        &&& same_tys(self.inputs@, other.inputs@)
        &&& match (self.output, other.output) {
            (Some(x), Some(y)) => x.same(*y),
            (None, None) => true,
            _ => false,
        }
    }

    /// Every value holds the same contents as itself.
    pub proof fn same_as_itself(self)
        ensures
            self.same(self),
        decreases self,
    {
        tys_same_as_themselves(self.inputs@);
        if let Some(x) = self.output {
            x.same_as_itself();
        }
    }
}

impl Clone for ParenthesizedArgs {
    fn clone(&self) -> (copy: ParenthesizedArgs)
        ensures
            self.same(copy),
        decreases *self,
    {
        ParenthesizedArgs {
            span: self.span,
            inputs: clone_tys(&self.inputs),
            output: match &self.output {
                Some(x) => Some(Box::new((**x).clone())),
                None => None,
            },
        }
    }
}

/// A constraint on an associated type.
#[derive(Debug, PartialEq)]
pub struct AssocTyConstraint {
    pub id: NodeId,
    pub ident: Ident,
    pub kind: AssocTyConstraintKind,
    pub span: Span,
}

impl AssocTyConstraint {
    /// Both values hold the same contents.
    pub open spec fn same(self, other: AssocTyConstraint) -> bool
        decreases self,
    {
        &&& self.id == other.id
        &&& self.ident.same(other.ident)
        &&& self.kind.same(other.kind)
        &&& self.span == other.span
    }

    /// Every value holds the same contents as itself.
    pub proof fn same_as_itself(self)
        ensures
            self.same(self),
        decreases self,
    {
        self.ident.same_as_itself();
        self.kind.same_as_itself();
    }
}

impl Clone for AssocTyConstraint {
    fn clone(&self) -> (copy: AssocTyConstraint)
        ensures
            self.same(copy),
        decreases *self,
    {
        AssocTyConstraint {
            id: self.id,
            ident: self.ident.clone(),
            kind: self.kind.clone(),
            span: self.span,
        }
    }
}

/// The two forms of a constraint on an associated type.
#[derive(Debug, PartialEq)]
pub enum AssocTyConstraintKind {
    Equality { ty: Box<Ty> },
    Bound { bounds: Vec<GenericBound> },
}

impl AssocTyConstraintKind {
    /// Both values hold the same contents.
    pub open spec fn same(self, other: AssocTyConstraintKind) -> bool
        decreases self,
    {
        match (self, other) {
            (
                AssocTyConstraintKind::Equality { ty },
                AssocTyConstraintKind::Equality { ty: ty2 },
            ) => {
                &&& ty.same(*ty2)
            },
            (
                AssocTyConstraintKind::Bound { bounds },
                AssocTyConstraintKind::Bound { bounds: bounds2 },
            ) => {
                &&& same_bounds(bounds@, bounds2@)
            },
            _ => false,
        }
    }

    /// Every value holds the same contents as itself.
    pub proof fn same_as_itself(self)
        ensures
            self.same(self),
        decreases self,
    {
        match self {
            AssocTyConstraintKind::Equality { ty } => {
                ty.same_as_itself();
            },
            AssocTyConstraintKind::Bound { bounds } => {
                bounds_same_as_themselves(bounds@);
            },
        }
    }
}

impl Clone for AssocTyConstraintKind {
    fn clone(&self) -> (copy: AssocTyConstraintKind)
        ensures
            self.same(copy),
        decreases *self,
    {
        match self {
            AssocTyConstraintKind::Equality { ty } => AssocTyConstraintKind::Equality {
                ty: Box::new((**ty).clone()),
            },
            AssocTyConstraintKind::Bound { bounds } => AssocTyConstraintKind::Bound {
                bounds: clone_bounds(bounds),
            },
        }
    }
}

/// The explicit self type of a qualified path.
#[derive(Debug, PartialEq)]
pub struct QSelf {
    pub ty: Box<Ty>,
    pub path_span: Span,
    pub position: usize,
}

impl QSelf {
    /// Both values hold the same contents.
    pub open spec fn same(self, other: QSelf) -> bool
        decreases self,
    {
        &&& self.ty.same(*other.ty)
        &&& self.path_span == other.path_span
        &&& self.position == other.position
    }

    /// Every value holds the same contents as itself.
    pub proof fn same_as_itself(self)
        ensures
            self.same(self),
        decreases self,
    {
        self.ty.same_as_itself();
    }
}

impl Clone for QSelf {
    fn clone(&self) -> (copy: QSelf)
        ensures
            self.same(copy),
        decreases *self,
    {
        QSelf {
            ty: Box::new((*self.ty).clone()),
            path_span: self.path_span,
            position: self.position,
        }
    }
}

/// Both lists hold the same path segments in the same order.
pub open spec fn same_segments(list: Seq<PathSegment>, other: Seq<PathSegment>) -> bool
    decreases list,
{
    &&& list.len() == other.len()
    &&& forall|i: int| 0 <= i < list.len() ==> (#[trigger] list[i]).same(other[i])
}

/// Every list of path segments is the same as itself.
pub proof fn segments_same_as_themselves(list: Seq<PathSegment>)
    ensures
        same_segments(list, list),
    decreases list,
{
    assert forall|i: int| 0 <= i < list.len() implies (#[trigger] list[i]).same(list[i]) by {
        list[i].same_as_itself();
    }
}

/// A copy of a list of path segments.
pub fn clone_segments(list: &Vec<PathSegment>) -> (copy: Vec<PathSegment>)
    ensures
        same_segments(list@, copy@),
    decreases *list,
{
    let mut copy: Vec<PathSegment> = Vec::new();
    let mut i: usize = 0;
    while i < list.len()
        invariant
            i <= list@.len(),
            copy@.len() == i,
            forall|j: int| 0 <= j < i ==> (#[trigger] list@[j]).same(copy@[j]),
        decreases list@.len() - i,
    {
        copy.push(list[i].clone());
        i += 1;
    }
    copy
}

/// Both lists hold the same generic arguments in the same order.
pub open spec fn same_generic_args(list: Seq<GenericArg>, other: Seq<GenericArg>) -> bool
    decreases list,
{
    &&& list.len() == other.len()
    &&& forall|i: int| 0 <= i < list.len() ==> (#[trigger] list[i]).same(other[i])
}

/// Every list of generic arguments is the same as itself.
pub proof fn generic_args_same_as_themselves(list: Seq<GenericArg>)
    ensures
        same_generic_args(list, list),
    decreases list,
{
    assert forall|i: int| 0 <= i < list.len() implies (#[trigger] list[i]).same(list[i]) by {
        list[i].same_as_itself();
    }
}

/// A copy of a list of generic arguments.
pub fn clone_generic_args(list: &Vec<GenericArg>) -> (copy: Vec<GenericArg>)
    ensures
        same_generic_args(list@, copy@),
    decreases *list,
{
    let mut copy: Vec<GenericArg> = Vec::new();
    let mut i: usize = 0;
    while i < list.len()
        invariant
            i <= list@.len(),
            copy@.len() == i,
            forall|j: int| 0 <= j < i ==> (#[trigger] list@[j]).same(copy@[j]),
        decreases list@.len() - i,
    {
        copy.push(list[i].clone());
        i += 1;
    }
    copy
}

/// Both lists hold the same constraints in the same order.
pub open spec fn same_constraints(
    list: Seq<AssocTyConstraint>,
    other: Seq<AssocTyConstraint>,
) -> bool
    decreases list,
{
    &&& list.len() == other.len()
    &&& forall|i: int| 0 <= i < list.len() ==> (#[trigger] list[i]).same(other[i])
}

/// Every list of constraints is the same as itself.
pub proof fn constraints_same_as_themselves(list: Seq<AssocTyConstraint>)
    ensures
        same_constraints(list, list),
    decreases list,
{
    assert forall|i: int| 0 <= i < list.len() implies (#[trigger] list[i]).same(list[i]) by {
        list[i].same_as_itself();
    }
}

/// A copy of a list of constraints.
pub fn clone_constraints(list: &Vec<AssocTyConstraint>) -> (copy: Vec<AssocTyConstraint>)
    ensures
        same_constraints(list@, copy@),
    decreases *list,
{
    let mut copy: Vec<AssocTyConstraint> = Vec::new();
    let mut i: usize = 0;
    while i < list.len()
        invariant
            i <= list@.len(),
            copy@.len() == i,
            forall|j: int| 0 <= j < i ==> (#[trigger] list@[j]).same(copy@[j]),
        decreases list@.len() - i,
    {
        copy.push(list[i].clone());
        i += 1;
    }
    copy
}

} // verus!
