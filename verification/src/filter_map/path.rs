//! The visitor on paths.

use vstd::prelude::*;

use crate::ast::attr::Mac;
use crate::ast::expr::Expr;
use crate::ast::path::{
    AngleBracketedArgs, AssocTyConstraint, AssocTyConstraintKind, GenericArg, GenericArgs,
    ParenthesizedArgs, Path, PathSegment, QSelf, same_constraints, same_generic_args, same_segments,
};
use crate::filter_map::{Rules, between};
use crate::settled::path::{settled_constraints, settled_generic_arg_list, settled_segments};

verus! {

impl<
    S,
    F: Fn(&S, &str) -> (S, bool),
    G: Fn(&S, &Expr) -> (S, Expr),
    H: Fn(&S, &Mac) -> S,
> Rules<S, F, G, H> {
    /// A path can be gone through.
    pub open spec fn can_visit_path(self, node: Path) -> bool
        decreases node,
    {
        self.can_visit_segments(node.segments@)
    }

    /// `after` is `before` with every expression in it visited in order.
    pub open spec fn visited_path(self, from: S, before: Path, to: S, after: Path) -> bool
        decreases before,
    {
        &&& self.visited_segments(from, before.segments@, to, after.segments@)
        &&& before.span == after.span
    }

    /// Goes through a path.
    pub fn visit_path(&self, state: &mut S, node: &mut Path)
        requires
            self.can_visit_path(*old(node)),
        ensures
            self.visited_path(*old(state), *old(node), *final(state), *final(node)),
        decreases *old(node),
    {
        self.visit_segments(state, &mut node.segments);
    }

    /// A visit that accepts nothing settles a path, and leaves it as it is where it was settled.
    pub(crate) proof fn quiet_visit_of_path(self, from: S, before: Path, to: S, after: Path)
        requires
            self.accepts_nothing(),
            self.visited_path(from, before, to, after),
        ensures
            after.settled(),
            before.settled() ==> before.same(after),
        decreases before,
    {
        self.quiet_visit_of_segments(from, before.segments@, to, after.segments@);
    }

    /// A path segment can be gone through.
    pub open spec fn can_visit_segment(self, node: PathSegment) -> bool
        decreases node,
    {
        match node.args {
            Some(x) => self.can_visit_generic_args(*x),
            None => true,
        }
    }

    /// `after` is `before` with every expression in it visited in order.
    pub open spec fn visited_segment(
        self,
        from: S,
        before: PathSegment,
        to: S,
        after: PathSegment,
    ) -> bool
        decreases before,
    {
        &&& self.visited_optional_generic_args(from, before.args, to, after.args)
        &&& before.ident == after.ident
        &&& before.id == after.id
    }

    /// Goes through a path segment.
    pub fn visit_segment(&self, state: &mut S, node: &mut PathSegment)
        requires
            self.can_visit_segment(*old(node)),
        ensures
            self.visited_segment(*old(state), *old(node), *final(state), *final(node)),
        decreases *old(node),
    {
        self.visit_optional_generic_args(state, &mut node.args);
    }

    /// A visit that accepts nothing settles a path segment, and leaves it as it is where it was
    /// settled.
    pub(crate) proof fn quiet_visit_of_segment(
        self,
        from: S,
        before: PathSegment,
        to: S,
        after: PathSegment,
    )
        requires
            self.accepts_nothing(),
            self.visited_segment(from, before, to, after),
        ensures
            after.settled(),
            before.settled() ==> before.same(after),
        decreases before,
    {
        self.quiet_visit_of_optional_generic_args(from, before.args, to, after.args);
        before.ident.same_as_itself();
    }

    /// A list of path segments can be gone through.
    pub open spec fn can_visit_segments(self, list: Seq<PathSegment>) -> bool
        decreases list,
    {
        forall|i: int| 0 <= i < list.len() ==> self.can_visit_segment(#[trigger] list[i])
    }

    /// `after` is `before` with every expression in it visited in order.
    pub open spec fn visited_segments(
        self,
        from: S,
        before: Seq<PathSegment>,
        to: S,
        after: Seq<PathSegment>,
    ) -> bool
        decreases before,
    {
        &&& before.len() == after.len()
        &&& if before.len() == 0 {
            from == to
        } else {
            exists|mid: S|
                {
                    &&& #[trigger] between(mid)
                    &&& self.visited_segments(from, before.drop_last(), mid, after.drop_last())
                    &&& self.visited_segment(mid, before.last(), to, after.last())
                }
        }
    }

    /// Goes through a list of path segments.
    pub fn visit_segments(&self, state: &mut S, list: &mut Vec<PathSegment>)
        requires
            self.can_visit_segments(old(list)@),
        ensures
            self.visited_segments(*old(state), old(list)@, *final(state), final(list)@),
        decreases *old(list),
    {
        let ghost from = *state;
        let mut i: usize = 0;
        while i < list.len()
            invariant
                i <= list@.len(),
                list@.len() == old(list)@.len(),
                self.can_visit_segments(old(list)@),
                self.visited_segments(
                    from,
                    old(list)@.take(i as int),
                    *state,
                    list@.take(i as int),
                ),
                forall|j: int| i <= j < list@.len() ==> list@[j] == old(list)@[j],
            decreases list@.len() - i,
        {
            let ghost done = list@.take(i as int);
            assert(between(*state));
            assert(list@[i as int] == old(list)@[i as int]);
            self.visit_segment(state, &mut list[i]);
            i += 1;
            assert(old(list)@.take(i as int).drop_last() =~= old(list)@.take(i - 1));
            assert(list@.take(i as int).drop_last() =~= done);
        }
        assert(old(list)@.take(i as int) =~= old(list)@);
        assert(list@.take(i as int) =~= list@);
    }

    /// A visit that accepts nothing settles a list, and leaves it as it is where it was settled.
    pub(crate) proof fn quiet_visit_of_segments(
        self,
        from: S,
        before: Seq<PathSegment>,
        to: S,
        after: Seq<PathSegment>,
    )
        requires
            self.accepts_nothing(),
            self.visited_segments(from, before, to, after),
        ensures
            settled_segments(after),
            settled_segments(before) ==> same_segments(before, after),
        decreases before,
    {
        if before.len() > 0 {
            let mid = choose|mid: S|
                {
                    &&& #[trigger] between(mid)
                    &&& self.visited_segments(from, before.drop_last(), mid, after.drop_last())
                    &&& self.visited_segment(mid, before.last(), to, after.last())
                };
            self.quiet_visit_of_segments(from, before.drop_last(), mid, after.drop_last());
            self.quiet_visit_of_segment(mid, before.last(), to, after.last());
            assert forall|i: int| 0 <= i < after.len() implies (#[trigger] after[i]).settled() by {
                if i < after.len() - 1 {
                    assert(after[i] == after.drop_last()[i]);
                }
            }
            if settled_segments(before) {
                assert forall|i: int| 0 <= i < before.len() - 1 implies (
                    #[trigger] before.drop_last()[i]
                ).settled() by {
                    assert(before.drop_last()[i] == before[i]);
                }
                assert forall|i: int| 0 <= i < before.len() implies (#[trigger] before[i]).same(
                    after[i],
                ) by {
                    if i < before.len() - 1 {
                        assert(before.drop_last()[i].same(after.drop_last()[i]));
                    }
                }
            }
        }
    }

    /// Generic arguments can be gone through.
    pub open spec fn can_visit_generic_args(self, node: GenericArgs) -> bool
        decreases node,
    {
        match node {
            GenericArgs::AngleBracketed(args) => self.can_visit_angle_bracketed_args(args),
            GenericArgs::Parenthesized(args) => self.can_visit_parenthesized_args(args),
        }
    }

    /// `after` is `before` with every expression in it visited in order.
    pub open spec fn visited_generic_args(
        self,
        from: S,
        before: GenericArgs,
        to: S,
        after: GenericArgs,
    ) -> bool
        decreases before,
    {
        match (before, after) {
            (GenericArgs::AngleBracketed(args), GenericArgs::AngleBracketed(args2)) => {
                self.visited_angle_bracketed_args(from, args, to, args2)
            },
            (GenericArgs::Parenthesized(args), GenericArgs::Parenthesized(args2)) => {
                self.visited_parenthesized_args(from, args, to, args2)
            },
            _ => before == after && from == to,
        }
    }

    /// Goes through generic arguments.
    pub fn visit_generic_args(&self, state: &mut S, node: &mut GenericArgs)
        requires
            self.can_visit_generic_args(*old(node)),
        ensures
            self.visited_generic_args(*old(state), *old(node), *final(state), *final(node)),
        decreases *old(node),
    {
        match node {
            GenericArgs::AngleBracketed(args) => {
                self.visit_angle_bracketed_args(state, args);
            },
            GenericArgs::Parenthesized(args) => {
                self.visit_parenthesized_args(state, args);
            },
        }
    }

    /// A visit that accepts nothing settles generic arguments, and leaves it as it is where it was
    /// settled.
    pub(crate) proof fn quiet_visit_of_generic_args(
        self,
        from: S,
        before: GenericArgs,
        to: S,
        after: GenericArgs,
    )
        requires
            self.accepts_nothing(),
            self.visited_generic_args(from, before, to, after),
        ensures
            after.settled(),
            before.settled() ==> before.same(after),
        decreases before,
    {
        match (before, after) {
            (GenericArgs::AngleBracketed(args), GenericArgs::AngleBracketed(args2)) => {
                self.quiet_visit_of_angle_bracketed_args(from, args, to, args2);
            },
            (GenericArgs::Parenthesized(args), GenericArgs::Parenthesized(args2)) => {
                self.quiet_visit_of_parenthesized_args(from, args, to, args2);
            },
            _ => {},
        }
    }

    /// `after` is `before`, with every expression in it visited in order where it is there.
    pub open spec fn visited_optional_generic_args(
        self,
        from: S,
        before: Option<Box<GenericArgs>>,
        to: S,
        after: Option<Box<GenericArgs>>,
    ) -> bool
        decreases before,
    {
        match (before, after) {
            (Some(x), Some(y)) => self.visited_generic_args(from, *x, to, *y),
            (None, None) => from == to,
            _ => false,
        }
    }

    /// Goes through generic arguments where it is there.
    pub fn visit_optional_generic_args(&self, state: &mut S, node: &mut Option<Box<GenericArgs>>)
        requires
            *old(node) matches Some(x) ==> self.can_visit_generic_args(*x),
        ensures
            self.visited_optional_generic_args(
                *old(state),
                *old(node),
                *final(state),
                *final(node),
            ),
        decreases *old(node),
    {
        if let Some(x) = node {
            self.visit_generic_args(state, x);
        }
    }

    /// A visit that accepts nothing settles what is there, and leaves it as it is where it was
    /// settled.
    pub(crate) proof fn quiet_visit_of_optional_generic_args(
        self,
        from: S,
        before: Option<Box<GenericArgs>>,
        to: S,
        after: Option<Box<GenericArgs>>,
    )
        requires
            self.accepts_nothing(),
            self.visited_optional_generic_args(from, before, to, after),
        ensures
            after matches Some(y) ==> y.settled(),
            match (before, after) {
                (Some(x), Some(y)) => x.settled() ==> x.same(*y),
                (None, None) => true,
                _ => false,
            },
        decreases before,
    {
        if let (Some(x), Some(y)) = (before, after) {
            self.quiet_visit_of_generic_args(from, *x, to, *y);
        }
    }

    /// A generic argument can be gone through.
    pub open spec fn can_visit_generic_arg(self, node: GenericArg) -> bool
        decreases node,
    {
        match node {
            GenericArg::Type(ty) => self.can_visit_ty(*ty),
            GenericArg::Const(constant) => self.can_visit_anon_const(constant),
            _ => true,
        }
    }

    /// `after` is `before` with every expression in it visited in order.
    pub open spec fn visited_generic_arg(
        self,
        from: S,
        before: GenericArg,
        to: S,
        after: GenericArg,
    ) -> bool
        decreases before,
    {
        match (before, after) {
            (GenericArg::Type(ty), GenericArg::Type(ty2)) => self.visited_ty(from, *ty, to, *ty2),
            (GenericArg::Const(constant), GenericArg::Const(constant2)) => {
                self.visited_anon_const(from, constant, to, constant2)
            },
            _ => before == after && from == to,
        }
    }

    /// Goes through a generic argument.
    pub fn visit_generic_arg(&self, state: &mut S, node: &mut GenericArg)
        requires
            self.can_visit_generic_arg(*old(node)),
        ensures
            self.visited_generic_arg(*old(state), *old(node), *final(state), *final(node)),
        decreases *old(node),
    {
        match node {
            GenericArg::Type(ty) => {
                self.visit_ty(state, ty);
            },
            GenericArg::Const(constant) => {
                self.visit_anon_const(state, constant);
            },
            _ => {},
        }
    }

    /// A visit that accepts nothing settles a generic argument, and leaves it as it is where it was
    /// settled.
    pub(crate) proof fn quiet_visit_of_generic_arg(
        self,
        from: S,
        before: GenericArg,
        to: S,
        after: GenericArg,
    )
        requires
            self.accepts_nothing(),
            self.visited_generic_arg(from, before, to, after),
        ensures
            after.settled(),
            before.settled() ==> before.same(after),
        decreases before,
    {
        match (before, after) {
            (GenericArg::Type(ty), GenericArg::Type(ty2)) => {
                self.quiet_visit_of_ty(from, *ty, to, *ty2);
            },
            (GenericArg::Const(constant), GenericArg::Const(constant2)) => {
                self.quiet_visit_of_anon_const(from, constant, to, constant2);
            },
            _ => {
                before.same_as_itself();
            },
        }
    }

    /// A list of generic arguments can be gone through.
    pub open spec fn can_visit_generic_arg_list(self, list: Seq<GenericArg>) -> bool
        decreases list,
    {
        forall|i: int| 0 <= i < list.len() ==> self.can_visit_generic_arg(#[trigger] list[i])
    }

    /// `after` is `before` with every expression in it visited in order.
    pub open spec fn visited_generic_arg_list(
        self,
        from: S,
        before: Seq<GenericArg>,
        to: S,
        after: Seq<GenericArg>,
    ) -> bool
        decreases before,
    {
        &&& before.len() == after.len()
        &&& if before.len() == 0 {
            from == to
        } else {
            exists|mid: S|
                {
                    &&& #[trigger] between(mid)
                    &&& self.visited_generic_arg_list(
                        from,
                        before.drop_last(),
                        mid,
                        after.drop_last(),
                    )
                    &&& self.visited_generic_arg(mid, before.last(), to, after.last())
                }
        }
    }

    /// Goes through a list of generic arguments.
    pub fn visit_generic_arg_list(&self, state: &mut S, list: &mut Vec<GenericArg>)
        requires
            self.can_visit_generic_arg_list(old(list)@),
        ensures
            self.visited_generic_arg_list(*old(state), old(list)@, *final(state), final(list)@),
        decreases *old(list),
    {
        let ghost from = *state;
        let mut i: usize = 0;
        while i < list.len()
            invariant
                i <= list@.len(),
                list@.len() == old(list)@.len(),
                self.can_visit_generic_arg_list(old(list)@),
                self.visited_generic_arg_list(
                    from,
                    old(list)@.take(i as int),
                    *state,
                    list@.take(i as int),
                ),
                forall|j: int| i <= j < list@.len() ==> list@[j] == old(list)@[j],
            decreases list@.len() - i,
        {
            let ghost done = list@.take(i as int);
            assert(between(*state));
            assert(list@[i as int] == old(list)@[i as int]);
            self.visit_generic_arg(state, &mut list[i]);
            i += 1;
            assert(old(list)@.take(i as int).drop_last() =~= old(list)@.take(i - 1));
            assert(list@.take(i as int).drop_last() =~= done);
        }
        assert(old(list)@.take(i as int) =~= old(list)@);
        assert(list@.take(i as int) =~= list@);
    }

    /// A visit that accepts nothing settles a list, and leaves it as it is where it was settled.
    pub(crate) proof fn quiet_visit_of_generic_arg_list(
        self,
        from: S,
        before: Seq<GenericArg>,
        to: S,
        after: Seq<GenericArg>,
    )
        requires
            self.accepts_nothing(),
            self.visited_generic_arg_list(from, before, to, after),
        ensures
            settled_generic_arg_list(after),
            settled_generic_arg_list(before) ==> same_generic_args(before, after),
        decreases before,
    {
        if before.len() > 0 {
            let mid = choose|mid: S|
                {
                    &&& #[trigger] between(mid)
                    &&& self.visited_generic_arg_list(
                        from,
                        before.drop_last(),
                        mid,
                        after.drop_last(),
                    )
                    &&& self.visited_generic_arg(mid, before.last(), to, after.last())
                };
            self.quiet_visit_of_generic_arg_list(from, before.drop_last(), mid, after.drop_last());
            self.quiet_visit_of_generic_arg(mid, before.last(), to, after.last());
            assert forall|i: int| 0 <= i < after.len() implies (#[trigger] after[i]).settled() by {
                if i < after.len() - 1 {
                    assert(after[i] == after.drop_last()[i]);
                }
            }
            if settled_generic_arg_list(before) {
                assert forall|i: int| 0 <= i < before.len() - 1 implies (
                    #[trigger] before.drop_last()[i]
                ).settled() by {
                    assert(before.drop_last()[i] == before[i]);
                }
                assert forall|i: int| 0 <= i < before.len() implies (#[trigger] before[i]).same(
                    after[i],
                ) by {
                    if i < before.len() - 1 {
                        assert(before.drop_last()[i].same(after.drop_last()[i]));
                    }
                }
            }
        }
    }

    /// Arguments between angle brackets can be gone through.
    pub open spec fn can_visit_angle_bracketed_args(self, node: AngleBracketedArgs) -> bool
        decreases node,
    {
        &&& self.can_visit_generic_arg_list(node.args@)
        &&& self.can_visit_constraints(node.constraints@)
    }

    /// `after` is `before` with every expression in it visited in order.
    pub open spec fn visited_angle_bracketed_args(
        self,
        from: S,
        before: AngleBracketedArgs,
        to: S,
        after: AngleBracketedArgs,
    ) -> bool
        decreases before,
    {
        &&& exists|mid: S|
            {
                &&& #[trigger] between(mid)
                &&& self.visited_generic_arg_list(from, before.args@, mid, after.args@)
                &&& self.visited_constraints(mid, before.constraints@, to, after.constraints@)
            }
        &&& before.span == after.span
    }

    /// Goes through arguments between angle brackets.
    pub fn visit_angle_bracketed_args(&self, state: &mut S, node: &mut AngleBracketedArgs)
        requires
            self.can_visit_angle_bracketed_args(*old(node)),
        ensures
            self.visited_angle_bracketed_args(*old(state), *old(node), *final(state), *final(node)),
        decreases *old(node),
    {
        self.visit_generic_arg_list(state, &mut node.args);
        assert(between(*state));
        self.visit_constraints(state, &mut node.constraints);
    }

    /// A visit that accepts nothing settles arguments between angle brackets, and leaves it as it
    /// is where it was settled.
    pub(crate) proof fn quiet_visit_of_angle_bracketed_args(
        self,
        from: S,
        before: AngleBracketedArgs,
        to: S,
        after: AngleBracketedArgs,
    )
        requires
            self.accepts_nothing(),
            self.visited_angle_bracketed_args(from, before, to, after),
        ensures
            after.settled(),
            before.settled() ==> before.same(after),
        decreases before,
    {
        let mid = choose|mid: S|
            {
                &&& #[trigger] between(mid)
                &&& self.visited_generic_arg_list(from, before.args@, mid, after.args@)
                &&& self.visited_constraints(mid, before.constraints@, to, after.constraints@)
            };
        self.quiet_visit_of_generic_arg_list(from, before.args@, mid, after.args@);
        self.quiet_visit_of_constraints(mid, before.constraints@, to, after.constraints@);
    }

    /// Arguments between round brackets can be gone through.
    pub open spec fn can_visit_parenthesized_args(self, node: ParenthesizedArgs) -> bool
        decreases node,
    {
        &&& self.can_visit_tys(node.inputs@)
        &&& match node.output {
            Some(x) => self.can_visit_ty(*x),
            None => true,
        }
    }

    /// `after` is `before` with every expression in it visited in order.
    pub open spec fn visited_parenthesized_args(
        self,
        from: S,
        before: ParenthesizedArgs,
        to: S,
        after: ParenthesizedArgs,
    ) -> bool
        decreases before,
    {
        &&& exists|mid: S|
            {
                &&& #[trigger] between(mid)
                &&& self.visited_tys(from, before.inputs@, mid, after.inputs@)
                &&& self.visited_optional_ty(mid, before.output, to, after.output)
            }
        &&& before.span == after.span
    }

    /// Goes through arguments between round brackets.
    pub fn visit_parenthesized_args(&self, state: &mut S, node: &mut ParenthesizedArgs)
        requires
            self.can_visit_parenthesized_args(*old(node)),
        ensures
            self.visited_parenthesized_args(*old(state), *old(node), *final(state), *final(node)),
        decreases *old(node),
    {
        self.visit_tys(state, &mut node.inputs);
        assert(between(*state));
        self.visit_optional_ty(state, &mut node.output);
    }

    /// A visit that accepts nothing settles arguments between round brackets, and leaves it as it
    /// is where it was settled.
    pub(crate) proof fn quiet_visit_of_parenthesized_args(
        self,
        from: S,
        before: ParenthesizedArgs,
        to: S,
        after: ParenthesizedArgs,
    )
        requires
            self.accepts_nothing(),
            self.visited_parenthesized_args(from, before, to, after),
        ensures
            after.settled(),
            before.settled() ==> before.same(after),
        decreases before,
    {
        let mid = choose|mid: S|
            {
                &&& #[trigger] between(mid)
                &&& self.visited_tys(from, before.inputs@, mid, after.inputs@)
                &&& self.visited_optional_ty(mid, before.output, to, after.output)
            };
        self.quiet_visit_of_tys(from, before.inputs@, mid, after.inputs@);
        self.quiet_visit_of_optional_ty(mid, before.output, to, after.output);
    }

    /// A constraint can be gone through.
    pub open spec fn can_visit_constraint(self, node: AssocTyConstraint) -> bool
        decreases node,
    {
        self.can_visit_constraint_kind(node.kind)
    }

    /// `after` is `before` with every expression in it visited in order.
    pub open spec fn visited_constraint(
        self,
        from: S,
        before: AssocTyConstraint,
        to: S,
        after: AssocTyConstraint,
    ) -> bool
        decreases before,
    {
        &&& self.visited_constraint_kind(from, before.kind, to, after.kind)
        &&& before.id == after.id
        &&& before.ident == after.ident
        &&& before.span == after.span
    }

    /// Goes through a constraint.
    pub fn visit_constraint(&self, state: &mut S, node: &mut AssocTyConstraint)
        requires
            self.can_visit_constraint(*old(node)),
        ensures
            self.visited_constraint(*old(state), *old(node), *final(state), *final(node)),
        decreases *old(node),
    {
        self.visit_constraint_kind(state, &mut node.kind);
    }

    /// A visit that accepts nothing settles a constraint, and leaves it as it is where it was
    /// settled.
    pub(crate) proof fn quiet_visit_of_constraint(
        self,
        from: S,
        before: AssocTyConstraint,
        to: S,
        after: AssocTyConstraint,
    )
        requires
            self.accepts_nothing(),
            self.visited_constraint(from, before, to, after),
        ensures
            after.settled(),
            before.settled() ==> before.same(after),
        decreases before,
    {
        self.quiet_visit_of_constraint_kind(from, before.kind, to, after.kind);
        before.ident.same_as_itself();
    }

    /// A list of constraints can be gone through.
    pub open spec fn can_visit_constraints(self, list: Seq<AssocTyConstraint>) -> bool
        decreases list,
    {
        forall|i: int| 0 <= i < list.len() ==> self.can_visit_constraint(#[trigger] list[i])
    }

    /// `after` is `before` with every expression in it visited in order.
    pub open spec fn visited_constraints(
        self,
        from: S,
        before: Seq<AssocTyConstraint>,
        to: S,
        after: Seq<AssocTyConstraint>,
    ) -> bool
        decreases before,
    {
        &&& before.len() == after.len()
        &&& if before.len() == 0 {
            from == to
        } else {
            exists|mid: S|
                {
                    &&& #[trigger] between(mid)
                    &&& self.visited_constraints(from, before.drop_last(), mid, after.drop_last())
                    &&& self.visited_constraint(mid, before.last(), to, after.last())
                }
        }
    }

    /// Goes through a list of constraints.
    pub fn visit_constraints(&self, state: &mut S, list: &mut Vec<AssocTyConstraint>)
        requires
            self.can_visit_constraints(old(list)@),
        ensures
            self.visited_constraints(*old(state), old(list)@, *final(state), final(list)@),
        decreases *old(list),
    {
        let ghost from = *state;
        let mut i: usize = 0;
        while i < list.len()
            invariant
                i <= list@.len(),
                list@.len() == old(list)@.len(),
                self.can_visit_constraints(old(list)@),
                self.visited_constraints(
                    from,
                    old(list)@.take(i as int),
                    *state,
                    list@.take(i as int),
                ),
                forall|j: int| i <= j < list@.len() ==> list@[j] == old(list)@[j],
            decreases list@.len() - i,
        {
            let ghost done = list@.take(i as int);
            assert(between(*state));
            assert(list@[i as int] == old(list)@[i as int]);
            self.visit_constraint(state, &mut list[i]);
            i += 1;
            assert(old(list)@.take(i as int).drop_last() =~= old(list)@.take(i - 1));
            assert(list@.take(i as int).drop_last() =~= done);
        }
        assert(old(list)@.take(i as int) =~= old(list)@);
        assert(list@.take(i as int) =~= list@);
    }

    /// A visit that accepts nothing settles a list, and leaves it as it is where it was settled.
    pub(crate) proof fn quiet_visit_of_constraints(
        self,
        from: S,
        before: Seq<AssocTyConstraint>,
        to: S,
        after: Seq<AssocTyConstraint>,
    )
        requires
            self.accepts_nothing(),
            self.visited_constraints(from, before, to, after),
        ensures
            settled_constraints(after),
            settled_constraints(before) ==> same_constraints(before, after),
        decreases before,
    {
        if before.len() > 0 {
            let mid = choose|mid: S|
                {
                    &&& #[trigger] between(mid)
                    &&& self.visited_constraints(from, before.drop_last(), mid, after.drop_last())
                    &&& self.visited_constraint(mid, before.last(), to, after.last())
                };
            self.quiet_visit_of_constraints(from, before.drop_last(), mid, after.drop_last());
            self.quiet_visit_of_constraint(mid, before.last(), to, after.last());
            assert forall|i: int| 0 <= i < after.len() implies (#[trigger] after[i]).settled() by {
                if i < after.len() - 1 {
                    assert(after[i] == after.drop_last()[i]);
                }
            }
            if settled_constraints(before) {
                assert forall|i: int| 0 <= i < before.len() - 1 implies (
                    #[trigger] before.drop_last()[i]
                ).settled() by {
                    assert(before.drop_last()[i] == before[i]);
                }
                assert forall|i: int| 0 <= i < before.len() implies (#[trigger] before[i]).same(
                    after[i],
                ) by {
                    if i < before.len() - 1 {
                        assert(before.drop_last()[i].same(after.drop_last()[i]));
                    }
                }
            }
        }
    }

    /// The form of a constraint can be gone through.
    pub open spec fn can_visit_constraint_kind(self, node: AssocTyConstraintKind) -> bool
        decreases node,
    {
        match node {
            AssocTyConstraintKind::Equality { ty } => self.can_visit_ty(*ty),
            AssocTyConstraintKind::Bound { bounds } => self.can_visit_bounds(bounds@),
        }
    }

    /// `after` is `before` with every expression in it visited in order.
    pub open spec fn visited_constraint_kind(
        self,
        from: S,
        before: AssocTyConstraintKind,
        to: S,
        after: AssocTyConstraintKind,
    ) -> bool
        decreases before,
    {
        match (before, after) {
            (
                AssocTyConstraintKind::Equality { ty },
                AssocTyConstraintKind::Equality { ty: ty2 },
            ) => self.visited_ty(from, *ty, to, *ty2),
            (
                AssocTyConstraintKind::Bound { bounds },
                AssocTyConstraintKind::Bound { bounds: bounds2 },
            ) => self.visited_bounds(from, bounds@, to, bounds2@),
            _ => before == after && from == to,
        }
    }

    /// Goes through the form of a constraint.
    pub fn visit_constraint_kind(&self, state: &mut S, node: &mut AssocTyConstraintKind)
        requires
            self.can_visit_constraint_kind(*old(node)),
        ensures
            self.visited_constraint_kind(*old(state), *old(node), *final(state), *final(node)),
        decreases *old(node),
    {
        match node {
            AssocTyConstraintKind::Equality { ty } => {
                self.visit_ty(state, ty);
            },
            AssocTyConstraintKind::Bound { bounds } => {
                self.visit_bounds(state, bounds);
            },
        }
    }

    /// A visit that accepts nothing settles the form of a constraint, and leaves it as it is where
    /// it was settled.
    pub(crate) proof fn quiet_visit_of_constraint_kind(
        self,
        from: S,
        before: AssocTyConstraintKind,
        to: S,
        after: AssocTyConstraintKind,
    )
        requires
            self.accepts_nothing(),
            self.visited_constraint_kind(from, before, to, after),
        ensures
            after.settled(),
            before.settled() ==> before.same(after),
        decreases before,
    {
        match (before, after) {
            (
                AssocTyConstraintKind::Equality { ty },
                AssocTyConstraintKind::Equality { ty: ty2 },
            ) => {
                self.quiet_visit_of_ty(from, *ty, to, *ty2);
            },
            (
                AssocTyConstraintKind::Bound { bounds },
                AssocTyConstraintKind::Bound { bounds: bounds2 },
            ) => {
                self.quiet_visit_of_bounds(from, bounds@, to, bounds2@);
            },
            _ => {},
        }
    }

    /// An explicit self type can be gone through.
    pub open spec fn can_visit_q_self(self, node: QSelf) -> bool
        decreases node,
    {
        self.can_visit_ty(*node.ty)
    }

    /// `after` is `before` with every expression in it visited in order.
    pub open spec fn visited_q_self(self, from: S, before: QSelf, to: S, after: QSelf) -> bool
        decreases before,
    {
        &&& self.visited_ty(from, *before.ty, to, *after.ty)
        &&& before.path_span == after.path_span
        &&& before.position == after.position
    }

    /// Goes through an explicit self type.
    pub fn visit_q_self(&self, state: &mut S, node: &mut QSelf)
        requires
            self.can_visit_q_self(*old(node)),
        ensures
            self.visited_q_self(*old(state), *old(node), *final(state), *final(node)),
        decreases *old(node),
    {
        self.visit_ty(state, &mut node.ty);
    }

    /// A visit that accepts nothing settles an explicit self type, and leaves it as it is where it
    /// was settled.
    pub(crate) proof fn quiet_visit_of_q_self(self, from: S, before: QSelf, to: S, after: QSelf)
        requires
            self.accepts_nothing(),
            self.visited_q_self(from, before, to, after),
        ensures
            after.settled(),
            before.settled() ==> before.same(after),
        decreases before,
    {
        self.quiet_visit_of_ty(from, *before.ty, to, *after.ty);
    }

    /// `after` is `before`, with every expression in it visited in order where it is there.
    pub open spec fn visited_optional_q_self(
        self,
        from: S,
        before: Option<QSelf>,
        to: S,
        after: Option<QSelf>,
    ) -> bool
        decreases before,
    {
        match (before, after) {
            (Some(x), Some(y)) => self.visited_q_self(from, x, to, y),
            (None, None) => from == to,
            _ => false,
        }
    }

    /// Goes through an explicit self type where it is there.
    pub fn visit_optional_q_self(&self, state: &mut S, node: &mut Option<QSelf>)
        requires
            *old(node) matches Some(x) ==> self.can_visit_q_self(x),
        ensures
            self.visited_optional_q_self(*old(state), *old(node), *final(state), *final(node)),
        decreases *old(node),
    {
        if let Some(x) = node {
            self.visit_q_self(state, x);
        }
    }

    /// A visit that accepts nothing settles what is there, and leaves it as it is where it was
    /// settled.
    pub(crate) proof fn quiet_visit_of_optional_q_self(
        self,
        from: S,
        before: Option<QSelf>,
        to: S,
        after: Option<QSelf>,
    )
        requires
            self.accepts_nothing(),
            self.visited_optional_q_self(from, before, to, after),
        ensures
            after matches Some(y) ==> y.settled(),
            match (before, after) {
                (Some(x), Some(y)) => x.settled() ==> x.same(y),
                (None, None) => true,
                _ => false,
            },
        decreases before,
    {
        if let (Some(x), Some(y)) = (before, after) {
            self.quiet_visit_of_q_self(from, x, to, y);
        }
    }
}

} // verus!
