//! What paths are made of.

use vstd::prelude::*;

use crate::ast::attr::Mac;
use crate::ast::expr::Expr;
use crate::ast::path::{
    AngleBracketedArgs, AssocTyConstraint, AssocTyConstraintKind, GenericArg, GenericArgs,
    ParenthesizedArgs, Path, PathSegment, QSelf,
};
use crate::filter_map::{Rules, between};
use crate::parts::generics::{bounds_parts, nodes_in_bounds_parts};
use crate::parts::ty::{nodes_in_tys_parts, optional_ty_parts, tys_parts};
use crate::parts::{
    Part, group_contains, nodes_in_joined_parts, nodes_in_one_part, nodes_in_parts, one_if, parts,
};
use crate::visit::path::{
    nodes_in_angle_bracketed_args, nodes_in_constraint, nodes_in_constraint_kind,
    nodes_in_constraints, nodes_in_generic_arg, nodes_in_generic_arg_list, nodes_in_generic_args,
    nodes_in_parenthesized_args, nodes_in_path, nodes_in_q_self, nodes_in_segment,
    nodes_in_segments,
};

verus! {

/// What a path is made of, in the order of the text.
pub open spec fn parts_of_path(node: Path) -> Seq<Part> {
    segments_parts(node.segments@)
}

impl<
    S,
    F: Fn(&S, &str) -> (S, bool),
    G: Fn(&S, &Expr) -> (S, Expr),
    H: Fn(&S, &Mac) -> S,
> Rules<S, F, G, H> {
    /// Going through a path is going through what it is made of, part by part.
    pub proof fn goes_through_the_parts_of_path(
        self,
        from: S,
        before: Path,
        to: S,
        after: Path,
    )
        requires
            self.visited_path(from, before, to, after),
        ensures
            self.visited_parts(from, parts_of_path(before), to, parts_of_path(after)),
    {
        self.segments_are_parts(from, before.segments@, to, after.segments@);
    }

    /// A visitor whose calls can always be made can go through a path.
    pub(crate) proof fn total_goes_through_path(self, node: Path)
        requires
            self.is_total(),
        ensures
            self.can_visit_path(node),
        decreases node,
    {
        assert forall|i: int| 0 <= i < node.segments@.len() implies self.can_visit_segment(
            #[trigger] node.segments@[i],
        ) by {
            self.total_goes_through_segment(node.segments@[i]);
        }
    }
}

/// What is visited in a path is what is visited in what it is made of, part by part.
pub proof fn visits_the_parts_of_path(node: Path)
    ensures
        nodes_in_path(node) == nodes_in_parts(parts_of_path(node)),
{
    nodes_in_segments_parts(node.segments@, node.segments@.len() as int);
    assert(node.segments@.take(node.segments@.len() as int) =~= node.segments@);
}

/// Every node that a path holds in a field is a part of it.
pub proof fn fields_of_path_are_parts(node: Path)
    ensures
        (
            forall|i: int| 0 <= i < node.segments@.len() ==> parts(
                Part::Path(node),
            ).contains(Part::PathSegment(#[trigger] node.segments@[i]))
        ),
{
    broadcast use group_contains;

    assert forall|i: int| 0 <= i < node.segments@.len() implies segments_parts(
        node.segments@,
    ).contains(
        Part::PathSegment(#[trigger] node.segments@[i]),
    ) by {
        assert(segments_parts(node.segments@)[i] == Part::PathSegment(node.segments@[i]));
    }
}

/// What a path segment is made of, in the order of the text.
pub open spec fn parts_of_segment(node: PathSegment) -> Seq<Part> {
    optional_generic_args_parts(node.args)
}

/// Path segments as parts.
pub open spec fn segments_parts(list: Seq<PathSegment>) -> Seq<Part> {
    list.map_values(|x: PathSegment| Part::PathSegment(x))
}

impl<
    S,
    F: Fn(&S, &str) -> (S, bool),
    G: Fn(&S, &Expr) -> (S, Expr),
    H: Fn(&S, &Mac) -> S,
> Rules<S, F, G, H> {
    /// Going through a path segment is going through what it is made of, part by part.
    pub proof fn goes_through_the_parts_of_segment(
        self,
        from: S,
        before: PathSegment,
        to: S,
        after: PathSegment,
    )
        requires
            self.visited_segment(from, before, to, after),
        ensures
            self.visited_parts(from, parts_of_segment(before), to, parts_of_segment(after)),
    {
        self.optional_generic_args_is_part(from, before.args, to, after.args);
    }

    /// A visitor whose calls can always be made can go through a path segment.
    pub(crate) proof fn total_goes_through_segment(self, node: PathSegment)
        requires
            self.is_total(),
        ensures
            self.can_visit_segment(node),
        decreases node,
    {
        if let Some(x) = node.args {
            self.total_goes_through_generic_args(*x);
        }
    }

    /// Going through a list of path segments is going through them one by one.
    pub(crate) proof fn segments_are_parts(
        self,
        from: S,
        before: Seq<PathSegment>,
        to: S,
        after: Seq<PathSegment>,
    )
        requires
            self.visited_segments(from, before, to, after),
        ensures
            self.visited_parts(from, segments_parts(before), to, segments_parts(after)),
        decreases before.len(),
    {
        if before.len() > 0 {
            let mid = choose|mid: S|
                {
                    &&& #[trigger] between(mid)
                    &&& self.visited_segments(from, before.drop_last(), mid, after.drop_last())
                    &&& self.visited_segment(mid, before.last(), to, after.last())
                };
            self.segments_are_parts(from, before.drop_last(), mid, after.drop_last());
            assert(segments_parts(before).drop_last() =~= segments_parts(before.drop_last()));
            assert(segments_parts(after).drop_last() =~= segments_parts(after.drop_last()));
        }
    }
}

/// What is visited in a path segment is what is visited in what it is made of, part by part.
pub proof fn visits_the_parts_of_segment(node: PathSegment)
    ensures
        nodes_in_segment(node) == nodes_in_parts(parts_of_segment(node)),
{
    if let Some(x) = node.args {
        nodes_in_one_part(Part::GenericArgs(*x));
    }
}

/// What is visited in a list of path segments is what is visited in them one by one.
pub(crate) proof fn nodes_in_segments_parts(list: Seq<PathSegment>, count: int)
    requires
        0 <= count <= list.len(),
    ensures
        nodes_in_segments(list, count) == nodes_in_parts(segments_parts(list.take(count))),
    decreases count,
{
    if count > 0 {
        nodes_in_segments_parts(list, count - 1);
        assert(
            segments_parts(list.take(count)).drop_last() =~= segments_parts(list.take(count - 1))
        );
    }
}

/// Every node that a path segment holds in a field is a part of it.
pub proof fn fields_of_segment_are_parts(node: PathSegment)
    ensures
        (
            node.args matches Some(
                x,
            ) ==> parts(Part::PathSegment(node)).contains(Part::GenericArgs(*x))
        ),
{
    broadcast use group_contains;

}

/// What generic arguments is made of, in the order of the text.
pub open spec fn parts_of_generic_args(node: GenericArgs) -> Seq<Part> {
    match node {
        GenericArgs::AngleBracketed(args) => seq![Part::AngleBracketedArgs(args)],
        GenericArgs::Parenthesized(args) => seq![Part::ParenthesizedArgs(args)],
    }
}

/// Generic arguments as a part, where it is there.
pub open spec fn optional_generic_args_parts(node: Option<Box<GenericArgs>>) -> Seq<Part> {
    match node {
        Some(x) => seq![Part::GenericArgs(*x)],
        None => seq![],
    }
}

impl<
    S,
    F: Fn(&S, &str) -> (S, bool),
    G: Fn(&S, &Expr) -> (S, Expr),
    H: Fn(&S, &Mac) -> S,
> Rules<S, F, G, H> {
    /// Going through generic arguments is going through what it is made of, part by part.
    pub proof fn goes_through_the_parts_of_generic_args(
        self,
        from: S,
        before: GenericArgs,
        to: S,
        after: GenericArgs,
    )
        requires
            self.visited_generic_args(from, before, to, after),
        ensures
            self.visited_parts(
                from,
                parts_of_generic_args(before),
                to,
                parts_of_generic_args(after),
            ),
    {
        match (before, after) {
            (GenericArgs::AngleBracketed(args), GenericArgs::AngleBracketed(args2)) => {
                self.single_part(
                    from,
                    Part::AngleBracketedArgs(args),
                    to,
                    Part::AngleBracketedArgs(args2),
                );
            },
            (GenericArgs::Parenthesized(args), GenericArgs::Parenthesized(args2)) => {
                self.single_part(
                    from,
                    Part::ParenthesizedArgs(args),
                    to,
                    Part::ParenthesizedArgs(args2),
                );
            },
            _ => {},
        }
    }

    /// A visitor whose calls can always be made can go through generic arguments.
    pub(crate) proof fn total_goes_through_generic_args(self, node: GenericArgs)
        requires
            self.is_total(),
        ensures
            self.can_visit_generic_args(node),
        decreases node,
    {
        match node {
            GenericArgs::AngleBracketed(args) => {
                self.total_goes_through_angle_bracketed_args(args);
            },
            GenericArgs::Parenthesized(args) => {
                self.total_goes_through_parenthesized_args(args);
            },
        }
    }

    /// Going through what may be there is going through it as a part.
    pub(crate) proof fn optional_generic_args_is_part(
        self,
        from: S,
        before: Option<Box<GenericArgs>>,
        to: S,
        after: Option<Box<GenericArgs>>,
    )
        requires
            self.visited_optional_generic_args(from, before, to, after),
        ensures
            self.visited_parts(
                from,
                optional_generic_args_parts(before),
                to,
                optional_generic_args_parts(after),
            ),
    {
        if let (Some(x), Some(y)) = (before, after) {
            self.single_part(from, Part::GenericArgs(*x), to, Part::GenericArgs(*y));
        }
    }
}

/// What is visited in generic arguments is what is visited in what it is made of, part by part.
pub proof fn visits_the_parts_of_generic_args(node: GenericArgs)
    ensures
        nodes_in_generic_args(node) == nodes_in_parts(parts_of_generic_args(node)),
{
    match node {
        GenericArgs::AngleBracketed(args) => {
            nodes_in_one_part(Part::AngleBracketedArgs(args));
        },
        GenericArgs::Parenthesized(args) => {
            nodes_in_one_part(Part::ParenthesizedArgs(args));
        },
    }
}

/// Every node that generic arguments holds in a field is a part of it.
pub proof fn fields_of_generic_args_are_parts(node: GenericArgs)
    ensures
        node matches GenericArgs::AngleBracketed(
            args,
        ) ==> parts(Part::GenericArgs(node)).contains(Part::AngleBracketedArgs(args)),
        node matches GenericArgs::Parenthesized(
            args,
        ) ==> parts(Part::GenericArgs(node)).contains(Part::ParenthesizedArgs(args)),
{
    broadcast use group_contains;

}

/// What a generic argument is made of, in the order of the text.
pub open spec fn parts_of_generic_arg(node: GenericArg) -> Seq<Part> {
    match node {
        GenericArg::Type(ty) => seq![Part::Ty(*ty)],
        GenericArg::Const(constant) => seq![Part::AnonConst(constant)],
        _ => seq![],
    }
}

/// Generic arguments as parts.
pub open spec fn generic_arg_list_parts(list: Seq<GenericArg>) -> Seq<Part> {
    list.map_values(|x: GenericArg| Part::GenericArg(x))
}

impl<
    S,
    F: Fn(&S, &str) -> (S, bool),
    G: Fn(&S, &Expr) -> (S, Expr),
    H: Fn(&S, &Mac) -> S,
> Rules<S, F, G, H> {
    /// Going through a generic argument is going through what it is made of, part by part.
    pub proof fn goes_through_the_parts_of_generic_arg(
        self,
        from: S,
        before: GenericArg,
        to: S,
        after: GenericArg,
    )
        requires
            self.visited_generic_arg(from, before, to, after),
        ensures
            self.visited_parts(from, parts_of_generic_arg(before), to, parts_of_generic_arg(after)),
    {
        match (before, after) {
            (GenericArg::Type(ty), GenericArg::Type(ty2)) => {
                self.single_part(from, Part::Ty(*ty), to, Part::Ty(*ty2));
            },
            (GenericArg::Const(constant), GenericArg::Const(constant2)) => {
                self.single_part(from, Part::AnonConst(constant), to, Part::AnonConst(constant2));
            },
            _ => {},
        }
    }

    /// A visitor whose calls can always be made can go through a generic argument.
    pub(crate) proof fn total_goes_through_generic_arg(self, node: GenericArg)
        requires
            self.is_total(),
        ensures
            self.can_visit_generic_arg(node),
        decreases node,
    {
        match node {
            GenericArg::Type(ty) => {
                self.total_goes_through_ty(*ty);
            },
            GenericArg::Const(constant) => {
                self.total_goes_through_anon_const(constant);
            },
            _ => {},
        }
    }

    /// Going through a list of generic arguments is going through them one by one.
    pub(crate) proof fn generic_arg_list_are_parts(
        self,
        from: S,
        before: Seq<GenericArg>,
        to: S,
        after: Seq<GenericArg>,
    )
        requires
            self.visited_generic_arg_list(from, before, to, after),
        ensures
            self.visited_parts(
                from,
                generic_arg_list_parts(before),
                to,
                generic_arg_list_parts(after),
            ),
        decreases before.len(),
    {
        if before.len() > 0 {
            let mid = choose|mid: S|
                {
                    &&& #[trigger] between(mid)
                    &&& self.visited_generic_arg_list(
                        from,
                        before.drop_last(),
                        mid,
                        after.drop_last(),
                    )
                    &&& self.visited_generic_arg(mid, before.last(), to, after.last())
                };
            self.generic_arg_list_are_parts(from, before.drop_last(), mid, after.drop_last());
            assert(
                generic_arg_list_parts(
                    before,
                ).drop_last() =~= generic_arg_list_parts(before.drop_last())
            );
            assert(
                generic_arg_list_parts(
                    after,
                ).drop_last() =~= generic_arg_list_parts(after.drop_last())
            );
        }
    }
}

/// What is visited in a generic argument is what is visited in what it is made of, part by part.
pub proof fn visits_the_parts_of_generic_arg(node: GenericArg)
    ensures
        nodes_in_generic_arg(node) == nodes_in_parts(parts_of_generic_arg(node)),
{
    match node {
        GenericArg::Type(ty) => {
            nodes_in_one_part(Part::Ty(*ty));
        },
        GenericArg::Const(constant) => {
            nodes_in_one_part(Part::AnonConst(constant));
        },
        _ => {},
    }
}

/// What is visited in a list of generic arguments is what is visited in them one by one.
pub(crate) proof fn nodes_in_generic_arg_list_parts(list: Seq<GenericArg>, count: int)
    requires
        0 <= count <= list.len(),
    ensures
        nodes_in_generic_arg_list(
            list,
            count,
        ) == nodes_in_parts(generic_arg_list_parts(list.take(count))),
    decreases count,
{
    if count > 0 {
        nodes_in_generic_arg_list_parts(list, count - 1);
        assert(
            generic_arg_list_parts(
                list.take(count),
            ).drop_last() =~= generic_arg_list_parts(list.take(count - 1))
        );
    }
}

/// Every node that a generic argument holds in a field is a part of it.
pub proof fn fields_of_generic_arg_are_parts(node: GenericArg)
    ensures
        node matches GenericArg::Type(ty) ==> parts(Part::GenericArg(node)).contains(Part::Ty(*ty)),
        node matches GenericArg::Const(
            constant,
        ) ==> parts(Part::GenericArg(node)).contains(Part::AnonConst(constant)),
{
    broadcast use group_contains;

}

/// What arguments between angle brackets is made of, in the order of the text.
pub open spec fn parts_of_angle_bracketed_args(node: AngleBracketedArgs) -> Seq<Part> {
    generic_arg_list_parts(node.args@) + constraints_parts(node.constraints@)
}

impl<
    S,
    F: Fn(&S, &str) -> (S, bool),
    G: Fn(&S, &Expr) -> (S, Expr),
    H: Fn(&S, &Mac) -> S,
> Rules<S, F, G, H> {
    /// Going through arguments between angle brackets is going through what it is made of, part by
    /// part.
    pub proof fn goes_through_the_parts_of_angle_bracketed_args(
        self,
        from: S,
        before: AngleBracketedArgs,
        to: S,
        after: AngleBracketedArgs,
    )
        requires
            self.visited_angle_bracketed_args(from, before, to, after),
        ensures
            self.visited_parts(
                from,
                parts_of_angle_bracketed_args(before),
                to,
                parts_of_angle_bracketed_args(after),
            ),
    {
        let mid = choose|mid: S|
            {
                &&& #[trigger] between(mid)
                &&& self.visited_generic_arg_list(from, before.args@, mid, after.args@)
                &&& self.visited_constraints(mid, before.constraints@, to, after.constraints@)
            };
        self.generic_arg_list_are_parts(from, before.args@, mid, after.args@);
        self.constraints_are_parts(mid, before.constraints@, to, after.constraints@);
        self.joined_parts(
            from,
            generic_arg_list_parts(before.args@),
            mid,
            generic_arg_list_parts(after.args@),
            constraints_parts(before.constraints@),
            to,
            constraints_parts(after.constraints@),
        );
    }

    /// A visitor whose calls can always be made can go through arguments between angle brackets.
    pub(crate) proof fn total_goes_through_angle_bracketed_args(self, node: AngleBracketedArgs)
        requires
            self.is_total(),
        ensures
            self.can_visit_angle_bracketed_args(node),
        decreases node,
    {
        assert forall|i: int| 0 <= i < node.args@.len() implies self.can_visit_generic_arg(
            #[trigger] node.args@[i],
        ) by {
            self.total_goes_through_generic_arg(node.args@[i]);
        }
        assert forall|i: int| 0 <= i < node.constraints@.len() implies self.can_visit_constraint(
            #[trigger] node.constraints@[i],
        ) by {
            self.total_goes_through_constraint(node.constraints@[i]);
        }
    }
}

/// What is visited in arguments between angle brackets is what is visited in what it is made of,
/// part by part.
pub proof fn visits_the_parts_of_angle_bracketed_args(node: AngleBracketedArgs)
    ensures
        nodes_in_angle_bracketed_args(node) == nodes_in_parts(parts_of_angle_bracketed_args(node)),
{
    nodes_in_generic_arg_list_parts(node.args@, node.args@.len() as int);
    assert(node.args@.take(node.args@.len() as int) =~= node.args@);
    nodes_in_constraints_parts(node.constraints@, node.constraints@.len() as int);
    assert(node.constraints@.take(node.constraints@.len() as int) =~= node.constraints@);
    nodes_in_joined_parts(generic_arg_list_parts(node.args@), constraints_parts(node.constraints@));
}

/// Every node that arguments between angle brackets holds in a field is a part of it.
pub proof fn fields_of_angle_bracketed_args_are_parts(node: AngleBracketedArgs)
    ensures
        (
            forall|i: int| 0 <= i < node.args@.len() ==> parts(
                Part::AngleBracketedArgs(node),
            ).contains(Part::GenericArg(#[trigger] node.args@[i]))
        ),
        (
            forall|i: int| 0 <= i < node.constraints@.len() ==> parts(
                Part::AngleBracketedArgs(node),
            ).contains(Part::AssocTyConstraint(#[trigger] node.constraints@[i]))
        ),
{
    broadcast use group_contains;

    assert forall|i: int| 0 <= i < node.args@.len() implies generic_arg_list_parts(
        node.args@,
    ).contains(
        Part::GenericArg(#[trigger] node.args@[i]),
    ) by {
        assert(generic_arg_list_parts(node.args@)[i] == Part::GenericArg(node.args@[i]));
    }
    assert forall|i: int| 0 <= i < node.constraints@.len() implies constraints_parts(
        node.constraints@,
    ).contains(
        Part::AssocTyConstraint(#[trigger] node.constraints@[i]),
    ) by {
        assert(
            constraints_parts(node.constraints@)[i] == Part::AssocTyConstraint(node.constraints@[i])
        );
    }
}

/// The parts of arguments between angle brackets stand in the order of the text.
pub proof fn parts_of_angle_bracketed_args_stand_in_order(node: AngleBracketedArgs)
    ensures
        parts(
            Part::AngleBracketedArgs(node),
        ).len() == (node.args@.len() as int) + (node.constraints@.len() as int),
        (
            forall|i: int| 0 <= i < node.args@.len() ==> parts(
                Part::AngleBracketedArgs(node),
            )[i] == Part::GenericArg(#[trigger] node.args@[i])
        ),
        (
            forall|i: int| 0 <= i < node.constraints@.len() ==> parts(
                Part::AngleBracketedArgs(node),
            )[(
                node.args@.len() as int
            ) + i] == Part::AssocTyConstraint(#[trigger] node.constraints@[i])
        ),
{
}

/// What arguments between round brackets is made of, in the order of the text.
pub open spec fn parts_of_parenthesized_args(node: ParenthesizedArgs) -> Seq<Part> {
    tys_parts(node.inputs@) + optional_ty_parts(node.output)
}

impl<
    S,
    F: Fn(&S, &str) -> (S, bool),
    G: Fn(&S, &Expr) -> (S, Expr),
    H: Fn(&S, &Mac) -> S,
> Rules<S, F, G, H> {
    /// Going through arguments between round brackets is going through what it is made of, part by
    /// part.
    pub proof fn goes_through_the_parts_of_parenthesized_args(
        self,
        from: S,
        before: ParenthesizedArgs,
        to: S,
        after: ParenthesizedArgs,
    )
        requires
            self.visited_parenthesized_args(from, before, to, after),
        ensures
            self.visited_parts(
                from,
                parts_of_parenthesized_args(before),
                to,
                parts_of_parenthesized_args(after),
            ),
    {
        let mid = choose|mid: S|
            {
                &&& #[trigger] between(mid)
                &&& self.visited_tys(from, before.inputs@, mid, after.inputs@)
                &&& self.visited_optional_ty(mid, before.output, to, after.output)
            };
        self.tys_are_parts(from, before.inputs@, mid, after.inputs@);
        self.optional_ty_is_part(mid, before.output, to, after.output);
        self.joined_parts(
            from,
            tys_parts(before.inputs@),
            mid,
            tys_parts(after.inputs@),
            optional_ty_parts(before.output),
            to,
            optional_ty_parts(after.output),
        );
    }

    /// A visitor whose calls can always be made can go through arguments between round brackets.
    pub(crate) proof fn total_goes_through_parenthesized_args(self, node: ParenthesizedArgs)
        requires
            self.is_total(),
        ensures
            self.can_visit_parenthesized_args(node),
        decreases node,
    {
        assert forall|i: int| 0 <= i < node.inputs@.len() implies self.can_visit_ty(
            #[trigger] node.inputs@[i],
        ) by {
            self.total_goes_through_ty(node.inputs@[i]);
        }
        if let Some(x) = node.output {
            self.total_goes_through_ty(*x);
        }
    }
}

/// What is visited in arguments between round brackets is what is visited in what it is made of,
/// part by part.
pub proof fn visits_the_parts_of_parenthesized_args(node: ParenthesizedArgs)
    ensures
        nodes_in_parenthesized_args(node) == nodes_in_parts(parts_of_parenthesized_args(node)),
{
    nodes_in_tys_parts(node.inputs@, node.inputs@.len() as int);
    assert(node.inputs@.take(node.inputs@.len() as int) =~= node.inputs@);
    if let Some(x) = node.output {
        nodes_in_one_part(Part::Ty(*x));
    }
    nodes_in_joined_parts(tys_parts(node.inputs@), optional_ty_parts(node.output));
}

/// Every node that arguments between round brackets holds in a field is a part of it.
pub proof fn fields_of_parenthesized_args_are_parts(node: ParenthesizedArgs)
    ensures
        (
            forall|i: int| 0 <= i < node.inputs@.len() ==> parts(
                Part::ParenthesizedArgs(node),
            ).contains(Part::Ty(#[trigger] node.inputs@[i]))
        ),
        (
            node.output matches Some(
                x,
            ) ==> parts(Part::ParenthesizedArgs(node)).contains(Part::Ty(*x))
        ),
{
    broadcast use group_contains;

    assert forall|i: int| 0 <= i < node.inputs@.len() implies tys_parts(node.inputs@).contains(
        Part::Ty(#[trigger] node.inputs@[i]),
    ) by {
        assert(tys_parts(node.inputs@)[i] == Part::Ty(node.inputs@[i]));
    }
}

/// The parts of arguments between round brackets stand in the order of the text.
pub proof fn parts_of_parenthesized_args_stand_in_order(node: ParenthesizedArgs)
    ensures
        parts(
            Part::ParenthesizedArgs(node),
        ).len() == (node.inputs@.len() as int) + one_if(node.output is Some),
        (
            forall|i: int| 0 <= i < node.inputs@.len() ==> parts(
                Part::ParenthesizedArgs(node),
            )[i] == Part::Ty(#[trigger] node.inputs@[i])
        ),
        (
            node.output matches Some(
                x,
            ) ==> parts(Part::ParenthesizedArgs(node))[(node.inputs@.len() as int)] == Part::Ty(*x)
        ),
{
}

/// What a constraint is made of, in the order of the text.
pub open spec fn parts_of_constraint(node: AssocTyConstraint) -> Seq<Part> {
    seq![Part::AssocTyConstraintKind(node.kind)]
}

/// Constraints as parts.
pub open spec fn constraints_parts(list: Seq<AssocTyConstraint>) -> Seq<Part> {
    list.map_values(|x: AssocTyConstraint| Part::AssocTyConstraint(x))
}

impl<
    S,
    F: Fn(&S, &str) -> (S, bool),
    G: Fn(&S, &Expr) -> (S, Expr),
    H: Fn(&S, &Mac) -> S,
> Rules<S, F, G, H> {
    /// Going through a constraint is going through what it is made of, part by part.
    pub proof fn goes_through_the_parts_of_constraint(
        self,
        from: S,
        before: AssocTyConstraint,
        to: S,
        after: AssocTyConstraint,
    )
        requires
            self.visited_constraint(from, before, to, after),
        ensures
            self.visited_parts(from, parts_of_constraint(before), to, parts_of_constraint(after)),
    {
        self.single_part(
            from,
            Part::AssocTyConstraintKind(before.kind),
            to,
            Part::AssocTyConstraintKind(after.kind),
        );
    }

    /// A visitor whose calls can always be made can go through a constraint.
    pub(crate) proof fn total_goes_through_constraint(self, node: AssocTyConstraint)
        requires
            self.is_total(),
        ensures
            self.can_visit_constraint(node),
        decreases node,
    {
        self.total_goes_through_constraint_kind(node.kind);
    }

    /// Going through a list of constraints is going through them one by one.
    pub(crate) proof fn constraints_are_parts(
        self,
        from: S,
        before: Seq<AssocTyConstraint>,
        to: S,
        after: Seq<AssocTyConstraint>,
    )
        requires
            self.visited_constraints(from, before, to, after),
        ensures
            self.visited_parts(from, constraints_parts(before), to, constraints_parts(after)),
        decreases before.len(),
    {
        if before.len() > 0 {
            let mid = choose|mid: S|
                {
                    &&& #[trigger] between(mid)
                    &&& self.visited_constraints(from, before.drop_last(), mid, after.drop_last())
                    &&& self.visited_constraint(mid, before.last(), to, after.last())
                };
            self.constraints_are_parts(from, before.drop_last(), mid, after.drop_last());
            assert(constraints_parts(before).drop_last() =~= constraints_parts(before.drop_last()));
            assert(constraints_parts(after).drop_last() =~= constraints_parts(after.drop_last()));
        }
    }
}

/// What is visited in a constraint is what is visited in what it is made of, part by part.
pub proof fn visits_the_parts_of_constraint(node: AssocTyConstraint)
    ensures
        nodes_in_constraint(node) == nodes_in_parts(parts_of_constraint(node)),
{
    nodes_in_one_part(Part::AssocTyConstraintKind(node.kind));
}

/// What is visited in a list of constraints is what is visited in them one by one.
pub(crate) proof fn nodes_in_constraints_parts(list: Seq<AssocTyConstraint>, count: int)
    requires
        0 <= count <= list.len(),
    ensures
        nodes_in_constraints(list, count) == nodes_in_parts(constraints_parts(list.take(count))),
    decreases count,
{
    if count > 0 {
        nodes_in_constraints_parts(list, count - 1);
        assert(
            constraints_parts(
                list.take(count),
            ).drop_last() =~= constraints_parts(list.take(count - 1))
        );
    }
}

/// Every node that a constraint holds in a field is a part of it.
pub proof fn fields_of_constraint_are_parts(node: AssocTyConstraint)
    ensures
        parts(Part::AssocTyConstraint(node)).contains(Part::AssocTyConstraintKind(node.kind)),
{
    broadcast use group_contains;

}

/// What the form of a constraint is made of, in the order of the text.
pub open spec fn parts_of_constraint_kind(node: AssocTyConstraintKind) -> Seq<Part> {
    match node {
        AssocTyConstraintKind::Equality { ty } => seq![Part::Ty(*ty)],
        AssocTyConstraintKind::Bound { bounds } => bounds_parts(bounds@),
    }
}

impl<
    S,
    F: Fn(&S, &str) -> (S, bool),
    G: Fn(&S, &Expr) -> (S, Expr),
    H: Fn(&S, &Mac) -> S,
> Rules<S, F, G, H> {
    /// Going through the form of a constraint is going through what it is made of, part by part.
    pub proof fn goes_through_the_parts_of_constraint_kind(
        self,
        from: S,
        before: AssocTyConstraintKind,
        to: S,
        after: AssocTyConstraintKind,
    )
        requires
            self.visited_constraint_kind(from, before, to, after),
        ensures
            self.visited_parts(
                from,
                parts_of_constraint_kind(before),
                to,
                parts_of_constraint_kind(after),
            ),
    {
        match (before, after) {
            (
                AssocTyConstraintKind::Equality { ty },
                AssocTyConstraintKind::Equality { ty: ty2 },
            ) => {
                self.single_part(from, Part::Ty(*ty), to, Part::Ty(*ty2));
            },
            (
                AssocTyConstraintKind::Bound { bounds },
                AssocTyConstraintKind::Bound { bounds: bounds2 },
            ) => {
                self.bounds_are_parts(from, bounds@, to, bounds2@);
            },
            _ => {},
        }
    }

    /// A visitor whose calls can always be made can go through the form of a constraint.
    pub(crate) proof fn total_goes_through_constraint_kind(self, node: AssocTyConstraintKind)
        requires
            self.is_total(),
        ensures
            self.can_visit_constraint_kind(node),
        decreases node,
    {
        match node {
            AssocTyConstraintKind::Equality { ty } => {
                self.total_goes_through_ty(*ty);
            },
            AssocTyConstraintKind::Bound { bounds } => {
                assert forall|i: int| 0 <= i < bounds@.len() implies self.can_visit_bound(
                    #[trigger] bounds@[i],
                ) by {
                    self.total_goes_through_bound(bounds@[i]);
                }
            },
        }
    }
}

/// What is visited in the form of a constraint is what is visited in what it is made of, part by
/// part.
pub proof fn visits_the_parts_of_constraint_kind(node: AssocTyConstraintKind)
    ensures
        nodes_in_constraint_kind(node) == nodes_in_parts(parts_of_constraint_kind(node)),
{
    match node {
        AssocTyConstraintKind::Equality { ty } => {
            nodes_in_one_part(Part::Ty(*ty));
        },
        AssocTyConstraintKind::Bound { bounds } => {
            nodes_in_bounds_parts(bounds@, bounds@.len() as int);
            assert(bounds@.take(bounds@.len() as int) =~= bounds@);
        },
    }
}

/// Every node that the form of a constraint holds in a field is a part of it.
pub proof fn fields_of_constraint_kind_are_parts(node: AssocTyConstraintKind)
    ensures
        node matches AssocTyConstraintKind::Equality { ty } ==> parts(
            Part::AssocTyConstraintKind(node),
        ).contains(Part::Ty(*ty)),
        node matches AssocTyConstraintKind::Bound { bounds } ==> (
            forall|i: int| 0 <= i < bounds@.len() ==> parts(
                Part::AssocTyConstraintKind(node),
            ).contains(Part::GenericBound(#[trigger] bounds@[i]))
        ),
{
    broadcast use group_contains;

    match node {
        AssocTyConstraintKind::Bound { bounds } => {
            assert forall|i: int| 0 <= i < bounds@.len() implies bounds_parts(bounds@).contains(
                Part::GenericBound(#[trigger] bounds@[i]),
            ) by {
                assert(bounds_parts(bounds@)[i] == Part::GenericBound(bounds@[i]));
            }
        },
        _ => {},
    }
}

/// What an explicit self type is made of, in the order of the text.
pub open spec fn parts_of_q_self(node: QSelf) -> Seq<Part> {
    seq![Part::Ty(*node.ty)]
}

/// An explicit self type as a part, where it is there.
pub open spec fn optional_q_self_parts(node: Option<QSelf>) -> Seq<Part> {
    match node {
        Some(x) => seq![Part::QSelf(x)],
        None => seq![],
    }
}

impl<
    S,
    F: Fn(&S, &str) -> (S, bool),
    G: Fn(&S, &Expr) -> (S, Expr),
    H: Fn(&S, &Mac) -> S,
> Rules<S, F, G, H> {
    /// Going through an explicit self type is going through what it is made of, part by part.
    pub proof fn goes_through_the_parts_of_q_self(
        self,
        from: S,
        before: QSelf,
        to: S,
        after: QSelf,
    )
        requires
            self.visited_q_self(from, before, to, after),
        ensures
            self.visited_parts(from, parts_of_q_self(before), to, parts_of_q_self(after)),
    {
        self.single_part(from, Part::Ty(*before.ty), to, Part::Ty(*after.ty));
    }

    /// A visitor whose calls can always be made can go through an explicit self type.
    pub(crate) proof fn total_goes_through_q_self(self, node: QSelf)
        requires
            self.is_total(),
        ensures
            self.can_visit_q_self(node),
        decreases node,
    {
        self.total_goes_through_ty(*node.ty);
    }

    /// Going through what may be there is going through it as a part.
    pub(crate) proof fn optional_q_self_is_part(
        self,
        from: S,
        before: Option<QSelf>,
        to: S,
        after: Option<QSelf>,
    )
        requires
            self.visited_optional_q_self(from, before, to, after),
        ensures
            self.visited_parts(
                from,
                optional_q_self_parts(before),
                to,
                optional_q_self_parts(after),
            ),
    {
        if let (Some(x), Some(y)) = (before, after) {
            self.single_part(from, Part::QSelf(x), to, Part::QSelf(y));
        }
    }
}

/// What is visited in an explicit self type is what is visited in what it is made of, part by part.
pub proof fn visits_the_parts_of_q_self(node: QSelf)
    ensures
        nodes_in_q_self(node) == nodes_in_parts(parts_of_q_self(node)),
{
    nodes_in_one_part(Part::Ty(*node.ty));
}

/// Every node that an explicit self type holds in a field is a part of it.
pub proof fn fields_of_q_self_are_parts(node: QSelf)
    ensures
        parts(Part::QSelf(node)).contains(Part::Ty(*node.ty)),
{
    broadcast use group_contains;

}

} // verus!
