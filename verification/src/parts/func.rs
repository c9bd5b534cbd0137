//! What function signatures are made of.

use vstd::prelude::*;

use crate::ast::attr::Mac;
use crate::ast::expr::Expr;
use crate::ast::func::{FnDecl, FunctionRetTy, MethodSig, Param};
use crate::filter_map::{Rules, between};
use crate::parts::{
    Part, group_contains, nodes_in_joined_parts, nodes_in_one_part, nodes_in_parts, parts,
};
use crate::visit::func::{
    nodes_in_fn_decl, nodes_in_method_sig, nodes_in_param, nodes_in_params, nodes_in_return_ty,
};

verus! {

/// What a parameter is made of, in the order of the text.
pub open spec fn parts_of_param(node: Param) -> Seq<Part> {
    seq![Part::Pat(*node.pat)] + seq![Part::Ty(*node.ty)]
}

/// Parameters as parts.
pub open spec fn params_parts(list: Seq<Param>) -> Seq<Part> {
    list.map_values(|x: Param| Part::Param(x))
}

impl<
    S,
    F: Fn(&S, &str) -> (S, bool),
    G: Fn(&S, &Expr) -> (S, Expr),
    H: Fn(&S, &Mac) -> S,
> Rules<S, F, G, H> {
    /// Going through a parameter is going through what it is made of, part by part.
    pub proof fn goes_through_the_parts_of_param(
        self,
        from: S,
        before: Param,
        to: S,
        after: Param,
    )
        requires
            self.visited_param(from, before, to, after),
        ensures
            self.visited_parts(from, parts_of_param(before), to, parts_of_param(after)),
    {
        let mid = choose|mid: S|
            {
                &&& #[trigger] between(mid)
                &&& self.visited_pat(from, *before.pat, mid, *after.pat)
                &&& self.visited_ty(mid, *before.ty, to, *after.ty)
            };
        self.single_part(from, Part::Pat(*before.pat), mid, Part::Pat(*after.pat));
        self.single_part(mid, Part::Ty(*before.ty), to, Part::Ty(*after.ty));
        self.joined_parts(
            from,
            seq![Part::Pat(*before.pat)],
            mid,
            seq![Part::Pat(*after.pat)],
            seq![Part::Ty(*before.ty)],
            to,
            seq![Part::Ty(*after.ty)],
        );
    }

    /// A visitor whose calls can always be made can go through a parameter.
    pub(crate) proof fn total_goes_through_param(self, node: Param)
        requires
            self.is_total(),
        ensures
            self.can_visit_param(node),
        decreases node,
    {
        self.total_goes_through_pat(*node.pat);
        self.total_goes_through_ty(*node.ty);
    }

    /// Going through a list of parameters is going through them one by one.
    pub(crate) proof fn params_are_parts(
        self,
        from: S,
        before: Seq<Param>,
        to: S,
        after: Seq<Param>,
    )
        requires
            self.visited_params(from, before, to, after),
        ensures
            self.visited_parts(from, params_parts(before), to, params_parts(after)),
        decreases before.len(),
    {
        if before.len() > 0 {
            let mid = choose|mid: S|
                {
                    &&& #[trigger] between(mid)
                    &&& self.visited_params(from, before.drop_last(), mid, after.drop_last())
                    &&& self.visited_param(mid, before.last(), to, after.last())
                };
            self.params_are_parts(from, before.drop_last(), mid, after.drop_last());
            assert(params_parts(before).drop_last() =~= params_parts(before.drop_last()));
            assert(params_parts(after).drop_last() =~= params_parts(after.drop_last()));
        }
    }
}

/// What is visited in a parameter is what is visited in what it is made of, part by part.
pub proof fn visits_the_parts_of_param(node: Param)
    ensures
        nodes_in_param(node) == nodes_in_parts(parts_of_param(node)),
{
    nodes_in_one_part(Part::Pat(*node.pat));
    nodes_in_one_part(Part::Ty(*node.ty));
    nodes_in_joined_parts(seq![Part::Pat(*node.pat)], seq![Part::Ty(*node.ty)]);
}

/// What is visited in a list of parameters is what is visited in them one by one.
pub(crate) proof fn nodes_in_params_parts(list: Seq<Param>, count: int)
    requires
        0 <= count <= list.len(),
    ensures
        nodes_in_params(list, count) == nodes_in_parts(params_parts(list.take(count))),
    decreases count,
{
    if count > 0 {
        nodes_in_params_parts(list, count - 1);
        assert(params_parts(list.take(count)).drop_last() =~= params_parts(list.take(count - 1)));
    }
}

/// Every node that a parameter holds in a field is a part of it.
pub proof fn fields_of_param_are_parts(node: Param)
    ensures
        parts(Part::Param(node)).contains(Part::Pat(*node.pat)),
        parts(Part::Param(node)).contains(Part::Ty(*node.ty)),
{
    broadcast use group_contains;

}

/// The parts of a parameter stand in the order of the text.
pub proof fn parts_of_param_stand_in_order(node: Param)
    ensures
        parts(Part::Param(node)).len() == 2,
        parts(Part::Param(node))[0] == Part::Pat(*node.pat),
        parts(Part::Param(node))[1] == Part::Ty(*node.ty),
{
}

/// What a return type is made of, in the order of the text.
pub open spec fn parts_of_return_ty(node: FunctionRetTy) -> Seq<Part> {
    match node {
        FunctionRetTy::Ty(ty) => seq![Part::Ty(*ty)],
        _ => seq![],
    }
}

impl<
    S,
    F: Fn(&S, &str) -> (S, bool),
    G: Fn(&S, &Expr) -> (S, Expr),
    H: Fn(&S, &Mac) -> S,
> Rules<S, F, G, H> {
    /// Going through a return type is going through what it is made of, part by part.
    pub proof fn goes_through_the_parts_of_return_ty(
        self,
        from: S,
        before: FunctionRetTy,
        to: S,
        after: FunctionRetTy,
    )
        requires
            self.visited_return_ty(from, before, to, after),
        ensures
            self.visited_parts(from, parts_of_return_ty(before), to, parts_of_return_ty(after)),
    {
        match (before, after) {
            (FunctionRetTy::Ty(ty), FunctionRetTy::Ty(ty2)) => {
                self.single_part(from, Part::Ty(*ty), to, Part::Ty(*ty2));
            },
            _ => {},
        }
    }

    /// A visitor whose calls can always be made can go through a return type.
    pub(crate) proof fn total_goes_through_return_ty(self, node: FunctionRetTy)
        requires
            self.is_total(),
        ensures
            self.can_visit_return_ty(node),
        decreases node,
    {
        match node {
            FunctionRetTy::Ty(ty) => {
                self.total_goes_through_ty(*ty);
            },
            _ => {},
        }
    }
}

/// What is visited in a return type is what is visited in what it is made of, part by part.
pub proof fn visits_the_parts_of_return_ty(node: FunctionRetTy)
    ensures
        nodes_in_return_ty(node) == nodes_in_parts(parts_of_return_ty(node)),
{
    match node {
        FunctionRetTy::Ty(ty) => {
            nodes_in_one_part(Part::Ty(*ty));
        },
        _ => {},
    }
}

/// Every node that a return type holds in a field is a part of it.
pub proof fn fields_of_return_ty_are_parts(node: FunctionRetTy)
    ensures
        node matches FunctionRetTy::Ty(
            ty,
        ) ==> parts(Part::FunctionRetTy(node)).contains(Part::Ty(*ty)),
{
    broadcast use group_contains;

}

/// What a function declaration is made of, in the order of the text.
pub open spec fn parts_of_fn_decl(node: FnDecl) -> Seq<Part> {
    params_parts(node.inputs@) + seq![Part::FunctionRetTy(node.output)]
}

impl<
    S,
    F: Fn(&S, &str) -> (S, bool),
    G: Fn(&S, &Expr) -> (S, Expr),
    H: Fn(&S, &Mac) -> S,
> Rules<S, F, G, H> {
    /// Going through a function declaration is going through what it is made of, part by part.
    pub proof fn goes_through_the_parts_of_fn_decl(
        self,
        from: S,
        before: FnDecl,
        to: S,
        after: FnDecl,
    )
        requires
            self.visited_fn_decl(from, before, to, after),
        ensures
            self.visited_parts(from, parts_of_fn_decl(before), to, parts_of_fn_decl(after)),
    {
        let mid = choose|mid: S|
            {
                &&& #[trigger] between(mid)
                &&& self.visited_params(from, before.inputs@, mid, after.inputs@)
                &&& self.visited_return_ty(mid, before.output, to, after.output)
            };
        self.params_are_parts(from, before.inputs@, mid, after.inputs@);
        self.single_part(
            mid,
            Part::FunctionRetTy(before.output),
            to,
            Part::FunctionRetTy(after.output),
        );
        self.joined_parts(
            from,
            params_parts(before.inputs@),
            mid,
            params_parts(after.inputs@),
            seq![Part::FunctionRetTy(before.output)],
            to,
            seq![Part::FunctionRetTy(after.output)],
        );
    }

    /// A visitor whose calls can always be made can go through a function declaration.
    pub(crate) proof fn total_goes_through_fn_decl(self, node: FnDecl)
        requires
            self.is_total(),
        ensures
            self.can_visit_fn_decl(node),
        decreases node,
    {
        assert forall|i: int| 0 <= i < node.inputs@.len() implies self.can_visit_param(
            #[trigger] node.inputs@[i],
        ) by {
            self.total_goes_through_param(node.inputs@[i]);
        }
        self.total_goes_through_return_ty(node.output);
    }
}

/// What is visited in a function declaration is what is visited in what it is made of, part by
/// part.
pub proof fn visits_the_parts_of_fn_decl(node: FnDecl)
    ensures
        nodes_in_fn_decl(node) == nodes_in_parts(parts_of_fn_decl(node)),
{
    nodes_in_params_parts(node.inputs@, node.inputs@.len() as int);
    assert(node.inputs@.take(node.inputs@.len() as int) =~= node.inputs@);
    nodes_in_one_part(Part::FunctionRetTy(node.output));
    nodes_in_joined_parts(params_parts(node.inputs@), seq![Part::FunctionRetTy(node.output)]);
}

/// Every node that a function declaration holds in a field is a part of it.
pub proof fn fields_of_fn_decl_are_parts(node: FnDecl)
    ensures
        (
            forall|i: int| 0 <= i < node.inputs@.len() ==> parts(
                Part::FnDecl(node),
            ).contains(Part::Param(#[trigger] node.inputs@[i]))
        ),
        parts(Part::FnDecl(node)).contains(Part::FunctionRetTy(node.output)),
{
    broadcast use group_contains;

    assert forall|i: int| 0 <= i < node.inputs@.len() implies params_parts(node.inputs@).contains(
        Part::Param(#[trigger] node.inputs@[i]),
    ) by {
        assert(params_parts(node.inputs@)[i] == Part::Param(node.inputs@[i]));
    }
}

/// The parts of a function declaration stand in the order of the text.
pub proof fn parts_of_fn_decl_stand_in_order(node: FnDecl)
    ensures
        parts(Part::FnDecl(node)).len() == (node.inputs@.len() as int) + 1,
        (
            forall|i: int| 0 <= i < node.inputs@.len() ==> parts(
                Part::FnDecl(node),
            )[i] == Part::Param(#[trigger] node.inputs@[i])
        ),
        parts(Part::FnDecl(node))[(node.inputs@.len() as int)] == Part::FunctionRetTy(node.output),
{
}

/// What a method signature is made of, in the order of the text.
pub open spec fn parts_of_method_sig(node: MethodSig) -> Seq<Part> {
    seq![Part::FnDecl(*node.decl)]
}

impl<
    S,
    F: Fn(&S, &str) -> (S, bool),
    G: Fn(&S, &Expr) -> (S, Expr),
    H: Fn(&S, &Mac) -> S,
> Rules<S, F, G, H> {
    /// Going through a method signature is going through what it is made of, part by part.
    pub proof fn goes_through_the_parts_of_method_sig(
        self,
        from: S,
        before: MethodSig,
        to: S,
        after: MethodSig,
    )
        requires
            self.visited_method_sig(from, before, to, after),
        ensures
            self.visited_parts(from, parts_of_method_sig(before), to, parts_of_method_sig(after)),
    {
        self.single_part(from, Part::FnDecl(*before.decl), to, Part::FnDecl(*after.decl));
    }

    /// A visitor whose calls can always be made can go through a method signature.
    pub(crate) proof fn total_goes_through_method_sig(self, node: MethodSig)
        requires
            self.is_total(),
        ensures
            self.can_visit_method_sig(node),
        decreases node,
    {
        self.total_goes_through_fn_decl(*node.decl);
    }
}

/// What is visited in a method signature is what is visited in what it is made of, part by part.
pub proof fn visits_the_parts_of_method_sig(node: MethodSig)
    ensures
        nodes_in_method_sig(node) == nodes_in_parts(parts_of_method_sig(node)),
{
    nodes_in_one_part(Part::FnDecl(*node.decl));
}

/// Every node that a method signature holds in a field is a part of it.
pub proof fn fields_of_method_sig_are_parts(node: MethodSig)
    ensures
        parts(Part::MethodSig(node)).contains(Part::FnDecl(*node.decl)),
{
    broadcast use group_contains;

}

} // verus!
