//! The visitor on function signatures.

use vstd::prelude::*;

use crate::ast::attr::{Mac, attributes_same_as_themselves};
use crate::ast::expr::Expr;
use crate::ast::func::{FnDecl, FunctionRetTy, MethodSig, Param, same_params};
use crate::filter_map::{Rules, between};
use crate::settled::func::settled_params;

verus! {

impl<
    S,
    F: Fn(&S, &str) -> (S, bool),
    G: Fn(&S, &Expr) -> (S, Expr),
    H: Fn(&S, &Mac) -> S,
> Rules<S, F, G, H> {
    /// A parameter can be gone through.
    pub open spec fn can_visit_param(self, node: Param) -> bool
        decreases node,
    {
        &&& self.can_visit_ty(*node.ty)
        &&& self.can_visit_pat(*node.pat)
    }

    /// `after` is `before` with every expression in it visited in order.
    pub open spec fn visited_param(self, from: S, before: Param, to: S, after: Param) -> bool
        decreases before,
    {
        &&& exists|mid: S|
            {
                &&& #[trigger] between(mid)
                &&& self.visited_pat(from, *before.pat, mid, *after.pat)
                &&& self.visited_ty(mid, *before.ty, to, *after.ty)
            }
        &&& before.attrs == after.attrs
        &&& before.id == after.id
        &&& before.span == after.span
        &&& before.is_placeholder == after.is_placeholder
    }

    /// Goes through a parameter.
    pub fn visit_param(&self, state: &mut S, node: &mut Param)
        requires
            self.can_visit_param(*old(node)),
        ensures
            self.visited_param(*old(state), *old(node), *final(state), *final(node)),
        decreases *old(node),
    {
        self.visit_pat(state, &mut node.pat);
        assert(between(*state));
        self.visit_ty(state, &mut node.ty);
    }

    /// A visit that accepts nothing settles a parameter, and leaves it as it is where it was
    /// settled.
    pub(crate) proof fn quiet_visit_of_param(self, from: S, before: Param, to: S, after: Param)
        requires
            self.accepts_nothing(),
            self.visited_param(from, before, to, after),
        ensures
            after.settled(),
            before.settled() ==> before.same(after),
        decreases before,
    {
        let mid = choose|mid: S|
            {
                &&& #[trigger] between(mid)
                &&& self.visited_pat(from, *before.pat, mid, *after.pat)
                &&& self.visited_ty(mid, *before.ty, to, *after.ty)
            };
        self.quiet_visit_of_pat(from, *before.pat, mid, *after.pat);
        self.quiet_visit_of_ty(mid, *before.ty, to, *after.ty);
        attributes_same_as_themselves(before.attrs@);
    }

    /// A list of parameters can be gone through.
    pub open spec fn can_visit_params(self, list: Seq<Param>) -> bool
        decreases list,
    {
        forall|i: int| 0 <= i < list.len() ==> self.can_visit_param(#[trigger] list[i])
    }

    /// `after` is `before` with every expression in it visited in order.
    pub open spec fn visited_params(
        self,
        from: S,
        before: Seq<Param>,
        to: S,
        after: Seq<Param>,
    ) -> bool
        decreases before,
    {
        &&& before.len() == after.len()
        &&& if before.len() == 0 {
            from == to
        } else {
            exists|mid: S|
                {
                    &&& #[trigger] between(mid)
                    &&& self.visited_params(from, before.drop_last(), mid, after.drop_last())
                    &&& self.visited_param(mid, before.last(), to, after.last())
                }
        }
    }

    /// Goes through a list of parameters.
    pub fn visit_params(&self, state: &mut S, list: &mut Vec<Param>)
        requires
            self.can_visit_params(old(list)@),
        ensures
            self.visited_params(*old(state), old(list)@, *final(state), final(list)@),
        decreases *old(list),
    {
        let ghost from = *state;
        let mut i: usize = 0;
        while i < list.len()
            invariant
                i <= list@.len(),
                list@.len() == old(list)@.len(),
                self.can_visit_params(old(list)@),
                self.visited_params(
                    from,
                    old(list)@.take(i as int),
                    *state,
                    list@.take(i as int),
                ),
                forall|j: int| i <= j < list@.len() ==> list@[j] == old(list)@[j],
            decreases list@.len() - i,
        {
            let ghost done = list@.take(i as int);
            assert(between(*state));
            assert(list@[i as int] == old(list)@[i as int]);
            self.visit_param(state, &mut list[i]);
            i += 1;
            assert(old(list)@.take(i as int).drop_last() =~= old(list)@.take(i - 1));
            assert(list@.take(i as int).drop_last() =~= done);
        }
        assert(old(list)@.take(i as int) =~= old(list)@);
        assert(list@.take(i as int) =~= list@);
    }

    /// A visit that accepts nothing settles a list, and leaves it as it is where it was settled.
    pub(crate) proof fn quiet_visit_of_params(
        self,
        from: S,
        before: Seq<Param>,
        to: S,
        after: Seq<Param>,
    )
        requires
            self.accepts_nothing(),
            self.visited_params(from, before, to, after),
        ensures
            settled_params(after),
            settled_params(before) ==> same_params(before, after),
        decreases before,
    {
        if before.len() > 0 {
            let mid = choose|mid: S|
                {
                    &&& #[trigger] between(mid)
                    &&& self.visited_params(from, before.drop_last(), mid, after.drop_last())
                    &&& self.visited_param(mid, before.last(), to, after.last())
                };
            self.quiet_visit_of_params(from, before.drop_last(), mid, after.drop_last());
            self.quiet_visit_of_param(mid, before.last(), to, after.last());
            assert forall|i: int| 0 <= i < after.len() implies (#[trigger] after[i]).settled() by {
                if i < after.len() - 1 {
                    assert(after[i] == after.drop_last()[i]);
                }
            }
            if settled_params(before) {
                assert forall|i: int| 0 <= i < before.len() - 1 implies (
                    #[trigger] before.drop_last()[i]
                ).settled() by {
                    assert(before.drop_last()[i] == before[i]);
                }
                assert forall|i: int| 0 <= i < before.len() implies (#[trigger] before[i]).same(
                    after[i],
                ) by {
                    if i < before.len() - 1 {
                        assert(before.drop_last()[i].same(after.drop_last()[i]));
                    }
                }
            }
        }
    }

    /// A return type can be gone through.
    pub open spec fn can_visit_return_ty(self, node: FunctionRetTy) -> bool
        decreases node,
    {
        match node {
            FunctionRetTy::Ty(ty) => self.can_visit_ty(*ty),
            _ => true,
        }
    }

    /// `after` is `before` with every expression in it visited in order.
    pub open spec fn visited_return_ty(
        self,
        from: S,
        before: FunctionRetTy,
        to: S,
        after: FunctionRetTy,
    ) -> bool
        decreases before,
    {
        match (before, after) {
            (FunctionRetTy::Ty(ty), FunctionRetTy::Ty(ty2)) => self.visited_ty(from, *ty, to, *ty2),
            _ => before == after && from == to,
        }
    }

    /// Goes through a return type.
    pub fn visit_return_ty(&self, state: &mut S, node: &mut FunctionRetTy)
        requires
            self.can_visit_return_ty(*old(node)),
        ensures
            self.visited_return_ty(*old(state), *old(node), *final(state), *final(node)),
        decreases *old(node),
    {
        match node {
            FunctionRetTy::Ty(ty) => {
                self.visit_ty(state, ty);
            },
            _ => {},
        }
    }

    /// A visit that accepts nothing settles a return type, and leaves it as it is where it was
    /// settled.
    pub(crate) proof fn quiet_visit_of_return_ty(
        self,
        from: S,
        before: FunctionRetTy,
        to: S,
        after: FunctionRetTy,
    )
        requires
            self.accepts_nothing(),
            self.visited_return_ty(from, before, to, after),
        ensures
            after.settled(),
            before.settled() ==> before.same(after),
        decreases before,
    {
        match (before, after) {
            (FunctionRetTy::Ty(ty), FunctionRetTy::Ty(ty2)) => {
                self.quiet_visit_of_ty(from, *ty, to, *ty2);
            },
            _ => {
                before.same_as_itself();
            },
        }
    }

    /// A function declaration can be gone through.
    pub open spec fn can_visit_fn_decl(self, node: FnDecl) -> bool
        decreases node,
    {
        &&& self.can_visit_params(node.inputs@)
        &&& self.can_visit_return_ty(node.output)
    }

    /// `after` is `before` with every expression in it visited in order.
    pub open spec fn visited_fn_decl(self, from: S, before: FnDecl, to: S, after: FnDecl) -> bool
        decreases before,
    {
        exists|mid: S|
            {
                &&& #[trigger] between(mid)
                &&& self.visited_params(from, before.inputs@, mid, after.inputs@)
                &&& self.visited_return_ty(mid, before.output, to, after.output)
            }
    }

    /// Goes through a function declaration.
    pub fn visit_fn_decl(&self, state: &mut S, node: &mut FnDecl)
        requires
            self.can_visit_fn_decl(*old(node)),
        ensures
            self.visited_fn_decl(*old(state), *old(node), *final(state), *final(node)),
        decreases *old(node),
    {
        self.visit_params(state, &mut node.inputs);
        assert(between(*state));
        self.visit_return_ty(state, &mut node.output);
    }

    /// A visit that accepts nothing settles a function declaration, and leaves it as it is where it
    /// was settled.
    pub(crate) proof fn quiet_visit_of_fn_decl(self, from: S, before: FnDecl, to: S, after: FnDecl)
        requires
            self.accepts_nothing(),
            self.visited_fn_decl(from, before, to, after),
        ensures
            after.settled(),
            before.settled() ==> before.same(after),
        decreases before,
    {
        let mid = choose|mid: S|
            {
                &&& #[trigger] between(mid)
                &&& self.visited_params(from, before.inputs@, mid, after.inputs@)
                &&& self.visited_return_ty(mid, before.output, to, after.output)
            };
        self.quiet_visit_of_params(from, before.inputs@, mid, after.inputs@);
        self.quiet_visit_of_return_ty(mid, before.output, to, after.output);
    }

    /// A method signature can be gone through.
    pub open spec fn can_visit_method_sig(self, node: MethodSig) -> bool
        decreases node,
    {
        self.can_visit_fn_decl(*node.decl)
    }

    /// `after` is `before` with every expression in it visited in order.
    pub open spec fn visited_method_sig(
        self,
        from: S,
        before: MethodSig,
        to: S,
        after: MethodSig,
    ) -> bool
        decreases before,
    {
        &&& self.visited_fn_decl(from, *before.decl, to, *after.decl)
        &&& before.header == after.header
    }

    /// Goes through a method signature.
    pub fn visit_method_sig(&self, state: &mut S, node: &mut MethodSig)
        requires
            self.can_visit_method_sig(*old(node)),
        ensures
            self.visited_method_sig(*old(state), *old(node), *final(state), *final(node)),
        decreases *old(node),
    {
        self.visit_fn_decl(state, &mut node.decl);
    }

    /// A visit that accepts nothing settles a method signature, and leaves it as it is where it was
    /// settled.
    pub(crate) proof fn quiet_visit_of_method_sig(
        self,
        from: S,
        before: MethodSig,
        to: S,
        after: MethodSig,
    )
        requires
            self.accepts_nothing(),
            self.visited_method_sig(from, before, to, after),
        ensures
            after.settled(),
            before.settled() ==> before.same(after),
        decreases before,
    {
        self.quiet_visit_of_fn_decl(from, *before.decl, to, *after.decl);
    }
}

} // verus!
