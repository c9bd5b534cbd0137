//! The visitor on types.

use vstd::prelude::*;

use crate::ast::attr::Mac;
use crate::ast::expr::Expr;
use crate::ast::ty::{BareFnTy, MutTy, Ty, TyKind, same_tys};
use crate::filter_map::{Rules, between};
use crate::settled::ty::settled_tys;

verus! {

impl<
    S,
    F: Fn(&S, &str) -> (S, bool),
    G: Fn(&S, &Expr) -> (S, Expr),
    H: Fn(&S, &Mac) -> S,
> Rules<S, F, G, H> {
    /// A type behind a pointer can be gone through.
    pub open spec fn can_visit_mut_ty(self, node: MutTy) -> bool
        decreases node,
    {
        self.can_visit_ty(*node.ty)
    }

    /// `after` is `before` with every expression in it visited in order.
    pub open spec fn visited_mut_ty(self, from: S, before: MutTy, to: S, after: MutTy) -> bool
        decreases before,
    {
        &&& self.visited_ty(from, *before.ty, to, *after.ty)
        &&& before.mutbl == after.mutbl
    }

    /// Goes through a type behind a pointer.
    pub fn visit_mut_ty(&self, state: &mut S, node: &mut MutTy)
        requires
            self.can_visit_mut_ty(*old(node)),
        ensures
            self.visited_mut_ty(*old(state), *old(node), *final(state), *final(node)),
        decreases *old(node),
    {
        self.visit_ty(state, &mut node.ty);
    }

    /// A visit that accepts nothing settles a type behind a pointer, and leaves it as it is where
    /// it was settled.
    pub(crate) proof fn quiet_visit_of_mut_ty(self, from: S, before: MutTy, to: S, after: MutTy)
        requires
            self.accepts_nothing(),
            self.visited_mut_ty(from, before, to, after),
        ensures
            after.settled(),
            before.settled() ==> before.same(after),
        decreases before,
    {
        self.quiet_visit_of_ty(from, *before.ty, to, *after.ty);
    }

    /// A function pointer type can be gone through.
    pub open spec fn can_visit_bare_fn(self, node: BareFnTy) -> bool
        decreases node,
    {
        &&& self.can_visit_generic_params(node.generic_params@)
        &&& self.can_visit_fn_decl(*node.decl)
    }

    /// `after` is `before` with every expression in it visited in order.
    pub open spec fn visited_bare_fn(
        self,
        from: S,
        before: BareFnTy,
        to: S,
        after: BareFnTy,
    ) -> bool
        decreases before,
    {
        &&& exists|mid: S|
            {
                &&& #[trigger] between(mid)
                &&& self.visited_generic_params(
                    from,
                    before.generic_params@,
                    mid,
                    after.generic_params@,
                )
                &&& self.visited_fn_decl(mid, *before.decl, to, *after.decl)
            }
        &&& before.unsafety == after.unsafety
        &&& before.abi == after.abi
    }

    /// Goes through a function pointer type.
    pub fn visit_bare_fn(&self, state: &mut S, node: &mut BareFnTy)
        requires
            self.can_visit_bare_fn(*old(node)),
        ensures
            self.visited_bare_fn(*old(state), *old(node), *final(state), *final(node)),
        decreases *old(node),
    {
        self.visit_generic_params(state, &mut node.generic_params);
        assert(between(*state));
        self.visit_fn_decl(state, &mut node.decl);
    }

    /// A visit that accepts nothing settles a function pointer type, and leaves it as it is where
    /// it was settled.
    pub(crate) proof fn quiet_visit_of_bare_fn(
        self,
        from: S,
        before: BareFnTy,
        to: S,
        after: BareFnTy,
    )
        requires
            self.accepts_nothing(),
            self.visited_bare_fn(from, before, to, after),
        ensures
            after.settled(),
            before.settled() ==> before.same(after),
        decreases before,
    {
        let mid = choose|mid: S|
            {
                &&& #[trigger] between(mid)
                &&& self.visited_generic_params(
                    from,
                    before.generic_params@,
                    mid,
                    after.generic_params@,
                )
                &&& self.visited_fn_decl(mid, *before.decl, to, *after.decl)
            };
        self.quiet_visit_of_generic_params(
            from,
            before.generic_params@,
            mid,
            after.generic_params@,
        );
        self.quiet_visit_of_fn_decl(mid, *before.decl, to, *after.decl);
    }

    /// The form of a type can be gone through.
    pub open spec fn can_visit_ty_kind(self, node: TyKind) -> bool
        decreases node,
    {
        match node {
            TyKind::Slice(ty) => self.can_visit_ty(*ty),
            TyKind::Array(ty, constant) => {
                &&& self.can_visit_ty(*ty)
                &&& self.can_visit_anon_const(constant)
            },
            TyKind::Ptr(mut_ty) => self.can_visit_mut_ty(mut_ty),
            TyKind::Rptr(_, mut_ty) => self.can_visit_mut_ty(mut_ty),
            TyKind::BareFn(bare_fn) => self.can_visit_bare_fn(*bare_fn),
            TyKind::Tup(tys) => self.can_visit_tys(tys@),
            TyKind::Path(qself, path) => {
                &&& match qself {
                    Some(x) => self.can_visit_q_self(x),
                    None => true,
                }
                &&& self.can_visit_path(path)
            },
            TyKind::TraitObject(bounds, _) => self.can_visit_bounds(bounds@),
            TyKind::ImplTrait(_, bounds) => self.can_visit_bounds(bounds@),
            TyKind::Paren(ty) => self.can_visit_ty(*ty),
            TyKind::Typeof(constant) => self.can_visit_anon_const(constant),
            TyKind::Mac(mac) => self.can_visit_mac(mac),
            _ => true,
        }
    }

    /// `after` is `before` with every expression in it visited in order.
    pub open spec fn visited_ty_kind(self, from: S, before: TyKind, to: S, after: TyKind) -> bool
        decreases before,
    {
        match (before, after) {
            (TyKind::Slice(ty), TyKind::Slice(ty2)) => self.visited_ty(from, *ty, to, *ty2),
            (TyKind::Array(ty, constant), TyKind::Array(ty2, constant2)) => {
                exists|mid: S|
                    {
                        &&& #[trigger] between(mid)
                        &&& self.visited_ty(from, *ty, mid, *ty2)
                        &&& self.visited_anon_const(mid, constant, to, constant2)
                    }
            },
            (TyKind::Ptr(mut_ty), TyKind::Ptr(mut_ty2)) => {
                self.visited_mut_ty(from, mut_ty, to, mut_ty2)
            },
            (TyKind::Rptr(lifetime, mut_ty), TyKind::Rptr(lifetime2, mut_ty2)) => {
                &&& self.visited_mut_ty(from, mut_ty, to, mut_ty2)
                &&& lifetime == lifetime2
            },
            (TyKind::BareFn(bare_fn), TyKind::BareFn(bare_fn2)) => {
                self.visited_bare_fn(from, *bare_fn, to, *bare_fn2)
            },
            (TyKind::Tup(tys), TyKind::Tup(tys2)) => self.visited_tys(from, tys@, to, tys2@),
            (TyKind::Path(qself, path), TyKind::Path(qself2, path2)) => {
                exists|mid: S|
                    {
                        &&& #[trigger] between(mid)
                        &&& self.visited_optional_q_self(from, qself, mid, qself2)
                        &&& self.visited_path(mid, path, to, path2)
                    }
            },
            (TyKind::TraitObject(bounds, syntax), TyKind::TraitObject(bounds2, syntax2)) => {
                &&& self.visited_bounds(from, bounds@, to, bounds2@)
                &&& syntax == syntax2
            },
            (TyKind::ImplTrait(id, bounds), TyKind::ImplTrait(id2, bounds2)) => {
                &&& self.visited_bounds(from, bounds@, to, bounds2@)
                &&& id == id2
            },
            (TyKind::Paren(ty), TyKind::Paren(ty2)) => self.visited_ty(from, *ty, to, *ty2),
            (TyKind::Typeof(constant), TyKind::Typeof(constant2)) => {
                self.visited_anon_const(from, constant, to, constant2)
            },
            (TyKind::Mac(mac), TyKind::Mac(mac2)) => self.visited_mac(from, mac, to, mac2),
            _ => before == after && from == to,
        }
    }

    /// Goes through the form of a type.
    pub fn visit_ty_kind(&self, state: &mut S, node: &mut TyKind)
        requires
            self.can_visit_ty_kind(*old(node)),
        ensures
            self.visited_ty_kind(*old(state), *old(node), *final(state), *final(node)),
        decreases *old(node),
    {
        match node {
            TyKind::Slice(ty) => {
                self.visit_ty(state, ty);
            },
            TyKind::Array(ty, constant) => {
                self.visit_ty(state, ty);
                assert(between(*state));
                self.visit_anon_const(state, constant);
            },
            TyKind::Ptr(mut_ty) => {
                self.visit_mut_ty(state, mut_ty);
            },
            TyKind::Rptr(_, mut_ty) => {
                self.visit_mut_ty(state, mut_ty);
            },
            TyKind::BareFn(bare_fn) => {
                self.visit_bare_fn(state, bare_fn);
            },
            TyKind::Tup(tys) => {
                self.visit_tys(state, tys);
            },
            TyKind::Path(qself, path) => {
                self.visit_optional_q_self(state, qself);
                assert(between(*state));
                self.visit_path(state, path);
            },
            TyKind::TraitObject(bounds, _) => {
                self.visit_bounds(state, bounds);
            },
            TyKind::ImplTrait(_, bounds) => {
                self.visit_bounds(state, bounds);
            },
            TyKind::Paren(ty) => {
                self.visit_ty(state, ty);
            },
            TyKind::Typeof(constant) => {
                self.visit_anon_const(state, constant);
            },
            TyKind::Mac(mac) => {
                self.visit_mac(state, mac);
            },
            _ => {},
        }
    }

    /// A visit that accepts nothing settles the form of a type, and leaves it as it is where it was
    /// settled.
    pub(crate) proof fn quiet_visit_of_ty_kind(self, from: S, before: TyKind, to: S, after: TyKind)
        requires
            self.accepts_nothing(),
            self.visited_ty_kind(from, before, to, after),
        ensures
            after.settled(),
            before.settled() ==> before.same(after),
        decreases before,
    {
        match (before, after) {
            (TyKind::Slice(ty), TyKind::Slice(ty2)) => {
                self.quiet_visit_of_ty(from, *ty, to, *ty2);
            },
            (TyKind::Array(ty, constant), TyKind::Array(ty2, constant2)) => {
                let mid = choose|mid: S|
                    {
                        &&& #[trigger] between(mid)
                        &&& self.visited_ty(from, *ty, mid, *ty2)
                        &&& self.visited_anon_const(mid, constant, to, constant2)
                    };
                self.quiet_visit_of_ty(from, *ty, mid, *ty2);
                self.quiet_visit_of_anon_const(mid, constant, to, constant2);
            },
            (TyKind::Ptr(mut_ty), TyKind::Ptr(mut_ty2)) => {
                self.quiet_visit_of_mut_ty(from, mut_ty, to, mut_ty2);
            },
            (TyKind::Rptr(lifetime, mut_ty), TyKind::Rptr(_, mut_ty2)) => {
                self.quiet_visit_of_mut_ty(from, mut_ty, to, mut_ty2);
                if let Some(x) = lifetime {
                    x.same_as_itself();
                }
            },
            (TyKind::BareFn(bare_fn), TyKind::BareFn(bare_fn2)) => {
                self.quiet_visit_of_bare_fn(from, *bare_fn, to, *bare_fn2);
            },
            (TyKind::Tup(tys), TyKind::Tup(tys2)) => {
                self.quiet_visit_of_tys(from, tys@, to, tys2@);
            },
            (TyKind::Path(qself, path), TyKind::Path(qself2, path2)) => {
                let mid = choose|mid: S|
                    {
                        &&& #[trigger] between(mid)
                        &&& self.visited_optional_q_self(from, qself, mid, qself2)
                        &&& self.visited_path(mid, path, to, path2)
                    };
                self.quiet_visit_of_optional_q_self(from, qself, mid, qself2);
                self.quiet_visit_of_path(mid, path, to, path2);
            },
            (TyKind::TraitObject(bounds, _), TyKind::TraitObject(bounds2, _)) => {
                self.quiet_visit_of_bounds(from, bounds@, to, bounds2@);
            },
            (TyKind::ImplTrait(_, bounds), TyKind::ImplTrait(_, bounds2)) => {
                self.quiet_visit_of_bounds(from, bounds@, to, bounds2@);
            },
            (TyKind::Paren(ty), TyKind::Paren(ty2)) => {
                self.quiet_visit_of_ty(from, *ty, to, *ty2);
            },
            (TyKind::Typeof(constant), TyKind::Typeof(constant2)) => {
                self.quiet_visit_of_anon_const(from, constant, to, constant2);
            },
            (TyKind::Mac(mac), TyKind::Mac(mac2)) => {
                self.quiet_visit_of_mac(from, mac, to, mac2);
            },
            _ => {
                before.same_as_itself();
            },
        }
    }

    /// A type can be gone through.
    pub open spec fn can_visit_ty(self, node: Ty) -> bool
        decreases node,
    {
        self.can_visit_ty_kind(node.kind)
    }

    /// `after` is `before` with every expression in it visited in order.
    pub open spec fn visited_ty(self, from: S, before: Ty, to: S, after: Ty) -> bool
        decreases before,
    {
        &&& self.visited_ty_kind(from, before.kind, to, after.kind)
        &&& before.id == after.id
        &&& before.span == after.span
    }

    /// Goes through a type.
    pub fn visit_ty(&self, state: &mut S, node: &mut Ty)
        requires
            self.can_visit_ty(*old(node)),
        ensures
            self.visited_ty(*old(state), *old(node), *final(state), *final(node)),
        decreases *old(node),
    {
        self.visit_ty_kind(state, &mut node.kind);
    }

    /// A visit that accepts nothing settles a type, and leaves it as it is where it was settled.
    pub(crate) proof fn quiet_visit_of_ty(self, from: S, before: Ty, to: S, after: Ty)
        requires
            self.accepts_nothing(),
            self.visited_ty(from, before, to, after),
        ensures
            after.settled(),
            before.settled() ==> before.same(after),
        decreases before,
    {
        self.quiet_visit_of_ty_kind(from, before.kind, to, after.kind);
    }

    /// A list of types can be gone through.
    pub open spec fn can_visit_tys(self, list: Seq<Ty>) -> bool
        decreases list,
    {
        forall|i: int| 0 <= i < list.len() ==> self.can_visit_ty(#[trigger] list[i])
    }

    /// `after` is `before` with every expression in it visited in order.
    pub open spec fn visited_tys(
        self,
        from: S,
        before: Seq<Ty>,
        to: S,
        after: Seq<Ty>,
    ) -> bool
        decreases before,
    {
        &&& before.len() == after.len()
        &&& if before.len() == 0 {
            from == to
        } else {
            exists|mid: S|
                {
                    &&& #[trigger] between(mid)
                    &&& self.visited_tys(from, before.drop_last(), mid, after.drop_last())
                    &&& self.visited_ty(mid, before.last(), to, after.last())
                }
        }
    }

    /// Goes through a list of types.
    pub fn visit_tys(&self, state: &mut S, list: &mut Vec<Ty>)
        requires
            self.can_visit_tys(old(list)@),
        ensures
            self.visited_tys(*old(state), old(list)@, *final(state), final(list)@),
        decreases *old(list),
    {
        let ghost from = *state;
        let mut i: usize = 0;
        while i < list.len()
            invariant
                i <= list@.len(),
                list@.len() == old(list)@.len(),
                self.can_visit_tys(old(list)@),
                self.visited_tys(
                    from,
                    old(list)@.take(i as int),
                    *state,
                    list@.take(i as int),
                ),
                forall|j: int| i <= j < list@.len() ==> list@[j] == old(list)@[j],
            decreases list@.len() - i,
        {
            let ghost done = list@.take(i as int);
            assert(between(*state));
            assert(list@[i as int] == old(list)@[i as int]);
            self.visit_ty(state, &mut list[i]);
            i += 1;
            assert(old(list)@.take(i as int).drop_last() =~= old(list)@.take(i - 1));
            assert(list@.take(i as int).drop_last() =~= done);
        }
        assert(old(list)@.take(i as int) =~= old(list)@);
        assert(list@.take(i as int) =~= list@);
    }

    /// A visit that accepts nothing settles a list, and leaves it as it is where it was settled.
    pub(crate) proof fn quiet_visit_of_tys(
        self,
        from: S,
        before: Seq<Ty>,
        to: S,
        after: Seq<Ty>,
    )
        requires
            self.accepts_nothing(),
            self.visited_tys(from, before, to, after),
        ensures
            settled_tys(after),
            settled_tys(before) ==> same_tys(before, after),
        decreases before,
    {
        if before.len() > 0 {
            let mid = choose|mid: S|
                {
                    &&& #[trigger] between(mid)
                    &&& self.visited_tys(from, before.drop_last(), mid, after.drop_last())
                    &&& self.visited_ty(mid, before.last(), to, after.last())
                };
            self.quiet_visit_of_tys(from, before.drop_last(), mid, after.drop_last());
            self.quiet_visit_of_ty(mid, before.last(), to, after.last());
            assert forall|i: int| 0 <= i < after.len() implies (#[trigger] after[i]).settled() by {
                if i < after.len() - 1 {
                    assert(after[i] == after.drop_last()[i]);
                }
            }
            if settled_tys(before) {
                assert forall|i: int| 0 <= i < before.len() - 1 implies (
                    #[trigger] before.drop_last()[i]
                ).settled() by {
                    assert(before.drop_last()[i] == before[i]);
                }
                assert forall|i: int| 0 <= i < before.len() implies (#[trigger] before[i]).same(
                    after[i],
                ) by {
                    if i < before.len() - 1 {
                        assert(before.drop_last()[i].same(after.drop_last()[i]));
                    }
                }
            }
        }
    }

    /// `after` is `before`, with every expression in it visited in order where it is there.
    pub open spec fn visited_optional_ty(
        self,
        from: S,
        before: Option<Box<Ty>>,
        to: S,
        after: Option<Box<Ty>>,
    ) -> bool
        decreases before,
    {
        match (before, after) {
            (Some(x), Some(y)) => self.visited_ty(from, *x, to, *y),
            (None, None) => from == to,
            _ => false,
        }
    }

    /// Goes through a type where it is there.
    pub fn visit_optional_ty(&self, state: &mut S, node: &mut Option<Box<Ty>>)
        requires
            *old(node) matches Some(x) ==> self.can_visit_ty(*x),
        ensures
            self.visited_optional_ty(*old(state), *old(node), *final(state), *final(node)),
        decreases *old(node),
    {
        if let Some(x) = node {
            self.visit_ty(state, x);
        }
    }

    /// A visit that accepts nothing settles what is there, and leaves it as it is where it was
    /// settled.
    pub(crate) proof fn quiet_visit_of_optional_ty(
        self,
        from: S,
        before: Option<Box<Ty>>,
        to: S,
        after: Option<Box<Ty>>,
    )
        requires
            self.accepts_nothing(),
            self.visited_optional_ty(from, before, to, after),
        ensures
            after matches Some(y) ==> y.settled(),
            match (before, after) {
                (Some(x), Some(y)) => x.settled() ==> x.same(*y),
                (None, None) => true,
                _ => false,
            },
        decreases before,
    {
        if let (Some(x), Some(y)) = (before, after) {
            self.quiet_visit_of_ty(from, *x, to, *y);
        }
    }
}

} // verus!
