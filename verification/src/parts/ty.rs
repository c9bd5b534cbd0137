//! What types are made of.

use vstd::prelude::*;

use crate::ast::attr::Mac;
use crate::ast::expr::Expr;
use crate::ast::ty::{BareFnTy, MutTy, Ty, TyKind};
use crate::filter_map::{Rules, between};
use crate::parts::generics::{
    bounds_parts, generic_params_parts, nodes_in_bounds_parts, nodes_in_generic_params_parts,
};
use crate::parts::path::optional_q_self_parts;
use crate::parts::{
    Part, group_contains, nodes_in_joined_parts, nodes_in_one_part, nodes_in_parts, one_if, parts,
};
use crate::visit::ty::{
    nodes_in_bare_fn, nodes_in_mut_ty, nodes_in_ty, nodes_in_ty_kind, nodes_in_tys,
};

verus! {

/// What a type behind a pointer is made of, in the order of the text.
pub open spec fn parts_of_mut_ty(node: MutTy) -> Seq<Part> {
    seq![Part::Ty(*node.ty)]
}

impl<
    S,
    F: Fn(&S, &str) -> (S, bool),
    G: Fn(&S, &Expr) -> (S, Expr),
    H: Fn(&S, &Mac) -> S,
> Rules<S, F, G, H> {
    /// Going through a type behind a pointer is going through what it is made of, part by part.
    pub proof fn goes_through_the_parts_of_mut_ty(
        self,
        from: S,
        before: MutTy,
        to: S,
        after: MutTy,
    )
        requires
            self.visited_mut_ty(from, before, to, after),
        ensures
            self.visited_parts(from, parts_of_mut_ty(before), to, parts_of_mut_ty(after)),
    {
        self.single_part(from, Part::Ty(*before.ty), to, Part::Ty(*after.ty));
    }

    /// A visitor whose calls can always be made can go through a type behind a pointer.
    pub(crate) proof fn total_goes_through_mut_ty(self, node: MutTy)
        requires
            self.is_total(),
        ensures
            self.can_visit_mut_ty(node),
        decreases node,
    {
        self.total_goes_through_ty(*node.ty);
    }
}

/// What is visited in a type behind a pointer is what is visited in what it is made of, part by
/// part.
pub proof fn visits_the_parts_of_mut_ty(node: MutTy)
    ensures
        nodes_in_mut_ty(node) == nodes_in_parts(parts_of_mut_ty(node)),
{
    nodes_in_one_part(Part::Ty(*node.ty));
}

/// Every node that a type behind a pointer holds in a field is a part of it.
pub proof fn fields_of_mut_ty_are_parts(node: MutTy)
    ensures
        parts(Part::MutTy(node)).contains(Part::Ty(*node.ty)),
{
    broadcast use group_contains;

}

/// What a function pointer type is made of, in the order of the text.
pub open spec fn parts_of_bare_fn(node: BareFnTy) -> Seq<Part> {
    generic_params_parts(node.generic_params@) + seq![Part::FnDecl(*node.decl)]
}

impl<
    S,
    F: Fn(&S, &str) -> (S, bool),
    G: Fn(&S, &Expr) -> (S, Expr),
    H: Fn(&S, &Mac) -> S,
> Rules<S, F, G, H> {
    /// Going through a function pointer type is going through what it is made of, part by part.
    pub proof fn goes_through_the_parts_of_bare_fn(
        self,
        from: S,
        before: BareFnTy,
        to: S,
        after: BareFnTy,
    )
        requires
            self.visited_bare_fn(from, before, to, after),
        ensures
            self.visited_parts(from, parts_of_bare_fn(before), to, parts_of_bare_fn(after)),
    {
        let mid = choose|mid: S|
            {
                &&& #[trigger] between(mid)
                &&& self.visited_generic_params(
                    from,
                    before.generic_params@,
                    mid,
                    after.generic_params@,
                )
                &&& self.visited_fn_decl(mid, *before.decl, to, *after.decl)
            };
        self.generic_params_are_parts(from, before.generic_params@, mid, after.generic_params@);
        self.single_part(mid, Part::FnDecl(*before.decl), to, Part::FnDecl(*after.decl));
        self.joined_parts(
            from,
            generic_params_parts(before.generic_params@),
            mid,
            generic_params_parts(after.generic_params@),
            seq![Part::FnDecl(*before.decl)],
            to,
            seq![Part::FnDecl(*after.decl)],
        );
    }

    /// A visitor whose calls can always be made can go through a function pointer type.
    pub(crate) proof fn total_goes_through_bare_fn(self, node: BareFnTy)
        requires
            self.is_total(),
        ensures
            self.can_visit_bare_fn(node),
        decreases node,
    {
        assert forall|i: int|
            0 <= i < node.generic_params@.len() implies self.can_visit_generic_param(
            #[trigger] node.generic_params@[i],
        ) by {
            self.total_goes_through_generic_param(node.generic_params@[i]);
        }
        self.total_goes_through_fn_decl(*node.decl);
    }
}

/// What is visited in a function pointer type is what is visited in what it is made of, part by
/// part.
pub proof fn visits_the_parts_of_bare_fn(node: BareFnTy)
    ensures
        nodes_in_bare_fn(node) == nodes_in_parts(parts_of_bare_fn(node)),
{
    nodes_in_generic_params_parts(node.generic_params@, node.generic_params@.len() as int);
    assert(node.generic_params@.take(node.generic_params@.len() as int) =~= node.generic_params@);
    nodes_in_one_part(Part::FnDecl(*node.decl));
    nodes_in_joined_parts(
        generic_params_parts(node.generic_params@),
        seq![Part::FnDecl(*node.decl)],
    );
}

/// Every node that a function pointer type holds in a field is a part of it.
pub proof fn fields_of_bare_fn_are_parts(node: BareFnTy)
    ensures
        (
            forall|i: int| 0 <= i < node.generic_params@.len() ==> parts(
                Part::BareFnTy(node),
            ).contains(Part::GenericParam(#[trigger] node.generic_params@[i]))
        ),
        parts(Part::BareFnTy(node)).contains(Part::FnDecl(*node.decl)),
{
    broadcast use group_contains;

    assert forall|i: int| 0 <= i < node.generic_params@.len() implies generic_params_parts(
        node.generic_params@,
    ).contains(
        Part::GenericParam(#[trigger] node.generic_params@[i]),
    ) by {
        assert(
            generic_params_parts(
                node.generic_params@,
            )[i] == Part::GenericParam(node.generic_params@[i])
        );
    }
}

/// The parts of a function pointer type stand in the order of the text.
pub proof fn parts_of_bare_fn_stand_in_order(node: BareFnTy)
    ensures
        parts(Part::BareFnTy(node)).len() == (node.generic_params@.len() as int) + 1,
        (
            forall|i: int| 0 <= i < node.generic_params@.len() ==> parts(
                Part::BareFnTy(node),
            )[i] == Part::GenericParam(#[trigger] node.generic_params@[i])
        ),
        parts(
            Part::BareFnTy(node),
        )[(node.generic_params@.len() as int)] == Part::FnDecl(*node.decl),
{
}

/// What the form of a type is made of, in the order of the text.
pub open spec fn parts_of_ty_kind(node: TyKind) -> Seq<Part> {
    match node {
        TyKind::Slice(ty) => seq![Part::Ty(*ty)],
        TyKind::Array(ty, constant) => seq![Part::Ty(*ty)] + seq![Part::AnonConst(constant)],
        TyKind::Ptr(mut_ty) => seq![Part::MutTy(mut_ty)],
        TyKind::Rptr(_, mut_ty) => seq![Part::MutTy(mut_ty)],
        TyKind::BareFn(bare_fn) => seq![Part::BareFnTy(*bare_fn)],
        TyKind::Tup(tys) => tys_parts(tys@),
        TyKind::Path(qself, path) => optional_q_self_parts(qself) + seq![Part::Path(path)],
        TyKind::TraitObject(bounds, _) => bounds_parts(bounds@),
        TyKind::ImplTrait(_, bounds) => bounds_parts(bounds@),
        TyKind::Paren(ty) => seq![Part::Ty(*ty)],
        TyKind::Typeof(constant) => seq![Part::AnonConst(constant)],
        TyKind::Mac(mac) => seq![Part::Mac(mac)],
        _ => seq![],
    }
}

impl<
    S,
    F: Fn(&S, &str) -> (S, bool),
    G: Fn(&S, &Expr) -> (S, Expr),
    H: Fn(&S, &Mac) -> S,
> Rules<S, F, G, H> {
    /// Going through the form of a type is going through what it is made of, part by part.
    pub proof fn goes_through_the_parts_of_ty_kind(
        self,
        from: S,
        before: TyKind,
        to: S,
        after: TyKind,
    )
        requires
            self.visited_ty_kind(from, before, to, after),
        ensures
            self.visited_parts(from, parts_of_ty_kind(before), to, parts_of_ty_kind(after)),
    {
        match (before, after) {
            (TyKind::Slice(ty), TyKind::Slice(ty2)) => {
                self.single_part(from, Part::Ty(*ty), to, Part::Ty(*ty2));
            },
            (TyKind::Array(ty, constant), TyKind::Array(ty2, constant2)) => {
                let mid = choose|mid: S|
                    {
                        &&& #[trigger] between(mid)
                        &&& self.visited_ty(from, *ty, mid, *ty2)
                        &&& self.visited_anon_const(mid, constant, to, constant2)
                    };
                self.single_part(from, Part::Ty(*ty), mid, Part::Ty(*ty2));
                self.single_part(mid, Part::AnonConst(constant), to, Part::AnonConst(constant2));
                self.joined_parts(
                    from,
                    seq![Part::Ty(*ty)],
                    mid,
                    seq![Part::Ty(*ty2)],
                    seq![Part::AnonConst(constant)],
                    to,
                    seq![Part::AnonConst(constant2)],
                );
            },
            (TyKind::Ptr(mut_ty), TyKind::Ptr(mut_ty2)) => {
                self.single_part(from, Part::MutTy(mut_ty), to, Part::MutTy(mut_ty2));
            },
            (TyKind::Rptr(_, mut_ty), TyKind::Rptr(_, mut_ty2)) => {
                self.single_part(from, Part::MutTy(mut_ty), to, Part::MutTy(mut_ty2));
            },
            (TyKind::BareFn(bare_fn), TyKind::BareFn(bare_fn2)) => {
                self.single_part(from, Part::BareFnTy(*bare_fn), to, Part::BareFnTy(*bare_fn2));
            },
            (TyKind::Tup(tys), TyKind::Tup(tys2)) => {
                self.tys_are_parts(from, tys@, to, tys2@);
            },
            (TyKind::Path(qself, path), TyKind::Path(qself2, path2)) => {
                let mid = choose|mid: S|
                    {
                        &&& #[trigger] between(mid)
                        &&& self.visited_optional_q_self(from, qself, mid, qself2)
                        &&& self.visited_path(mid, path, to, path2)
                    };
                self.optional_q_self_is_part(from, qself, mid, qself2);
                self.single_part(mid, Part::Path(path), to, Part::Path(path2));
                self.joined_parts(
                    from,
                    optional_q_self_parts(qself),
                    mid,
                    optional_q_self_parts(qself2),
                    seq![Part::Path(path)],
                    to,
                    seq![Part::Path(path2)],
                );
            },
            (TyKind::TraitObject(bounds, _), TyKind::TraitObject(bounds2, _)) => {
                self.bounds_are_parts(from, bounds@, to, bounds2@);
            },
            (TyKind::ImplTrait(_, bounds), TyKind::ImplTrait(_, bounds2)) => {
                self.bounds_are_parts(from, bounds@, to, bounds2@);
            },
            (TyKind::Paren(ty), TyKind::Paren(ty2)) => {
                self.single_part(from, Part::Ty(*ty), to, Part::Ty(*ty2));
            },
            (TyKind::Typeof(constant), TyKind::Typeof(constant2)) => {
                self.single_part(from, Part::AnonConst(constant), to, Part::AnonConst(constant2));
            },
            (TyKind::Mac(mac), TyKind::Mac(mac2)) => {
                self.single_part(from, Part::Mac(mac), to, Part::Mac(mac2));
            },
            _ => {},
        }
    }

    /// A visitor whose calls can always be made can go through the form of a type.
    pub(crate) proof fn total_goes_through_ty_kind(self, node: TyKind)
        requires
            self.is_total(),
        ensures
            self.can_visit_ty_kind(node),
        decreases node,
    {
        match node {
            TyKind::Slice(ty) => {
                self.total_goes_through_ty(*ty);
            },
            TyKind::Array(ty, constant) => {
                self.total_goes_through_ty(*ty);
                self.total_goes_through_anon_const(constant);
            },
            TyKind::Ptr(mut_ty) => {
                self.total_goes_through_mut_ty(mut_ty);
            },
            TyKind::Rptr(_, mut_ty) => {
                self.total_goes_through_mut_ty(mut_ty);
            },
            TyKind::BareFn(bare_fn) => {
                self.total_goes_through_bare_fn(*bare_fn);
            },
            TyKind::Tup(tys) => {
                assert forall|i: int| 0 <= i < tys@.len() implies self.can_visit_ty(
                    #[trigger] tys@[i],
                ) by {
                    self.total_goes_through_ty(tys@[i]);
                }
            },
            TyKind::Path(qself, path) => {
                if let Some(x) = qself {
                    self.total_goes_through_q_self(x);
                }
                self.total_goes_through_path(path);
            },
            TyKind::TraitObject(bounds, _) => {
                assert forall|i: int| 0 <= i < bounds@.len() implies self.can_visit_bound(
                    #[trigger] bounds@[i],
                ) by {
                    self.total_goes_through_bound(bounds@[i]);
                }
            },
            TyKind::ImplTrait(_, bounds) => {
                assert forall|i: int| 0 <= i < bounds@.len() implies self.can_visit_bound(
                    #[trigger] bounds@[i],
                ) by {
                    self.total_goes_through_bound(bounds@[i]);
                }
            },
            TyKind::Paren(ty) => {
                self.total_goes_through_ty(*ty);
            },
            TyKind::Typeof(constant) => {
                self.total_goes_through_anon_const(constant);
            },
            _ => {},
        }
    }
}

/// What is visited in the form of a type is what is visited in what it is made of, part by part.
pub proof fn visits_the_parts_of_ty_kind(node: TyKind)
    ensures
        nodes_in_ty_kind(node) == nodes_in_parts(parts_of_ty_kind(node)),
{
    match node {
        TyKind::Slice(ty) => {
            nodes_in_one_part(Part::Ty(*ty));
        },
        TyKind::Array(ty, constant) => {
            nodes_in_one_part(Part::Ty(*ty));
            nodes_in_one_part(Part::AnonConst(constant));
            nodes_in_joined_parts(seq![Part::Ty(*ty)], seq![Part::AnonConst(constant)]);
        },
        TyKind::Ptr(mut_ty) => {
            nodes_in_one_part(Part::MutTy(mut_ty));
        },
        TyKind::Rptr(_, mut_ty) => {
            nodes_in_one_part(Part::MutTy(mut_ty));
        },
        TyKind::BareFn(bare_fn) => {
            nodes_in_one_part(Part::BareFnTy(*bare_fn));
        },
        TyKind::Tup(tys) => {
            nodes_in_tys_parts(tys@, tys@.len() as int);
            assert(tys@.take(tys@.len() as int) =~= tys@);
        },
        TyKind::Path(qself, path) => {
            if let Some(x) = qself {
                nodes_in_one_part(Part::QSelf(x));
            }
            nodes_in_one_part(Part::Path(path));
            nodes_in_joined_parts(optional_q_self_parts(qself), seq![Part::Path(path)]);
        },
        TyKind::TraitObject(bounds, _) => {
            nodes_in_bounds_parts(bounds@, bounds@.len() as int);
            assert(bounds@.take(bounds@.len() as int) =~= bounds@);
        },
        TyKind::ImplTrait(_, bounds) => {
            nodes_in_bounds_parts(bounds@, bounds@.len() as int);
            assert(bounds@.take(bounds@.len() as int) =~= bounds@);
        },
        TyKind::Paren(ty) => {
            nodes_in_one_part(Part::Ty(*ty));
        },
        TyKind::Typeof(constant) => {
            nodes_in_one_part(Part::AnonConst(constant));
        },
        TyKind::Mac(mac) => {
            nodes_in_one_part(Part::Mac(mac));
        },
        _ => {},
    }
}

/// Every node that the form of a type holds in a field is a part of it.
pub proof fn fields_of_ty_kind_are_parts(node: TyKind)
    ensures
        node matches TyKind::Slice(ty) ==> parts(Part::TyKind(node)).contains(Part::Ty(*ty)),
        node matches TyKind::Array(
            ty,
            constant,
        ) ==> parts(
            Part::TyKind(node),
        ).contains(Part::Ty(*ty)) && parts(Part::TyKind(node)).contains(Part::AnonConst(constant)),
        node matches TyKind::Ptr(
            mut_ty,
        ) ==> parts(Part::TyKind(node)).contains(Part::MutTy(mut_ty)),
        node matches TyKind::Rptr(
            _,
            mut_ty,
        ) ==> parts(Part::TyKind(node)).contains(Part::MutTy(mut_ty)),
        node matches TyKind::BareFn(
            bare_fn,
        ) ==> parts(Part::TyKind(node)).contains(Part::BareFnTy(*bare_fn)),
        node matches TyKind::Tup(
            tys,
        ) ==> (
            forall|i: int| 0 <= i < tys@.len() ==> parts(
                Part::TyKind(node),
            ).contains(Part::Ty(#[trigger] tys@[i]))
        ),
        node matches TyKind::Path(
            qself,
            path,
        ) ==> (
            qself matches Some(x) ==> parts(Part::TyKind(node)).contains(Part::QSelf(x))
        ) && parts(Part::TyKind(node)).contains(Part::Path(path)),
        node matches TyKind::TraitObject(
            bounds,
            _,
        ) ==> (
            forall|i: int| 0 <= i < bounds@.len() ==> parts(
                Part::TyKind(node),
            ).contains(Part::GenericBound(#[trigger] bounds@[i]))
        ),
        node matches TyKind::ImplTrait(
            _,
            bounds,
        ) ==> (
            forall|i: int| 0 <= i < bounds@.len() ==> parts(
                Part::TyKind(node),
            ).contains(Part::GenericBound(#[trigger] bounds@[i]))
        ),
        node matches TyKind::Paren(ty) ==> parts(Part::TyKind(node)).contains(Part::Ty(*ty)),
        node matches TyKind::Typeof(
            constant,
        ) ==> parts(Part::TyKind(node)).contains(Part::AnonConst(constant)),
        node matches TyKind::Mac(mac) ==> parts(Part::TyKind(node)).contains(Part::Mac(mac)),
{
    broadcast use group_contains;

    match node {
        TyKind::Tup(tys) => {
            assert forall|i: int| 0 <= i < tys@.len() implies tys_parts(tys@).contains(
                Part::Ty(#[trigger] tys@[i]),
            ) by {
                assert(tys_parts(tys@)[i] == Part::Ty(tys@[i]));
            }
        },
        TyKind::TraitObject(bounds, _) => {
            assert forall|i: int| 0 <= i < bounds@.len() implies bounds_parts(bounds@).contains(
                Part::GenericBound(#[trigger] bounds@[i]),
            ) by {
                assert(bounds_parts(bounds@)[i] == Part::GenericBound(bounds@[i]));
            }
        },
        TyKind::ImplTrait(_, bounds) => {
            assert forall|i: int| 0 <= i < bounds@.len() implies bounds_parts(bounds@).contains(
                Part::GenericBound(#[trigger] bounds@[i]),
            ) by {
                assert(bounds_parts(bounds@)[i] == Part::GenericBound(bounds@[i]));
            }
        },
        _ => {},
    }
}

/// The parts of the form of a type stand in the order of the text.
pub proof fn parts_of_ty_kind_stand_in_order(node: TyKind)
    ensures
        node matches TyKind::Array(
            ty,
            constant,
        ) ==> parts(
            Part::TyKind(node),
        ).len() == 2 && parts(
            Part::TyKind(node),
        )[0] == Part::Ty(*ty) && parts(Part::TyKind(node))[1] == Part::AnonConst(constant),
        node matches TyKind::Path(
            qself,
            path,
        ) ==> parts(
            Part::TyKind(node),
        ).len() == one_if(
            qself is Some,
        ) + 1 && (
            qself matches Some(x) ==> parts(Part::TyKind(node))[0] == Part::QSelf(x)
        ) && parts(Part::TyKind(node))[one_if(qself is Some)] == Part::Path(path),
{
}

/// What a type is made of, in the order of the text.
pub open spec fn parts_of_ty(node: Ty) -> Seq<Part> {
    seq![Part::TyKind(node.kind)]
}

/// Types as parts.
pub open spec fn tys_parts(list: Seq<Ty>) -> Seq<Part> {
    list.map_values(|x: Ty| Part::Ty(x))
}

/// A type as a part, where it is there.
pub open spec fn optional_ty_parts(node: Option<Box<Ty>>) -> Seq<Part> {
    match node {
        Some(x) => seq![Part::Ty(*x)],
        None => seq![],
    }
}

impl<
    S,
    F: Fn(&S, &str) -> (S, bool),
    G: Fn(&S, &Expr) -> (S, Expr),
    H: Fn(&S, &Mac) -> S,
> Rules<S, F, G, H> {
    /// Going through a type is going through what it is made of, part by part.
    pub proof fn goes_through_the_parts_of_ty(
        self,
        from: S,
        before: Ty,
        to: S,
        after: Ty,
    )
        requires
            self.visited_ty(from, before, to, after),
        ensures
            self.visited_parts(from, parts_of_ty(before), to, parts_of_ty(after)),
    {
        self.single_part(from, Part::TyKind(before.kind), to, Part::TyKind(after.kind));
    }

    /// A visitor whose calls can always be made can go through a type.
    pub(crate) proof fn total_goes_through_ty(self, node: Ty)
        requires
            self.is_total(),
        ensures
            self.can_visit_ty(node),
        decreases node,
    {
        self.total_goes_through_ty_kind(node.kind);
    }

    /// Going through a list of types is going through them one by one.
    pub(crate) proof fn tys_are_parts(
        self,
        from: S,
        before: Seq<Ty>,
        to: S,
        after: Seq<Ty>,
    )
        requires
            self.visited_tys(from, before, to, after),
        ensures
            self.visited_parts(from, tys_parts(before), to, tys_parts(after)),
        decreases before.len(),
    {
        if before.len() > 0 {
            let mid = choose|mid: S|
                {
                    &&& #[trigger] between(mid)
                    &&& self.visited_tys(from, before.drop_last(), mid, after.drop_last())
                    &&& self.visited_ty(mid, before.last(), to, after.last())
                };
            self.tys_are_parts(from, before.drop_last(), mid, after.drop_last());
            assert(tys_parts(before).drop_last() =~= tys_parts(before.drop_last()));
            assert(tys_parts(after).drop_last() =~= tys_parts(after.drop_last()));
        }
    }

    /// Going through what may be there is going through it as a part.
    pub(crate) proof fn optional_ty_is_part(
        self,
        from: S,
        before: Option<Box<Ty>>,
        to: S,
        after: Option<Box<Ty>>,
    )
        requires
            self.visited_optional_ty(from, before, to, after),
        ensures
            self.visited_parts(
                from,
                optional_ty_parts(before),
                to,
                optional_ty_parts(after),
            ),
    {
        if let (Some(x), Some(y)) = (before, after) {
            self.single_part(from, Part::Ty(*x), to, Part::Ty(*y));
        }
    }
}

/// What is visited in a type is what is visited in what it is made of, part by part.
pub proof fn visits_the_parts_of_ty(node: Ty)
    ensures
        nodes_in_ty(node) == nodes_in_parts(parts_of_ty(node)),
{
    nodes_in_one_part(Part::TyKind(node.kind));
}

/// What is visited in a list of types is what is visited in them one by one.
pub(crate) proof fn nodes_in_tys_parts(list: Seq<Ty>, count: int)
    requires
        0 <= count <= list.len(),
    ensures
        nodes_in_tys(list, count) == nodes_in_parts(tys_parts(list.take(count))),
    decreases count,
{
    if count > 0 {
        nodes_in_tys_parts(list, count - 1);
        assert(tys_parts(list.take(count)).drop_last() =~= tys_parts(list.take(count - 1)));
    }
}

/// Every node that a type holds in a field is a part of it.
pub proof fn fields_of_ty_are_parts(node: Ty)
    ensures
        parts(Part::Ty(node)).contains(Part::TyKind(node.kind)),
{
    broadcast use group_contains;

}

} // verus!
