//! The visitor on patterns.

use vstd::prelude::*;

use crate::ast::attr::{Mac, attributes_same_as_themselves};
use crate::ast::expr::Expr;
use crate::ast::pat::{FieldPat, Pat, PatKind, same_field_pats, same_pats};
use crate::filter_map::{Rules, between};
use crate::settled::pat::{settled_field_pats, settled_pats};

verus! {

impl<
    S,
    F: Fn(&S, &str) -> (S, bool),
    G: Fn(&S, &Expr) -> (S, Expr),
    H: Fn(&S, &Mac) -> S,
> Rules<S, F, G, H> {
    /// A field pattern can be gone through.
    pub open spec fn can_visit_field_pat(self, node: FieldPat) -> bool
        decreases node,
    {
        self.can_visit_pat(*node.pat)
    }

    /// `after` is `before` with every expression in it visited in order.
    pub open spec fn visited_field_pat(
        self,
        from: S,
        before: FieldPat,
        to: S,
        after: FieldPat,
    ) -> bool
        decreases before,
    {
        &&& self.visited_pat(from, *before.pat, to, *after.pat)
        &&& before.ident == after.ident
        &&& before.is_shorthand == after.is_shorthand
        &&& before.attrs == after.attrs
        &&& before.id == after.id
        &&& before.span == after.span
        &&& before.is_placeholder == after.is_placeholder
    }

    /// Goes through a field pattern.
    pub fn visit_field_pat(&self, state: &mut S, node: &mut FieldPat)
        requires
            self.can_visit_field_pat(*old(node)),
        ensures
            self.visited_field_pat(*old(state), *old(node), *final(state), *final(node)),
        decreases *old(node),
    {
        self.visit_pat(state, &mut node.pat);
    }

    /// A visit that accepts nothing settles a field pattern, and leaves it as it is where it was
    /// settled.
    pub(crate) proof fn quiet_visit_of_field_pat(
        self,
        from: S,
        before: FieldPat,
        to: S,
        after: FieldPat,
    )
        requires
            self.accepts_nothing(),
            self.visited_field_pat(from, before, to, after),
        ensures
            after.settled(),
            before.settled() ==> before.same(after),
        decreases before,
    {
        self.quiet_visit_of_pat(from, *before.pat, to, *after.pat);
        before.ident.same_as_itself();
        attributes_same_as_themselves(before.attrs@);
    }

    /// A list of field patterns can be gone through.
    pub open spec fn can_visit_field_pats(self, list: Seq<FieldPat>) -> bool
        decreases list,
    {
        forall|i: int| 0 <= i < list.len() ==> self.can_visit_field_pat(#[trigger] list[i])
    }

    /// `after` is `before` with every expression in it visited in order.
    pub open spec fn visited_field_pats(
        self,
        from: S,
        before: Seq<FieldPat>,
        to: S,
        after: Seq<FieldPat>,
    ) -> bool
        decreases before,
    {
        &&& before.len() == after.len()
        &&& if before.len() == 0 {
            from == to
        } else {
            exists|mid: S|
                {
                    &&& #[trigger] between(mid)
                    &&& self.visited_field_pats(from, before.drop_last(), mid, after.drop_last())
                    &&& self.visited_field_pat(mid, before.last(), to, after.last())
                }
        }
    }

    /// Goes through a list of field patterns.
    pub fn visit_field_pats(&self, state: &mut S, list: &mut Vec<FieldPat>)
        requires
            self.can_visit_field_pats(old(list)@),
        ensures
            self.visited_field_pats(*old(state), old(list)@, *final(state), final(list)@),
        decreases *old(list),
    {
        let ghost from = *state;
        let mut i: usize = 0;
        while i < list.len()
            invariant
                i <= list@.len(),
                list@.len() == old(list)@.len(),
                self.can_visit_field_pats(old(list)@),
                self.visited_field_pats(
                    from,
                    old(list)@.take(i as int),
                    *state,
                    list@.take(i as int),
                ),
                forall|j: int| i <= j < list@.len() ==> list@[j] == old(list)@[j],
            decreases list@.len() - i,
        {
            let ghost done = list@.take(i as int);
            assert(between(*state));
            assert(list@[i as int] == old(list)@[i as int]);
            self.visit_field_pat(state, &mut list[i]);
            i += 1;
            assert(old(list)@.take(i as int).drop_last() =~= old(list)@.take(i - 1));
            assert(list@.take(i as int).drop_last() =~= done);
        }
        assert(old(list)@.take(i as int) =~= old(list)@);
        assert(list@.take(i as int) =~= list@);
    }

    /// A visit that accepts nothing settles a list, and leaves it as it is where it was settled.
    pub(crate) proof fn quiet_visit_of_field_pats(
        self,
        from: S,
        before: Seq<FieldPat>,
        to: S,
        after: Seq<FieldPat>,
    )
        requires
            self.accepts_nothing(),
            self.visited_field_pats(from, before, to, after),
        ensures
            settled_field_pats(after),
            settled_field_pats(before) ==> same_field_pats(before, after),
        decreases before,
    {
        if before.len() > 0 {
            let mid = choose|mid: S|
                {
                    &&& #[trigger] between(mid)
                    &&& self.visited_field_pats(from, before.drop_last(), mid, after.drop_last())
                    &&& self.visited_field_pat(mid, before.last(), to, after.last())
                };
            self.quiet_visit_of_field_pats(from, before.drop_last(), mid, after.drop_last());
            self.quiet_visit_of_field_pat(mid, before.last(), to, after.last());
            assert forall|i: int| 0 <= i < after.len() implies (#[trigger] after[i]).settled() by {
                if i < after.len() - 1 {
                    assert(after[i] == after.drop_last()[i]);
                }
            }
            if settled_field_pats(before) {
                assert forall|i: int| 0 <= i < before.len() - 1 implies (
                    #[trigger] before.drop_last()[i]
                ).settled() by {
                    assert(before.drop_last()[i] == before[i]);
                }
                assert forall|i: int| 0 <= i < before.len() implies (#[trigger] before[i]).same(
                    after[i],
                ) by {
                    if i < before.len() - 1 {
                        assert(before.drop_last()[i].same(after.drop_last()[i]));
                    }
                }
            }
        }
    }

    /// The form of a pattern can be gone through.
    pub open spec fn can_visit_pat_kind(self, node: PatKind) -> bool
        decreases node,
    {
        match node {
            PatKind::Ident(_, _, pat) => {
                match pat {
                    Some(x) => self.can_visit_pat(*x),
                    None => true,
                }
            },
            PatKind::Struct(path, fields, _) => {
                &&& self.can_visit_path(path)
                &&& self.can_visit_field_pats(fields@)
            },
            PatKind::TupleStruct(path, pats) => {
                &&& self.can_visit_path(path)
                &&& self.can_visit_pats(pats@)
            },
            PatKind::Or(pats) => self.can_visit_pats(pats@),
            PatKind::Path(qself, path) => {
                &&& match qself {
                    Some(x) => self.can_visit_q_self(x),
                    None => true,
                }
                &&& self.can_visit_path(path)
            },
            PatKind::Tuple(pats) => self.can_visit_pats(pats@),
            PatKind::Box(pat) => self.can_visit_pat(*pat),
            PatKind::Ref(pat, _) => self.can_visit_pat(*pat),
            PatKind::Lit(expr) => self.can_visit_expr(*expr),
            PatKind::Range(left, right, _) => {
                &&& self.can_visit_expr(*left)
                &&& self.can_visit_expr(*right)
            },
            PatKind::Slice(pats) => self.can_visit_pats(pats@),
            PatKind::Paren(pat) => self.can_visit_pat(*pat),
            PatKind::Mac(mac) => self.can_visit_mac(mac),
            _ => true,
        }
    }

    /// `after` is `before` with every expression in it visited in order.
    pub open spec fn visited_pat_kind(self, from: S, before: PatKind, to: S, after: PatKind) -> bool
        decreases before,
    {
        match (before, after) {
            (PatKind::Ident(mode, ident, pat), PatKind::Ident(mode2, ident2, pat2)) => {
                &&& self.visited_optional_pat(from, pat, to, pat2)
                &&& mode == mode2
                &&& ident == ident2
            },
            (PatKind::Struct(path, fields, flag), PatKind::Struct(path2, fields2, flag2)) => {
                &&& exists|mid: S|
                    {
                        &&& #[trigger] between(mid)
                        &&& self.visited_path(from, path, mid, path2)
                        &&& self.visited_field_pats(mid, fields@, to, fields2@)
                    }
                &&& flag == flag2
            },
            (PatKind::TupleStruct(path, pats), PatKind::TupleStruct(path2, pats2)) => {
                exists|mid: S|
                    {
                        &&& #[trigger] between(mid)
                        &&& self.visited_path(from, path, mid, path2)
                        &&& self.visited_pats(mid, pats@, to, pats2@)
                    }
            },
            (PatKind::Or(pats), PatKind::Or(pats2)) => self.visited_pats(from, pats@, to, pats2@),
            (PatKind::Path(qself, path), PatKind::Path(qself2, path2)) => {
                exists|mid: S|
                    {
                        &&& #[trigger] between(mid)
                        &&& self.visited_optional_q_self(from, qself, mid, qself2)
                        &&& self.visited_path(mid, path, to, path2)
                    }
            },
            (PatKind::Tuple(pats), PatKind::Tuple(pats2)) => {
                self.visited_pats(from, pats@, to, pats2@)
            },
            (PatKind::Box(pat), PatKind::Box(pat2)) => self.visited_pat(from, *pat, to, *pat2),
            (PatKind::Ref(pat, mutability), PatKind::Ref(pat2, mutability2)) => {
                &&& self.visited_pat(from, *pat, to, *pat2)
                &&& mutability == mutability2
            },
            (PatKind::Lit(expr), PatKind::Lit(expr2)) => self.visited_expr(from, *expr, to, *expr2),
            (PatKind::Range(left, right, end), PatKind::Range(left2, right2, end2)) => {
                &&& exists|mid: S|
                    {
                        &&& #[trigger] between(mid)
                        &&& self.visited_expr(from, *left, mid, *left2)
                        &&& self.visited_expr(mid, *right, to, *right2)
                    }
                &&& end == end2
            },
            (PatKind::Slice(pats), PatKind::Slice(pats2)) => {
                self.visited_pats(from, pats@, to, pats2@)
            },
            (PatKind::Paren(pat), PatKind::Paren(pat2)) => self.visited_pat(from, *pat, to, *pat2),
            (PatKind::Mac(mac), PatKind::Mac(mac2)) => self.visited_mac(from, mac, to, mac2),
            _ => before == after && from == to,
        }
    }

    /// Goes through the form of a pattern.
    pub fn visit_pat_kind(&self, state: &mut S, node: &mut PatKind)
        requires
            self.can_visit_pat_kind(*old(node)),
        ensures
            self.visited_pat_kind(*old(state), *old(node), *final(state), *final(node)),
        decreases *old(node),
    {
        match node {
            PatKind::Ident(_, _, pat) => {
                self.visit_optional_pat(state, pat);
            },
            PatKind::Struct(path, fields, _) => {
                self.visit_path(state, path);
                assert(between(*state));
                self.visit_field_pats(state, fields);
            },
            PatKind::TupleStruct(path, pats) => {
                self.visit_path(state, path);
                assert(between(*state));
                self.visit_pats(state, pats);
            },
            PatKind::Or(pats) => {
                self.visit_pats(state, pats);
            },
            PatKind::Path(qself, path) => {
                self.visit_optional_q_self(state, qself);
                assert(between(*state));
                self.visit_path(state, path);
            },
            PatKind::Tuple(pats) => {
                self.visit_pats(state, pats);
            },
            PatKind::Box(pat) => {
                self.visit_pat(state, pat);
            },
            PatKind::Ref(pat, _) => {
                self.visit_pat(state, pat);
            },
            PatKind::Lit(expr) => {
                self.visit_expr(state, expr);
            },
            PatKind::Range(left, right, _) => {
                self.visit_expr(state, left);
                assert(between(*state));
                self.visit_expr(state, right);
            },
            PatKind::Slice(pats) => {
                self.visit_pats(state, pats);
            },
            PatKind::Paren(pat) => {
                self.visit_pat(state, pat);
            },
            PatKind::Mac(mac) => {
                self.visit_mac(state, mac);
            },
            _ => {},
        }
    }

    /// A visit that accepts nothing settles the form of a pattern, and leaves it as it is where it
    /// was settled.
    pub(crate) proof fn quiet_visit_of_pat_kind(
        self,
        from: S,
        before: PatKind,
        to: S,
        after: PatKind,
    )
        requires
            self.accepts_nothing(),
            self.visited_pat_kind(from, before, to, after),
        ensures
            after.settled(),
            before.settled() ==> before.same(after),
        decreases before,
    {
        match (before, after) {
            (PatKind::Ident(_, ident, pat), PatKind::Ident(_, _, pat2)) => {
                self.quiet_visit_of_optional_pat(from, pat, to, pat2);
                ident.same_as_itself();
            },
            (PatKind::Struct(path, fields, _), PatKind::Struct(path2, fields2, _)) => {
                let mid = choose|mid: S|
                    {
                        &&& #[trigger] between(mid)
                        &&& self.visited_path(from, path, mid, path2)
                        &&& self.visited_field_pats(mid, fields@, to, fields2@)
                    };
                self.quiet_visit_of_path(from, path, mid, path2);
                self.quiet_visit_of_field_pats(mid, fields@, to, fields2@);
            },
            (PatKind::TupleStruct(path, pats), PatKind::TupleStruct(path2, pats2)) => {
                let mid = choose|mid: S|
                    {
                        &&& #[trigger] between(mid)
                        &&& self.visited_path(from, path, mid, path2)
                        &&& self.visited_pats(mid, pats@, to, pats2@)
                    };
                self.quiet_visit_of_path(from, path, mid, path2);
                self.quiet_visit_of_pats(mid, pats@, to, pats2@);
            },
            (PatKind::Or(pats), PatKind::Or(pats2)) => {
                self.quiet_visit_of_pats(from, pats@, to, pats2@);
            },
            (PatKind::Path(qself, path), PatKind::Path(qself2, path2)) => {
                let mid = choose|mid: S|
                    {
                        &&& #[trigger] between(mid)
                        &&& self.visited_optional_q_self(from, qself, mid, qself2)
                        &&& self.visited_path(mid, path, to, path2)
                    };
                self.quiet_visit_of_optional_q_self(from, qself, mid, qself2);
                self.quiet_visit_of_path(mid, path, to, path2);
            },
            (PatKind::Tuple(pats), PatKind::Tuple(pats2)) => {
                self.quiet_visit_of_pats(from, pats@, to, pats2@);
            },
            (PatKind::Box(pat), PatKind::Box(pat2)) => {
                self.quiet_visit_of_pat(from, *pat, to, *pat2);
            },
            (PatKind::Ref(pat, _), PatKind::Ref(pat2, _)) => {
                self.quiet_visit_of_pat(from, *pat, to, *pat2);
            },
            (PatKind::Lit(expr), PatKind::Lit(expr2)) => {
                self.quiet_visit_of_expr(from, *expr, to, *expr2);
            },
            (PatKind::Range(left, right, _), PatKind::Range(left2, right2, _)) => {
                let mid = choose|mid: S|
                    {
                        &&& #[trigger] between(mid)
                        &&& self.visited_expr(from, *left, mid, *left2)
                        &&& self.visited_expr(mid, *right, to, *right2)
                    };
                self.quiet_visit_of_expr(from, *left, mid, *left2);
                self.quiet_visit_of_expr(mid, *right, to, *right2);
            },
            (PatKind::Slice(pats), PatKind::Slice(pats2)) => {
                self.quiet_visit_of_pats(from, pats@, to, pats2@);
            },
            (PatKind::Paren(pat), PatKind::Paren(pat2)) => {
                self.quiet_visit_of_pat(from, *pat, to, *pat2);
            },
            (PatKind::Mac(mac), PatKind::Mac(mac2)) => {
                self.quiet_visit_of_mac(from, mac, to, mac2);
            },
            _ => {
                before.same_as_itself();
            },
        }
    }

    /// A pattern can be gone through.
    pub open spec fn can_visit_pat(self, node: Pat) -> bool
        decreases node,
    {
        self.can_visit_pat_kind(node.kind)
    }

    /// `after` is `before` with every expression in it visited in order.
    pub open spec fn visited_pat(self, from: S, before: Pat, to: S, after: Pat) -> bool
        decreases before,
    {
        &&& self.visited_pat_kind(from, before.kind, to, after.kind)
        &&& before.id == after.id
        &&& before.span == after.span
    }

    /// Goes through a pattern.
    pub fn visit_pat(&self, state: &mut S, node: &mut Pat)
        requires
            self.can_visit_pat(*old(node)),
        ensures
            self.visited_pat(*old(state), *old(node), *final(state), *final(node)),
        decreases *old(node),
    {
        self.visit_pat_kind(state, &mut node.kind);
    }

    /// A visit that accepts nothing settles a pattern, and leaves it as it is where it was settled.
    pub(crate) proof fn quiet_visit_of_pat(self, from: S, before: Pat, to: S, after: Pat)
        requires
            self.accepts_nothing(),
            self.visited_pat(from, before, to, after),
        ensures
            after.settled(),
            before.settled() ==> before.same(after),
        decreases before,
    {
        self.quiet_visit_of_pat_kind(from, before.kind, to, after.kind);
    }

    /// A list of patterns can be gone through.
    pub open spec fn can_visit_pats(self, list: Seq<Pat>) -> bool
        decreases list,
    {
        forall|i: int| 0 <= i < list.len() ==> self.can_visit_pat(#[trigger] list[i])
    }

    /// `after` is `before` with every expression in it visited in order.
    pub open spec fn visited_pats(
        self,
        from: S,
        before: Seq<Pat>,
        to: S,
        after: Seq<Pat>,
    ) -> bool
        decreases before,
    {
        &&& before.len() == after.len()
        &&& if before.len() == 0 {
            from == to
        } else {
            exists|mid: S|
                {
                    &&& #[trigger] between(mid)
                    &&& self.visited_pats(from, before.drop_last(), mid, after.drop_last())
                    &&& self.visited_pat(mid, before.last(), to, after.last())
                }
        }
    }

    /// Goes through a list of patterns.
    pub fn visit_pats(&self, state: &mut S, list: &mut Vec<Pat>)
        requires
            self.can_visit_pats(old(list)@),
        ensures
            self.visited_pats(*old(state), old(list)@, *final(state), final(list)@),
        decreases *old(list),
    {
        let ghost from = *state;
        let mut i: usize = 0;
        while i < list.len()
            invariant
                i <= list@.len(),
                list@.len() == old(list)@.len(),
                self.can_visit_pats(old(list)@),
                self.visited_pats(
                    from,
                    old(list)@.take(i as int),
                    *state,
                    list@.take(i as int),
                ),
                forall|j: int| i <= j < list@.len() ==> list@[j] == old(list)@[j],
            decreases list@.len() - i,
        {
            let ghost done = list@.take(i as int);
            assert(between(*state));
            assert(list@[i as int] == old(list)@[i as int]);
            self.visit_pat(state, &mut list[i]);
            i += 1;
            assert(old(list)@.take(i as int).drop_last() =~= old(list)@.take(i - 1));
            assert(list@.take(i as int).drop_last() =~= done);
        }
        assert(old(list)@.take(i as int) =~= old(list)@);
        assert(list@.take(i as int) =~= list@);
    }

    /// A visit that accepts nothing settles a list, and leaves it as it is where it was settled.
    pub(crate) proof fn quiet_visit_of_pats(
        self,
        from: S,
        before: Seq<Pat>,
        to: S,
        after: Seq<Pat>,
    )
        requires
            self.accepts_nothing(),
            self.visited_pats(from, before, to, after),
        ensures
            settled_pats(after),
            settled_pats(before) ==> same_pats(before, after),
        decreases before,
    {
        if before.len() > 0 {
            let mid = choose|mid: S|
                {
                    &&& #[trigger] between(mid)
                    &&& self.visited_pats(from, before.drop_last(), mid, after.drop_last())
                    &&& self.visited_pat(mid, before.last(), to, after.last())
                };
            self.quiet_visit_of_pats(from, before.drop_last(), mid, after.drop_last());
            self.quiet_visit_of_pat(mid, before.last(), to, after.last());
            assert forall|i: int| 0 <= i < after.len() implies (#[trigger] after[i]).settled() by {
                if i < after.len() - 1 {
                    assert(after[i] == after.drop_last()[i]);
                }
            }
            if settled_pats(before) {
                assert forall|i: int| 0 <= i < before.len() - 1 implies (
                    #[trigger] before.drop_last()[i]
                ).settled() by {
                    assert(before.drop_last()[i] == before[i]);
                }
                assert forall|i: int| 0 <= i < before.len() implies (#[trigger] before[i]).same(
                    after[i],
                ) by {
                    if i < before.len() - 1 {
                        assert(before.drop_last()[i].same(after.drop_last()[i]));
                    }
                }
            }
        }
    }

    /// `after` is `before`, with every expression in it visited in order where it is there.
    pub open spec fn visited_optional_pat(
        self,
        from: S,
        before: Option<Box<Pat>>,
        to: S,
        after: Option<Box<Pat>>,
    ) -> bool
        decreases before,
    {
        match (before, after) {
            (Some(x), Some(y)) => self.visited_pat(from, *x, to, *y),
            (None, None) => from == to,
            _ => false,
        }
    }

    /// Goes through a pattern where it is there.
    pub fn visit_optional_pat(&self, state: &mut S, node: &mut Option<Box<Pat>>)
        requires
            *old(node) matches Some(x) ==> self.can_visit_pat(*x),
        ensures
            self.visited_optional_pat(*old(state), *old(node), *final(state), *final(node)),
        decreases *old(node),
    {
        if let Some(x) = node {
            self.visit_pat(state, x);
        }
    }

    /// A visit that accepts nothing settles what is there, and leaves it as it is where it was
    /// settled.
    pub(crate) proof fn quiet_visit_of_optional_pat(
        self,
        from: S,
        before: Option<Box<Pat>>,
        to: S,
        after: Option<Box<Pat>>,
    )
        requires
            self.accepts_nothing(),
            self.visited_optional_pat(from, before, to, after),
        ensures
            after matches Some(y) ==> y.settled(),
            match (before, after) {
                (Some(x), Some(y)) => x.settled() ==> x.same(*y),
                (None, None) => true,
                _ => false,
            },
        decreases before,
    {
        if let (Some(x), Some(y)) = (before, after) {
            self.quiet_visit_of_pat(from, *x, to, *y);
        }
    }
}

} // verus!
