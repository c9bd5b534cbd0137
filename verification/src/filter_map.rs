//! The visitor that replaces chosen expressions wherever they stand.

use std::marker::PhantomData;

use vstd::prelude::*;

use crate::ast::attr::Mac;
use crate::ast::expr::{Expr, ExprKind};
use crate::ast::item::Crate;
use crate::parts::{Part, parts};
use crate::visit::{lemma_part_stands_in, lemma_stands_in_is_a_part, stands_in};

pub mod expr;
pub mod func;
pub mod generics;
pub mod item;
pub mod pat;
pub mod path;
pub mod stmt;
pub mod ty;

verus! {

/// What the visitor does with expressions. It asks `filter` about the name of the form of each
/// one. Where the answer is yes, the expression is replaced by what `map` gives for it and not
/// looked into; where it is no, the visitor goes on below the expression.
///
/// What a macro call expands to is not known, so there is nothing below it: the visitor calls
/// `mac` on it and leaves it as it is. A closure that must not be called makes sure that no macro
/// call is come upon.
///
/// Each of the three is given a state and gives back the next one, which goes to the call that
/// follows.
#[verifier::reject_recursive_types(S)]
pub struct Rules<S, F, G, H> {
    pub filter: F,
    pub map: G,
    pub mac: H,
    pub state: PhantomData<S>,
}

/// A visitor: what it does, and the state that it is in.
#[verifier::reject_recursive_types(S)]
pub struct FilterMap<S, F, G, H> {
    pub state: S,
    pub rules: Rules<S, F, G, H>,
}

/// The expression has these two operands, from left to right.
pub open spec fn has_operands(kind: ExprKind, left: Expr, right: Expr) -> bool {
    ||| kind matches ExprKind::Binary(_, l, r) && *l == left && *r == right
    ||| kind matches ExprKind::Assign(l, r) && *l == left && *r == right
    ||| kind matches ExprKind::AssignOp(_, l, r) && *l == left && *r == right
    ||| kind matches ExprKind::Index(l, r) && *l == left && *r == right
}

/// Marks a state between two calls; it says nothing of the state.
pub open spec fn between<S>(state: S) -> bool {
    true
}

/// The rules made of these three.
pub open spec fn rules_of<S, F, G, H>(filter: F, map: G, mac: H) -> Rules<S, F, G, H> {
    Rules { filter, map, mac, state: PhantomData }
}

impl<S, F, G, H> FilterMap<S, F, G, H> {
    /// A visitor with these rules in this state.
    pub fn new(state: S, filter: F, map: G, mac: H) -> (visitor: FilterMap<S, F, G, H>)
        ensures
            visitor.state == state,
            visitor.rules == rules_of::<S, F, G, H>(filter, map, mac),
    {
        FilterMap { state, rules: Rules { filter, map, mac, state: PhantomData } }
    }
}

impl Expr {
    /// Replaces the topmost expressions whose forms have a name that the filter accepts by what
    /// `map` gives for them, wherever they stand in this expression. Macro calls that the filter
    /// does not accept are handed to `mac`. The state goes from each call to the next.
    pub fn filtermap_subexprs<
        S,
        F: Fn(&S, &str) -> (S, bool),
        G: Fn(&S, &Expr) -> (S, Expr),
        H: Fn(&S, &Mac) -> S,
    >(&mut self, state: &mut S, filter: F, map: G, mac: H)
        requires
            rules_of::<S, F, G, H>(filter, map, mac).can_visit_expr(*old(self)),
        ensures
            rules_of::<S, F, G, H>(filter, map, mac).visited_expr(
                *old(state),
                *old(self),
                *final(state),
                *final(self),
            ),
    {
        let rules = Rules { filter, map, mac, state: PhantomData };
        rules.visit_expr(state, self);
    }
}

impl<
    S,
    F: Fn(&S, &str) -> (S, bool),
    G: Fn(&S, &Expr) -> (S, Expr),
    H: Fn(&S, &Mac) -> S,
> Rules<S, F, G, H> {
    /// The filter can be asked about a name, whatever the state.
    pub open spec fn can_ask(self, name: &str) -> bool {
        forall|state: S| #[trigger] call_requires(self.filter, (&state, name))
    }

    /// The map can be called on an expression, whatever the state.
    pub open spec fn can_map(self, node: Expr) -> bool {
        forall|state: S| #[trigger] call_requires(self.map, (&state, &node))
    }

    /// There is a state in which the filter may give this answer.
    pub open spec fn may_answer(self, name: &str, answer: bool) -> bool {
        exists|from: S, to: S| #[trigger] self.asked(from, name, to, answer)
    }

    /// The filter may give this answer in the state `from`, and leave the state `to`.
    pub open spec fn asked(self, from: S, name: &str, to: S, answer: bool) -> bool {
        call_ensures(self.filter, (&from, name), (to, answer))
    }

    /// The map may give `after` for `before` in the state `from`, and leave the state `to`.
    pub open spec fn mapped(self, from: S, before: Expr, to: S, after: Expr) -> bool {
        call_ensures(self.map, (&from, &before), (to, after))
    }

    /// Asks the filter about a name.
    fn ask(&self, state: &mut S, name: &str) -> (answer: bool)
        requires
            self.can_ask(name),
        ensures
            self.asked(*old(state), name, *final(state), answer),
    {
        let (next, answer) = (self.filter)(state, name);
        *state = next;
        answer
    }

    /// Calls the map on an expression.
    fn replacement(&self, state: &mut S, node: &Expr) -> (replacement: Expr)
        requires
            self.can_map(*node),
        ensures
            self.mapped(*old(state), *node, *final(state), replacement),
    {
        let (next, replacement) = (self.map)(state, node);
        *state = next;
        replacement
    }

    /// A macro call can be come upon, whatever the state.
    pub open spec fn can_visit_mac(self, node: Mac) -> bool {
        forall|state: S| #[trigger] call_requires(self.mac, (&state, &node))
    }

    /// `after` is the macro call `before`, which was handed to `mac`.
    pub open spec fn visited_mac(self, from: S, before: Mac, to: S, after: Mac) -> bool {
        &&& call_ensures(self.mac, (&from, &before), to)
        &&& after == before
    }

    /// Comes upon a macro call.
    pub fn visit_mac(&self, state: &mut S, node: &mut Mac)
        requires
            self.can_visit_mac(*old(node)),
        ensures
            self.visited_mac(*old(state), *old(node), *final(state), *final(node)),
    {
        let next: S = (self.mac)(state, node);
        *state = next;
    }

    /// A macro call stays as it is.
    pub(crate) proof fn quiet_visit_of_mac(self, from: S, before: Mac, to: S, after: Mac)
        requires
            self.visited_mac(from, before, to, after),
        ensures
            before.same(after),
    {
        before.same_as_itself();
    }

    /// The filter accepts no name.
    pub open spec fn accepts_nothing(self) -> bool {
        forall|from: S, name: &str, to: S| !#[trigger] self.asked(from, name, to, true)
    }

    /// Asking is calling the filter, mapping is calling the map, and what the visitor may do is
    /// what the three may do, each on the state that it is given.
    pub proof fn the_visitor_only_calls(self, from: S, name: &str, node: Expr, mac: Mac, to: S)
        ensures
            forall|answer: bool| #[trigger]
                self.asked(from, name, to, answer) <==> call_ensures(
                    self.filter,
                    (&from, name),
                    (to, answer),
                ),
            forall|after: Expr| #[trigger]
                self.mapped(from, node, to, after) <==> call_ensures(
                    self.map,
                    (&from, &node),
                    (to, after),
                ),
            forall|after: Mac| #[trigger]
                self.visited_mac(from, mac, to, after) <==> after == mac && call_ensures(
                    self.mac,
                    (&from, &mac),
                    to,
                ),
            forall|answer: bool|
                call_ensures(self.filter, (&from, name), (to, answer)) ==> #[trigger]
                self.may_answer(name, answer),
    {
        assert forall|answer: bool|
            call_ensures(self.filter, (&from, name), (to, answer)) implies #[trigger]
        self.may_answer(name, answer) by {
            assert(self.asked(from, name, to, answer));
        }
    }

    /// What the visitor takes to be possible is what its closures allow: it can ask and map where
    /// they can be called in every state, an answer may come where the filter may give it in some
    /// state, and it accepts nothing where the filter accepts nothing.
    pub proof fn the_closures_decide(self, name: &str, node: Expr, mac: Mac, answer: bool)
        ensures
            self.can_ask(name) <==> forall|state: S| #[trigger]
                call_requires(self.filter, (&state, name)),
            self.can_map(node) <==> forall|state: S| #[trigger]
                call_requires(self.map, (&state, &node)),
            self.can_visit_mac(mac) <==> forall|state: S| #[trigger]
                call_requires(self.mac, (&state, &mac)),
            self.may_answer(name, answer) <==> exists|from: S, to: S| #[trigger]
                call_ensures(self.filter, (&from, name), (to, answer)),
            self.accepts_nothing() <==> forall|from: S, other: &str, to: S|
                !#[trigger] call_ensures(self.filter, (&from, other), (to, true)),
    {
        if self.may_answer(name, answer) {
            let (from, to) = choose|from: S, to: S| #[trigger] self.asked(from, name, to, answer);
            assert(call_ensures(self.filter, (&from, name), (to, answer)));
        }
        if exists|from: S, to: S| #[trigger]
            call_ensures(self.filter, (&from, name), (to, answer)) {
            let (from, to) = choose|from: S, to: S| #[trigger]
                call_ensures(self.filter, (&from, name), (to, answer));
            assert(self.asked(from, name, to, answer));
        }
        if self.accepts_nothing() {
            assert forall|from: S, other: &str, to: S|
                !#[trigger] call_ensures(self.filter, (&from, other), (to, true)) by {
                assert(!self.asked(from, other, to, true));
            }
        }
        if forall|from: S, other: &str, to: S|
            !#[trigger] call_ensures(self.filter, (&from, other), (to, true)) {
            assert(self.accepts_nothing());
        }
    }

    /// Three closures that can be called on anything make a visitor that can go anywhere.
    pub proof fn three_total_calls_are_enough(self)
        requires
            forall|state: S, name: &str| #[trigger] call_requires(self.filter, (&state, name)),
            forall|state: S, node: Expr| #[trigger] call_requires(self.map, (&state, &node)),
            forall|state: S, node: Mac| #[trigger] call_requires(self.mac, (&state, &node)),
        ensures
            self.is_total(),
    {
    }

    /// A visit that accepts nothing leaves an expression as it is, where parentheses have the ids
    /// of what stands between them.
    pub proof fn quiet_visit_changes_nothing(self, from: S, before: Expr, to: S, after: Expr)
        requires
            self.accepts_nothing(),
            self.visited_expr(from, before, to, after),
            before.settled(),
        ensures
            before.same(after),
    {
        self.quiet_visit_of_expr(from, before, to, after);
    }

    /// After a visit that accepts nothing, parentheses have the ids of what stands between them.
    pub proof fn quiet_visit_settles(self, from: S, before: Expr, to: S, after: Expr)
        requires
            self.accepts_nothing(),
            self.visited_expr(from, before, to, after),
        ensures
            after.settled(),
    {
        self.quiet_visit_of_expr(from, before, to, after);
    }

    /// A visit that accepts nothing leaves an expression as another such visit left it.
    pub proof fn second_visit_changes_nothing(
        self,
        from: S,
        before: Expr,
        then: S,
        once: Expr,
        to: S,
        after: Expr,
    )
        requires
            self.accepts_nothing(),
            self.visited_expr(from, before, then, once),
            self.visited_expr(then, once, to, after),
        ensures
            once.same(after),
    {
        self.quiet_visit_settles(from, before, then, once);
        self.quiet_visit_changes_nothing(then, once, to, after);
    }

    /// A visit that accepts nothing leaves a whole crate as it is, where parentheses have the ids
    /// of what stands between them; afterwards they always have.
    pub proof fn quiet_visit_changes_no_crate(self, from: S, before: Crate, to: S, after: Crate)
        requires
            self.accepts_nothing(),
            self.visited_crate(from, before, to, after),
        ensures
            after.settled(),
            before.settled() ==> before.same(after),
    {
        self.quiet_visit_of_crate(from, before, to, after);
    }

    /// An expression whose form has a name that the filter is sure to accept can be visited where
    /// the map can be called on it.
    pub proof fn accepted_can_be_visited(self, node: Expr)
        requires
            self.can_ask(node.kind.ast_name()),
            !self.may_answer(node.kind.ast_name(), false),
            self.can_map(node),
        ensures
            self.can_visit_expr(node),
    {
    }

    /// An expression whose form has a name that the filter is sure to reject can be visited where
    /// what stands below it can be gone through.
    pub proof fn rejected_can_be_visited(self, node: Expr)
        requires
            self.can_ask(node.kind.ast_name()),
            !self.may_answer(node.kind.ast_name(), true),
            self.can_walk_expr(node),
        ensures
            self.can_visit_expr(node),
    {
    }

    /// Where the filter is sure to accept the name of an expression's form, the expression is
    /// replaced by what the map gives for it, called in the state that the filter left.
    pub proof fn accepted_is_mapped(self, from: S, before: Expr, to: S, after: Expr)
        requires
            self.visited_expr(from, before, to, after),
            !self.may_answer(before.kind.ast_name(), false),
        ensures
            exists|mid: S|
                {
                    &&& #[trigger] self.asked(from, before.kind.ast_name(), mid, true)
                    &&& self.mapped(mid, before, to, after)
                },
    {
    }

    /// Where the filter is sure to reject the name of an expression's form, the expression keeps
    /// its form, its place and its attributes, and but for parentheses its id.
    pub proof fn rejected_keeps_its_form(self, from: S, before: Expr, to: S, after: Expr)
        requires
            self.visited_expr(from, before, to, after),
            !self.may_answer(before.kind.ast_name(), true),
        ensures
            after.kind.ast_name() == before.kind.ast_name(),
            after.span == before.span,
            after.attrs == before.attrs,
            !(before.kind is Paren) ==> after.id == before.id,
    {
    }

    /// Parentheses have the id of the expression between them once the visitor has been there.
    pub proof fn parentheses_share_the_id(self, from: S, before: Expr, to: S, after: Expr)
        requires
            self.walked_expr(from, before, to, after),
            before.kind is Paren,
        ensures
            after.kind matches ExprKind::Paren(child) && after.id == child.id,
    {
    }

    /// The left operand of a binary operation is visited before the right one.
    pub proof fn left_operand_comes_first(self, from: S, before: Expr, to: S, after: Expr)
        requires
            self.walked_expr(from, before, to, after),
            before.kind is Binary,
        ensures
            after.kind is Binary,
            exists|mid: S|
                {
                    &&& #[trigger] between(mid)
                    &&& self.visited_expr(
                        from,
                        *before.kind->Binary_1,
                        mid,
                        *after.kind->Binary_1,
                    )
                    &&& self.visited_expr(mid, *before.kind->Binary_2, to, *after.kind->Binary_2)
                },
    {
        assert(self.visited_expr_kind(from, before.kind, to, after.kind));
    }

    /// The left operand of an expression with two is visited before the right one.
    pub proof fn operands_are_visited_from_left_to_right(
        self,
        from: S,
        before: Expr,
        to: S,
        after: Expr,
        left: Expr,
        right: Expr,
    )
        requires
            self.walked_expr(from, before, to, after),
            has_operands(before.kind, left, right),
        ensures
            exists|mid: S, left_after: Expr, right_after: Expr|
                {
                    &&& #[trigger] between(mid)
                    &&& #[trigger] has_operands(after.kind, left_after, right_after)
                    &&& self.visited_expr(from, left, mid, left_after)
                    &&& self.visited_expr(mid, right, to, right_after)
                },
    {
        assert(self.visited_expr_kind(from, before.kind, to, after.kind));
        match (before.kind, after.kind) {
            (ExprKind::Binary(_, _, _), ExprKind::Binary(_, l2, r2)) => {
                assert(has_operands(after.kind, *l2, *r2));
            },
            (ExprKind::Assign(_, _), ExprKind::Assign(l2, r2)) => {
                assert(has_operands(after.kind, *l2, *r2));
            },
            (ExprKind::AssignOp(_, _, _), ExprKind::AssignOp(_, l2, r2)) => {
                assert(has_operands(after.kind, *l2, *r2));
            },
            (ExprKind::Index(_, _), ExprKind::Index(l2, r2)) => {
                assert(has_operands(after.kind, *l2, *r2));
            },
            _ => {},
        }
    }

    /// The condition of an `if` is visited before its block, and its block before the alternative.
    pub proof fn condition_comes_first(self, from: S, before: Expr, to: S, after: Expr)
        requires
            self.walked_expr(from, before, to, after),
            before.kind is If,
        ensures
            after.kind is If,
            exists|first: S, second: S|
                {
                    &&& #[trigger] between(first)
                    &&& #[trigger] between(second)
                    &&& self.visited_expr(from, *before.kind->If_0, first, *after.kind->If_0)
                    &&& self.visited_block(first, *before.kind->If_1, second, *after.kind->If_1)
                    &&& match (before.kind->If_2, after.kind->If_2) {
                        (Some(x), Some(y)) => self.visited_expr(second, *x, to, *y),
                        (None, None) => second == to,
                        _ => false,
                    }
                },
    {
        assert(self.visited_expr_kind(from, before.kind, to, after.kind));
        let (first, second) = choose|first: S, second: S|
            {
                &&& #[trigger] between(first)
                &&& #[trigger] between(second)
                &&& self.visited_expr(from, *before.kind->If_0, first, *after.kind->If_0)
                &&& self.visited_block(first, *before.kind->If_1, second, *after.kind->If_1)
                &&& self.visited_optional_expr(second, before.kind->If_2, to, after.kind->If_2)
            };
        assert(self.visited_optional_expr(second, before.kind->If_2, to, after.kind->If_2));
    }

    /// An expression that the filter is sure to accept and that stands directly in a rejected one
    /// is replaced there: the map was called on it, and what it gave stands in its place.
    pub proof fn accepted_operand_is_mapped(
        self,
        from: S,
        before: Expr,
        to: S,
        after: Expr,
        inner: Expr,
    )
        requires
            self.visited_expr(from, before, to, after),
            !self.may_answer(before.kind.ast_name(), true),
            stands_in(inner, before.kind),
            !self.may_answer(inner.kind.ast_name(), false),
        ensures
            exists|start: S, mid: S, end: S, replacement: Expr|
                {
                    &&& #[trigger] self.asked(start, inner.kind.ast_name(), mid, true)
                    &&& #[trigger] self.mapped(mid, inner, end, replacement)
                    &&& stands_in(replacement, after.kind)
                },
    {
        let whole = Part::ExprKind(before.kind);
        lemma_stands_in_is_a_part(before.kind, inner);
        let index = choose|i: int| 0 <= i < parts(whole).len() && parts(whole)[i] == Part::Expr(
            inner,
        );
        let state = choose|state: S|
            {
                &&& #[trigger] self.asked(from, before.kind.ast_name(), state, false)
                &&& self.walked_expr(state, before, to, after)
            };
        assert(self.visited_expr_kind(state, before.kind, to, after.kind));
        self.goes_through_the_parts_of_expr_kind(state, before.kind, to, after.kind);
        let whole_after = Part::ExprKind(after.kind);
        self.each_part_is_visited(state, parts(whole), to, parts(whole_after), index);
        let (start, end) = choose|start: S, end: S| #[trigger]
            self.visited_part(start, parts(whole)[index], end, parts(whole_after)[index]);
        let replacement = parts(whole_after)[index]->Expr_0;
        assert(parts(whole_after).contains(Part::Expr(replacement)));
        lemma_part_stands_in(after.kind, replacement);
        self.accepted_is_mapped(start, inner, end, replacement);
    }

    /// The elements of a list are visited in order: all but the last one first.
    pub proof fn last_element_comes_last(
        self,
        from: S,
        before: Seq<Expr>,
        to: S,
        after: Seq<Expr>,
    )
        requires
            self.visited_exprs(from, before, to, after),
            before.len() > 0,
        ensures
            after.len() == before.len(),
            exists|mid: S|
                {
                    &&& #[trigger] between(mid)
                    &&& self.visited_exprs(from, before.drop_last(), mid, after.drop_last())
                    &&& self.visited_expr(mid, before.last(), to, after.last())
                },
    {
    }
}

} // verus!
