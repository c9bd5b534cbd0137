//! The visitor on expressions.

use vstd::prelude::*;

use crate::ast::attr::{Mac, attributes_same_as_themselves};
use crate::ast::expr::{
    AnonConst, Arm, Expr, ExprKind, Field, InlineAsm, InlineAsmInput, InlineAsmOutput, same_arms,
    same_asm_inputs, same_asm_outputs, same_exprs, same_fields,
};
use crate::filter_map::{Rules, between};
use crate::settled::expr::{
    settled_arms, settled_asm_inputs, settled_asm_outputs, settled_exprs, settled_fields,
};

verus! {

impl<
    S,
    F: Fn(&S, &str) -> (S, bool),
    G: Fn(&S, &Expr) -> (S, Expr),
    H: Fn(&S, &Mac) -> S,
> Rules<S, F, G, H> {
    /// A constant expression can be gone through.
    pub open spec fn can_visit_anon_const(self, node: AnonConst) -> bool
        decreases node,
    {
        self.can_visit_expr(*node.value)
    }

    /// `after` is `before` with every expression in it visited in order.
    pub open spec fn visited_anon_const(
        self,
        from: S,
        before: AnonConst,
        to: S,
        after: AnonConst,
    ) -> bool
        decreases before,
    {
        &&& self.visited_expr(from, *before.value, to, *after.value)
        &&& before.id == after.id
    }

    /// Goes through a constant expression.
    pub fn visit_anon_const(&self, state: &mut S, node: &mut AnonConst)
        requires
            self.can_visit_anon_const(*old(node)),
        ensures
            self.visited_anon_const(*old(state), *old(node), *final(state), *final(node)),
        decreases *old(node),
    {
        self.visit_expr(state, &mut node.value);
    }

    /// A visit that accepts nothing settles a constant expression, and leaves it as it is where it
    /// was settled.
    pub(crate) proof fn quiet_visit_of_anon_const(
        self,
        from: S,
        before: AnonConst,
        to: S,
        after: AnonConst,
    )
        requires
            self.accepts_nothing(),
            self.visited_anon_const(from, before, to, after),
        ensures
            after.settled(),
            before.settled() ==> before.same(after),
        decreases before,
    {
        self.quiet_visit_of_expr(from, *before.value, to, *after.value);
    }

    /// `after` is `before`, with every expression in it visited in order where it is there.
    pub open spec fn visited_optional_anon_const(
        self,
        from: S,
        before: Option<AnonConst>,
        to: S,
        after: Option<AnonConst>,
    ) -> bool
        decreases before,
    {
        match (before, after) {
            (Some(x), Some(y)) => self.visited_anon_const(from, x, to, y),
            (None, None) => from == to,
            _ => false,
        }
    }

    /// Goes through a constant expression where it is there.
    pub fn visit_optional_anon_const(&self, state: &mut S, node: &mut Option<AnonConst>)
        requires
            *old(node) matches Some(x) ==> self.can_visit_anon_const(x),
        ensures
            self.visited_optional_anon_const(*old(state), *old(node), *final(state), *final(node)),
        decreases *old(node),
    {
        if let Some(x) = node {
            self.visit_anon_const(state, x);
        }
    }

    /// A visit that accepts nothing settles what is there, and leaves it as it is where it was
    /// settled.
    pub(crate) proof fn quiet_visit_of_optional_anon_const(
        self,
        from: S,
        before: Option<AnonConst>,
        to: S,
        after: Option<AnonConst>,
    )
        requires
            self.accepts_nothing(),
            self.visited_optional_anon_const(from, before, to, after),
        ensures
            after matches Some(y) ==> y.settled(),
            match (before, after) {
                (Some(x), Some(y)) => x.settled() ==> x.same(y),
                (None, None) => true,
                _ => false,
            },
        decreases before,
    {
        if let (Some(x), Some(y)) = (before, after) {
            self.quiet_visit_of_anon_const(from, x, to, y);
        }
    }

    /// A match arm can be gone through.
    pub open spec fn can_visit_arm(self, node: Arm) -> bool
        decreases node,
    {
        &&& self.can_visit_pat(*node.pat)
        &&& match node.guard {
            Some(x) => self.can_visit_expr(*x),
            None => true,
        }
        &&& self.can_visit_expr(*node.body)
    }

    /// `after` is `before` with every expression in it visited in order.
    pub open spec fn visited_arm(self, from: S, before: Arm, to: S, after: Arm) -> bool
        decreases before,
    {
        &&& exists|first_mid: S, second_mid: S|
            {
                &&& #[trigger] between(first_mid)
                &&& #[trigger] between(second_mid)
                &&& self.visited_pat(from, *before.pat, first_mid, *after.pat)
                &&& self.visited_optional_expr(first_mid, before.guard, second_mid, after.guard)
                &&& self.visited_expr(second_mid, *before.body, to, *after.body)
            }
        &&& before.attrs == after.attrs
        &&& before.span == after.span
        &&& before.id == after.id
        &&& before.is_placeholder == after.is_placeholder
    }

    /// Goes through a match arm.
    pub fn visit_arm(&self, state: &mut S, node: &mut Arm)
        requires
            self.can_visit_arm(*old(node)),
        ensures
            self.visited_arm(*old(state), *old(node), *final(state), *final(node)),
        decreases *old(node),
    {
        self.visit_pat(state, &mut node.pat);
        assert(between(*state));
        self.visit_optional_expr(state, &mut node.guard);
        assert(between(*state));
        self.visit_expr(state, &mut node.body);
    }

    /// A visit that accepts nothing settles a match arm, and leaves it as it is where it was
    /// settled.
    pub(crate) proof fn quiet_visit_of_arm(self, from: S, before: Arm, to: S, after: Arm)
        requires
            self.accepts_nothing(),
            self.visited_arm(from, before, to, after),
        ensures
            after.settled(),
            before.settled() ==> before.same(after),
        decreases before,
    {
        let (first_mid, second_mid) = choose|first_mid: S, second_mid: S|
            {
                &&& #[trigger] between(first_mid)
                &&& #[trigger] between(second_mid)
                &&& self.visited_pat(from, *before.pat, first_mid, *after.pat)
                &&& self.visited_optional_expr(first_mid, before.guard, second_mid, after.guard)
                &&& self.visited_expr(second_mid, *before.body, to, *after.body)
            };
        self.quiet_visit_of_pat(from, *before.pat, first_mid, *after.pat);
        self.quiet_visit_of_optional_expr(first_mid, before.guard, second_mid, after.guard);
        self.quiet_visit_of_expr(second_mid, *before.body, to, *after.body);
        attributes_same_as_themselves(before.attrs@);
    }

    /// A list of match arms can be gone through.
    pub open spec fn can_visit_arms(self, list: Seq<Arm>) -> bool
        decreases list,
    {
        forall|i: int| 0 <= i < list.len() ==> self.can_visit_arm(#[trigger] list[i])
    }

    /// `after` is `before` with every expression in it visited in order.
    pub open spec fn visited_arms(
        self,
        from: S,
        before: Seq<Arm>,
        to: S,
        after: Seq<Arm>,
    ) -> bool
        decreases before,
    {
        &&& before.len() == after.len()
        &&& if before.len() == 0 {
            from == to
        } else {
            exists|mid: S|
                {
                    &&& #[trigger] between(mid)
                    &&& self.visited_arms(from, before.drop_last(), mid, after.drop_last())
                    &&& self.visited_arm(mid, before.last(), to, after.last())
                }
        }
    }

    /// Goes through a list of match arms.
    pub fn visit_arms(&self, state: &mut S, list: &mut Vec<Arm>)
        requires
            self.can_visit_arms(old(list)@),
        ensures
            self.visited_arms(*old(state), old(list)@, *final(state), final(list)@),
        decreases *old(list),
    {
        let ghost from = *state;
        let mut i: usize = 0;
        while i < list.len()
            invariant
                i <= list@.len(),
                list@.len() == old(list)@.len(),
                self.can_visit_arms(old(list)@),
                self.visited_arms(
                    from,
                    old(list)@.take(i as int),
                    *state,
                    list@.take(i as int),
                ),
                forall|j: int| i <= j < list@.len() ==> list@[j] == old(list)@[j],
            decreases list@.len() - i,
        {
            let ghost done = list@.take(i as int);
            assert(between(*state));
            assert(list@[i as int] == old(list)@[i as int]);
            self.visit_arm(state, &mut list[i]);
            i += 1;
            assert(old(list)@.take(i as int).drop_last() =~= old(list)@.take(i - 1));
            assert(list@.take(i as int).drop_last() =~= done);
        }
        assert(old(list)@.take(i as int) =~= old(list)@);
        assert(list@.take(i as int) =~= list@);
    }

    /// A visit that accepts nothing settles a list, and leaves it as it is where it was settled.
    pub(crate) proof fn quiet_visit_of_arms(
        self,
        from: S,
        before: Seq<Arm>,
        to: S,
        after: Seq<Arm>,
    )
        requires
            self.accepts_nothing(),
            self.visited_arms(from, before, to, after),
        ensures
            settled_arms(after),
            settled_arms(before) ==> same_arms(before, after),
        decreases before,
    {
        if before.len() > 0 {
            let mid = choose|mid: S|
                {
                    &&& #[trigger] between(mid)
                    &&& self.visited_arms(from, before.drop_last(), mid, after.drop_last())
                    &&& self.visited_arm(mid, before.last(), to, after.last())
                };
            self.quiet_visit_of_arms(from, before.drop_last(), mid, after.drop_last());
            self.quiet_visit_of_arm(mid, before.last(), to, after.last());
            assert forall|i: int| 0 <= i < after.len() implies (#[trigger] after[i]).settled() by {
                if i < after.len() - 1 {
                    assert(after[i] == after.drop_last()[i]);
                }
            }
            if settled_arms(before) {
                assert forall|i: int| 0 <= i < before.len() - 1 implies (
                    #[trigger] before.drop_last()[i]
                ).settled() by {
                    assert(before.drop_last()[i] == before[i]);
                }
                assert forall|i: int| 0 <= i < before.len() implies (#[trigger] before[i]).same(
                    after[i],
                ) by {
                    if i < before.len() - 1 {
                        assert(before.drop_last()[i].same(after.drop_last()[i]));
                    }
                }
            }
        }
    }

    /// A field initialiser can be gone through.
    pub open spec fn can_visit_field(self, node: Field) -> bool
        decreases node,
    {
        self.can_visit_expr(*node.expr)
    }

    /// `after` is `before` with every expression in it visited in order.
    pub open spec fn visited_field(self, from: S, before: Field, to: S, after: Field) -> bool
        decreases before,
    {
        &&& self.visited_expr(from, *before.expr, to, *after.expr)
        &&& before.ident == after.ident
        &&& before.span == after.span
        &&& before.is_shorthand == after.is_shorthand
        &&& before.attrs == after.attrs
        &&& before.id == after.id
        &&& before.is_placeholder == after.is_placeholder
    }

    /// Goes through a field initialiser.
    pub fn visit_field(&self, state: &mut S, node: &mut Field)
        requires
            self.can_visit_field(*old(node)),
        ensures
            self.visited_field(*old(state), *old(node), *final(state), *final(node)),
        decreases *old(node),
    {
        self.visit_expr(state, &mut node.expr);
    }

    /// A visit that accepts nothing settles a field initialiser, and leaves it as it is where it
    /// was settled.
    pub(crate) proof fn quiet_visit_of_field(self, from: S, before: Field, to: S, after: Field)
        requires
            self.accepts_nothing(),
            self.visited_field(from, before, to, after),
        ensures
            after.settled(),
            before.settled() ==> before.same(after),
        decreases before,
    {
        self.quiet_visit_of_expr(from, *before.expr, to, *after.expr);
        before.ident.same_as_itself();
        attributes_same_as_themselves(before.attrs@);
    }

    /// A list of field initialisers can be gone through.
    pub open spec fn can_visit_fields(self, list: Seq<Field>) -> bool
        decreases list,
    {
        forall|i: int| 0 <= i < list.len() ==> self.can_visit_field(#[trigger] list[i])
    }

    /// `after` is `before` with every expression in it visited in order.
    pub open spec fn visited_fields(
        self,
        from: S,
        before: Seq<Field>,
        to: S,
        after: Seq<Field>,
    ) -> bool
        decreases before,
    {
        &&& before.len() == after.len()
        &&& if before.len() == 0 {
            from == to
        } else {
            exists|mid: S|
                {
                    &&& #[trigger] between(mid)
                    &&& self.visited_fields(from, before.drop_last(), mid, after.drop_last())
                    &&& self.visited_field(mid, before.last(), to, after.last())
                }
        }
    }

    /// Goes through a list of field initialisers.
    pub fn visit_fields(&self, state: &mut S, list: &mut Vec<Field>)
        requires
            self.can_visit_fields(old(list)@),
        ensures
            self.visited_fields(*old(state), old(list)@, *final(state), final(list)@),
        decreases *old(list),
    {
        let ghost from = *state;
        let mut i: usize = 0;
        while i < list.len()
            invariant
                i <= list@.len(),
                list@.len() == old(list)@.len(),
                self.can_visit_fields(old(list)@),
                self.visited_fields(
                    from,
                    old(list)@.take(i as int),
                    *state,
                    list@.take(i as int),
                ),
                forall|j: int| i <= j < list@.len() ==> list@[j] == old(list)@[j],
            decreases list@.len() - i,
        {
            let ghost done = list@.take(i as int);
            assert(between(*state));
            assert(list@[i as int] == old(list)@[i as int]);
            self.visit_field(state, &mut list[i]);
            i += 1;
            assert(old(list)@.take(i as int).drop_last() =~= old(list)@.take(i - 1));
            assert(list@.take(i as int).drop_last() =~= done);
        }
        assert(old(list)@.take(i as int) =~= old(list)@);
        assert(list@.take(i as int) =~= list@);
    }

    /// A visit that accepts nothing settles a list, and leaves it as it is where it was settled.
    pub(crate) proof fn quiet_visit_of_fields(
        self,
        from: S,
        before: Seq<Field>,
        to: S,
        after: Seq<Field>,
    )
        requires
            self.accepts_nothing(),
            self.visited_fields(from, before, to, after),
        ensures
            settled_fields(after),
            settled_fields(before) ==> same_fields(before, after),
        decreases before,
    {
        if before.len() > 0 {
            let mid = choose|mid: S|
                {
                    &&& #[trigger] between(mid)
                    &&& self.visited_fields(from, before.drop_last(), mid, after.drop_last())
                    &&& self.visited_field(mid, before.last(), to, after.last())
                };
            self.quiet_visit_of_fields(from, before.drop_last(), mid, after.drop_last());
            self.quiet_visit_of_field(mid, before.last(), to, after.last());
            assert forall|i: int| 0 <= i < after.len() implies (#[trigger] after[i]).settled() by {
                if i < after.len() - 1 {
                    assert(after[i] == after.drop_last()[i]);
                }
            }
            if settled_fields(before) {
                assert forall|i: int| 0 <= i < before.len() - 1 implies (
                    #[trigger] before.drop_last()[i]
                ).settled() by {
                    assert(before.drop_last()[i] == before[i]);
                }
                assert forall|i: int| 0 <= i < before.len() implies (#[trigger] before[i]).same(
                    after[i],
                ) by {
                    if i < before.len() - 1 {
                        assert(before.drop_last()[i].same(after.drop_last()[i]));
                    }
                }
            }
        }
    }

    /// An output operand can be gone through.
    pub open spec fn can_visit_asm_output(self, node: InlineAsmOutput) -> bool
        decreases node,
    {
        self.can_visit_expr(*node.expr)
    }

    /// `after` is `before` with every expression in it visited in order.
    pub open spec fn visited_asm_output(
        self,
        from: S,
        before: InlineAsmOutput,
        to: S,
        after: InlineAsmOutput,
    ) -> bool
        decreases before,
    {
        &&& self.visited_expr(from, *before.expr, to, *after.expr)
        &&& before.constraint == after.constraint
        &&& before.is_rw == after.is_rw
        &&& before.is_indirect == after.is_indirect
    }

    /// Goes through an output operand.
    pub fn visit_asm_output(&self, state: &mut S, node: &mut InlineAsmOutput)
        requires
            self.can_visit_asm_output(*old(node)),
        ensures
            self.visited_asm_output(*old(state), *old(node), *final(state), *final(node)),
        decreases *old(node),
    {
        self.visit_expr(state, &mut node.expr);
    }

    /// A visit that accepts nothing settles an output operand, and leaves it as it is where it was
    /// settled.
    pub(crate) proof fn quiet_visit_of_asm_output(
        self,
        from: S,
        before: InlineAsmOutput,
        to: S,
        after: InlineAsmOutput,
    )
        requires
            self.accepts_nothing(),
            self.visited_asm_output(from, before, to, after),
        ensures
            after.settled(),
            before.settled() ==> before.same(after),
        decreases before,
    {
        self.quiet_visit_of_expr(from, *before.expr, to, *after.expr);
    }

    /// A list of output operands can be gone through.
    pub open spec fn can_visit_asm_outputs(self, list: Seq<InlineAsmOutput>) -> bool
        decreases list,
    {
        forall|i: int| 0 <= i < list.len() ==> self.can_visit_asm_output(#[trigger] list[i])
    }

    /// `after` is `before` with every expression in it visited in order.
    pub open spec fn visited_asm_outputs(
        self,
        from: S,
        before: Seq<InlineAsmOutput>,
        to: S,
        after: Seq<InlineAsmOutput>,
    ) -> bool
        decreases before,
    {
        &&& before.len() == after.len()
        &&& if before.len() == 0 {
            from == to
        } else {
            exists|mid: S|
                {
                    &&& #[trigger] between(mid)
                    &&& self.visited_asm_outputs(from, before.drop_last(), mid, after.drop_last())
                    &&& self.visited_asm_output(mid, before.last(), to, after.last())
                }
        }
    }

    /// Goes through a list of output operands.
    pub fn visit_asm_outputs(&self, state: &mut S, list: &mut Vec<InlineAsmOutput>)
        requires
            self.can_visit_asm_outputs(old(list)@),
        ensures
            self.visited_asm_outputs(*old(state), old(list)@, *final(state), final(list)@),
        decreases *old(list),
    {
        let ghost from = *state;
        let mut i: usize = 0;
        while i < list.len()
            invariant
                i <= list@.len(),
                list@.len() == old(list)@.len(),
                self.can_visit_asm_outputs(old(list)@),
                self.visited_asm_outputs(
                    from,
                    old(list)@.take(i as int),
                    *state,
                    list@.take(i as int),
                ),
                forall|j: int| i <= j < list@.len() ==> list@[j] == old(list)@[j],
            decreases list@.len() - i,
        {
            let ghost done = list@.take(i as int);
            assert(between(*state));
            assert(list@[i as int] == old(list)@[i as int]);
            self.visit_asm_output(state, &mut list[i]);
            i += 1;
            assert(old(list)@.take(i as int).drop_last() =~= old(list)@.take(i - 1));
            assert(list@.take(i as int).drop_last() =~= done);
        }
        assert(old(list)@.take(i as int) =~= old(list)@);
        assert(list@.take(i as int) =~= list@);
    }

    /// A visit that accepts nothing settles a list, and leaves it as it is where it was settled.
    pub(crate) proof fn quiet_visit_of_asm_outputs(
        self,
        from: S,
        before: Seq<InlineAsmOutput>,
        to: S,
        after: Seq<InlineAsmOutput>,
    )
        requires
            self.accepts_nothing(),
            self.visited_asm_outputs(from, before, to, after),
        ensures
            settled_asm_outputs(after),
            settled_asm_outputs(before) ==> same_asm_outputs(before, after),
        decreases before,
    {
        if before.len() > 0 {
            let mid = choose|mid: S|
                {
                    &&& #[trigger] between(mid)
                    &&& self.visited_asm_outputs(from, before.drop_last(), mid, after.drop_last())
                    &&& self.visited_asm_output(mid, before.last(), to, after.last())
                };
            self.quiet_visit_of_asm_outputs(from, before.drop_last(), mid, after.drop_last());
            self.quiet_visit_of_asm_output(mid, before.last(), to, after.last());
            assert forall|i: int| 0 <= i < after.len() implies (#[trigger] after[i]).settled() by {
                if i < after.len() - 1 {
                    assert(after[i] == after.drop_last()[i]);
                }
            }
            if settled_asm_outputs(before) {
                assert forall|i: int| 0 <= i < before.len() - 1 implies (
                    #[trigger] before.drop_last()[i]
                ).settled() by {
                    assert(before.drop_last()[i] == before[i]);
                }
                assert forall|i: int| 0 <= i < before.len() implies (#[trigger] before[i]).same(
                    after[i],
                ) by {
                    if i < before.len() - 1 {
                        assert(before.drop_last()[i].same(after.drop_last()[i]));
                    }
                }
            }
        }
    }

    /// An input operand can be gone through.
    pub open spec fn can_visit_asm_input(self, node: InlineAsmInput) -> bool
        decreases node,
    {
        self.can_visit_expr(*node.expr)
    }

    /// `after` is `before` with every expression in it visited in order.
    pub open spec fn visited_asm_input(
        self,
        from: S,
        before: InlineAsmInput,
        to: S,
        after: InlineAsmInput,
    ) -> bool
        decreases before,
    {
        &&& self.visited_expr(from, *before.expr, to, *after.expr)
        &&& before.constraint == after.constraint
    }

    /// Goes through an input operand.
    pub fn visit_asm_input(&self, state: &mut S, node: &mut InlineAsmInput)
        requires
            self.can_visit_asm_input(*old(node)),
        ensures
            self.visited_asm_input(*old(state), *old(node), *final(state), *final(node)),
        decreases *old(node),
    {
        self.visit_expr(state, &mut node.expr);
    }

    /// A visit that accepts nothing settles an input operand, and leaves it as it is where it was
    /// settled.
    pub(crate) proof fn quiet_visit_of_asm_input(
        self,
        from: S,
        before: InlineAsmInput,
        to: S,
        after: InlineAsmInput,
    )
        requires
            self.accepts_nothing(),
            self.visited_asm_input(from, before, to, after),
        ensures
            after.settled(),
            before.settled() ==> before.same(after),
        decreases before,
    {
        self.quiet_visit_of_expr(from, *before.expr, to, *after.expr);
    }

    /// A list of input operands can be gone through.
    pub open spec fn can_visit_asm_inputs(self, list: Seq<InlineAsmInput>) -> bool
        decreases list,
    {
        forall|i: int| 0 <= i < list.len() ==> self.can_visit_asm_input(#[trigger] list[i])
    }

    /// `after` is `before` with every expression in it visited in order.
    pub open spec fn visited_asm_inputs(
        self,
        from: S,
        before: Seq<InlineAsmInput>,
        to: S,
        after: Seq<InlineAsmInput>,
    ) -> bool
        decreases before,
    {
        &&& before.len() == after.len()
        &&& if before.len() == 0 {
            from == to
        } else {
            exists|mid: S|
                {
                    &&& #[trigger] between(mid)
                    &&& self.visited_asm_inputs(from, before.drop_last(), mid, after.drop_last())
                    &&& self.visited_asm_input(mid, before.last(), to, after.last())
                }
        }
    }

    /// Goes through a list of input operands.
    pub fn visit_asm_inputs(&self, state: &mut S, list: &mut Vec<InlineAsmInput>)
        requires
            self.can_visit_asm_inputs(old(list)@),
        ensures
            self.visited_asm_inputs(*old(state), old(list)@, *final(state), final(list)@),
        decreases *old(list),
    {
        let ghost from = *state;
        let mut i: usize = 0;
        while i < list.len()
            invariant
                i <= list@.len(),
                list@.len() == old(list)@.len(),
                self.can_visit_asm_inputs(old(list)@),
                self.visited_asm_inputs(
                    from,
                    old(list)@.take(i as int),
                    *state,
                    list@.take(i as int),
                ),
                forall|j: int| i <= j < list@.len() ==> list@[j] == old(list)@[j],
            decreases list@.len() - i,
        {
            let ghost done = list@.take(i as int);
            assert(between(*state));
            assert(list@[i as int] == old(list)@[i as int]);
            self.visit_asm_input(state, &mut list[i]);
            i += 1;
            assert(old(list)@.take(i as int).drop_last() =~= old(list)@.take(i - 1));
            assert(list@.take(i as int).drop_last() =~= done);
        }
        assert(old(list)@.take(i as int) =~= old(list)@);
        assert(list@.take(i as int) =~= list@);
    }

    /// A visit that accepts nothing settles a list, and leaves it as it is where it was settled.
    pub(crate) proof fn quiet_visit_of_asm_inputs(
        self,
        from: S,
        before: Seq<InlineAsmInput>,
        to: S,
        after: Seq<InlineAsmInput>,
    )
        requires
            self.accepts_nothing(),
            self.visited_asm_inputs(from, before, to, after),
        ensures
            settled_asm_inputs(after),
            settled_asm_inputs(before) ==> same_asm_inputs(before, after),
        decreases before,
    {
        if before.len() > 0 {
            let mid = choose|mid: S|
                {
                    &&& #[trigger] between(mid)
                    &&& self.visited_asm_inputs(from, before.drop_last(), mid, after.drop_last())
                    &&& self.visited_asm_input(mid, before.last(), to, after.last())
                };
            self.quiet_visit_of_asm_inputs(from, before.drop_last(), mid, after.drop_last());
            self.quiet_visit_of_asm_input(mid, before.last(), to, after.last());
            assert forall|i: int| 0 <= i < after.len() implies (#[trigger] after[i]).settled() by {
                if i < after.len() - 1 {
                    assert(after[i] == after.drop_last()[i]);
                }
            }
            if settled_asm_inputs(before) {
                assert forall|i: int| 0 <= i < before.len() - 1 implies (
                    #[trigger] before.drop_last()[i]
                ).settled() by {
                    assert(before.drop_last()[i] == before[i]);
                }
                assert forall|i: int| 0 <= i < before.len() implies (#[trigger] before[i]).same(
                    after[i],
                ) by {
                    if i < before.len() - 1 {
                        assert(before.drop_last()[i].same(after.drop_last()[i]));
                    }
                }
            }
        }
    }

    /// An inline assembly block can be gone through.
    pub open spec fn can_visit_inline_assembly(self, node: InlineAsm) -> bool
        decreases node,
    {
        &&& self.can_visit_asm_outputs(node.outputs@)
        &&& self.can_visit_asm_inputs(node.inputs@)
    }

    /// `after` is `before` with every expression in it visited in order.
    pub open spec fn visited_inline_assembly(
        self,
        from: S,
        before: InlineAsm,
        to: S,
        after: InlineAsm,
    ) -> bool
        decreases before,
    {
        &&& exists|mid: S|
            {
                &&& #[trigger] between(mid)
                &&& self.visited_asm_outputs(from, before.outputs@, mid, after.outputs@)
                &&& self.visited_asm_inputs(mid, before.inputs@, to, after.inputs@)
            }
        &&& before.template == after.template
        &&& before.asm_str_style == after.asm_str_style
        &&& before.clobbers == after.clobbers
        &&& before.volatile == after.volatile
        &&& before.alignstack == after.alignstack
        &&& before.dialect == after.dialect
    }

    /// Goes through an inline assembly block.
    pub fn visit_inline_assembly(&self, state: &mut S, node: &mut InlineAsm)
        requires
            self.can_visit_inline_assembly(*old(node)),
        ensures
            self.visited_inline_assembly(*old(state), *old(node), *final(state), *final(node)),
        decreases *old(node),
    {
        self.visit_asm_outputs(state, &mut node.outputs);
        assert(between(*state));
        self.visit_asm_inputs(state, &mut node.inputs);
    }

    /// A visit that accepts nothing settles an inline assembly block, and leaves it as it is where
    /// it was settled.
    pub(crate) proof fn quiet_visit_of_inline_assembly(
        self,
        from: S,
        before: InlineAsm,
        to: S,
        after: InlineAsm,
    )
        requires
            self.accepts_nothing(),
            self.visited_inline_assembly(from, before, to, after),
        ensures
            after.settled(),
            before.settled() ==> before.same(after),
        decreases before,
    {
        let mid = choose|mid: S|
            {
                &&& #[trigger] between(mid)
                &&& self.visited_asm_outputs(from, before.outputs@, mid, after.outputs@)
                &&& self.visited_asm_inputs(mid, before.inputs@, to, after.inputs@)
            };
        self.quiet_visit_of_asm_outputs(from, before.outputs@, mid, after.outputs@);
        self.quiet_visit_of_asm_inputs(mid, before.inputs@, to, after.inputs@);
    }

    /// The form of an expression can be gone through.
    pub open spec fn can_visit_expr_kind(self, node: ExprKind) -> bool
        decreases node,
    {
        match node {
            ExprKind::Box(expr) => self.can_visit_expr(*expr),
            ExprKind::Array(exprs) => self.can_visit_exprs(exprs@),
            ExprKind::Call(func, params) => {
                &&& self.can_visit_expr(*func)
                &&& self.can_visit_exprs(params@)
            },
            ExprKind::MethodCall(segment, exprs) => {
                &&& self.can_visit_segment(segment)
                &&& self.can_visit_exprs(exprs@)
            },
            ExprKind::Tup(exprs) => self.can_visit_exprs(exprs@),
            ExprKind::Binary(_, left, right) => {
                &&& self.can_visit_expr(*left)
                &&& self.can_visit_expr(*right)
            },
            ExprKind::Unary(_, expr) => self.can_visit_expr(*expr),
            ExprKind::Cast(expr, ty) => {
                &&& self.can_visit_expr(*expr)
                &&& self.can_visit_ty(*ty)
            },
            ExprKind::Type(expr, ty) => {
                &&& self.can_visit_expr(*expr)
                &&& self.can_visit_ty(*ty)
            },
            ExprKind::Let(pat, expr) => {
                &&& self.can_visit_pat(*pat)
                &&& self.can_visit_expr(*expr)
            },
            ExprKind::If(cond, block, otherwise) => {
                &&& self.can_visit_expr(*cond)
                &&& self.can_visit_block(*block)
                &&& match otherwise {
                    Some(x) => self.can_visit_expr(*x),
                    None => true,
                }
            },
            ExprKind::While(expr, block, _) => {
                &&& self.can_visit_expr(*expr)
                &&& self.can_visit_block(*block)
            },
            ExprKind::ForLoop(pat, expr, block, _) => {
                &&& self.can_visit_pat(*pat)
                &&& self.can_visit_expr(*expr)
                &&& self.can_visit_block(*block)
            },
            ExprKind::Loop(block, _) => self.can_visit_block(*block),
            ExprKind::Match(expr, arms) => {
                &&& self.can_visit_expr(*expr)
                &&& self.can_visit_arms(arms@)
            },
            ExprKind::Closure(_, _, _, decl, expr, _) => {
                &&& self.can_visit_fn_decl(*decl)
                &&& self.can_visit_expr(*expr)
            },
            ExprKind::Block(block, _) => self.can_visit_block(*block),
            ExprKind::Async(_, _, block) => self.can_visit_block(*block),
            ExprKind::Await(expr) => self.can_visit_expr(*expr),
            ExprKind::TryBlock(block) => self.can_visit_block(*block),
            ExprKind::Assign(left, right) => {
                &&& self.can_visit_expr(*left)
                &&& self.can_visit_expr(*right)
            },
            ExprKind::AssignOp(_, left, right) => {
                &&& self.can_visit_expr(*left)
                &&& self.can_visit_expr(*right)
            },
            ExprKind::Field(expr, _) => self.can_visit_expr(*expr),
            ExprKind::Index(left, right) => {
                &&& self.can_visit_expr(*left)
                &&& self.can_visit_expr(*right)
            },
            ExprKind::Range(left, right, _) => {
                &&& match left {
                    Some(x) => self.can_visit_expr(*x),
                    None => true,
                }
                &&& match right {
                    Some(x) => self.can_visit_expr(*x),
                    None => true,
                }
            },
            ExprKind::Path(qself, path) => {
                &&& match qself {
                    Some(x) => self.can_visit_q_self(x),
                    None => true,
                }
                &&& self.can_visit_path(path)
            },
            ExprKind::AddrOf(_, expr) => self.can_visit_expr(*expr),
            ExprKind::Break(_, expr) => {
                match expr {
                    Some(x) => self.can_visit_expr(*x),
                    None => true,
                }
            },
            ExprKind::Ret(expr) => {
                match expr {
                    Some(x) => self.can_visit_expr(*x),
                    None => true,
                }
            },
            ExprKind::InlineAsm(assembly) => self.can_visit_inline_assembly(*assembly),
            ExprKind::Mac(mac) => self.can_visit_mac(mac),
            ExprKind::Struct(path, fields, expr) => {
                &&& self.can_visit_path(path)
                &&& self.can_visit_fields(fields@)
                &&& match expr {
                    Some(x) => self.can_visit_expr(*x),
                    None => true,
                }
            },
            ExprKind::Repeat(expr, constant) => {
                &&& self.can_visit_expr(*expr)
                &&& self.can_visit_anon_const(constant)
            },
            ExprKind::Paren(expr) => self.can_visit_expr(*expr),
            ExprKind::Try(expr) => self.can_visit_expr(*expr),
            ExprKind::Yield(expr) => {
                match expr {
                    Some(x) => self.can_visit_expr(*x),
                    None => true,
                }
            },
            _ => true,
        }
    }

    /// `after` is `before` with every expression in it visited in order.
    pub open spec fn visited_expr_kind(
        self,
        from: S,
        before: ExprKind,
        to: S,
        after: ExprKind,
    ) -> bool
        decreases before,
    {
        match (before, after) {
            (ExprKind::Box(expr), ExprKind::Box(expr2)) => {
                self.visited_expr(from, *expr, to, *expr2)
            },
            (ExprKind::Array(exprs), ExprKind::Array(exprs2)) => {
                self.visited_exprs(from, exprs@, to, exprs2@)
            },
            (ExprKind::Call(func, params), ExprKind::Call(func2, params2)) => {
                exists|mid: S|
                    {
                        &&& #[trigger] between(mid)
                        &&& self.visited_expr(from, *func, mid, *func2)
                        &&& self.visited_exprs(mid, params@, to, params2@)
                    }
            },
            (ExprKind::MethodCall(segment, exprs), ExprKind::MethodCall(segment2, exprs2)) => {
                exists|mid: S|
                    {
                        &&& #[trigger] between(mid)
                        &&& self.visited_segment(from, segment, mid, segment2)
                        &&& self.visited_exprs(mid, exprs@, to, exprs2@)
                    }
            },
            (ExprKind::Tup(exprs), ExprKind::Tup(exprs2)) => {
                self.visited_exprs(from, exprs@, to, exprs2@)
            },
            (ExprKind::Binary(op, left, right), ExprKind::Binary(op2, left2, right2)) => {
                &&& exists|mid: S|
                    {
                        &&& #[trigger] between(mid)
                        &&& self.visited_expr(from, *left, mid, *left2)
                        &&& self.visited_expr(mid, *right, to, *right2)
                    }
                &&& op == op2
            },
            (ExprKind::Unary(op, expr), ExprKind::Unary(op2, expr2)) => {
                &&& self.visited_expr(from, *expr, to, *expr2)
                &&& op == op2
            },
            (ExprKind::Cast(expr, ty), ExprKind::Cast(expr2, ty2)) => {
                exists|mid: S|
                    {
                        &&& #[trigger] between(mid)
                        &&& self.visited_expr(from, *expr, mid, *expr2)
                        &&& self.visited_ty(mid, *ty, to, *ty2)
                    }
            },
            (ExprKind::Type(expr, ty), ExprKind::Type(expr2, ty2)) => {
                exists|mid: S|
                    {
                        &&& #[trigger] between(mid)
                        &&& self.visited_expr(from, *expr, mid, *expr2)
                        &&& self.visited_ty(mid, *ty, to, *ty2)
                    }
            },
            (ExprKind::Let(pat, expr), ExprKind::Let(pat2, expr2)) => {
                exists|mid: S|
                    {
                        &&& #[trigger] between(mid)
                        &&& self.visited_pat(from, *pat, mid, *pat2)
                        &&& self.visited_expr(mid, *expr, to, *expr2)
                    }
            },
            (ExprKind::If(cond, block, otherwise), ExprKind::If(cond2, block2, otherwise2)) => {
                exists|first_mid: S, second_mid: S|
                    {
                        &&& #[trigger] between(first_mid)
                        &&& #[trigger] between(second_mid)
                        &&& self.visited_expr(from, *cond, first_mid, *cond2)
                        &&& self.visited_block(first_mid, *block, second_mid, *block2)
                        &&& self.visited_optional_expr(second_mid, otherwise, to, otherwise2)
                    }
            },
            (ExprKind::While(expr, block, label), ExprKind::While(expr2, block2, label2)) => {
                &&& exists|mid: S|
                    {
                        &&& #[trigger] between(mid)
                        &&& self.visited_expr(from, *expr, mid, *expr2)
                        &&& self.visited_block(mid, *block, to, *block2)
                    }
                &&& label == label2
            },
            (
                ExprKind::ForLoop(pat, expr, block, label),
                ExprKind::ForLoop(pat2, expr2, block2, label2),
            ) => {
                &&& exists|first_mid: S, second_mid: S|
                    {
                        &&& #[trigger] between(first_mid)
                        &&& #[trigger] between(second_mid)
                        &&& self.visited_pat(from, *pat, first_mid, *pat2)
                        &&& self.visited_expr(first_mid, *expr, second_mid, *expr2)
                        &&& self.visited_block(second_mid, *block, to, *block2)
                    }
                &&& label == label2
            },
            (ExprKind::Loop(block, label), ExprKind::Loop(block2, label2)) => {
                &&& self.visited_block(from, *block, to, *block2)
                &&& label == label2
            },
            (ExprKind::Match(expr, arms), ExprKind::Match(expr2, arms2)) => {
                exists|mid: S|
                    {
                        &&& #[trigger] between(mid)
                        &&& self.visited_expr(from, *expr, mid, *expr2)
                        &&& self.visited_arms(mid, arms@, to, arms2@)
                    }
            },
            (
                ExprKind::Closure(capture, asyncness, movability, decl, expr, span),
                ExprKind::Closure(capture2, asyncness2, movability2, decl2, expr2, span2),
            ) => {
                &&& exists|mid: S|
                    {
                        &&& #[trigger] between(mid)
                        &&& self.visited_fn_decl(from, *decl, mid, *decl2)
                        &&& self.visited_expr(mid, *expr, to, *expr2)
                    }
                &&& capture == capture2
                &&& asyncness == asyncness2
                &&& movability == movability2
                &&& span == span2
            },
            (ExprKind::Block(block, label), ExprKind::Block(block2, label2)) => {
                &&& self.visited_block(from, *block, to, *block2)
                &&& label == label2
            },
            (ExprKind::Async(capture, id, block), ExprKind::Async(capture2, id2, block2)) => {
                &&& self.visited_block(from, *block, to, *block2)
                &&& capture == capture2
                &&& id == id2
            },
            (ExprKind::Await(expr), ExprKind::Await(expr2)) => {
                self.visited_expr(from, *expr, to, *expr2)
            },
            (ExprKind::TryBlock(block), ExprKind::TryBlock(block2)) => {
                self.visited_block(from, *block, to, *block2)
            },
            (ExprKind::Assign(left, right), ExprKind::Assign(left2, right2)) => {
                exists|mid: S|
                    {
                        &&& #[trigger] between(mid)
                        &&& self.visited_expr(from, *left, mid, *left2)
                        &&& self.visited_expr(mid, *right, to, *right2)
                    }
            },
            (ExprKind::AssignOp(op, left, right), ExprKind::AssignOp(op2, left2, right2)) => {
                &&& exists|mid: S|
                    {
                        &&& #[trigger] between(mid)
                        &&& self.visited_expr(from, *left, mid, *left2)
                        &&& self.visited_expr(mid, *right, to, *right2)
                    }
                &&& op == op2
            },
            (ExprKind::Field(expr, ident), ExprKind::Field(expr2, ident2)) => {
                &&& self.visited_expr(from, *expr, to, *expr2)
                &&& ident == ident2
            },
            (ExprKind::Index(left, right), ExprKind::Index(left2, right2)) => {
                exists|mid: S|
                    {
                        &&& #[trigger] between(mid)
                        &&& self.visited_expr(from, *left, mid, *left2)
                        &&& self.visited_expr(mid, *right, to, *right2)
                    }
            },
            (ExprKind::Range(left, right, limits), ExprKind::Range(left2, right2, limits2)) => {
                &&& exists|mid: S|
                    {
                        &&& #[trigger] between(mid)
                        &&& self.visited_optional_expr(from, left, mid, left2)
                        &&& self.visited_optional_expr(mid, right, to, right2)
                    }
                &&& limits == limits2
            },
            (ExprKind::Path(qself, path), ExprKind::Path(qself2, path2)) => {
                exists|mid: S|
                    {
                        &&& #[trigger] between(mid)
                        &&& self.visited_optional_q_self(from, qself, mid, qself2)
                        &&& self.visited_path(mid, path, to, path2)
                    }
            },
            (ExprKind::AddrOf(mutability, expr), ExprKind::AddrOf(mutability2, expr2)) => {
                &&& self.visited_expr(from, *expr, to, *expr2)
                &&& mutability == mutability2
            },
            (ExprKind::Break(label, expr), ExprKind::Break(label2, expr2)) => {
                &&& self.visited_optional_expr(from, expr, to, expr2)
                &&& label == label2
            },
            (ExprKind::Ret(expr), ExprKind::Ret(expr2)) => {
                self.visited_optional_expr(from, expr, to, expr2)
            },
            (ExprKind::InlineAsm(assembly), ExprKind::InlineAsm(assembly2)) => {
                self.visited_inline_assembly(from, *assembly, to, *assembly2)
            },
            (ExprKind::Mac(mac), ExprKind::Mac(mac2)) => self.visited_mac(from, mac, to, mac2),
            (ExprKind::Struct(path, fields, expr), ExprKind::Struct(path2, fields2, expr2)) => {
                exists|first_mid: S, second_mid: S|
                    {
                        &&& #[trigger] between(first_mid)
                        &&& #[trigger] between(second_mid)
                        &&& self.visited_path(from, path, first_mid, path2)
                        &&& self.visited_fields(first_mid, fields@, second_mid, fields2@)
                        &&& self.visited_optional_expr(second_mid, expr, to, expr2)
                    }
            },
            (ExprKind::Repeat(expr, constant), ExprKind::Repeat(expr2, constant2)) => {
                exists|mid: S|
                    {
                        &&& #[trigger] between(mid)
                        &&& self.visited_expr(from, *expr, mid, *expr2)
                        &&& self.visited_anon_const(mid, constant, to, constant2)
                    }
            },
            (ExprKind::Paren(expr), ExprKind::Paren(expr2)) => {
                self.visited_expr(from, *expr, to, *expr2)
            },
            (ExprKind::Try(expr), ExprKind::Try(expr2)) => {
                self.visited_expr(from, *expr, to, *expr2)
            },
            (ExprKind::Yield(expr), ExprKind::Yield(expr2)) => {
                self.visited_optional_expr(from, expr, to, expr2)
            },
            _ => before == after && from == to,
        }
    }

    /// Goes through the form of an expression.
    pub fn visit_expr_kind(&self, state: &mut S, node: &mut ExprKind)
        requires
            self.can_visit_expr_kind(*old(node)),
        ensures
            self.visited_expr_kind(*old(state), *old(node), *final(state), *final(node)),
        decreases *old(node),
    {
        match node {
            ExprKind::Box(expr) => {
                self.visit_expr(state, expr);
            },
            ExprKind::Array(exprs) => {
                self.visit_exprs(state, exprs);
            },
            ExprKind::Call(func, params) => {
                self.visit_expr(state, func);
                assert(between(*state));
                self.visit_exprs(state, params);
            },
            ExprKind::MethodCall(segment, exprs) => {
                self.visit_segment(state, segment);
                assert(between(*state));
                self.visit_exprs(state, exprs);
            },
            ExprKind::Tup(exprs) => {
                self.visit_exprs(state, exprs);
            },
            ExprKind::Binary(_, left, right) => {
                self.visit_expr(state, left);
                assert(between(*state));
                self.visit_expr(state, right);
            },
            ExprKind::Unary(_, expr) => {
                self.visit_expr(state, expr);
            },
            ExprKind::Cast(expr, ty) => {
                self.visit_expr(state, expr);
                assert(between(*state));
                self.visit_ty(state, ty);
            },
            ExprKind::Type(expr, ty) => {
                self.visit_expr(state, expr);
                assert(between(*state));
                self.visit_ty(state, ty);
            },
            ExprKind::Let(pat, expr) => {
                self.visit_pat(state, pat);
                assert(between(*state));
                self.visit_expr(state, expr);
            },
            ExprKind::If(cond, block, otherwise) => {
                self.visit_expr(state, cond);
                assert(between(*state));
                self.visit_block(state, block);
                assert(between(*state));
                self.visit_optional_expr(state, otherwise);
            },
            ExprKind::While(expr, block, _) => {
                self.visit_expr(state, expr);
                assert(between(*state));
                self.visit_block(state, block);
            },
            ExprKind::ForLoop(pat, expr, block, _) => {
                self.visit_pat(state, pat);
                assert(between(*state));
                self.visit_expr(state, expr);
                assert(between(*state));
                self.visit_block(state, block);
            },
            ExprKind::Loop(block, _) => {
                self.visit_block(state, block);
            },
            ExprKind::Match(expr, arms) => {
                self.visit_expr(state, expr);
                assert(between(*state));
                self.visit_arms(state, arms);
            },
            ExprKind::Closure(_, _, _, decl, expr, _) => {
                self.visit_fn_decl(state, decl);
                assert(between(*state));
                self.visit_expr(state, expr);
            },
            ExprKind::Block(block, _) => {
                self.visit_block(state, block);
            },
            ExprKind::Async(_, _, block) => {
                self.visit_block(state, block);
            },
            ExprKind::Await(expr) => {
                self.visit_expr(state, expr);
            },
            ExprKind::TryBlock(block) => {
                self.visit_block(state, block);
            },
            ExprKind::Assign(left, right) => {
                self.visit_expr(state, left);
                assert(between(*state));
                self.visit_expr(state, right);
            },
            ExprKind::AssignOp(_, left, right) => {
                self.visit_expr(state, left);
                assert(between(*state));
                self.visit_expr(state, right);
            },
            ExprKind::Field(expr, _) => {
                self.visit_expr(state, expr);
            },
            ExprKind::Index(left, right) => {
                self.visit_expr(state, left);
                assert(between(*state));
                self.visit_expr(state, right);
            },
            ExprKind::Range(left, right, _) => {
                self.visit_optional_expr(state, left);
                assert(between(*state));
                self.visit_optional_expr(state, right);
            },
            ExprKind::Path(qself, path) => {
                self.visit_optional_q_self(state, qself);
                assert(between(*state));
                self.visit_path(state, path);
            },
            ExprKind::AddrOf(_, expr) => {
                self.visit_expr(state, expr);
            },
            ExprKind::Break(_, expr) => {
                self.visit_optional_expr(state, expr);
            },
            ExprKind::Ret(expr) => {
                self.visit_optional_expr(state, expr);
            },
            ExprKind::InlineAsm(assembly) => {
                self.visit_inline_assembly(state, assembly);
            },
            ExprKind::Mac(mac) => {
                self.visit_mac(state, mac);
            },
            ExprKind::Struct(path, fields, expr) => {
                self.visit_path(state, path);
                assert(between(*state));
                self.visit_fields(state, fields);
                assert(between(*state));
                self.visit_optional_expr(state, expr);
            },
            ExprKind::Repeat(expr, constant) => {
                self.visit_expr(state, expr);
                assert(between(*state));
                self.visit_anon_const(state, constant);
            },
            ExprKind::Paren(expr) => {
                self.visit_expr(state, expr);
            },
            ExprKind::Try(expr) => {
                self.visit_expr(state, expr);
            },
            ExprKind::Yield(expr) => {
                self.visit_optional_expr(state, expr);
            },
            _ => {},
        }
    }

    /// A visit that accepts nothing settles the form of an expression, and leaves it as it is where
    /// it was settled.
    pub(crate) proof fn quiet_visit_of_expr_kind(
        self,
        from: S,
        before: ExprKind,
        to: S,
        after: ExprKind,
    )
        requires
            self.accepts_nothing(),
            self.visited_expr_kind(from, before, to, after),
        ensures
            after.settled(),
            before.settled() ==> before.same(after),
        decreases before,
    {
        match (before, after) {
            (ExprKind::Box(expr), ExprKind::Box(expr2)) => {
                self.quiet_visit_of_expr(from, *expr, to, *expr2);
            },
            (ExprKind::Array(exprs), ExprKind::Array(exprs2)) => {
                self.quiet_visit_of_exprs(from, exprs@, to, exprs2@);
            },
            (ExprKind::Call(func, params), ExprKind::Call(func2, params2)) => {
                let mid = choose|mid: S|
                    {
                        &&& #[trigger] between(mid)
                        &&& self.visited_expr(from, *func, mid, *func2)
                        &&& self.visited_exprs(mid, params@, to, params2@)
                    };
                self.quiet_visit_of_expr(from, *func, mid, *func2);
                self.quiet_visit_of_exprs(mid, params@, to, params2@);
            },
            (ExprKind::MethodCall(segment, exprs), ExprKind::MethodCall(segment2, exprs2)) => {
                let mid = choose|mid: S|
                    {
                        &&& #[trigger] between(mid)
                        &&& self.visited_segment(from, segment, mid, segment2)
                        &&& self.visited_exprs(mid, exprs@, to, exprs2@)
                    };
                self.quiet_visit_of_segment(from, segment, mid, segment2);
                self.quiet_visit_of_exprs(mid, exprs@, to, exprs2@);
            },
            (ExprKind::Tup(exprs), ExprKind::Tup(exprs2)) => {
                self.quiet_visit_of_exprs(from, exprs@, to, exprs2@);
            },
            (ExprKind::Binary(_, left, right), ExprKind::Binary(_, left2, right2)) => {
                let mid = choose|mid: S|
                    {
                        &&& #[trigger] between(mid)
                        &&& self.visited_expr(from, *left, mid, *left2)
                        &&& self.visited_expr(mid, *right, to, *right2)
                    };
                self.quiet_visit_of_expr(from, *left, mid, *left2);
                self.quiet_visit_of_expr(mid, *right, to, *right2);
            },
            (ExprKind::Unary(_, expr), ExprKind::Unary(_, expr2)) => {
                self.quiet_visit_of_expr(from, *expr, to, *expr2);
            },
            (ExprKind::Cast(expr, ty), ExprKind::Cast(expr2, ty2)) => {
                let mid = choose|mid: S|
                    {
                        &&& #[trigger] between(mid)
                        &&& self.visited_expr(from, *expr, mid, *expr2)
                        &&& self.visited_ty(mid, *ty, to, *ty2)
                    };
                self.quiet_visit_of_expr(from, *expr, mid, *expr2);
                self.quiet_visit_of_ty(mid, *ty, to, *ty2);
            },
            (ExprKind::Type(expr, ty), ExprKind::Type(expr2, ty2)) => {
                let mid = choose|mid: S|
                    {
                        &&& #[trigger] between(mid)
                        &&& self.visited_expr(from, *expr, mid, *expr2)
                        &&& self.visited_ty(mid, *ty, to, *ty2)
                    };
                self.quiet_visit_of_expr(from, *expr, mid, *expr2);
                self.quiet_visit_of_ty(mid, *ty, to, *ty2);
            },
            (ExprKind::Let(pat, expr), ExprKind::Let(pat2, expr2)) => {
                let mid = choose|mid: S|
                    {
                        &&& #[trigger] between(mid)
                        &&& self.visited_pat(from, *pat, mid, *pat2)
                        &&& self.visited_expr(mid, *expr, to, *expr2)
                    };
                self.quiet_visit_of_pat(from, *pat, mid, *pat2);
                self.quiet_visit_of_expr(mid, *expr, to, *expr2);
            },
            (ExprKind::If(cond, block, otherwise), ExprKind::If(cond2, block2, otherwise2)) => {
                let (first_mid, second_mid) = choose|first_mid: S, second_mid: S|
                    {
                        &&& #[trigger] between(first_mid)
                        &&& #[trigger] between(second_mid)
                        &&& self.visited_expr(from, *cond, first_mid, *cond2)
                        &&& self.visited_block(first_mid, *block, second_mid, *block2)
                        &&& self.visited_optional_expr(second_mid, otherwise, to, otherwise2)
                    };
                self.quiet_visit_of_expr(from, *cond, first_mid, *cond2);
                self.quiet_visit_of_block(first_mid, *block, second_mid, *block2);
                self.quiet_visit_of_optional_expr(second_mid, otherwise, to, otherwise2);
            },
            (ExprKind::While(expr, block, label), ExprKind::While(expr2, block2, _)) => {
                let mid = choose|mid: S|
                    {
                        &&& #[trigger] between(mid)
                        &&& self.visited_expr(from, *expr, mid, *expr2)
                        &&& self.visited_block(mid, *block, to, *block2)
                    };
                self.quiet_visit_of_expr(from, *expr, mid, *expr2);
                self.quiet_visit_of_block(mid, *block, to, *block2);
                if let Some(x) = label {
                    x.same_as_itself();
                }
            },
            (
                ExprKind::ForLoop(pat, expr, block, label),
                ExprKind::ForLoop(pat2, expr2, block2, _),
            ) => {
                let (first_mid, second_mid) = choose|first_mid: S, second_mid: S|
                    {
                        &&& #[trigger] between(first_mid)
                        &&& #[trigger] between(second_mid)
                        &&& self.visited_pat(from, *pat, first_mid, *pat2)
                        &&& self.visited_expr(first_mid, *expr, second_mid, *expr2)
                        &&& self.visited_block(second_mid, *block, to, *block2)
                    };
                self.quiet_visit_of_pat(from, *pat, first_mid, *pat2);
                self.quiet_visit_of_expr(first_mid, *expr, second_mid, *expr2);
                self.quiet_visit_of_block(second_mid, *block, to, *block2);
                if let Some(x) = label {
                    x.same_as_itself();
                }
            },
            (ExprKind::Loop(block, label), ExprKind::Loop(block2, _)) => {
                self.quiet_visit_of_block(from, *block, to, *block2);
                if let Some(x) = label {
                    x.same_as_itself();
                }
            },
            (ExprKind::Match(expr, arms), ExprKind::Match(expr2, arms2)) => {
                let mid = choose|mid: S|
                    {
                        &&& #[trigger] between(mid)
                        &&& self.visited_expr(from, *expr, mid, *expr2)
                        &&& self.visited_arms(mid, arms@, to, arms2@)
                    };
                self.quiet_visit_of_expr(from, *expr, mid, *expr2);
                self.quiet_visit_of_arms(mid, arms@, to, arms2@);
            },
            (
                ExprKind::Closure(_, _, _, decl, expr, _),
                ExprKind::Closure(_, _, _, decl2, expr2, _),
            ) => {
                let mid = choose|mid: S|
                    {
                        &&& #[trigger] between(mid)
                        &&& self.visited_fn_decl(from, *decl, mid, *decl2)
                        &&& self.visited_expr(mid, *expr, to, *expr2)
                    };
                self.quiet_visit_of_fn_decl(from, *decl, mid, *decl2);
                self.quiet_visit_of_expr(mid, *expr, to, *expr2);
            },
            (ExprKind::Block(block, label), ExprKind::Block(block2, _)) => {
                self.quiet_visit_of_block(from, *block, to, *block2);
                if let Some(x) = label {
                    x.same_as_itself();
                }
            },
            (ExprKind::Async(_, _, block), ExprKind::Async(_, _, block2)) => {
                self.quiet_visit_of_block(from, *block, to, *block2);
            },
            (ExprKind::Await(expr), ExprKind::Await(expr2)) => {
                self.quiet_visit_of_expr(from, *expr, to, *expr2);
            },
            (ExprKind::TryBlock(block), ExprKind::TryBlock(block2)) => {
                self.quiet_visit_of_block(from, *block, to, *block2);
            },
            (ExprKind::Assign(left, right), ExprKind::Assign(left2, right2)) => {
                let mid = choose|mid: S|
                    {
                        &&& #[trigger] between(mid)
                        &&& self.visited_expr(from, *left, mid, *left2)
                        &&& self.visited_expr(mid, *right, to, *right2)
                    };
                self.quiet_visit_of_expr(from, *left, mid, *left2);
                self.quiet_visit_of_expr(mid, *right, to, *right2);
            },
            (ExprKind::AssignOp(_, left, right), ExprKind::AssignOp(_, left2, right2)) => {
                let mid = choose|mid: S|
                    {
                        &&& #[trigger] between(mid)
                        &&& self.visited_expr(from, *left, mid, *left2)
                        &&& self.visited_expr(mid, *right, to, *right2)
                    };
                self.quiet_visit_of_expr(from, *left, mid, *left2);
                self.quiet_visit_of_expr(mid, *right, to, *right2);
            },
            (ExprKind::Field(expr, ident), ExprKind::Field(expr2, _)) => {
                self.quiet_visit_of_expr(from, *expr, to, *expr2);
                ident.same_as_itself();
            },
            (ExprKind::Index(left, right), ExprKind::Index(left2, right2)) => {
                let mid = choose|mid: S|
                    {
                        &&& #[trigger] between(mid)
                        &&& self.visited_expr(from, *left, mid, *left2)
                        &&& self.visited_expr(mid, *right, to, *right2)
                    };
                self.quiet_visit_of_expr(from, *left, mid, *left2);
                self.quiet_visit_of_expr(mid, *right, to, *right2);
            },
            (ExprKind::Range(left, right, _), ExprKind::Range(left2, right2, _)) => {
                let mid = choose|mid: S|
                    {
                        &&& #[trigger] between(mid)
                        &&& self.visited_optional_expr(from, left, mid, left2)
                        &&& self.visited_optional_expr(mid, right, to, right2)
                    };
                self.quiet_visit_of_optional_expr(from, left, mid, left2);
                self.quiet_visit_of_optional_expr(mid, right, to, right2);
            },
            (ExprKind::Path(qself, path), ExprKind::Path(qself2, path2)) => {
                let mid = choose|mid: S|
                    {
                        &&& #[trigger] between(mid)
                        &&& self.visited_optional_q_self(from, qself, mid, qself2)
                        &&& self.visited_path(mid, path, to, path2)
                    };
                self.quiet_visit_of_optional_q_self(from, qself, mid, qself2);
                self.quiet_visit_of_path(mid, path, to, path2);
            },
            (ExprKind::AddrOf(_, expr), ExprKind::AddrOf(_, expr2)) => {
                self.quiet_visit_of_expr(from, *expr, to, *expr2);
            },
            (ExprKind::Break(label, expr), ExprKind::Break(_, expr2)) => {
                self.quiet_visit_of_optional_expr(from, expr, to, expr2);
                if let Some(x) = label {
                    x.same_as_itself();
                }
            },
            (ExprKind::Ret(expr), ExprKind::Ret(expr2)) => {
                self.quiet_visit_of_optional_expr(from, expr, to, expr2);
            },
            (ExprKind::InlineAsm(assembly), ExprKind::InlineAsm(assembly2)) => {
                self.quiet_visit_of_inline_assembly(from, *assembly, to, *assembly2);
            },
            (ExprKind::Mac(mac), ExprKind::Mac(mac2)) => {
                self.quiet_visit_of_mac(from, mac, to, mac2);
            },
            (ExprKind::Struct(path, fields, expr), ExprKind::Struct(path2, fields2, expr2)) => {
                let (first_mid, second_mid) = choose|first_mid: S, second_mid: S|
                    {
                        &&& #[trigger] between(first_mid)
                        &&& #[trigger] between(second_mid)
                        &&& self.visited_path(from, path, first_mid, path2)
                        &&& self.visited_fields(first_mid, fields@, second_mid, fields2@)
                        &&& self.visited_optional_expr(second_mid, expr, to, expr2)
                    };
                self.quiet_visit_of_path(from, path, first_mid, path2);
                self.quiet_visit_of_fields(first_mid, fields@, second_mid, fields2@);
                self.quiet_visit_of_optional_expr(second_mid, expr, to, expr2);
            },
            (ExprKind::Repeat(expr, constant), ExprKind::Repeat(expr2, constant2)) => {
                let mid = choose|mid: S|
                    {
                        &&& #[trigger] between(mid)
                        &&& self.visited_expr(from, *expr, mid, *expr2)
                        &&& self.visited_anon_const(mid, constant, to, constant2)
                    };
                self.quiet_visit_of_expr(from, *expr, mid, *expr2);
                self.quiet_visit_of_anon_const(mid, constant, to, constant2);
            },
            (ExprKind::Paren(expr), ExprKind::Paren(expr2)) => {
                self.quiet_visit_of_expr(from, *expr, to, *expr2);
            },
            (ExprKind::Try(expr), ExprKind::Try(expr2)) => {
                self.quiet_visit_of_expr(from, *expr, to, *expr2);
            },
            (ExprKind::Yield(expr), ExprKind::Yield(expr2)) => {
                self.quiet_visit_of_optional_expr(from, expr, to, expr2);
            },
            _ => {
                before.same_as_itself();
            },
        }
    }

    /// An expression can be visited: the filter can be asked about its form, and the map can be
    /// called on it or what stands below it can be gone through, as the filter may answer.
    pub open spec fn can_visit_expr(self, node: Expr) -> bool
        decreases node, 1nat,
    {
        let name = node.kind.ast_name();
        &&& self.can_ask(name)
        &&& self.may_answer(name, true) ==> self.can_map(node)
        &&& self.may_answer(name, false) ==> self.can_walk_expr(node)
    }

    /// `after` is what the visitor makes of `before`. The filter is asked first about the name of
    /// its form. Where it accepts, `after` is what the map gives; otherwise it is the expression
    /// with everything below it visited.
    pub open spec fn visited_expr(self, from: S, before: Expr, to: S, after: Expr) -> bool
        decreases before, 1nat,
    {
        let name = before.kind.ast_name();
        ||| exists|mid: S|
            {
                &&& #[trigger] self.asked(from, name, mid, true)
                &&& self.mapped(mid, before, to, after)
            }
        ||| exists|mid: S|
            {
                &&& #[trigger] self.asked(from, name, mid, false)
                &&& self.walked_expr(mid, before, to, after)
            }
    }

    /// Visits an expression.
    pub fn visit_expr(&self, state: &mut S, node: &mut Expr)
        requires
            self.can_visit_expr(*old(node)),
        ensures
            self.visited_expr(*old(state), *old(node), *final(state), *final(node)),
        decreases *old(node), 1nat,
    {
        let is_end: bool = self.ask(state, node.kind.ast_name());
        if is_end {
            *node = self.replacement(state, node);
        } else {
            self.walk_expr(state, node);
        }
    }

    /// A visit that accepts nothing settles an expression, and leaves it as it is where it was
    /// settled.
    pub(crate) proof fn quiet_visit_of_expr(self, from: S, before: Expr, to: S, after: Expr)
        requires
            self.accepts_nothing(),
            self.visited_expr(from, before, to, after),
        ensures
            after.settled(),
            before.settled() ==> before.same(after),
        decreases before, 1nat,
    {
        let name = before.kind.ast_name();
        let mid = choose|mid: S|
            {
                &&& #[trigger] self.asked(from, name, mid, false)
                &&& self.walked_expr(mid, before, to, after)
            };
        self.quiet_walk_of_expr(mid, before, to, after);
    }

    /// What stands below an expression can be gone through.
    pub open spec fn can_walk_expr(self, node: Expr) -> bool
        decreases node, 0nat,
    {
        self.can_visit_expr_kind(node.kind)
    }

    /// `after` is `before` with everything below it visited in order.
    ///
    /// Parentheses take on the id of the expression between them.
    pub open spec fn walked_expr(self, from: S, before: Expr, to: S, after: Expr) -> bool
        decreases before, 0nat,
    {
        &&& self.visited_expr_kind(from, before.kind, to, after.kind)
        &&& after.id == match after.kind {
            ExprKind::Paren(child) => child.id,
            _ => before.id,
        }
        &&& before.span == after.span
        &&& before.attrs == after.attrs
    }

    /// Visits everything below an expression.
    pub fn walk_expr(&self, state: &mut S, node: &mut Expr)
        requires
            self.can_walk_expr(*old(node)),
        ensures
            self.walked_expr(*old(state), *old(node), *final(state), *final(node)),
        decreases *old(node), 0nat,
    {
        self.visit_expr_kind(state, &mut node.kind);
        if let ExprKind::Paren(child) = &node.kind {
            node.id = child.id;
        }
    }

    /// A visit that accepts nothing settles an expression, and leaves it as it is where it was
    /// settled.
    pub(crate) proof fn quiet_walk_of_expr(self, from: S, before: Expr, to: S, after: Expr)
        requires
            self.accepts_nothing(),
            self.walked_expr(from, before, to, after),
        ensures
            after.settled(),
            before.settled() ==> before.same(after),
        decreases before, 0nat,
    {
        self.quiet_visit_of_expr_kind(from, before.kind, to, after.kind);
        attributes_same_as_themselves(before.attrs@);
    }

    /// A list of expressions can be gone through.
    pub open spec fn can_visit_exprs(self, list: Seq<Expr>) -> bool
        decreases list,
    {
        forall|i: int| 0 <= i < list.len() ==> self.can_visit_expr(#[trigger] list[i])
    }

    /// `after` is `before` with every expression in it visited in order.
    pub open spec fn visited_exprs(
        self,
        from: S,
        before: Seq<Expr>,
        to: S,
        after: Seq<Expr>,
    ) -> bool
        decreases before,
    {
        &&& before.len() == after.len()
        &&& if before.len() == 0 {
            from == to
        } else {
            exists|mid: S|
                {
                    &&& #[trigger] between(mid)
                    &&& self.visited_exprs(from, before.drop_last(), mid, after.drop_last())
                    &&& self.visited_expr(mid, before.last(), to, after.last())
                }
        }
    }

    /// Goes through a list of expressions.
    pub fn visit_exprs(&self, state: &mut S, list: &mut Vec<Expr>)
        requires
            self.can_visit_exprs(old(list)@),
        ensures
            self.visited_exprs(*old(state), old(list)@, *final(state), final(list)@),
        decreases *old(list),
    {
        let ghost from = *state;
        let mut i: usize = 0;
        while i < list.len()
            invariant
                i <= list@.len(),
                list@.len() == old(list)@.len(),
                self.can_visit_exprs(old(list)@),
                self.visited_exprs(
                    from,
                    old(list)@.take(i as int),
                    *state,
                    list@.take(i as int),
                ),
                forall|j: int| i <= j < list@.len() ==> list@[j] == old(list)@[j],
            decreases list@.len() - i,
        {
            let ghost done = list@.take(i as int);
            assert(between(*state));
            assert(list@[i as int] == old(list)@[i as int]);
            self.visit_expr(state, &mut list[i]);
            i += 1;
            assert(old(list)@.take(i as int).drop_last() =~= old(list)@.take(i - 1));
            assert(list@.take(i as int).drop_last() =~= done);
        }
        assert(old(list)@.take(i as int) =~= old(list)@);
        assert(list@.take(i as int) =~= list@);
    }

    /// A visit that accepts nothing settles a list, and leaves it as it is where it was settled.
    pub(crate) proof fn quiet_visit_of_exprs(
        self,
        from: S,
        before: Seq<Expr>,
        to: S,
        after: Seq<Expr>,
    )
        requires
            self.accepts_nothing(),
            self.visited_exprs(from, before, to, after),
        ensures
            settled_exprs(after),
            settled_exprs(before) ==> same_exprs(before, after),
        decreases before,
    {
        if before.len() > 0 {
            let mid = choose|mid: S|
                {
                    &&& #[trigger] between(mid)
                    &&& self.visited_exprs(from, before.drop_last(), mid, after.drop_last())
                    &&& self.visited_expr(mid, before.last(), to, after.last())
                };
            self.quiet_visit_of_exprs(from, before.drop_last(), mid, after.drop_last());
            self.quiet_visit_of_expr(mid, before.last(), to, after.last());
            assert forall|i: int| 0 <= i < after.len() implies (#[trigger] after[i]).settled() by {
                if i < after.len() - 1 {
                    assert(after[i] == after.drop_last()[i]);
                }
            }
            if settled_exprs(before) {
                assert forall|i: int| 0 <= i < before.len() - 1 implies (
                    #[trigger] before.drop_last()[i]
                ).settled() by {
                    assert(before.drop_last()[i] == before[i]);
                }
                assert forall|i: int| 0 <= i < before.len() implies (#[trigger] before[i]).same(
                    after[i],
                ) by {
                    if i < before.len() - 1 {
                        assert(before.drop_last()[i].same(after.drop_last()[i]));
                    }
                }
            }
        }
    }

    /// `after` is `before`, with every expression in it visited in order where it is there.
    pub open spec fn visited_optional_expr(
        self,
        from: S,
        before: Option<Box<Expr>>,
        to: S,
        after: Option<Box<Expr>>,
    ) -> bool
        decreases before,
    {
        match (before, after) {
            (Some(x), Some(y)) => self.visited_expr(from, *x, to, *y),
            (None, None) => from == to,
            _ => false,
        }
    }

    /// Goes through an expression where it is there.
    pub fn visit_optional_expr(&self, state: &mut S, node: &mut Option<Box<Expr>>)
        requires
            *old(node) matches Some(x) ==> self.can_visit_expr(*x),
        ensures
            self.visited_optional_expr(*old(state), *old(node), *final(state), *final(node)),
        decreases *old(node),
    {
        if let Some(x) = node {
            self.visit_expr(state, x);
        }
    }

    /// A visit that accepts nothing settles what is there, and leaves it as it is where it was
    /// settled.
    pub(crate) proof fn quiet_visit_of_optional_expr(
        self,
        from: S,
        before: Option<Box<Expr>>,
        to: S,
        after: Option<Box<Expr>>,
    )
        requires
            self.accepts_nothing(),
            self.visited_optional_expr(from, before, to, after),
        ensures
            after matches Some(y) ==> y.settled(),
            match (before, after) {
                (Some(x), Some(y)) => x.settled() ==> x.same(*y),
                (None, None) => true,
                _ => false,
            },
        decreases before,
    {
        if let (Some(x), Some(y)) = (before, after) {
            self.quiet_visit_of_expr(from, *x, to, *y);
        }
    }
}

} // verus!
