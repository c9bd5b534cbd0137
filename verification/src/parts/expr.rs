//! What expressions are made of.

use vstd::prelude::*;

use crate::ast::attr::Mac;
use crate::ast::expr::{
    AnonConst, Arm, Expr, ExprKind, Field, InlineAsm, InlineAsmInput, InlineAsmOutput,
};
use crate::filter_map::{Rules, between};
use crate::parts::path::optional_q_self_parts;
use crate::parts::{
    Part, group_contains, nodes_in_joined_parts, nodes_in_one_part, nodes_in_parts, one_if, parts,
};
use crate::visit::expr::{
    nodes_in_anon_const, nodes_in_arm, nodes_in_arms, nodes_in_asm_input, nodes_in_asm_inputs,
    nodes_in_asm_output, nodes_in_asm_outputs, nodes_in_expr, nodes_in_expr_kind, nodes_in_exprs,
    nodes_in_field, nodes_in_fields, nodes_in_inline_assembly,
};

verus! {

/// What a constant expression is made of, in the order of the text.
pub open spec fn parts_of_anon_const(node: AnonConst) -> Seq<Part> {
    seq![Part::Expr(*node.value)]
}

/// A constant expression as a part, where it is there.
pub open spec fn optional_anon_const_parts(node: Option<AnonConst>) -> Seq<Part> {
    match node {
        Some(x) => seq![Part::AnonConst(x)],
        None => seq![],
    }
}

impl<
    S,
    F: Fn(&S, &str) -> (S, bool),
    G: Fn(&S, &Expr) -> (S, Expr),
    H: Fn(&S, &Mac) -> S,
> Rules<S, F, G, H> {
    /// Going through a constant expression is going through what it is made of, part by part.
    pub proof fn goes_through_the_parts_of_anon_const(
        self,
        from: S,
        before: AnonConst,
        to: S,
        after: AnonConst,
    )
        requires
            self.visited_anon_const(from, before, to, after),
        ensures
            self.visited_parts(from, parts_of_anon_const(before), to, parts_of_anon_const(after)),
    {
        self.single_part(from, Part::Expr(*before.value), to, Part::Expr(*after.value));
    }

    /// A visitor whose calls can always be made can go through a constant expression.
    pub(crate) proof fn total_goes_through_anon_const(self, node: AnonConst)
        requires
            self.is_total(),
        ensures
            self.can_visit_anon_const(node),
        decreases node,
    {
        self.total_goes_through_expr(*node.value);
    }

    /// Going through what may be there is going through it as a part.
    pub(crate) proof fn optional_anon_const_is_part(
        self,
        from: S,
        before: Option<AnonConst>,
        to: S,
        after: Option<AnonConst>,
    )
        requires
            self.visited_optional_anon_const(from, before, to, after),
        ensures
            self.visited_parts(
                from,
                optional_anon_const_parts(before),
                to,
                optional_anon_const_parts(after),
            ),
    {
        if let (Some(x), Some(y)) = (before, after) {
            self.single_part(from, Part::AnonConst(x), to, Part::AnonConst(y));
        }
    }
}

/// What is visited in a constant expression is what is visited in what it is made of, part by part.
pub proof fn visits_the_parts_of_anon_const(node: AnonConst)
    ensures
        nodes_in_anon_const(node) == nodes_in_parts(parts_of_anon_const(node)),
{
    nodes_in_one_part(Part::Expr(*node.value));
}

/// Every node that a constant expression holds in a field is a part of it.
pub proof fn fields_of_anon_const_are_parts(node: AnonConst)
    ensures
        parts(Part::AnonConst(node)).contains(Part::Expr(*node.value)),
{
    broadcast use group_contains;

}

/// What a match arm is made of, in the order of the text.
pub open spec fn parts_of_arm(node: Arm) -> Seq<Part> {
    seq![Part::Pat(*node.pat)] + (optional_expr_parts(node.guard) + seq![Part::Expr(*node.body)])
}

/// Match arms as parts.
pub open spec fn arms_parts(list: Seq<Arm>) -> Seq<Part> {
    list.map_values(|x: Arm| Part::Arm(x))
}

impl<
    S,
    F: Fn(&S, &str) -> (S, bool),
    G: Fn(&S, &Expr) -> (S, Expr),
    H: Fn(&S, &Mac) -> S,
> Rules<S, F, G, H> {
    /// Going through a match arm is going through what it is made of, part by part.
    pub proof fn goes_through_the_parts_of_arm(
        self,
        from: S,
        before: Arm,
        to: S,
        after: Arm,
    )
        requires
            self.visited_arm(from, before, to, after),
        ensures
            self.visited_parts(from, parts_of_arm(before), to, parts_of_arm(after)),
    {
        let (first_mid, second_mid) = choose|first_mid: S, second_mid: S|
            {
                &&& #[trigger] between(first_mid)
                &&& #[trigger] between(second_mid)
                &&& self.visited_pat(from, *before.pat, first_mid, *after.pat)
                &&& self.visited_optional_expr(first_mid, before.guard, second_mid, after.guard)
                &&& self.visited_expr(second_mid, *before.body, to, *after.body)
            };
        self.single_part(from, Part::Pat(*before.pat), first_mid, Part::Pat(*after.pat));
        self.optional_expr_is_part(first_mid, before.guard, second_mid, after.guard);
        self.single_part(second_mid, Part::Expr(*before.body), to, Part::Expr(*after.body));
        self.joined_parts(
            first_mid,
            optional_expr_parts(before.guard),
            second_mid,
            optional_expr_parts(after.guard),
            seq![Part::Expr(*before.body)],
            to,
            seq![Part::Expr(*after.body)],
        );
        self.joined_parts(
            from,
            seq![Part::Pat(*before.pat)],
            first_mid,
            seq![Part::Pat(*after.pat)],
            optional_expr_parts(before.guard) + seq![Part::Expr(*before.body)],
            to,
            optional_expr_parts(after.guard) + seq![Part::Expr(*after.body)],
        );
    }

    /// A visitor whose calls can always be made can go through a match arm.
    pub(crate) proof fn total_goes_through_arm(self, node: Arm)
        requires
            self.is_total(),
        ensures
            self.can_visit_arm(node),
        decreases node,
    {
        self.total_goes_through_pat(*node.pat);
        if let Some(x) = node.guard {
            self.total_goes_through_expr(*x);
        }
        self.total_goes_through_expr(*node.body);
    }

    /// Going through a list of match arms is going through them one by one.
    pub(crate) proof fn arms_are_parts(
        self,
        from: S,
        before: Seq<Arm>,
        to: S,
        after: Seq<Arm>,
    )
        requires
            self.visited_arms(from, before, to, after),
        ensures
            self.visited_parts(from, arms_parts(before), to, arms_parts(after)),
        decreases before.len(),
    {
        if before.len() > 0 {
            let mid = choose|mid: S|
                {
                    &&& #[trigger] between(mid)
                    &&& self.visited_arms(from, before.drop_last(), mid, after.drop_last())
                    &&& self.visited_arm(mid, before.last(), to, after.last())
                };
            self.arms_are_parts(from, before.drop_last(), mid, after.drop_last());
            assert(arms_parts(before).drop_last() =~= arms_parts(before.drop_last()));
            assert(arms_parts(after).drop_last() =~= arms_parts(after.drop_last()));
        }
    }
}

/// What is visited in a match arm is what is visited in what it is made of, part by part.
pub proof fn visits_the_parts_of_arm(node: Arm)
    ensures
        nodes_in_arm(node) == nodes_in_parts(parts_of_arm(node)),
{
    nodes_in_one_part(Part::Pat(*node.pat));
    if let Some(x) = node.guard {
        nodes_in_one_part(Part::Expr(*x));
    }
    nodes_in_one_part(Part::Expr(*node.body));
    nodes_in_joined_parts(optional_expr_parts(node.guard), seq![Part::Expr(*node.body)]);
    nodes_in_joined_parts(
        seq![Part::Pat(*node.pat)],
        optional_expr_parts(node.guard) + seq![Part::Expr(*node.body)],
    );
}

/// What is visited in a list of match arms is what is visited in them one by one.
pub(crate) proof fn nodes_in_arms_parts(list: Seq<Arm>, count: int)
    requires
        0 <= count <= list.len(),
    ensures
        nodes_in_arms(list, count) == nodes_in_parts(arms_parts(list.take(count))),
    decreases count,
{
    if count > 0 {
        nodes_in_arms_parts(list, count - 1);
        assert(arms_parts(list.take(count)).drop_last() =~= arms_parts(list.take(count - 1)));
    }
}

/// Every node that a match arm holds in a field is a part of it.
pub proof fn fields_of_arm_are_parts(node: Arm)
    ensures
        parts(Part::Arm(node)).contains(Part::Pat(*node.pat)),
        (node.guard matches Some(x) ==> parts(Part::Arm(node)).contains(Part::Expr(*x))),
        parts(Part::Arm(node)).contains(Part::Expr(*node.body)),
{
    broadcast use group_contains;

}

/// The parts of a match arm stand in the order of the text.
pub proof fn parts_of_arm_stand_in_order(node: Arm)
    ensures
        parts(Part::Arm(node)).len() == one_if(node.guard is Some) + 2,
        parts(Part::Arm(node))[0] == Part::Pat(*node.pat),
        (node.guard matches Some(x) ==> parts(Part::Arm(node))[1] == Part::Expr(*x)),
        parts(Part::Arm(node))[one_if(node.guard is Some) + 1] == Part::Expr(*node.body),
{
}

/// What a field initialiser is made of, in the order of the text.
pub open spec fn parts_of_field(node: Field) -> Seq<Part> {
    seq![Part::Expr(*node.expr)]
}

/// Field initialisers as parts.
pub open spec fn fields_parts(list: Seq<Field>) -> Seq<Part> {
    list.map_values(|x: Field| Part::Field(x))
}

impl<
    S,
    F: Fn(&S, &str) -> (S, bool),
    G: Fn(&S, &Expr) -> (S, Expr),
    H: Fn(&S, &Mac) -> S,
> Rules<S, F, G, H> {
    /// Going through a field initialiser is going through what it is made of, part by part.
    pub proof fn goes_through_the_parts_of_field(
        self,
        from: S,
        before: Field,
        to: S,
        after: Field,
    )
        requires
            self.visited_field(from, before, to, after),
        ensures
            self.visited_parts(from, parts_of_field(before), to, parts_of_field(after)),
    {
        self.single_part(from, Part::Expr(*before.expr), to, Part::Expr(*after.expr));
    }

    /// A visitor whose calls can always be made can go through a field initialiser.
    pub(crate) proof fn total_goes_through_field(self, node: Field)
        requires
            self.is_total(),
        ensures
            self.can_visit_field(node),
        decreases node,
    {
        self.total_goes_through_expr(*node.expr);
    }

    /// Going through a list of field initialisers is going through them one by one.
    pub(crate) proof fn fields_are_parts(
        self,
        from: S,
        before: Seq<Field>,
        to: S,
        after: Seq<Field>,
    )
        requires
            self.visited_fields(from, before, to, after),
        ensures
            self.visited_parts(from, fields_parts(before), to, fields_parts(after)),
        decreases before.len(),
    {
        if before.len() > 0 {
            let mid = choose|mid: S|
                {
                    &&& #[trigger] between(mid)
                    &&& self.visited_fields(from, before.drop_last(), mid, after.drop_last())
                    &&& self.visited_field(mid, before.last(), to, after.last())
                };
            self.fields_are_parts(from, before.drop_last(), mid, after.drop_last());
            assert(fields_parts(before).drop_last() =~= fields_parts(before.drop_last()));
            assert(fields_parts(after).drop_last() =~= fields_parts(after.drop_last()));
        }
    }
}

/// What is visited in a field initialiser is what is visited in what it is made of, part by part.
pub proof fn visits_the_parts_of_field(node: Field)
    ensures
        nodes_in_field(node) == nodes_in_parts(parts_of_field(node)),
{
    nodes_in_one_part(Part::Expr(*node.expr));
}

/// What is visited in a list of field initialisers is what is visited in them one by one.
pub(crate) proof fn nodes_in_fields_parts(list: Seq<Field>, count: int)
    requires
        0 <= count <= list.len(),
    ensures
        nodes_in_fields(list, count) == nodes_in_parts(fields_parts(list.take(count))),
    decreases count,
{
    if count > 0 {
        nodes_in_fields_parts(list, count - 1);
        assert(fields_parts(list.take(count)).drop_last() =~= fields_parts(list.take(count - 1)));
    }
}

/// Every node that a field initialiser holds in a field is a part of it.
pub proof fn fields_of_field_are_parts(node: Field)
    ensures
        parts(Part::Field(node)).contains(Part::Expr(*node.expr)),
{
    broadcast use group_contains;

}

/// What an output operand is made of, in the order of the text.
pub open spec fn parts_of_asm_output(node: InlineAsmOutput) -> Seq<Part> {
    seq![Part::Expr(*node.expr)]
}

/// Output operands as parts.
pub open spec fn asm_outputs_parts(list: Seq<InlineAsmOutput>) -> Seq<Part> {
    list.map_values(|x: InlineAsmOutput| Part::InlineAsmOutput(x))
}

impl<
    S,
    F: Fn(&S, &str) -> (S, bool),
    G: Fn(&S, &Expr) -> (S, Expr),
    H: Fn(&S, &Mac) -> S,
> Rules<S, F, G, H> {
    /// Going through an output operand is going through what it is made of, part by part.
    pub proof fn goes_through_the_parts_of_asm_output(
        self,
        from: S,
        before: InlineAsmOutput,
        to: S,
        after: InlineAsmOutput,
    )
        requires
            self.visited_asm_output(from, before, to, after),
        ensures
            self.visited_parts(from, parts_of_asm_output(before), to, parts_of_asm_output(after)),
    {
        self.single_part(from, Part::Expr(*before.expr), to, Part::Expr(*after.expr));
    }

    /// A visitor whose calls can always be made can go through an output operand.
    pub(crate) proof fn total_goes_through_asm_output(self, node: InlineAsmOutput)
        requires
            self.is_total(),
        ensures
            self.can_visit_asm_output(node),
        decreases node,
    {
        self.total_goes_through_expr(*node.expr);
    }

    /// Going through a list of output operands is going through them one by one.
    pub(crate) proof fn asm_outputs_are_parts(
        self,
        from: S,
        before: Seq<InlineAsmOutput>,
        to: S,
        after: Seq<InlineAsmOutput>,
    )
        requires
            self.visited_asm_outputs(from, before, to, after),
        ensures
            self.visited_parts(from, asm_outputs_parts(before), to, asm_outputs_parts(after)),
        decreases before.len(),
    {
        if before.len() > 0 {
            let mid = choose|mid: S|
                {
                    &&& #[trigger] between(mid)
                    &&& self.visited_asm_outputs(from, before.drop_last(), mid, after.drop_last())
                    &&& self.visited_asm_output(mid, before.last(), to, after.last())
                };
            self.asm_outputs_are_parts(from, before.drop_last(), mid, after.drop_last());
            assert(asm_outputs_parts(before).drop_last() =~= asm_outputs_parts(before.drop_last()));
            assert(asm_outputs_parts(after).drop_last() =~= asm_outputs_parts(after.drop_last()));
        }
    }
}

/// What is visited in an output operand is what is visited in what it is made of, part by part.
pub proof fn visits_the_parts_of_asm_output(node: InlineAsmOutput)
    ensures
        nodes_in_asm_output(node) == nodes_in_parts(parts_of_asm_output(node)),
{
    nodes_in_one_part(Part::Expr(*node.expr));
}

/// What is visited in a list of output operands is what is visited in them one by one.
pub(crate) proof fn nodes_in_asm_outputs_parts(list: Seq<InlineAsmOutput>, count: int)
    requires
        0 <= count <= list.len(),
    ensures
        nodes_in_asm_outputs(list, count) == nodes_in_parts(asm_outputs_parts(list.take(count))),
    decreases count,
{
    if count > 0 {
        nodes_in_asm_outputs_parts(list, count - 1);
        assert(
            asm_outputs_parts(
                list.take(count),
            ).drop_last() =~= asm_outputs_parts(list.take(count - 1))
        );
    }
}

/// Every node that an output operand holds in a field is a part of it.
pub proof fn fields_of_asm_output_are_parts(node: InlineAsmOutput)
    ensures
        parts(Part::InlineAsmOutput(node)).contains(Part::Expr(*node.expr)),
{
    broadcast use group_contains;

}

/// What an input operand is made of, in the order of the text.
pub open spec fn parts_of_asm_input(node: InlineAsmInput) -> Seq<Part> {
    seq![Part::Expr(*node.expr)]
}

/// Input operands as parts.
pub open spec fn asm_inputs_parts(list: Seq<InlineAsmInput>) -> Seq<Part> {
    list.map_values(|x: InlineAsmInput| Part::InlineAsmInput(x))
}

impl<
    S,
    F: Fn(&S, &str) -> (S, bool),
    G: Fn(&S, &Expr) -> (S, Expr),
    H: Fn(&S, &Mac) -> S,
> Rules<S, F, G, H> {
    /// Going through an input operand is going through what it is made of, part by part.
    pub proof fn goes_through_the_parts_of_asm_input(
        self,
        from: S,
        before: InlineAsmInput,
        to: S,
        after: InlineAsmInput,
    )
        requires
            self.visited_asm_input(from, before, to, after),
        ensures
            self.visited_parts(from, parts_of_asm_input(before), to, parts_of_asm_input(after)),
    {
        self.single_part(from, Part::Expr(*before.expr), to, Part::Expr(*after.expr));
    }

    /// A visitor whose calls can always be made can go through an input operand.
    pub(crate) proof fn total_goes_through_asm_input(self, node: InlineAsmInput)
        requires
            self.is_total(),
        ensures
            self.can_visit_asm_input(node),
        decreases node,
    {
        self.total_goes_through_expr(*node.expr);
    }

    /// Going through a list of input operands is going through them one by one.
    pub(crate) proof fn asm_inputs_are_parts(
        self,
        from: S,
        before: Seq<InlineAsmInput>,
        to: S,
        after: Seq<InlineAsmInput>,
    )
        requires
            self.visited_asm_inputs(from, before, to, after),
        ensures
            self.visited_parts(from, asm_inputs_parts(before), to, asm_inputs_parts(after)),
        decreases before.len(),
    {
        if before.len() > 0 {
            let mid = choose|mid: S|
                {
                    &&& #[trigger] between(mid)
                    &&& self.visited_asm_inputs(from, before.drop_last(), mid, after.drop_last())
                    &&& self.visited_asm_input(mid, before.last(), to, after.last())
                };
            self.asm_inputs_are_parts(from, before.drop_last(), mid, after.drop_last());
            assert(asm_inputs_parts(before).drop_last() =~= asm_inputs_parts(before.drop_last()));
            assert(asm_inputs_parts(after).drop_last() =~= asm_inputs_parts(after.drop_last()));
        }
    }
}

/// What is visited in an input operand is what is visited in what it is made of, part by part.
pub proof fn visits_the_parts_of_asm_input(node: InlineAsmInput)
    ensures
        nodes_in_asm_input(node) == nodes_in_parts(parts_of_asm_input(node)),
{
    nodes_in_one_part(Part::Expr(*node.expr));
}

/// What is visited in a list of input operands is what is visited in them one by one.
pub(crate) proof fn nodes_in_asm_inputs_parts(list: Seq<InlineAsmInput>, count: int)
    requires
        0 <= count <= list.len(),
    ensures
        nodes_in_asm_inputs(list, count) == nodes_in_parts(asm_inputs_parts(list.take(count))),
    decreases count,
{
    if count > 0 {
        nodes_in_asm_inputs_parts(list, count - 1);
        assert(
            asm_inputs_parts(
                list.take(count),
            ).drop_last() =~= asm_inputs_parts(list.take(count - 1))
        );
    }
}

/// Every node that an input operand holds in a field is a part of it.
pub proof fn fields_of_asm_input_are_parts(node: InlineAsmInput)
    ensures
        parts(Part::InlineAsmInput(node)).contains(Part::Expr(*node.expr)),
{
    broadcast use group_contains;

}

/// What an inline assembly block is made of, in the order of the text.
pub open spec fn parts_of_inline_assembly(node: InlineAsm) -> Seq<Part> {
    asm_outputs_parts(node.outputs@) + asm_inputs_parts(node.inputs@)
}

impl<
    S,
    F: Fn(&S, &str) -> (S, bool),
    G: Fn(&S, &Expr) -> (S, Expr),
    H: Fn(&S, &Mac) -> S,
> Rules<S, F, G, H> {
    /// Going through an inline assembly block is going through what it is made of, part by part.
    pub proof fn goes_through_the_parts_of_inline_assembly(
        self,
        from: S,
        before: InlineAsm,
        to: S,
        after: InlineAsm,
    )
        requires
            self.visited_inline_assembly(from, before, to, after),
        ensures
            self.visited_parts(
                from,
                parts_of_inline_assembly(before),
                to,
                parts_of_inline_assembly(after),
            ),
    {
        let mid = choose|mid: S|
            {
                &&& #[trigger] between(mid)
                &&& self.visited_asm_outputs(from, before.outputs@, mid, after.outputs@)
                &&& self.visited_asm_inputs(mid, before.inputs@, to, after.inputs@)
            };
        self.asm_outputs_are_parts(from, before.outputs@, mid, after.outputs@);
        self.asm_inputs_are_parts(mid, before.inputs@, to, after.inputs@);
        self.joined_parts(
            from,
            asm_outputs_parts(before.outputs@),
            mid,
            asm_outputs_parts(after.outputs@),
            asm_inputs_parts(before.inputs@),
            to,
            asm_inputs_parts(after.inputs@),
        );
    }

    /// A visitor whose calls can always be made can go through an inline assembly block.
    pub(crate) proof fn total_goes_through_inline_assembly(self, node: InlineAsm)
        requires
            self.is_total(),
        ensures
            self.can_visit_inline_assembly(node),
        decreases node,
    {
        assert forall|i: int| 0 <= i < node.outputs@.len() implies self.can_visit_asm_output(
            #[trigger] node.outputs@[i],
        ) by {
            self.total_goes_through_asm_output(node.outputs@[i]);
        }
        assert forall|i: int| 0 <= i < node.inputs@.len() implies self.can_visit_asm_input(
            #[trigger] node.inputs@[i],
        ) by {
            self.total_goes_through_asm_input(node.inputs@[i]);
        }
    }
}

/// What an inline assembly block is made of, in the order in which it is visited.
pub open spec fn visit_parts_of_inline_assembly(node: InlineAsm) -> Seq<Part> {
    asm_inputs_parts(node.inputs@) + asm_outputs_parts(node.outputs@)
}

/// What is visited in an inline assembly block is what is visited in what it is made of, part by
/// part.
pub proof fn visits_the_parts_of_inline_assembly(node: InlineAsm)
    ensures
        nodes_in_inline_assembly(node) == nodes_in_parts(visit_parts_of_inline_assembly(node)),
{
    nodes_in_asm_inputs_parts(node.inputs@, node.inputs@.len() as int);
    assert(node.inputs@.take(node.inputs@.len() as int) =~= node.inputs@);
    nodes_in_asm_outputs_parts(node.outputs@, node.outputs@.len() as int);
    assert(node.outputs@.take(node.outputs@.len() as int) =~= node.outputs@);
    nodes_in_joined_parts(asm_inputs_parts(node.inputs@), asm_outputs_parts(node.outputs@));
}

/// Every node that an inline assembly block holds in a field is a part of it.
pub proof fn fields_of_inline_assembly_are_parts(node: InlineAsm)
    ensures
        (
            forall|i: int| 0 <= i < node.outputs@.len() ==> parts(
                Part::InlineAsm(node),
            ).contains(Part::InlineAsmOutput(#[trigger] node.outputs@[i]))
        ),
        (
            forall|i: int| 0 <= i < node.inputs@.len() ==> parts(
                Part::InlineAsm(node),
            ).contains(Part::InlineAsmInput(#[trigger] node.inputs@[i]))
        ),
{
    broadcast use group_contains;

    assert forall|i: int| 0 <= i < node.outputs@.len() implies asm_outputs_parts(
        node.outputs@,
    ).contains(
        Part::InlineAsmOutput(#[trigger] node.outputs@[i]),
    ) by {
        assert(asm_outputs_parts(node.outputs@)[i] == Part::InlineAsmOutput(node.outputs@[i]));
    }
    assert forall|i: int| 0 <= i < node.inputs@.len() implies asm_inputs_parts(
        node.inputs@,
    ).contains(
        Part::InlineAsmInput(#[trigger] node.inputs@[i]),
    ) by {
        assert(asm_inputs_parts(node.inputs@)[i] == Part::InlineAsmInput(node.inputs@[i]));
    }
}

/// The parts of an inline assembly block stand in the order of the text.
pub proof fn parts_of_inline_assembly_stand_in_order(node: InlineAsm)
    ensures
        parts(
            Part::InlineAsm(node),
        ).len() == (node.outputs@.len() as int) + (node.inputs@.len() as int),
        (
            forall|i: int| 0 <= i < node.outputs@.len() ==> parts(
                Part::InlineAsm(node),
            )[i] == Part::InlineAsmOutput(#[trigger] node.outputs@[i])
        ),
        (
            forall|i: int| 0 <= i < node.inputs@.len() ==> parts(
                Part::InlineAsm(node),
            )[(node.outputs@.len() as int) + i] == Part::InlineAsmInput(#[trigger] node.inputs@[i])
        ),
{
}

/// What the form of an expression is made of, in the order of the text.
pub open spec fn parts_of_expr_kind(node: ExprKind) -> Seq<Part> {
    match node {
        ExprKind::Box(expr) => seq![Part::Expr(*expr)],
        ExprKind::Array(exprs) => exprs_parts(exprs@),
        ExprKind::Call(func, params) => seq![Part::Expr(*func)] + exprs_parts(params@),
        ExprKind::MethodCall(segment, exprs) => {
            seq![Part::PathSegment(segment)] + exprs_parts(exprs@)
        },
        ExprKind::Tup(exprs) => exprs_parts(exprs@),
        ExprKind::Binary(_, left, right) => seq![Part::Expr(*left)] + seq![Part::Expr(*right)],
        ExprKind::Unary(_, expr) => seq![Part::Expr(*expr)],
        ExprKind::Cast(expr, ty) => seq![Part::Expr(*expr)] + seq![Part::Ty(*ty)],
        ExprKind::Type(expr, ty) => seq![Part::Expr(*expr)] + seq![Part::Ty(*ty)],
        ExprKind::Let(pat, expr) => seq![Part::Pat(*pat)] + seq![Part::Expr(*expr)],
        ExprKind::If(cond, block, otherwise) => {
            seq![Part::Expr(*cond)] + (seq![Part::Block(*block)] + optional_expr_parts(otherwise))
        },
        ExprKind::While(expr, block, _) => seq![Part::Expr(*expr)] + seq![Part::Block(*block)],
        ExprKind::ForLoop(pat, expr, block, _) => {
            seq![Part::Pat(*pat)] + (seq![Part::Expr(*expr)] + seq![Part::Block(*block)])
        },
        ExprKind::Loop(block, _) => seq![Part::Block(*block)],
        ExprKind::Match(expr, arms) => seq![Part::Expr(*expr)] + arms_parts(arms@),
        ExprKind::Closure(_, _, _, decl, expr, _) => {
            seq![Part::FnDecl(*decl)] + seq![Part::Expr(*expr)]
        },
        ExprKind::Block(block, _) => seq![Part::Block(*block)],
        ExprKind::Async(_, _, block) => seq![Part::Block(*block)],
        ExprKind::Await(expr) => seq![Part::Expr(*expr)],
        ExprKind::TryBlock(block) => seq![Part::Block(*block)],
        ExprKind::Assign(left, right) => seq![Part::Expr(*left)] + seq![Part::Expr(*right)],
        ExprKind::AssignOp(_, left, right) => seq![Part::Expr(*left)] + seq![Part::Expr(*right)],
        ExprKind::Field(expr, _) => seq![Part::Expr(*expr)],
        ExprKind::Index(left, right) => seq![Part::Expr(*left)] + seq![Part::Expr(*right)],
        ExprKind::Range(left, right, _) => optional_expr_parts(left) + optional_expr_parts(right),
        ExprKind::Path(qself, path) => optional_q_self_parts(qself) + seq![Part::Path(path)],
        ExprKind::AddrOf(_, expr) => seq![Part::Expr(*expr)],
        ExprKind::Break(_, expr) => optional_expr_parts(expr),
        ExprKind::Ret(expr) => optional_expr_parts(expr),
        ExprKind::InlineAsm(assembly) => seq![Part::InlineAsm(*assembly)],
        ExprKind::Mac(mac) => seq![Part::Mac(mac)],
        ExprKind::Struct(path, fields, expr) => {
            seq![Part::Path(path)] + (fields_parts(fields@) + optional_expr_parts(expr))
        },
        ExprKind::Repeat(expr, constant) => {
            seq![Part::Expr(*expr)] + seq![Part::AnonConst(constant)]
        },
        ExprKind::Paren(expr) => seq![Part::Expr(*expr)],
        ExprKind::Try(expr) => seq![Part::Expr(*expr)],
        ExprKind::Yield(expr) => optional_expr_parts(expr),
        _ => seq![],
    }
}

impl<
    S,
    F: Fn(&S, &str) -> (S, bool),
    G: Fn(&S, &Expr) -> (S, Expr),
    H: Fn(&S, &Mac) -> S,
> Rules<S, F, G, H> {
    /// Going through the form of an expression is going through what it is made of, part by part.
    pub proof fn goes_through_the_parts_of_expr_kind(
        self,
        from: S,
        before: ExprKind,
        to: S,
        after: ExprKind,
    )
        requires
            self.visited_expr_kind(from, before, to, after),
        ensures
            self.visited_parts(from, parts_of_expr_kind(before), to, parts_of_expr_kind(after)),
    {
        match (before, after) {
            (ExprKind::Box(expr), ExprKind::Box(expr2)) => {
                self.single_part(from, Part::Expr(*expr), to, Part::Expr(*expr2));
            },
            (ExprKind::Array(exprs), ExprKind::Array(exprs2)) => {
                self.exprs_are_parts(from, exprs@, to, exprs2@);
            },
            (ExprKind::Call(func, params), ExprKind::Call(func2, params2)) => {
                let mid = choose|mid: S|
                    {
                        &&& #[trigger] between(mid)
                        &&& self.visited_expr(from, *func, mid, *func2)
                        &&& self.visited_exprs(mid, params@, to, params2@)
                    };
                self.single_part(from, Part::Expr(*func), mid, Part::Expr(*func2));
                self.exprs_are_parts(mid, params@, to, params2@);
                self.joined_parts(
                    from,
                    seq![Part::Expr(*func)],
                    mid,
                    seq![Part::Expr(*func2)],
                    exprs_parts(params@),
                    to,
                    exprs_parts(params2@),
                );
            },
            (ExprKind::MethodCall(segment, exprs), ExprKind::MethodCall(segment2, exprs2)) => {
                let mid = choose|mid: S|
                    {
                        &&& #[trigger] between(mid)
                        &&& self.visited_segment(from, segment, mid, segment2)
                        &&& self.visited_exprs(mid, exprs@, to, exprs2@)
                    };
                self.single_part(
                    from,
                    Part::PathSegment(segment),
                    mid,
                    Part::PathSegment(segment2),
                );
                self.exprs_are_parts(mid, exprs@, to, exprs2@);
                self.joined_parts(
                    from,
                    seq![Part::PathSegment(segment)],
                    mid,
                    seq![Part::PathSegment(segment2)],
                    exprs_parts(exprs@),
                    to,
                    exprs_parts(exprs2@),
                );
            },
            (ExprKind::Tup(exprs), ExprKind::Tup(exprs2)) => {
                self.exprs_are_parts(from, exprs@, to, exprs2@);
            },
            (ExprKind::Binary(_, left, right), ExprKind::Binary(_, left2, right2)) => {
                let mid = choose|mid: S|
                    {
                        &&& #[trigger] between(mid)
                        &&& self.visited_expr(from, *left, mid, *left2)
                        &&& self.visited_expr(mid, *right, to, *right2)
                    };
                self.single_part(from, Part::Expr(*left), mid, Part::Expr(*left2));
                self.single_part(mid, Part::Expr(*right), to, Part::Expr(*right2));
                self.joined_parts(
                    from,
                    seq![Part::Expr(*left)],
                    mid,
                    seq![Part::Expr(*left2)],
                    seq![Part::Expr(*right)],
                    to,
                    seq![Part::Expr(*right2)],
                );
            },
            (ExprKind::Unary(_, expr), ExprKind::Unary(_, expr2)) => {
                self.single_part(from, Part::Expr(*expr), to, Part::Expr(*expr2));
            },
            (ExprKind::Cast(expr, ty), ExprKind::Cast(expr2, ty2)) => {
                let mid = choose|mid: S|
                    {
                        &&& #[trigger] between(mid)
                        &&& self.visited_expr(from, *expr, mid, *expr2)
                        &&& self.visited_ty(mid, *ty, to, *ty2)
                    };
                self.single_part(from, Part::Expr(*expr), mid, Part::Expr(*expr2));
                self.single_part(mid, Part::Ty(*ty), to, Part::Ty(*ty2));
                self.joined_parts(
                    from,
                    seq![Part::Expr(*expr)],
                    mid,
                    seq![Part::Expr(*expr2)],
                    seq![Part::Ty(*ty)],
                    to,
                    seq![Part::Ty(*ty2)],
                );
            },
            (ExprKind::Type(expr, ty), ExprKind::Type(expr2, ty2)) => {
                let mid = choose|mid: S|
                    {
                        &&& #[trigger] between(mid)
                        &&& self.visited_expr(from, *expr, mid, *expr2)
                        &&& self.visited_ty(mid, *ty, to, *ty2)
                    };
                self.single_part(from, Part::Expr(*expr), mid, Part::Expr(*expr2));
                self.single_part(mid, Part::Ty(*ty), to, Part::Ty(*ty2));
                self.joined_parts(
                    from,
                    seq![Part::Expr(*expr)],
                    mid,
                    seq![Part::Expr(*expr2)],
                    seq![Part::Ty(*ty)],
                    to,
                    seq![Part::Ty(*ty2)],
                );
            },
            (ExprKind::Let(pat, expr), ExprKind::Let(pat2, expr2)) => {
                let mid = choose|mid: S|
                    {
                        &&& #[trigger] between(mid)
                        &&& self.visited_pat(from, *pat, mid, *pat2)
                        &&& self.visited_expr(mid, *expr, to, *expr2)
                    };
                self.single_part(from, Part::Pat(*pat), mid, Part::Pat(*pat2));
                self.single_part(mid, Part::Expr(*expr), to, Part::Expr(*expr2));
                self.joined_parts(
                    from,
                    seq![Part::Pat(*pat)],
                    mid,
                    seq![Part::Pat(*pat2)],
                    seq![Part::Expr(*expr)],
                    to,
                    seq![Part::Expr(*expr2)],
                );
            },
            (ExprKind::If(cond, block, otherwise), ExprKind::If(cond2, block2, otherwise2)) => {
                let (first_mid, second_mid) = choose|first_mid: S, second_mid: S|
                    {
                        &&& #[trigger] between(first_mid)
                        &&& #[trigger] between(second_mid)
                        &&& self.visited_expr(from, *cond, first_mid, *cond2)
                        &&& self.visited_block(first_mid, *block, second_mid, *block2)
                        &&& self.visited_optional_expr(second_mid, otherwise, to, otherwise2)
                    };
                self.single_part(from, Part::Expr(*cond), first_mid, Part::Expr(*cond2));
                self.single_part(first_mid, Part::Block(*block), second_mid, Part::Block(*block2));
                self.optional_expr_is_part(second_mid, otherwise, to, otherwise2);
                self.joined_parts(
                    first_mid,
                    seq![Part::Block(*block)],
                    second_mid,
                    seq![Part::Block(*block2)],
                    optional_expr_parts(otherwise),
                    to,
                    optional_expr_parts(otherwise2),
                );
                self.joined_parts(
                    from,
                    seq![Part::Expr(*cond)],
                    first_mid,
                    seq![Part::Expr(*cond2)],
                    seq![Part::Block(*block)] + optional_expr_parts(otherwise),
                    to,
                    seq![Part::Block(*block2)] + optional_expr_parts(otherwise2),
                );
            },
            (ExprKind::While(expr, block, _), ExprKind::While(expr2, block2, _)) => {
                let mid = choose|mid: S|
                    {
                        &&& #[trigger] between(mid)
                        &&& self.visited_expr(from, *expr, mid, *expr2)
                        &&& self.visited_block(mid, *block, to, *block2)
                    };
                self.single_part(from, Part::Expr(*expr), mid, Part::Expr(*expr2));
                self.single_part(mid, Part::Block(*block), to, Part::Block(*block2));
                self.joined_parts(
                    from,
                    seq![Part::Expr(*expr)],
                    mid,
                    seq![Part::Expr(*expr2)],
                    seq![Part::Block(*block)],
                    to,
                    seq![Part::Block(*block2)],
                );
            },
            (ExprKind::ForLoop(pat, expr, block, _), ExprKind::ForLoop(pat2, expr2, block2, _)) => {
                let (first_mid, second_mid) = choose|first_mid: S, second_mid: S|
                    {
                        &&& #[trigger] between(first_mid)
                        &&& #[trigger] between(second_mid)
                        &&& self.visited_pat(from, *pat, first_mid, *pat2)
                        &&& self.visited_expr(first_mid, *expr, second_mid, *expr2)
                        &&& self.visited_block(second_mid, *block, to, *block2)
                    };
                self.single_part(from, Part::Pat(*pat), first_mid, Part::Pat(*pat2));
                self.single_part(first_mid, Part::Expr(*expr), second_mid, Part::Expr(*expr2));
                self.single_part(second_mid, Part::Block(*block), to, Part::Block(*block2));
                self.joined_parts(
                    first_mid,
                    seq![Part::Expr(*expr)],
                    second_mid,
                    seq![Part::Expr(*expr2)],
                    seq![Part::Block(*block)],
                    to,
                    seq![Part::Block(*block2)],
                );
                self.joined_parts(
                    from,
                    seq![Part::Pat(*pat)],
                    first_mid,
                    seq![Part::Pat(*pat2)],
                    seq![Part::Expr(*expr)] + seq![Part::Block(*block)],
                    to,
                    seq![Part::Expr(*expr2)] + seq![Part::Block(*block2)],
                );
            },
            (ExprKind::Loop(block, _), ExprKind::Loop(block2, _)) => {
                self.single_part(from, Part::Block(*block), to, Part::Block(*block2));
            },
            (ExprKind::Match(expr, arms), ExprKind::Match(expr2, arms2)) => {
                let mid = choose|mid: S|
                    {
                        &&& #[trigger] between(mid)
                        &&& self.visited_expr(from, *expr, mid, *expr2)
                        &&& self.visited_arms(mid, arms@, to, arms2@)
                    };
                self.single_part(from, Part::Expr(*expr), mid, Part::Expr(*expr2));
                self.arms_are_parts(mid, arms@, to, arms2@);
                self.joined_parts(
                    from,
                    seq![Part::Expr(*expr)],
                    mid,
                    seq![Part::Expr(*expr2)],
                    arms_parts(arms@),
                    to,
                    arms_parts(arms2@),
                );
            },
            (
                ExprKind::Closure(_, _, _, decl, expr, _),
                ExprKind::Closure(_, _, _, decl2, expr2, _),
            ) => {
                let mid = choose|mid: S|
                    {
                        &&& #[trigger] between(mid)
                        &&& self.visited_fn_decl(from, *decl, mid, *decl2)
                        &&& self.visited_expr(mid, *expr, to, *expr2)
                    };
                self.single_part(from, Part::FnDecl(*decl), mid, Part::FnDecl(*decl2));
                self.single_part(mid, Part::Expr(*expr), to, Part::Expr(*expr2));
                self.joined_parts(
                    from,
                    seq![Part::FnDecl(*decl)],
                    mid,
                    seq![Part::FnDecl(*decl2)],
                    seq![Part::Expr(*expr)],
                    to,
                    seq![Part::Expr(*expr2)],
                );
            },
            (ExprKind::Block(block, _), ExprKind::Block(block2, _)) => {
                self.single_part(from, Part::Block(*block), to, Part::Block(*block2));
            },
            (ExprKind::Async(_, _, block), ExprKind::Async(_, _, block2)) => {
                self.single_part(from, Part::Block(*block), to, Part::Block(*block2));
            },
            (ExprKind::Await(expr), ExprKind::Await(expr2)) => {
                self.single_part(from, Part::Expr(*expr), to, Part::Expr(*expr2));
            },
            (ExprKind::TryBlock(block), ExprKind::TryBlock(block2)) => {
                self.single_part(from, Part::Block(*block), to, Part::Block(*block2));
            },
            (ExprKind::Assign(left, right), ExprKind::Assign(left2, right2)) => {
                let mid = choose|mid: S|
                    {
                        &&& #[trigger] between(mid)
                        &&& self.visited_expr(from, *left, mid, *left2)
                        &&& self.visited_expr(mid, *right, to, *right2)
                    };
                self.single_part(from, Part::Expr(*left), mid, Part::Expr(*left2));
                self.single_part(mid, Part::Expr(*right), to, Part::Expr(*right2));
                self.joined_parts(
                    from,
                    seq![Part::Expr(*left)],
                    mid,
                    seq![Part::Expr(*left2)],
                    seq![Part::Expr(*right)],
                    to,
                    seq![Part::Expr(*right2)],
                );
            },
            (ExprKind::AssignOp(_, left, right), ExprKind::AssignOp(_, left2, right2)) => {
                let mid = choose|mid: S|
                    {
                        &&& #[trigger] between(mid)
                        &&& self.visited_expr(from, *left, mid, *left2)
                        &&& self.visited_expr(mid, *right, to, *right2)
                    };
                self.single_part(from, Part::Expr(*left), mid, Part::Expr(*left2));
                self.single_part(mid, Part::Expr(*right), to, Part::Expr(*right2));
                self.joined_parts(
                    from,
                    seq![Part::Expr(*left)],
                    mid,
                    seq![Part::Expr(*left2)],
                    seq![Part::Expr(*right)],
                    to,
                    seq![Part::Expr(*right2)],
                );
            },
            (ExprKind::Field(expr, _), ExprKind::Field(expr2, _)) => {
                self.single_part(from, Part::Expr(*expr), to, Part::Expr(*expr2));
            },
            (ExprKind::Index(left, right), ExprKind::Index(left2, right2)) => {
                let mid = choose|mid: S|
                    {
                        &&& #[trigger] between(mid)
                        &&& self.visited_expr(from, *left, mid, *left2)
                        &&& self.visited_expr(mid, *right, to, *right2)
                    };
                self.single_part(from, Part::Expr(*left), mid, Part::Expr(*left2));
                self.single_part(mid, Part::Expr(*right), to, Part::Expr(*right2));
                self.joined_parts(
                    from,
                    seq![Part::Expr(*left)],
                    mid,
                    seq![Part::Expr(*left2)],
                    seq![Part::Expr(*right)],
                    to,
                    seq![Part::Expr(*right2)],
                );
            },
            (ExprKind::Range(left, right, _), ExprKind::Range(left2, right2, _)) => {
                let mid = choose|mid: S|
                    {
                        &&& #[trigger] between(mid)
                        &&& self.visited_optional_expr(from, left, mid, left2)
                        &&& self.visited_optional_expr(mid, right, to, right2)
                    };
                self.optional_expr_is_part(from, left, mid, left2);
                self.optional_expr_is_part(mid, right, to, right2);
                self.joined_parts(
                    from,
                    optional_expr_parts(left),
                    mid,
                    optional_expr_parts(left2),
                    optional_expr_parts(right),
                    to,
                    optional_expr_parts(right2),
                );
            },
            (ExprKind::Path(qself, path), ExprKind::Path(qself2, path2)) => {
                let mid = choose|mid: S|
                    {
                        &&& #[trigger] between(mid)
                        &&& self.visited_optional_q_self(from, qself, mid, qself2)
                        &&& self.visited_path(mid, path, to, path2)
                    };
                self.optional_q_self_is_part(from, qself, mid, qself2);
                self.single_part(mid, Part::Path(path), to, Part::Path(path2));
                self.joined_parts(
                    from,
                    optional_q_self_parts(qself),
                    mid,
                    optional_q_self_parts(qself2),
                    seq![Part::Path(path)],
                    to,
                    seq![Part::Path(path2)],
                );
            },
            (ExprKind::AddrOf(_, expr), ExprKind::AddrOf(_, expr2)) => {
                self.single_part(from, Part::Expr(*expr), to, Part::Expr(*expr2));
            },
            (ExprKind::Break(_, expr), ExprKind::Break(_, expr2)) => {
                self.optional_expr_is_part(from, expr, to, expr2);
            },
            (ExprKind::Ret(expr), ExprKind::Ret(expr2)) => {
                self.optional_expr_is_part(from, expr, to, expr2);
            },
            (ExprKind::InlineAsm(assembly), ExprKind::InlineAsm(assembly2)) => {
                self.single_part(from, Part::InlineAsm(*assembly), to, Part::InlineAsm(*assembly2));
            },
            (ExprKind::Mac(mac), ExprKind::Mac(mac2)) => {
                self.single_part(from, Part::Mac(mac), to, Part::Mac(mac2));
            },
            (ExprKind::Struct(path, fields, expr), ExprKind::Struct(path2, fields2, expr2)) => {
                let (first_mid, second_mid) = choose|first_mid: S, second_mid: S|
                    {
                        &&& #[trigger] between(first_mid)
                        &&& #[trigger] between(second_mid)
                        &&& self.visited_path(from, path, first_mid, path2)
                        &&& self.visited_fields(first_mid, fields@, second_mid, fields2@)
                        &&& self.visited_optional_expr(second_mid, expr, to, expr2)
                    };
                self.single_part(from, Part::Path(path), first_mid, Part::Path(path2));
                self.fields_are_parts(first_mid, fields@, second_mid, fields2@);
                self.optional_expr_is_part(second_mid, expr, to, expr2);
                self.joined_parts(
                    first_mid,
                    fields_parts(fields@),
                    second_mid,
                    fields_parts(fields2@),
                    optional_expr_parts(expr),
                    to,
                    optional_expr_parts(expr2),
                );
                self.joined_parts(
                    from,
                    seq![Part::Path(path)],
                    first_mid,
                    seq![Part::Path(path2)],
                    fields_parts(fields@) + optional_expr_parts(expr),
                    to,
                    fields_parts(fields2@) + optional_expr_parts(expr2),
                );
            },
            (ExprKind::Repeat(expr, constant), ExprKind::Repeat(expr2, constant2)) => {
                let mid = choose|mid: S|
                    {
                        &&& #[trigger] between(mid)
                        &&& self.visited_expr(from, *expr, mid, *expr2)
                        &&& self.visited_anon_const(mid, constant, to, constant2)
                    };
                self.single_part(from, Part::Expr(*expr), mid, Part::Expr(*expr2));
                self.single_part(mid, Part::AnonConst(constant), to, Part::AnonConst(constant2));
                self.joined_parts(
                    from,
                    seq![Part::Expr(*expr)],
                    mid,
                    seq![Part::Expr(*expr2)],
                    seq![Part::AnonConst(constant)],
                    to,
                    seq![Part::AnonConst(constant2)],
                );
            },
            (ExprKind::Paren(expr), ExprKind::Paren(expr2)) => {
                self.single_part(from, Part::Expr(*expr), to, Part::Expr(*expr2));
            },
            (ExprKind::Try(expr), ExprKind::Try(expr2)) => {
                self.single_part(from, Part::Expr(*expr), to, Part::Expr(*expr2));
            },
            (ExprKind::Yield(expr), ExprKind::Yield(expr2)) => {
                self.optional_expr_is_part(from, expr, to, expr2);
            },
            _ => {},
        }
    }

    /// A visitor whose calls can always be made can go through the form of an expression.
    pub(crate) proof fn total_goes_through_expr_kind(self, node: ExprKind)
        requires
            self.is_total(),
        ensures
            self.can_visit_expr_kind(node),
        decreases node,
    {
        match node {
            ExprKind::Box(expr) => {
                self.total_goes_through_expr(*expr);
            },
            ExprKind::Array(exprs) => {
                assert forall|i: int| 0 <= i < exprs@.len() implies self.can_visit_expr(
                    #[trigger] exprs@[i],
                ) by {
                    self.total_goes_through_expr(exprs@[i]);
                }
            },
            ExprKind::Call(func, params) => {
                self.total_goes_through_expr(*func);
                assert forall|i: int| 0 <= i < params@.len() implies self.can_visit_expr(
                    #[trigger] params@[i],
                ) by {
                    self.total_goes_through_expr(params@[i]);
                }
            },
            ExprKind::MethodCall(segment, exprs) => {
                self.total_goes_through_segment(segment);
                assert forall|i: int| 0 <= i < exprs@.len() implies self.can_visit_expr(
                    #[trigger] exprs@[i],
                ) by {
                    self.total_goes_through_expr(exprs@[i]);
                }
            },
            ExprKind::Tup(exprs) => {
                assert forall|i: int| 0 <= i < exprs@.len() implies self.can_visit_expr(
                    #[trigger] exprs@[i],
                ) by {
                    self.total_goes_through_expr(exprs@[i]);
                }
            },
            ExprKind::Binary(_, left, right) => {
                self.total_goes_through_expr(*left);
                self.total_goes_through_expr(*right);
            },
            ExprKind::Unary(_, expr) => {
                self.total_goes_through_expr(*expr);
            },
            ExprKind::Cast(expr, ty) => {
                self.total_goes_through_expr(*expr);
                self.total_goes_through_ty(*ty);
            },
            ExprKind::Type(expr, ty) => {
                self.total_goes_through_expr(*expr);
                self.total_goes_through_ty(*ty);
            },
            ExprKind::Let(pat, expr) => {
                self.total_goes_through_pat(*pat);
                self.total_goes_through_expr(*expr);
            },
            ExprKind::If(cond, block, otherwise) => {
                self.total_goes_through_expr(*cond);
                self.total_goes_through_block(*block);
                if let Some(x) = otherwise {
                    self.total_goes_through_expr(*x);
                }
            },
            ExprKind::While(expr, block, _) => {
                self.total_goes_through_expr(*expr);
                self.total_goes_through_block(*block);
            },
            ExprKind::ForLoop(pat, expr, block, _) => {
                self.total_goes_through_pat(*pat);
                self.total_goes_through_expr(*expr);
                self.total_goes_through_block(*block);
            },
            ExprKind::Loop(block, _) => {
                self.total_goes_through_block(*block);
            },
            ExprKind::Match(expr, arms) => {
                self.total_goes_through_expr(*expr);
                assert forall|i: int| 0 <= i < arms@.len() implies self.can_visit_arm(
                    #[trigger] arms@[i],
                ) by {
                    self.total_goes_through_arm(arms@[i]);
                }
            },
            ExprKind::Closure(_, _, _, decl, expr, _) => {
                self.total_goes_through_fn_decl(*decl);
                self.total_goes_through_expr(*expr);
            },
            ExprKind::Block(block, _) => {
                self.total_goes_through_block(*block);
            },
            ExprKind::Async(_, _, block) => {
                self.total_goes_through_block(*block);
            },
            ExprKind::Await(expr) => {
                self.total_goes_through_expr(*expr);
            },
            ExprKind::TryBlock(block) => {
                self.total_goes_through_block(*block);
            },
            ExprKind::Assign(left, right) => {
                self.total_goes_through_expr(*left);
                self.total_goes_through_expr(*right);
            },
            ExprKind::AssignOp(_, left, right) => {
                self.total_goes_through_expr(*left);
                self.total_goes_through_expr(*right);
            },
            ExprKind::Field(expr, _) => {
                self.total_goes_through_expr(*expr);
            },
            ExprKind::Index(left, right) => {
                self.total_goes_through_expr(*left);
                self.total_goes_through_expr(*right);
            },
            ExprKind::Range(left, right, _) => {
                if let Some(x) = left {
                    self.total_goes_through_expr(*x);
                }
                if let Some(x) = right {
                    self.total_goes_through_expr(*x);
                }
            },
            ExprKind::Path(qself, path) => {
                if let Some(x) = qself {
                    self.total_goes_through_q_self(x);
                }
                self.total_goes_through_path(path);
            },
            ExprKind::AddrOf(_, expr) => {
                self.total_goes_through_expr(*expr);
            },
            ExprKind::Break(_, expr) => {
                if let Some(x) = expr {
                    self.total_goes_through_expr(*x);
                }
            },
            ExprKind::Ret(expr) => {
                if let Some(x) = expr {
                    self.total_goes_through_expr(*x);
                }
            },
            ExprKind::InlineAsm(assembly) => {
                self.total_goes_through_inline_assembly(*assembly);
            },
            ExprKind::Struct(path, fields, expr) => {
                self.total_goes_through_path(path);
                assert forall|i: int| 0 <= i < fields@.len() implies self.can_visit_field(
                    #[trigger] fields@[i],
                ) by {
                    self.total_goes_through_field(fields@[i]);
                }
                if let Some(x) = expr {
                    self.total_goes_through_expr(*x);
                }
            },
            ExprKind::Repeat(expr, constant) => {
                self.total_goes_through_expr(*expr);
                self.total_goes_through_anon_const(constant);
            },
            ExprKind::Paren(expr) => {
                self.total_goes_through_expr(*expr);
            },
            ExprKind::Try(expr) => {
                self.total_goes_through_expr(*expr);
            },
            ExprKind::Yield(expr) => {
                if let Some(x) = expr {
                    self.total_goes_through_expr(*x);
                }
            },
            _ => {},
        }
    }
}

/// What is visited in the form of an expression is what is visited in what it is made of, part by
/// part.
#[verifier::rlimit(30)]
pub proof fn visits_the_parts_of_expr_kind(node: ExprKind)
    ensures
        nodes_in_expr_kind(node) == nodes_in_parts(parts_of_expr_kind(node)),
{
    match node {
        ExprKind::Box(expr) => {
            nodes_in_one_part(Part::Expr(*expr));
        },
        ExprKind::Array(exprs) => {
            nodes_in_exprs_parts(exprs@, exprs@.len() as int);
            assert(exprs@.take(exprs@.len() as int) =~= exprs@);
        },
        ExprKind::Call(func, params) => {
            nodes_in_one_part(Part::Expr(*func));
            nodes_in_exprs_parts(params@, params@.len() as int);
            assert(params@.take(params@.len() as int) =~= params@);
            nodes_in_joined_parts(seq![Part::Expr(*func)], exprs_parts(params@));
        },
        ExprKind::MethodCall(segment, exprs) => {
            nodes_in_one_part(Part::PathSegment(segment));
            nodes_in_exprs_parts(exprs@, exprs@.len() as int);
            assert(exprs@.take(exprs@.len() as int) =~= exprs@);
            nodes_in_joined_parts(seq![Part::PathSegment(segment)], exprs_parts(exprs@));
        },
        ExprKind::Tup(exprs) => {
            nodes_in_exprs_parts(exprs@, exprs@.len() as int);
            assert(exprs@.take(exprs@.len() as int) =~= exprs@);
        },
        ExprKind::Binary(_, left, right) => {
            nodes_in_one_part(Part::Expr(*left));
            nodes_in_one_part(Part::Expr(*right));
            nodes_in_joined_parts(seq![Part::Expr(*left)], seq![Part::Expr(*right)]);
        },
        ExprKind::Unary(_, expr) => {
            nodes_in_one_part(Part::Expr(*expr));
        },
        ExprKind::Cast(expr, ty) => {
            nodes_in_one_part(Part::Expr(*expr));
            nodes_in_one_part(Part::Ty(*ty));
            nodes_in_joined_parts(seq![Part::Expr(*expr)], seq![Part::Ty(*ty)]);
        },
        ExprKind::Type(expr, ty) => {
            nodes_in_one_part(Part::Expr(*expr));
            nodes_in_one_part(Part::Ty(*ty));
            nodes_in_joined_parts(seq![Part::Expr(*expr)], seq![Part::Ty(*ty)]);
        },
        ExprKind::Let(pat, expr) => {
            nodes_in_one_part(Part::Pat(*pat));
            nodes_in_one_part(Part::Expr(*expr));
            nodes_in_joined_parts(seq![Part::Pat(*pat)], seq![Part::Expr(*expr)]);
        },
        ExprKind::If(cond, block, otherwise) => {
            nodes_in_one_part(Part::Expr(*cond));
            nodes_in_one_part(Part::Block(*block));
            if let Some(x) = otherwise {
                nodes_in_one_part(Part::Expr(*x));
            }
            nodes_in_joined_parts(seq![Part::Block(*block)], optional_expr_parts(otherwise));
            nodes_in_joined_parts(
                seq![Part::Expr(*cond)],
                seq![Part::Block(*block)] + optional_expr_parts(otherwise),
            );
        },
        ExprKind::While(expr, block, _) => {
            nodes_in_one_part(Part::Expr(*expr));
            nodes_in_one_part(Part::Block(*block));
            nodes_in_joined_parts(seq![Part::Expr(*expr)], seq![Part::Block(*block)]);
        },
        ExprKind::ForLoop(pat, expr, block, _) => {
            nodes_in_one_part(Part::Pat(*pat));
            nodes_in_one_part(Part::Expr(*expr));
            nodes_in_one_part(Part::Block(*block));
            nodes_in_joined_parts(seq![Part::Expr(*expr)], seq![Part::Block(*block)]);
            nodes_in_joined_parts(
                seq![Part::Pat(*pat)],
                seq![Part::Expr(*expr)] + seq![Part::Block(*block)],
            );
        },
        ExprKind::Loop(block, _) => {
            nodes_in_one_part(Part::Block(*block));
        },
        ExprKind::Match(expr, arms) => {
            nodes_in_one_part(Part::Expr(*expr));
            nodes_in_arms_parts(arms@, arms@.len() as int);
            assert(arms@.take(arms@.len() as int) =~= arms@);
            nodes_in_joined_parts(seq![Part::Expr(*expr)], arms_parts(arms@));
        },
        ExprKind::Closure(_, _, _, decl, expr, _) => {
            nodes_in_one_part(Part::FnDecl(*decl));
            nodes_in_one_part(Part::Expr(*expr));
            nodes_in_joined_parts(seq![Part::FnDecl(*decl)], seq![Part::Expr(*expr)]);
        },
        ExprKind::Block(block, _) => {
            nodes_in_one_part(Part::Block(*block));
        },
        ExprKind::Async(_, _, block) => {
            nodes_in_one_part(Part::Block(*block));
        },
        ExprKind::Await(expr) => {
            nodes_in_one_part(Part::Expr(*expr));
        },
        ExprKind::TryBlock(block) => {
            nodes_in_one_part(Part::Block(*block));
        },
        ExprKind::Assign(left, right) => {
            nodes_in_one_part(Part::Expr(*left));
            nodes_in_one_part(Part::Expr(*right));
            nodes_in_joined_parts(seq![Part::Expr(*left)], seq![Part::Expr(*right)]);
        },
        ExprKind::AssignOp(_, left, right) => {
            nodes_in_one_part(Part::Expr(*left));
            nodes_in_one_part(Part::Expr(*right));
            nodes_in_joined_parts(seq![Part::Expr(*left)], seq![Part::Expr(*right)]);
        },
        ExprKind::Field(expr, _) => {
            nodes_in_one_part(Part::Expr(*expr));
        },
        ExprKind::Index(left, right) => {
            nodes_in_one_part(Part::Expr(*left));
            nodes_in_one_part(Part::Expr(*right));
            nodes_in_joined_parts(seq![Part::Expr(*left)], seq![Part::Expr(*right)]);
        },
        ExprKind::Range(left, right, _) => {
            if let Some(x) = left {
                nodes_in_one_part(Part::Expr(*x));
            }
            if let Some(x) = right {
                nodes_in_one_part(Part::Expr(*x));
            }
            nodes_in_joined_parts(optional_expr_parts(left), optional_expr_parts(right));
        },
        ExprKind::Path(qself, path) => {
            if let Some(x) = qself {
                nodes_in_one_part(Part::QSelf(x));
            }
            nodes_in_one_part(Part::Path(path));
            nodes_in_joined_parts(optional_q_self_parts(qself), seq![Part::Path(path)]);
        },
        ExprKind::AddrOf(_, expr) => {
            nodes_in_one_part(Part::Expr(*expr));
        },
        ExprKind::Break(_, expr) => {
            if let Some(x) = expr {
                nodes_in_one_part(Part::Expr(*x));
            }
        },
        ExprKind::Ret(expr) => {
            if let Some(x) = expr {
                nodes_in_one_part(Part::Expr(*x));
            }
        },
        ExprKind::InlineAsm(assembly) => {
            nodes_in_one_part(Part::InlineAsm(*assembly));
        },
        ExprKind::Mac(mac) => {
            nodes_in_one_part(Part::Mac(mac));
        },
        ExprKind::Struct(path, fields, expr) => {
            nodes_in_one_part(Part::Path(path));
            nodes_in_fields_parts(fields@, fields@.len() as int);
            assert(fields@.take(fields@.len() as int) =~= fields@);
            if let Some(x) = expr {
                nodes_in_one_part(Part::Expr(*x));
            }
            nodes_in_joined_parts(fields_parts(fields@), optional_expr_parts(expr));
            nodes_in_joined_parts(
                seq![Part::Path(path)],
                fields_parts(fields@) + optional_expr_parts(expr),
            );
        },
        ExprKind::Repeat(expr, constant) => {
            nodes_in_one_part(Part::Expr(*expr));
            nodes_in_one_part(Part::AnonConst(constant));
            nodes_in_joined_parts(seq![Part::Expr(*expr)], seq![Part::AnonConst(constant)]);
        },
        ExprKind::Paren(expr) => {
            nodes_in_one_part(Part::Expr(*expr));
        },
        ExprKind::Try(expr) => {
            nodes_in_one_part(Part::Expr(*expr));
        },
        ExprKind::Yield(expr) => {
            if let Some(x) = expr {
                nodes_in_one_part(Part::Expr(*x));
            }
        },
        _ => {},
    }
}

/// Every node that the form of an expression holds in a field is a part of it.
pub proof fn fields_of_expr_kind_are_parts(node: ExprKind)
    ensures
        node matches ExprKind::Box(
            expr,
        ) ==> parts(Part::ExprKind(node)).contains(Part::Expr(*expr)),
        node matches ExprKind::Array(
            exprs,
        ) ==> (
            forall|i: int| 0 <= i < exprs@.len() ==> parts(
                Part::ExprKind(node),
            ).contains(Part::Expr(#[trigger] exprs@[i]))
        ),
        node matches ExprKind::Call(
            func,
            params,
        ) ==> parts(
            Part::ExprKind(node),
        ).contains(
            Part::Expr(*func),
        ) && (
            forall|i: int| 0 <= i < params@.len() ==> parts(
                Part::ExprKind(node),
            ).contains(Part::Expr(#[trigger] params@[i]))
        ),
        node matches ExprKind::MethodCall(
            segment,
            exprs,
        ) ==> parts(
            Part::ExprKind(node),
        ).contains(
            Part::PathSegment(segment),
        ) && (
            forall|i: int| 0 <= i < exprs@.len() ==> parts(
                Part::ExprKind(node),
            ).contains(Part::Expr(#[trigger] exprs@[i]))
        ),
        node matches ExprKind::Tup(
            exprs,
        ) ==> (
            forall|i: int| 0 <= i < exprs@.len() ==> parts(
                Part::ExprKind(node),
            ).contains(Part::Expr(#[trigger] exprs@[i]))
        ),
        node matches ExprKind::Binary(
            _,
            left,
            right,
        ) ==> parts(
            Part::ExprKind(node),
        ).contains(Part::Expr(*left)) && parts(Part::ExprKind(node)).contains(Part::Expr(*right)),
        node matches ExprKind::Unary(
            _,
            expr,
        ) ==> parts(Part::ExprKind(node)).contains(Part::Expr(*expr)),
        node matches ExprKind::Cast(
            expr,
            ty,
        ) ==> parts(
            Part::ExprKind(node),
        ).contains(Part::Expr(*expr)) && parts(Part::ExprKind(node)).contains(Part::Ty(*ty)),
        node matches ExprKind::Type(
            expr,
            ty,
        ) ==> parts(
            Part::ExprKind(node),
        ).contains(Part::Expr(*expr)) && parts(Part::ExprKind(node)).contains(Part::Ty(*ty)),
        node matches ExprKind::Let(
            pat,
            expr,
        ) ==> parts(
            Part::ExprKind(node),
        ).contains(Part::Pat(*pat)) && parts(Part::ExprKind(node)).contains(Part::Expr(*expr)),
        node matches ExprKind::If(
            cond,
            block,
            otherwise,
        ) ==> parts(
            Part::ExprKind(node),
        ).contains(
            Part::Expr(*cond),
        ) && parts(
            Part::ExprKind(node),
        ).contains(
            Part::Block(*block),
        ) && (otherwise matches Some(x) ==> parts(Part::ExprKind(node)).contains(Part::Expr(*x))),
        node matches ExprKind::While(
            expr,
            block,
            _,
        ) ==> parts(
            Part::ExprKind(node),
        ).contains(Part::Expr(*expr)) && parts(Part::ExprKind(node)).contains(Part::Block(*block)),
        node matches ExprKind::ForLoop(
            pat,
            expr,
            block,
            _,
        ) ==> parts(
            Part::ExprKind(node),
        ).contains(
            Part::Pat(*pat),
        ) && parts(
            Part::ExprKind(node),
        ).contains(Part::Expr(*expr)) && parts(Part::ExprKind(node)).contains(Part::Block(*block)),
        node matches ExprKind::Loop(
            block,
            _,
        ) ==> parts(Part::ExprKind(node)).contains(Part::Block(*block)),
        node matches ExprKind::Match(
            expr,
            arms,
        ) ==> parts(
            Part::ExprKind(node),
        ).contains(
            Part::Expr(*expr),
        ) && (
            forall|i: int| 0 <= i < arms@.len() ==> parts(
                Part::ExprKind(node),
            ).contains(Part::Arm(#[trigger] arms@[i]))
        ),
        node matches ExprKind::Closure(
            _,
            _,
            _,
            decl,
            expr,
            _,
        ) ==> parts(
            Part::ExprKind(node),
        ).contains(Part::FnDecl(*decl)) && parts(Part::ExprKind(node)).contains(Part::Expr(*expr)),
        node matches ExprKind::Block(
            block,
            _,
        ) ==> parts(Part::ExprKind(node)).contains(Part::Block(*block)),
        node matches ExprKind::Async(
            _,
            _,
            block,
        ) ==> parts(Part::ExprKind(node)).contains(Part::Block(*block)),
        node matches ExprKind::Await(
            expr,
        ) ==> parts(Part::ExprKind(node)).contains(Part::Expr(*expr)),
        node matches ExprKind::TryBlock(
            block,
        ) ==> parts(Part::ExprKind(node)).contains(Part::Block(*block)),
        node matches ExprKind::Assign(
            left,
            right,
        ) ==> parts(
            Part::ExprKind(node),
        ).contains(Part::Expr(*left)) && parts(Part::ExprKind(node)).contains(Part::Expr(*right)),
        node matches ExprKind::AssignOp(
            _,
            left,
            right,
        ) ==> parts(
            Part::ExprKind(node),
        ).contains(Part::Expr(*left)) && parts(Part::ExprKind(node)).contains(Part::Expr(*right)),
        node matches ExprKind::Field(
            expr,
            _,
        ) ==> parts(Part::ExprKind(node)).contains(Part::Expr(*expr)),
        node matches ExprKind::Index(
            left,
            right,
        ) ==> parts(
            Part::ExprKind(node),
        ).contains(Part::Expr(*left)) && parts(Part::ExprKind(node)).contains(Part::Expr(*right)),
        node matches ExprKind::Range(
            left,
            right,
            _,
        ) ==> (
            left matches Some(x) ==> parts(Part::ExprKind(node)).contains(Part::Expr(*x))
        ) && (right matches Some(x) ==> parts(Part::ExprKind(node)).contains(Part::Expr(*x))),
        node matches ExprKind::Path(
            qself,
            path,
        ) ==> (
            qself matches Some(x) ==> parts(Part::ExprKind(node)).contains(Part::QSelf(x))
        ) && parts(Part::ExprKind(node)).contains(Part::Path(path)),
        node matches ExprKind::AddrOf(
            _,
            expr,
        ) ==> parts(Part::ExprKind(node)).contains(Part::Expr(*expr)),
        node matches ExprKind::Break(
            _,
            expr,
        ) ==> (expr matches Some(x) ==> parts(Part::ExprKind(node)).contains(Part::Expr(*x))),
        node matches ExprKind::Ret(
            expr,
        ) ==> (expr matches Some(x) ==> parts(Part::ExprKind(node)).contains(Part::Expr(*x))),
        node matches ExprKind::InlineAsm(
            assembly,
        ) ==> parts(Part::ExprKind(node)).contains(Part::InlineAsm(*assembly)),
        node matches ExprKind::Mac(mac) ==> parts(Part::ExprKind(node)).contains(Part::Mac(mac)),
        node matches ExprKind::Struct(
            path,
            fields,
            expr,
        ) ==> parts(
            Part::ExprKind(node),
        ).contains(
            Part::Path(path),
        ) && (
            forall|i: int| 0 <= i < fields@.len() ==> parts(
                Part::ExprKind(node),
            ).contains(Part::Field(#[trigger] fields@[i]))
        ) && (expr matches Some(x) ==> parts(Part::ExprKind(node)).contains(Part::Expr(*x))),
        node matches ExprKind::Repeat(
            expr,
            constant,
        ) ==> parts(
            Part::ExprKind(node),
        ).contains(
            Part::Expr(*expr),
        ) && parts(Part::ExprKind(node)).contains(Part::AnonConst(constant)),
        node matches ExprKind::Paren(
            expr,
        ) ==> parts(Part::ExprKind(node)).contains(Part::Expr(*expr)),
        node matches ExprKind::Try(
            expr,
        ) ==> parts(Part::ExprKind(node)).contains(Part::Expr(*expr)),
        node matches ExprKind::Yield(
            expr,
        ) ==> (expr matches Some(x) ==> parts(Part::ExprKind(node)).contains(Part::Expr(*x))),
{
    broadcast use group_contains;

    match node {
        ExprKind::Array(exprs) => {
            assert forall|i: int| 0 <= i < exprs@.len() implies exprs_parts(exprs@).contains(
                Part::Expr(#[trigger] exprs@[i]),
            ) by {
                assert(exprs_parts(exprs@)[i] == Part::Expr(exprs@[i]));
            }
        },
        ExprKind::Call(_, params) => {
            assert forall|i: int| 0 <= i < params@.len() implies exprs_parts(params@).contains(
                Part::Expr(#[trigger] params@[i]),
            ) by {
                assert(exprs_parts(params@)[i] == Part::Expr(params@[i]));
            }
        },
        ExprKind::MethodCall(_, exprs) => {
            assert forall|i: int| 0 <= i < exprs@.len() implies exprs_parts(exprs@).contains(
                Part::Expr(#[trigger] exprs@[i]),
            ) by {
                assert(exprs_parts(exprs@)[i] == Part::Expr(exprs@[i]));
            }
        },
        ExprKind::Tup(exprs) => {
            assert forall|i: int| 0 <= i < exprs@.len() implies exprs_parts(exprs@).contains(
                Part::Expr(#[trigger] exprs@[i]),
            ) by {
                assert(exprs_parts(exprs@)[i] == Part::Expr(exprs@[i]));
            }
        },
        ExprKind::Match(_, arms) => {
            assert forall|i: int| 0 <= i < arms@.len() implies arms_parts(arms@).contains(
                Part::Arm(#[trigger] arms@[i]),
            ) by {
                assert(arms_parts(arms@)[i] == Part::Arm(arms@[i]));
            }
        },
        ExprKind::Struct(_, fields, _) => {
            assert forall|i: int| 0 <= i < fields@.len() implies fields_parts(fields@).contains(
                Part::Field(#[trigger] fields@[i]),
            ) by {
                assert(fields_parts(fields@)[i] == Part::Field(fields@[i]));
            }
        },
        _ => {},
    }
}

/// The parts of the form of an expression stand in the order of the text.
pub proof fn parts_of_expr_kind_stand_in_order(node: ExprKind)
    ensures
        node matches ExprKind::Call(
            func,
            params,
        ) ==> parts(
            Part::ExprKind(node),
        ).len() == (
            params@.len() as int
        ) + 1 && parts(
            Part::ExprKind(node),
        )[0] == Part::Expr(
            *func,
        ) && (
            forall|i: int| 0 <= i < params@.len() ==> parts(
                Part::ExprKind(node),
            )[1 + i] == Part::Expr(#[trigger] params@[i])
        ),
        node matches ExprKind::MethodCall(
            segment,
            exprs,
        ) ==> parts(
            Part::ExprKind(node),
        ).len() == (
            exprs@.len() as int
        ) + 1 && parts(
            Part::ExprKind(node),
        )[0] == Part::PathSegment(
            segment,
        ) && (
            forall|i: int| 0 <= i < exprs@.len() ==> parts(
                Part::ExprKind(node),
            )[1 + i] == Part::Expr(#[trigger] exprs@[i])
        ),
        node matches ExprKind::Binary(
            _,
            left,
            right,
        ) ==> parts(
            Part::ExprKind(node),
        ).len() == 2 && parts(
            Part::ExprKind(node),
        )[0] == Part::Expr(*left) && parts(Part::ExprKind(node))[1] == Part::Expr(*right),
        node matches ExprKind::Cast(
            expr,
            ty,
        ) ==> parts(
            Part::ExprKind(node),
        ).len() == 2 && parts(
            Part::ExprKind(node),
        )[0] == Part::Expr(*expr) && parts(Part::ExprKind(node))[1] == Part::Ty(*ty),
        node matches ExprKind::Type(
            expr,
            ty,
        ) ==> parts(
            Part::ExprKind(node),
        ).len() == 2 && parts(
            Part::ExprKind(node),
        )[0] == Part::Expr(*expr) && parts(Part::ExprKind(node))[1] == Part::Ty(*ty),
        node matches ExprKind::Let(
            pat,
            expr,
        ) ==> parts(
            Part::ExprKind(node),
        ).len() == 2 && parts(
            Part::ExprKind(node),
        )[0] == Part::Pat(*pat) && parts(Part::ExprKind(node))[1] == Part::Expr(*expr),
        node matches ExprKind::If(
            cond,
            block,
            otherwise,
        ) ==> parts(
            Part::ExprKind(node),
        ).len() == one_if(
            otherwise is Some,
        ) + 2 && parts(
            Part::ExprKind(node),
        )[0] == Part::Expr(
            *cond,
        ) && parts(
            Part::ExprKind(node),
        )[1] == Part::Block(
            *block,
        ) && (otherwise matches Some(x) ==> parts(Part::ExprKind(node))[2] == Part::Expr(*x)),
        node matches ExprKind::While(
            expr,
            block,
            _,
        ) ==> parts(
            Part::ExprKind(node),
        ).len() == 2 && parts(
            Part::ExprKind(node),
        )[0] == Part::Expr(*expr) && parts(Part::ExprKind(node))[1] == Part::Block(*block),
        node matches ExprKind::ForLoop(
            pat,
            expr,
            block,
            _,
        ) ==> parts(
            Part::ExprKind(node),
        ).len() == 3 && parts(
            Part::ExprKind(node),
        )[0] == Part::Pat(
            *pat,
        ) && parts(
            Part::ExprKind(node),
        )[1] == Part::Expr(*expr) && parts(Part::ExprKind(node))[2] == Part::Block(*block),
        node matches ExprKind::Match(
            expr,
            arms,
        ) ==> parts(
            Part::ExprKind(node),
        ).len() == (
            arms@.len() as int
        ) + 1 && parts(
            Part::ExprKind(node),
        )[0] == Part::Expr(
            *expr,
        ) && (
            forall|i: int| 0 <= i < arms@.len() ==> parts(
                Part::ExprKind(node),
            )[1 + i] == Part::Arm(#[trigger] arms@[i])
        ),
        node matches ExprKind::Closure(
            _,
            _,
            _,
            decl,
            expr,
            _,
        ) ==> parts(
            Part::ExprKind(node),
        ).len() == 2 && parts(
            Part::ExprKind(node),
        )[0] == Part::FnDecl(*decl) && parts(Part::ExprKind(node))[1] == Part::Expr(*expr),
        node matches ExprKind::Assign(
            left,
            right,
        ) ==> parts(
            Part::ExprKind(node),
        ).len() == 2 && parts(
            Part::ExprKind(node),
        )[0] == Part::Expr(*left) && parts(Part::ExprKind(node))[1] == Part::Expr(*right),
        node matches ExprKind::AssignOp(
            _,
            left,
            right,
        ) ==> parts(
            Part::ExprKind(node),
        ).len() == 2 && parts(
            Part::ExprKind(node),
        )[0] == Part::Expr(*left) && parts(Part::ExprKind(node))[1] == Part::Expr(*right),
        node matches ExprKind::Index(
            left,
            right,
        ) ==> parts(
            Part::ExprKind(node),
        ).len() == 2 && parts(
            Part::ExprKind(node),
        )[0] == Part::Expr(*left) && parts(Part::ExprKind(node))[1] == Part::Expr(*right),
        node matches ExprKind::Range(
            left,
            right,
            _,
        ) ==> parts(
            Part::ExprKind(node),
        ).len() == one_if(
            left is Some,
        ) + one_if(
            right is Some,
        ) && (
            left matches Some(x) ==> parts(Part::ExprKind(node))[0] == Part::Expr(*x)
        ) && (
            right matches Some(
                x,
            ) ==> parts(Part::ExprKind(node))[one_if(left is Some)] == Part::Expr(*x)
        ),
        node matches ExprKind::Path(
            qself,
            path,
        ) ==> parts(
            Part::ExprKind(node),
        ).len() == one_if(
            qself is Some,
        ) + 1 && (
            qself matches Some(x) ==> parts(Part::ExprKind(node))[0] == Part::QSelf(x)
        ) && parts(Part::ExprKind(node))[one_if(qself is Some)] == Part::Path(path),
        node matches ExprKind::Struct(
            path,
            fields,
            expr,
        ) ==> parts(
            Part::ExprKind(node),
        ).len() == (
            fields@.len() as int
        ) + one_if(
            expr is Some,
        ) + 1 && parts(
            Part::ExprKind(node),
        )[0] == Part::Path(
            path,
        ) && (
            forall|i: int| 0 <= i < fields@.len() ==> parts(
                Part::ExprKind(node),
            )[1 + i] == Part::Field(#[trigger] fields@[i])
        ) && (
            expr matches Some(
                x,
            ) ==> parts(Part::ExprKind(node))[(fields@.len() as int) + 1] == Part::Expr(*x)
        ),
        node matches ExprKind::Repeat(
            expr,
            constant,
        ) ==> parts(
            Part::ExprKind(node),
        ).len() == 2 && parts(
            Part::ExprKind(node),
        )[0] == Part::Expr(*expr) && parts(Part::ExprKind(node))[1] == Part::AnonConst(constant),
{
}

/// What an expression is made of, in the order of the text.
pub open spec fn parts_of_expr(node: Expr) -> Seq<Part> {
    seq![Part::ExprKind(node.kind)]
}

/// Expressions as parts.
pub open spec fn exprs_parts(list: Seq<Expr>) -> Seq<Part> {
    list.map_values(|x: Expr| Part::Expr(x))
}

/// An expression as a part, where it is there.
pub open spec fn optional_expr_parts(node: Option<Box<Expr>>) -> Seq<Part> {
    match node {
        Some(x) => seq![Part::Expr(*x)],
        None => seq![],
    }
}

impl<
    S,
    F: Fn(&S, &str) -> (S, bool),
    G: Fn(&S, &Expr) -> (S, Expr),
    H: Fn(&S, &Mac) -> S,
> Rules<S, F, G, H> {
    /// Going through an expression is going through what it is made of, part by part.
    pub proof fn goes_through_the_parts_of_expr(
        self,
        from: S,
        before: Expr,
        to: S,
        after: Expr,
    )
        requires
            self.walked_expr(from, before, to, after),
        ensures
            self.visited_parts(from, parts_of_expr(before), to, parts_of_expr(after)),
    {
        self.single_part(from, Part::ExprKind(before.kind), to, Part::ExprKind(after.kind));
    }

    /// A visitor whose calls can always be made can go through an expression.
    pub(crate) proof fn total_goes_through_expr(self, node: Expr)
        requires
            self.is_total(),
        ensures
            self.can_walk_expr(node),
            self.can_visit_expr(node),
        decreases node,
    {
        self.total_goes_through_expr_kind(node.kind);
    }

    /// Going through a list of expressions is going through them one by one.
    pub(crate) proof fn exprs_are_parts(
        self,
        from: S,
        before: Seq<Expr>,
        to: S,
        after: Seq<Expr>,
    )
        requires
            self.visited_exprs(from, before, to, after),
        ensures
            self.visited_parts(from, exprs_parts(before), to, exprs_parts(after)),
        decreases before.len(),
    {
        if before.len() > 0 {
            let mid = choose|mid: S|
                {
                    &&& #[trigger] between(mid)
                    &&& self.visited_exprs(from, before.drop_last(), mid, after.drop_last())
                    &&& self.visited_expr(mid, before.last(), to, after.last())
                };
            self.exprs_are_parts(from, before.drop_last(), mid, after.drop_last());
            assert(exprs_parts(before).drop_last() =~= exprs_parts(before.drop_last()));
            assert(exprs_parts(after).drop_last() =~= exprs_parts(after.drop_last()));
        }
    }

    /// Going through what may be there is going through it as a part.
    pub(crate) proof fn optional_expr_is_part(
        self,
        from: S,
        before: Option<Box<Expr>>,
        to: S,
        after: Option<Box<Expr>>,
    )
        requires
            self.visited_optional_expr(from, before, to, after),
        ensures
            self.visited_parts(
                from,
                optional_expr_parts(before),
                to,
                optional_expr_parts(after),
            ),
    {
        if let (Some(x), Some(y)) = (before, after) {
            self.single_part(from, Part::Expr(*x), to, Part::Expr(*y));
        }
    }
}

/// What is visited in an expression is what is visited in what it is made of, part by part.
pub proof fn visits_the_parts_of_expr(node: Expr)
    ensures
        nodes_in_expr(node) == nodes_in_parts(parts_of_expr(node)),
{
    nodes_in_one_part(Part::ExprKind(node.kind));
}

/// What is visited in a list of expressions is what is visited in them one by one.
pub(crate) proof fn nodes_in_exprs_parts(list: Seq<Expr>, count: int)
    requires
        0 <= count <= list.len(),
    ensures
        nodes_in_exprs(list, count) == nodes_in_parts(exprs_parts(list.take(count))),
    decreases count,
{
    if count > 0 {
        nodes_in_exprs_parts(list, count - 1);
        assert(exprs_parts(list.take(count)).drop_last() =~= exprs_parts(list.take(count - 1)));
    }
}

/// Every node that an expression holds in a field is a part of it.
pub proof fn fields_of_expr_are_parts(node: Expr)
    ensures
        parts(Part::Expr(node)).contains(Part::ExprKind(node.kind)),
{
    broadcast use group_contains;

}

} // verus!
