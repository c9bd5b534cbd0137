//! What is visited in expressions.

use vstd::prelude::*;

use crate::ast::expr::{
    AnonConst, Arm, Expr, ExprKind, Field, InlineAsm, InlineAsmInput, InlineAsmOutput,
};
use crate::visit::{Visited, group_joined, joined, joined_is_associative};
use crate::visit::func::{list_fn_decl, nodes_in_fn_decl};
use crate::visit::pat::{list_pat, nodes_in_pat};
use crate::visit::path::{
    list_path, list_q_self, list_segment, nodes_in_path, nodes_in_q_self, nodes_in_segment,
};
use crate::visit::stmt::{list_block, nodes_in_block};
use crate::visit::ty::{list_ty, nodes_in_ty};

verus! {

/// What is visited in a constant expression.
pub open spec fn nodes_in_anon_const<'a>(node: AnonConst) -> Seq<Visited<'a>>
    decreases node,
{
    nodes_in_expr(*node.value)
}

/// Lists what is visited in a constant expression.
pub(crate) fn list_anon_const<'a>(node: &'a AnonConst, list: &mut Vec<Visited<'a>>)
    ensures
        final(list)@ == joined(old(list)@, nodes_in_anon_const(*node)),
    decreases *node,
{
    broadcast use group_joined;

    list_expr(&node.value, list);
}

/// What is visited in a match arm.
pub open spec fn nodes_in_arm<'a>(node: Arm) -> Seq<Visited<'a>>
    decreases node,
{
    joined(
        nodes_in_pat(*node.pat),
        joined(
            match node.guard {
                Some(x) => nodes_in_expr(*x),
                None => seq![],
            },
            nodes_in_expr(*node.body),
        ),
    )
}

/// Lists what is visited in a match arm.
pub(crate) fn list_arm<'a>(node: &'a Arm, list: &mut Vec<Visited<'a>>)
    ensures
        final(list)@ == joined(old(list)@, nodes_in_arm(*node)),
    decreases *node,
{
    broadcast use group_joined;

    list_pat(&node.pat, list);
    if let Some(x) = &node.guard {
        list_expr(x, list);
    }
    list_expr(&node.body, list);
}

/// What is visited in the first `count` of a list of match arms.
pub open spec fn nodes_in_arms<'a>(list: Seq<Arm>, count: int) -> Seq<Visited<'a>>
    decreases list, count,
{
    if 0 < count <= list.len() {
        joined(nodes_in_arms(list, count - 1), nodes_in_arm(list[count - 1]))
    } else {
        seq![]
    }
}

/// Lists what is visited in a list of match arms.
pub(crate) fn list_arms<'a>(nodes: &'a Vec<Arm>, list: &mut Vec<Visited<'a>>)
    ensures
        final(list)@ == joined(old(list)@, nodes_in_arms(nodes@, nodes@.len() as int)),
    decreases *nodes,
{
    broadcast use group_joined;

    let mut i: usize = 0;
    while i < nodes.len()
        invariant
            i <= nodes@.len(),
            list@ == joined(old(list)@, nodes_in_arms(nodes@, i as int)),
        decreases nodes@.len() - i,
    {
        list_arm(&nodes[i], list);
        i += 1;
        proof {
            joined_is_associative(
                old(list)@,
                nodes_in_arms(nodes@, i - 1),
                nodes_in_arm(nodes@[i - 1]),
            );
        }
    }
}

/// What is visited in a field initialiser.
pub open spec fn nodes_in_field<'a>(node: Field) -> Seq<Visited<'a>>
    decreases node,
{
    nodes_in_expr(*node.expr)
}

/// Lists what is visited in a field initialiser.
pub(crate) fn list_field<'a>(node: &'a Field, list: &mut Vec<Visited<'a>>)
    ensures
        final(list)@ == joined(old(list)@, nodes_in_field(*node)),
    decreases *node,
{
    broadcast use group_joined;

    list_expr(&node.expr, list);
}

/// What is visited in the first `count` of a list of field initialisers.
pub open spec fn nodes_in_fields<'a>(list: Seq<Field>, count: int) -> Seq<Visited<'a>>
    decreases list, count,
{
    if 0 < count <= list.len() {
        joined(nodes_in_fields(list, count - 1), nodes_in_field(list[count - 1]))
    } else {
        seq![]
    }
}

/// Lists what is visited in a list of field initialisers.
pub(crate) fn list_fields<'a>(nodes: &'a Vec<Field>, list: &mut Vec<Visited<'a>>)
    ensures
        final(list)@ == joined(old(list)@, nodes_in_fields(nodes@, nodes@.len() as int)),
    decreases *nodes,
{
    broadcast use group_joined;

    let mut i: usize = 0;
    while i < nodes.len()
        invariant
            i <= nodes@.len(),
            list@ == joined(old(list)@, nodes_in_fields(nodes@, i as int)),
        decreases nodes@.len() - i,
    {
        list_field(&nodes[i], list);
        i += 1;
        proof {
            joined_is_associative(
                old(list)@,
                nodes_in_fields(nodes@, i - 1),
                nodes_in_field(nodes@[i - 1]),
            );
        }
    }
}

/// What is visited in an output operand.
pub open spec fn nodes_in_asm_output<'a>(node: InlineAsmOutput) -> Seq<Visited<'a>>
    decreases node,
{
    nodes_in_expr(*node.expr)
}

/// Lists what is visited in an output operand.
pub(crate) fn list_asm_output<'a>(node: &'a InlineAsmOutput, list: &mut Vec<Visited<'a>>)
    ensures
        final(list)@ == joined(old(list)@, nodes_in_asm_output(*node)),
    decreases *node,
{
    broadcast use group_joined;

    list_expr(&node.expr, list);
}

/// What is visited in the first `count` of a list of output operands.
pub open spec fn nodes_in_asm_outputs<'a>(
    list: Seq<InlineAsmOutput>,
    count: int,
) -> Seq<Visited<'a>>
    decreases list, count,
{
    if 0 < count <= list.len() {
        joined(nodes_in_asm_outputs(list, count - 1), nodes_in_asm_output(list[count - 1]))
    } else {
        seq![]
    }
}

/// Lists what is visited in a list of output operands.
pub(crate) fn list_asm_outputs<'a>(nodes: &'a Vec<InlineAsmOutput>, list: &mut Vec<Visited<'a>>)
    ensures
        final(list)@ == joined(old(list)@, nodes_in_asm_outputs(nodes@, nodes@.len() as int)),
    decreases *nodes,
{
    broadcast use group_joined;

    let mut i: usize = 0;
    while i < nodes.len()
        invariant
            i <= nodes@.len(),
            list@ == joined(old(list)@, nodes_in_asm_outputs(nodes@, i as int)),
        decreases nodes@.len() - i,
    {
        list_asm_output(&nodes[i], list);
        i += 1;
        proof {
            joined_is_associative(
                old(list)@,
                nodes_in_asm_outputs(nodes@, i - 1),
                nodes_in_asm_output(nodes@[i - 1]),
            );
        }
    }
}

/// What is visited in an input operand.
pub open spec fn nodes_in_asm_input<'a>(node: InlineAsmInput) -> Seq<Visited<'a>>
    decreases node,
{
    nodes_in_expr(*node.expr)
}

/// Lists what is visited in an input operand.
pub(crate) fn list_asm_input<'a>(node: &'a InlineAsmInput, list: &mut Vec<Visited<'a>>)
    ensures
        final(list)@ == joined(old(list)@, nodes_in_asm_input(*node)),
    decreases *node,
{
    broadcast use group_joined;

    list_expr(&node.expr, list);
}

/// What is visited in the first `count` of a list of input operands.
pub open spec fn nodes_in_asm_inputs<'a>(list: Seq<InlineAsmInput>, count: int) -> Seq<Visited<'a>>
    decreases list, count,
{
    if 0 < count <= list.len() {
        joined(nodes_in_asm_inputs(list, count - 1), nodes_in_asm_input(list[count - 1]))
    } else {
        seq![]
    }
}

/// Lists what is visited in a list of input operands.
pub(crate) fn list_asm_inputs<'a>(nodes: &'a Vec<InlineAsmInput>, list: &mut Vec<Visited<'a>>)
    ensures
        final(list)@ == joined(old(list)@, nodes_in_asm_inputs(nodes@, nodes@.len() as int)),
    decreases *nodes,
{
    broadcast use group_joined;

    let mut i: usize = 0;
    while i < nodes.len()
        invariant
            i <= nodes@.len(),
            list@ == joined(old(list)@, nodes_in_asm_inputs(nodes@, i as int)),
        decreases nodes@.len() - i,
    {
        list_asm_input(&nodes[i], list);
        i += 1;
        proof {
            joined_is_associative(
                old(list)@,
                nodes_in_asm_inputs(nodes@, i - 1),
                nodes_in_asm_input(nodes@[i - 1]),
            );
        }
    }
}

/// What is visited in an inline assembly block.
pub open spec fn nodes_in_inline_assembly<'a>(node: InlineAsm) -> Seq<Visited<'a>>
    decreases node,
{
    joined(
        nodes_in_asm_inputs(node.inputs@, node.inputs@.len() as int),
        nodes_in_asm_outputs(node.outputs@, node.outputs@.len() as int),
    )
}

/// Lists what is visited in an inline assembly block.
pub(crate) fn list_inline_assembly<'a>(node: &'a InlineAsm, list: &mut Vec<Visited<'a>>)
    ensures
        final(list)@ == joined(old(list)@, nodes_in_inline_assembly(*node)),
    decreases *node,
{
    broadcast use group_joined;

    list_asm_inputs(&node.inputs, list);
    list_asm_outputs(&node.outputs, list);
}

/// What is visited in the form of an expression.
pub open spec fn nodes_in_expr_kind<'a>(node: ExprKind) -> Seq<Visited<'a>>
    decreases node,
{
    match node {
        ExprKind::Box(expr) => nodes_in_expr(*expr),
        ExprKind::Array(exprs) => nodes_in_exprs(exprs@, exprs@.len() as int),
        ExprKind::Call(func, params) => {
            joined(nodes_in_expr(*func), nodes_in_exprs(params@, params@.len() as int))
        },
        ExprKind::MethodCall(segment, exprs) => {
            joined(nodes_in_segment(segment), nodes_in_exprs(exprs@, exprs@.len() as int))
        },
        ExprKind::Tup(exprs) => nodes_in_exprs(exprs@, exprs@.len() as int),
        ExprKind::Binary(_, left, right) => joined(nodes_in_expr(*left), nodes_in_expr(*right)),
        ExprKind::Unary(_, expr) => nodes_in_expr(*expr),
        ExprKind::Cast(expr, ty) => joined(nodes_in_expr(*expr), nodes_in_ty(*ty)),
        ExprKind::Type(expr, ty) => joined(nodes_in_expr(*expr), nodes_in_ty(*ty)),
        ExprKind::Let(pat, expr) => joined(nodes_in_pat(*pat), nodes_in_expr(*expr)),
        ExprKind::If(cond, block, otherwise) => {
            joined(
                nodes_in_expr(*cond),
                joined(
                    nodes_in_block(*block),
                    match otherwise {
                        Some(x) => nodes_in_expr(*x),
                        None => seq![],
                    },
                ),
            )
        },
        ExprKind::While(expr, block, _) => joined(nodes_in_expr(*expr), nodes_in_block(*block)),
        ExprKind::ForLoop(pat, expr, block, _) => {
            joined(nodes_in_pat(*pat), joined(nodes_in_expr(*expr), nodes_in_block(*block)))
        },
        ExprKind::Loop(block, _) => nodes_in_block(*block),
        ExprKind::Match(expr, arms) => {
            joined(nodes_in_expr(*expr), nodes_in_arms(arms@, arms@.len() as int))
        },
        ExprKind::Closure(_, _, _, decl, expr, _) => {
            joined(nodes_in_fn_decl(*decl), nodes_in_expr(*expr))
        },
        ExprKind::Block(block, _) => nodes_in_block(*block),
        ExprKind::Async(_, _, block) => nodes_in_block(*block),
        ExprKind::Await(expr) => nodes_in_expr(*expr),
        ExprKind::TryBlock(block) => nodes_in_block(*block),
        ExprKind::Assign(left, right) => joined(nodes_in_expr(*left), nodes_in_expr(*right)),
        ExprKind::AssignOp(_, left, right) => joined(nodes_in_expr(*left), nodes_in_expr(*right)),
        ExprKind::Field(expr, _) => nodes_in_expr(*expr),
        ExprKind::Index(left, right) => joined(nodes_in_expr(*left), nodes_in_expr(*right)),
        ExprKind::Range(left, right, _) => {
            joined(
                match left {
                    Some(x) => nodes_in_expr(*x),
                    None => seq![],
                },
                match right {
                    Some(x) => nodes_in_expr(*x),
                    None => seq![],
                },
            )
        },
        ExprKind::Path(qself, path) => {
            joined(
                match qself {
                    Some(x) => nodes_in_q_self(x),
                    None => seq![],
                },
                nodes_in_path(path),
            )
        },
        ExprKind::AddrOf(_, expr) => nodes_in_expr(*expr),
        ExprKind::Break(_, expr) => {
            match expr {
                Some(x) => nodes_in_expr(*x),
                None => seq![],
            }
        },
        ExprKind::Ret(expr) => {
            match expr {
                Some(x) => nodes_in_expr(*x),
                None => seq![],
            }
        },
        ExprKind::InlineAsm(assembly) => nodes_in_inline_assembly(*assembly),
        ExprKind::Struct(path, fields, expr) => {
            joined(
                nodes_in_path(path),
                joined(
                    nodes_in_fields(fields@, fields@.len() as int),
                    match expr {
                        Some(x) => nodes_in_expr(*x),
                        None => seq![],
                    },
                ),
            )
        },
        ExprKind::Repeat(expr, constant) => {
            joined(nodes_in_expr(*expr), nodes_in_anon_const(constant))
        },
        ExprKind::Paren(expr) => nodes_in_expr(*expr),
        ExprKind::Try(expr) => nodes_in_expr(*expr),
        ExprKind::Yield(expr) => {
            match expr {
                Some(x) => nodes_in_expr(*x),
                None => seq![],
            }
        },
        _ => seq![],
    }
}

/// Lists what is visited in the form of an expression.
pub(crate) fn list_expr_kind<'a>(node: &'a ExprKind, list: &mut Vec<Visited<'a>>)
    ensures
        final(list)@ == joined(old(list)@, nodes_in_expr_kind(*node)),
    decreases *node,
{
    broadcast use group_joined;

    match node {
        ExprKind::Box(expr) => list_expr(expr, list),
        ExprKind::Array(exprs) => list_exprs(exprs, list),
        ExprKind::Call(func, params) => {
            list_expr(func, list);
            list_exprs(params, list);
        },
        ExprKind::MethodCall(segment, exprs) => {
            list_segment(segment, list);
            list_exprs(exprs, list);
        },
        ExprKind::Tup(exprs) => list_exprs(exprs, list),
        ExprKind::Binary(_, left, right) => {
            list_expr(left, list);
            list_expr(right, list);
        },
        ExprKind::Unary(_, expr) => list_expr(expr, list),
        ExprKind::Cast(expr, ty) => {
            list_expr(expr, list);
            list_ty(ty, list);
        },
        ExprKind::Type(expr, ty) => {
            list_expr(expr, list);
            list_ty(ty, list);
        },
        ExprKind::Let(pat, expr) => {
            list_pat(pat, list);
            list_expr(expr, list);
        },
        ExprKind::If(cond, block, otherwise) => {
            list_expr(cond, list);
            list_block(block, list);
            if let Some(x) = otherwise {
                list_expr(x, list);
            }
        },
        ExprKind::While(expr, block, _) => {
            list_expr(expr, list);
            list_block(block, list);
        },
        ExprKind::ForLoop(pat, expr, block, _) => {
            list_pat(pat, list);
            list_expr(expr, list);
            list_block(block, list);
        },
        ExprKind::Loop(block, _) => list_block(block, list),
        ExprKind::Match(expr, arms) => {
            list_expr(expr, list);
            list_arms(arms, list);
        },
        ExprKind::Closure(_, _, _, decl, expr, _) => {
            list_fn_decl(decl, list);
            list_expr(expr, list);
        },
        ExprKind::Block(block, _) => list_block(block, list),
        ExprKind::Async(_, _, block) => list_block(block, list),
        ExprKind::Await(expr) => list_expr(expr, list),
        ExprKind::TryBlock(block) => list_block(block, list),
        ExprKind::Assign(left, right) => {
            list_expr(left, list);
            list_expr(right, list);
        },
        ExprKind::AssignOp(_, left, right) => {
            list_expr(left, list);
            list_expr(right, list);
        },
        ExprKind::Field(expr, _) => list_expr(expr, list),
        ExprKind::Index(left, right) => {
            list_expr(left, list);
            list_expr(right, list);
        },
        ExprKind::Range(left, right, _) => {
            if let Some(x) = left {
                list_expr(x, list);
            }
            if let Some(x) = right {
                list_expr(x, list);
            }
        },
        ExprKind::Path(qself, path) => {
            if let Some(x) = qself {
                list_q_self(x, list);
            }
            list_path(path, list);
        },
        ExprKind::AddrOf(_, expr) => list_expr(expr, list),
        ExprKind::Break(_, expr) => {
            if let Some(x) = expr {
                list_expr(x, list);
            }
        },
        ExprKind::Ret(expr) => {
            if let Some(x) = expr {
                list_expr(x, list);
            }
        },
        ExprKind::InlineAsm(assembly) => list_inline_assembly(assembly, list),
        ExprKind::Struct(path, fields, expr) => {
            list_path(path, list);
            list_fields(fields, list);
            if let Some(x) = expr {
                list_expr(x, list);
            }
        },
        ExprKind::Repeat(expr, constant) => {
            list_expr(expr, list);
            list_anon_const(constant, list);
        },
        ExprKind::Paren(expr) => list_expr(expr, list),
        ExprKind::Try(expr) => list_expr(expr, list),
        ExprKind::Yield(expr) => {
            if let Some(x) = expr {
                list_expr(x, list);
            }
        },
        _ => {},
    }
}

/// What is visited in an expression.
pub open spec fn nodes_in_expr<'a>(node: Expr) -> Seq<Visited<'a>>
    decreases node,
{
    nodes_in_expr_kind(node.kind)
}

/// Lists what is visited in an expression.
pub(crate) fn list_expr<'a>(node: &'a Expr, list: &mut Vec<Visited<'a>>)
    ensures
        final(list)@ == joined(old(list)@, nodes_in_expr(*node)),
    decreases *node,
{
    broadcast use group_joined;

    list_expr_kind(&node.kind, list);
}

/// What is visited in the first `count` of a list of expressions.
pub open spec fn nodes_in_exprs<'a>(list: Seq<Expr>, count: int) -> Seq<Visited<'a>>
    decreases list, count,
{
    if 0 < count <= list.len() {
        joined(nodes_in_exprs(list, count - 1), nodes_in_expr(list[count - 1]))
    } else {
        seq![]
    }
}

/// Lists what is visited in a list of expressions.
pub(crate) fn list_exprs<'a>(nodes: &'a Vec<Expr>, list: &mut Vec<Visited<'a>>)
    ensures
        final(list)@ == joined(old(list)@, nodes_in_exprs(nodes@, nodes@.len() as int)),
    decreases *nodes,
{
    broadcast use group_joined;

    let mut i: usize = 0;
    while i < nodes.len()
        invariant
            i <= nodes@.len(),
            list@ == joined(old(list)@, nodes_in_exprs(nodes@, i as int)),
        decreases nodes@.len() - i,
    {
        list_expr(&nodes[i], list);
        i += 1;
        proof {
            joined_is_associative(
                old(list)@,
                nodes_in_exprs(nodes@, i - 1),
                nodes_in_expr(nodes@[i - 1]),
            );
        }
    }
}

} // verus!
