//! Copies of expressions.

use vstd::prelude::*;

use crate::ast::expr::{
    AnonConst, Arm, Expr, ExprKind, Field, InlineAsm, InlineAsmInput, InlineAsmOutput,
};

verus! {

/// A copy of a constant expression agrees with it in every field.
pub proof fn copied_anon_const_agrees(node: AnonConst, copy: AnonConst)
    requires
        node.same(copy),
    ensures
        node.id == copy.id,
        node.value.same(*copy.value),
{
}

/// A copy of a match arm agrees with it in every field.
pub proof fn copied_arm_agrees(node: Arm, copy: Arm)
    requires
        node.same(copy),
    ensures
        node.attrs@.len() == copy.attrs@.len() && (
            forall|i: int| 0 <= i < node.attrs@.len() ==> (#[trigger] node.attrs@[i]).same(
                copy.attrs@[i],
            )
        ),
        node.pat.same(*copy.pat),
        match (node.guard, copy.guard) {
            (Some(x), Some(y)) => x.same(*y),
            (None, None) => true,
            _ => false,
        },
        node.body.same(*copy.body),
        node.span == copy.span,
        node.id == copy.id,
        node.is_placeholder == copy.is_placeholder,
{
}

/// A copy of a field initialiser agrees with it in every field.
pub proof fn copied_field_agrees(node: Field, copy: Field)
    requires
        node.same(copy),
    ensures
        node.ident.same(copy.ident),
        node.expr.same(*copy.expr),
        node.span == copy.span,
        node.is_shorthand == copy.is_shorthand,
        node.attrs@.len() == copy.attrs@.len() && (
            forall|i: int| 0 <= i < node.attrs@.len() ==> (#[trigger] node.attrs@[i]).same(
                copy.attrs@[i],
            )
        ),
        node.id == copy.id,
        node.is_placeholder == copy.is_placeholder,
{
}

/// A copy of an output operand agrees with it in every field.
pub proof fn copied_asm_output_agrees(node: InlineAsmOutput, copy: InlineAsmOutput)
    requires
        node.same(copy),
    ensures
        node.constraint@ == copy.constraint@,
        node.expr.same(*copy.expr),
        node.is_rw == copy.is_rw,
        node.is_indirect == copy.is_indirect,
{
}

/// A copy of an input operand agrees with it in every field.
pub proof fn copied_asm_input_agrees(node: InlineAsmInput, copy: InlineAsmInput)
    requires
        node.same(copy),
    ensures
        node.constraint@ == copy.constraint@,
        node.expr.same(*copy.expr),
{
}

/// A copy of an inline assembly block agrees with it in every field.
pub proof fn copied_inline_assembly_agrees(node: InlineAsm, copy: InlineAsm)
    requires
        node.same(copy),
    ensures
        node.template@ == copy.template@,
        node.asm_str_style == copy.asm_str_style,
        node.outputs@.len() == copy.outputs@.len() && (
            forall|i: int| 0 <= i < node.outputs@.len() ==> (#[trigger] node.outputs@[i]).same(
                copy.outputs@[i],
            )
        ),
        node.inputs@.len() == copy.inputs@.len() && (
            forall|i: int| 0 <= i < node.inputs@.len() ==> (#[trigger] node.inputs@[i]).same(
                copy.inputs@[i],
            )
        ),
        node.clobbers@.len() == copy.clobbers@.len() && (
            forall|i: int|
                0 <= i < node.clobbers@.len() ==>
                    (#[trigger] node.clobbers@[i])@ == copy.clobbers@[i]@
        ),
        node.volatile == copy.volatile,
        node.alignstack == copy.alignstack,
        node.dialect == copy.dialect,
{
}

/// A copy of the form of an expression agrees with it in every field.
pub proof fn copied_expr_kind_agrees(node: ExprKind, copy: ExprKind)
    requires
        node.same(copy),
    ensures
        match (node, copy) {
            (ExprKind::Box(expr), ExprKind::Box(expr2)) => {
                &&& expr.same(*expr2)
            },
            (ExprKind::Array(exprs), ExprKind::Array(exprs2)) => {
                &&& exprs@.len() == exprs2@.len() && (
                    forall|i: int| 0 <= i < exprs@.len() ==> (#[trigger] exprs@[i]).same(exprs2@[i])
                )
            },
            (ExprKind::Call(func, params), ExprKind::Call(func2, params2)) => {
                &&& func.same(*func2)
                &&& params@.len() == params2@.len() && (
                    forall|i: int| 0 <= i < params@.len() ==> (#[trigger] params@[i]).same(
                        params2@[i],
                    )
                )
            },
            (ExprKind::MethodCall(segment, exprs), ExprKind::MethodCall(segment2, exprs2)) => {
                &&& segment.same(segment2)
                &&& exprs@.len() == exprs2@.len() && (
                    forall|i: int| 0 <= i < exprs@.len() ==> (#[trigger] exprs@[i]).same(exprs2@[i])
                )
            },
            (ExprKind::Tup(exprs), ExprKind::Tup(exprs2)) => {
                &&& exprs@.len() == exprs2@.len() && (
                    forall|i: int| 0 <= i < exprs@.len() ==> (#[trigger] exprs@[i]).same(exprs2@[i])
                )
            },
            (ExprKind::Binary(op, left, right), ExprKind::Binary(op2, left2, right2)) => {
                &&& op == op2
                &&& left.same(*left2)
                &&& right.same(*right2)
            },
            (ExprKind::Unary(op, expr), ExprKind::Unary(op2, expr2)) => {
                &&& op == op2
                &&& expr.same(*expr2)
            },
            (ExprKind::Lit(lit), ExprKind::Lit(lit2)) => {
                &&& lit.same(lit2)
            },
            (ExprKind::Cast(expr, ty), ExprKind::Cast(expr2, ty2)) => {
                &&& expr.same(*expr2)
                &&& ty.same(*ty2)
            },
            (ExprKind::Type(expr, ty), ExprKind::Type(expr2, ty2)) => {
                &&& expr.same(*expr2)
                &&& ty.same(*ty2)
            },
            (ExprKind::Let(pat, expr), ExprKind::Let(pat2, expr2)) => {
                &&& pat.same(*pat2)
                &&& expr.same(*expr2)
            },
            (ExprKind::If(cond, block, otherwise), ExprKind::If(cond2, block2, otherwise2)) => {
                &&& cond.same(*cond2)
                &&& block.same(*block2)
                &&& match (otherwise, otherwise2) {
                    (Some(x), Some(y)) => x.same(*y),
                    (None, None) => true,
                    _ => false,
                }
            },
            (ExprKind::While(expr, block, label), ExprKind::While(expr2, block2, label2)) => {
                &&& expr.same(*expr2)
                &&& block.same(*block2)
                &&& match (label, label2) {
                    (Some(x), Some(y)) => x.same(y),
                    (None, None) => true,
                    _ => false,
                }
            },
            (
                ExprKind::ForLoop(pat, expr, block, label),
                ExprKind::ForLoop(pat2, expr2, block2, label2),
            ) => {
                &&& pat.same(*pat2)
                &&& expr.same(*expr2)
                &&& block.same(*block2)
                &&& match (label, label2) {
                    (Some(x), Some(y)) => x.same(y),
                    (None, None) => true,
                    _ => false,
                }
            },
            (ExprKind::Loop(block, label), ExprKind::Loop(block2, label2)) => {
                &&& block.same(*block2)
                &&& match (label, label2) {
                    (Some(x), Some(y)) => x.same(y),
                    (None, None) => true,
                    _ => false,
                }
            },
            (ExprKind::Match(expr, arms), ExprKind::Match(expr2, arms2)) => {
                &&& expr.same(*expr2)
                &&& arms@.len() == arms2@.len() && (
                    forall|i: int| 0 <= i < arms@.len() ==> (#[trigger] arms@[i]).same(arms2@[i])
                )
            },
            (
                ExprKind::Closure(capture, asyncness, movability, decl, expr, span),
                ExprKind::Closure(capture2, asyncness2, movability2, decl2, expr2, span2),
            ) => {
                &&& capture == capture2
                &&& asyncness == asyncness2
                &&& movability == movability2
                &&& decl.same(*decl2)
                &&& expr.same(*expr2)
                &&& span == span2
            },
            (ExprKind::Block(block, label), ExprKind::Block(block2, label2)) => {
                &&& block.same(*block2)
                &&& match (label, label2) {
                    (Some(x), Some(y)) => x.same(y),
                    (None, None) => true,
                    _ => false,
                }
            },
            (ExprKind::Async(capture, id, block), ExprKind::Async(capture2, id2, block2)) => {
                &&& capture == capture2
                &&& id == id2
                &&& block.same(*block2)
            },
            (ExprKind::Await(expr), ExprKind::Await(expr2)) => {
                &&& expr.same(*expr2)
            },
            (ExprKind::TryBlock(block), ExprKind::TryBlock(block2)) => {
                &&& block.same(*block2)
            },
            (ExprKind::Assign(left, right), ExprKind::Assign(left2, right2)) => {
                &&& left.same(*left2)
                &&& right.same(*right2)
            },
            (ExprKind::AssignOp(op, left, right), ExprKind::AssignOp(op2, left2, right2)) => {
                &&& op == op2
                &&& left.same(*left2)
                &&& right.same(*right2)
            },
            (ExprKind::Field(expr, ident), ExprKind::Field(expr2, ident2)) => {
                &&& expr.same(*expr2)
                &&& ident.same(ident2)
            },
            (ExprKind::Index(left, right), ExprKind::Index(left2, right2)) => {
                &&& left.same(*left2)
                &&& right.same(*right2)
            },
            (ExprKind::Range(left, right, limits), ExprKind::Range(left2, right2, limits2)) => {
                &&& match (left, left2) {
                    (Some(x), Some(y)) => x.same(*y),
                    (None, None) => true,
                    _ => false,
                }
                &&& match (right, right2) {
                    (Some(x), Some(y)) => x.same(*y),
                    (None, None) => true,
                    _ => false,
                }
                &&& limits == limits2
            },
            (ExprKind::Path(qself, path), ExprKind::Path(qself2, path2)) => {
                &&& match (qself, qself2) {
                    (Some(x), Some(y)) => x.same(y),
                    (None, None) => true,
                    _ => false,
                }
                &&& path.same(path2)
            },
            (ExprKind::AddrOf(mutability, expr), ExprKind::AddrOf(mutability2, expr2)) => {
                &&& mutability == mutability2
                &&& expr.same(*expr2)
            },
            (ExprKind::Break(label, expr), ExprKind::Break(label2, expr2)) => {
                &&& match (label, label2) {
                    (Some(x), Some(y)) => x.same(y),
                    (None, None) => true,
                    _ => false,
                }
                &&& match (expr, expr2) {
                    (Some(x), Some(y)) => x.same(*y),
                    (None, None) => true,
                    _ => false,
                }
            },
            (ExprKind::Continue(label), ExprKind::Continue(label2)) => {
                &&& match (label, label2) {
                    (Some(x), Some(y)) => x.same(y),
                    (None, None) => true,
                    _ => false,
                }
            },
            (ExprKind::Ret(expr), ExprKind::Ret(expr2)) => {
                &&& match (expr, expr2) {
                    (Some(x), Some(y)) => x.same(*y),
                    (None, None) => true,
                    _ => false,
                }
            },
            (ExprKind::InlineAsm(assembly), ExprKind::InlineAsm(assembly2)) => {
                &&& assembly.same(*assembly2)
            },
            (ExprKind::Mac(mac), ExprKind::Mac(mac2)) => {
                &&& mac.same(mac2)
            },
            (ExprKind::Struct(path, fields, expr), ExprKind::Struct(path2, fields2, expr2)) => {
                &&& path.same(path2)
                &&& fields@.len() == fields2@.len() && (
                    forall|i: int| 0 <= i < fields@.len() ==> (#[trigger] fields@[i]).same(
                        fields2@[i],
                    )
                )
                &&& match (expr, expr2) {
                    (Some(x), Some(y)) => x.same(*y),
                    (None, None) => true,
                    _ => false,
                }
            },
            (ExprKind::Repeat(expr, constant), ExprKind::Repeat(expr2, constant2)) => {
                &&& expr.same(*expr2)
                &&& constant.same(constant2)
            },
            (ExprKind::Paren(expr), ExprKind::Paren(expr2)) => {
                &&& expr.same(*expr2)
            },
            (ExprKind::Try(expr), ExprKind::Try(expr2)) => {
                &&& expr.same(*expr2)
            },
            (ExprKind::Yield(expr), ExprKind::Yield(expr2)) => {
                &&& match (expr, expr2) {
                    (Some(x), Some(y)) => x.same(*y),
                    (None, None) => true,
                    _ => false,
                }
            },
            (ExprKind::Invalid, ExprKind::Invalid) => true,
            _ => false,
        },
{
}

/// A copy of an expression agrees with it in every field.
pub proof fn copied_expr_agrees(node: Expr, copy: Expr)
    requires
        node.same(copy),
    ensures
        node.id == copy.id,
        node.kind.same(copy.kind),
        node.span == copy.span,
        node.attrs@.len() == copy.attrs@.len() && (
            forall|i: int| 0 <= i < node.attrs@.len() ==> (#[trigger] node.attrs@[i]).same(
                copy.attrs@[i],
            )
        ),
{
}

} // verus!
