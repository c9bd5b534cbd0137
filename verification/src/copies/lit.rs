//! Copies of literals.

use vstd::prelude::*;

use crate::ast::lit::{Lit, LitKind, TokenLit};

verus! {

/// A copy of a literal as it was written agrees with it in every field.
pub proof fn copied_token_lit_agrees(node: TokenLit, copy: TokenLit)
    requires
        node.same(copy),
    ensures
        node.kind == copy.kind,
        node.symbol@ == copy.symbol@,
        match (node.suffix, copy.suffix) {
            (Some(x), Some(y)) => x@ == y@,
            (None, None) => true,
            _ => false,
        },
{
}

/// A copy of what a literal stands for agrees with it in every field.
pub proof fn copied_lit_kind_agrees(node: LitKind, copy: LitKind)
    requires
        node.same(copy),
    ensures
        match (node, copy) {
            (LitKind::Str(text, style), LitKind::Str(text2, style2)) => {
                &&& text@ == text2@
                &&& style == style2
            },
            (LitKind::ByteStr(bytes), LitKind::ByteStr(bytes2)) => {
                &&& bytes@ == bytes2@
            },
            (LitKind::Byte(byte), LitKind::Byte(byte2)) => {
                &&& byte == byte2
            },
            (LitKind::Char(ch), LitKind::Char(ch2)) => {
                &&& ch == ch2
            },
            (LitKind::Int(value, int_ty), LitKind::Int(value2, int_ty2)) => {
                &&& value == value2
                &&& int_ty == int_ty2
            },
            (LitKind::Float(text, float_ty), LitKind::Float(text2, float_ty2)) => {
                &&& text@ == text2@
                &&& float_ty == float_ty2
            },
            (LitKind::FloatUnsuffixed(text), LitKind::FloatUnsuffixed(text2)) => {
                &&& text@ == text2@
            },
            (LitKind::Bool(flag), LitKind::Bool(flag2)) => {
                &&& flag == flag2
            },
            (LitKind::Invalid(text), LitKind::Invalid(text2)) => {
                &&& text@ == text2@
            },
            _ => false,
        },
{
}

/// A copy of a literal agrees with it in every field.
pub proof fn copied_lit_agrees(node: Lit, copy: Lit)
    requires
        node.same(copy),
    ensures
        node.token.same(copy.token),
        node.kind.same(copy.kind),
        node.span == copy.span,
{
}

} // verus!
