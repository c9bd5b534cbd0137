//! Expressions.

use vstd::prelude::*;

use crate::ast::attr::{
    Attribute, Mac, attributes_same_as_themselves, clone_attributes, same_attributes,
};
use crate::ast::flags::{
    AsmDialect, BinOp, CaptureBy, IsAsync, Movability, Mutability, RangeLimits, StrStyle, UnOp,
};
use crate::ast::func::FnDecl;
use crate::ast::ident::{Ident, Label, NodeId};
use crate::ast::lit::Lit;
use crate::ast::pat::Pat;
use crate::ast::path::{Path, PathSegment, QSelf};
use crate::ast::span::Span;
use crate::ast::stmt::Block;
use crate::ast::text::{clone_strings, same_strings};
use crate::ast::ty::Ty;

verus! {

/// A constant expression inside a type or an enum variant.
#[derive(Debug, PartialEq)]
pub struct AnonConst {
    pub id: NodeId,
    pub value: Box<Expr>,
}

impl AnonConst {
    /// Both values hold the same contents.
    pub open spec fn same(self, other: AnonConst) -> bool
        decreases self,
    {
        &&& self.id == other.id
        &&& self.value.same(*other.value)
    }

    /// Every value holds the same contents as itself.
    pub proof fn same_as_itself(self)
        ensures
            self.same(self),
        decreases self,
    {
        self.value.same_as_itself();
    }
}

impl Clone for AnonConst {
    fn clone(&self) -> (copy: AnonConst)
        ensures
            self.same(copy),
        decreases *self,
    {
        AnonConst {
            id: self.id,
            value: Box::new((*self.value).clone()),
        }
    }
}

/// An arm of a `match`.
#[derive(Debug, PartialEq)]
pub struct Arm {
    pub attrs: Vec<Attribute>,
    pub pat: Box<Pat>,
    pub guard: Option<Box<Expr>>,
    pub body: Box<Expr>,
    pub span: Span,
    pub id: NodeId,
    pub is_placeholder: bool,
}

impl Arm {
    /// Both values hold the same contents.
    pub open spec fn same(self, other: Arm) -> bool
        decreases self,
    {
        &&& same_attributes(self.attrs@, other.attrs@)
        &&& self.pat.same(*other.pat)
        &&& match (self.guard, other.guard) {
            (Some(x), Some(y)) => x.same(*y),
            (None, None) => true,
            _ => false,
        }
        &&& self.body.same(*other.body)
        &&& self.span == other.span
        &&& self.id == other.id
        &&& self.is_placeholder == other.is_placeholder
    }

    /// Every value holds the same contents as itself.
    pub proof fn same_as_itself(self)
        ensures
            self.same(self),
        decreases self,
    {
        attributes_same_as_themselves(self.attrs@);
        self.pat.same_as_itself();
        if let Some(x) = self.guard {
            x.same_as_itself();
        }
        self.body.same_as_itself();
    }
}

impl Clone for Arm {
    fn clone(&self) -> (copy: Arm)
        ensures
            self.same(copy),
        decreases *self,
    {
        Arm {
            attrs: clone_attributes(&self.attrs),
            pat: Box::new((*self.pat).clone()),
            guard: match &self.guard {
                Some(x) => Some(Box::new((**x).clone())),
                None => None,
            },
            body: Box::new((*self.body).clone()),
            span: self.span,
            id: self.id,
            is_placeholder: self.is_placeholder,
        }
    }
}

/// A field of a struct expression.
#[derive(Debug, PartialEq)]
pub struct Field {
    pub ident: Ident,
    pub expr: Box<Expr>,
    pub span: Span,
    pub is_shorthand: bool,
    pub attrs: Vec<Attribute>,
    pub id: NodeId,
    pub is_placeholder: bool,
}

impl Field {
    /// Both values hold the same contents.
    pub open spec fn same(self, other: Field) -> bool
        decreases self,
    {
        &&& self.ident.same(other.ident)
        &&& self.expr.same(*other.expr)
        &&& self.span == other.span
        &&& self.is_shorthand == other.is_shorthand
        &&& same_attributes(self.attrs@, other.attrs@)
        &&& self.id == other.id
        &&& self.is_placeholder == other.is_placeholder
    }

    /// Every value holds the same contents as itself.
    pub proof fn same_as_itself(self)
        ensures
            self.same(self),
        decreases self,
    {
        self.ident.same_as_itself();
        self.expr.same_as_itself();
        attributes_same_as_themselves(self.attrs@);
    }
}

impl Clone for Field {
    fn clone(&self) -> (copy: Field)
        ensures
            self.same(copy),
        decreases *self,
    {
        Field {
            ident: self.ident.clone(),
            expr: Box::new((*self.expr).clone()),
            span: self.span,
            is_shorthand: self.is_shorthand,
            attrs: clone_attributes(&self.attrs),
            id: self.id,
            is_placeholder: self.is_placeholder,
        }
    }
}

/// An output operand of an inline assembly block.
#[derive(Debug, PartialEq)]
pub struct InlineAsmOutput {
    pub constraint: String,
    pub expr: Box<Expr>,
    pub is_rw: bool,
    pub is_indirect: bool,
}

impl InlineAsmOutput {
    /// Both values hold the same contents.
    pub open spec fn same(self, other: InlineAsmOutput) -> bool
        decreases self,
    {
        &&& self.constraint@ == other.constraint@
        &&& self.expr.same(*other.expr)
        &&& self.is_rw == other.is_rw
        &&& self.is_indirect == other.is_indirect
    }

    /// Every value holds the same contents as itself.
    pub proof fn same_as_itself(self)
        ensures
            self.same(self),
        decreases self,
    {
        self.expr.same_as_itself();
    }
}

impl Clone for InlineAsmOutput {
    fn clone(&self) -> (copy: InlineAsmOutput)
        ensures
            self.same(copy),
        decreases *self,
    {
        InlineAsmOutput {
            constraint: self.constraint.clone(),
            expr: Box::new((*self.expr).clone()),
            is_rw: self.is_rw,
            is_indirect: self.is_indirect,
        }
    }
}

/// An input operand of an inline assembly block.
#[derive(Debug, PartialEq)]
pub struct InlineAsmInput {
    pub constraint: String,
    pub expr: Box<Expr>,
}

impl InlineAsmInput {
    /// Both values hold the same contents.
    pub open spec fn same(self, other: InlineAsmInput) -> bool
        decreases self,
    {
        &&& self.constraint@ == other.constraint@
        &&& self.expr.same(*other.expr)
    }

    /// Every value holds the same contents as itself.
    pub proof fn same_as_itself(self)
        ensures
            self.same(self),
        decreases self,
    {
        self.expr.same_as_itself();
    }
}

impl Clone for InlineAsmInput {
    fn clone(&self) -> (copy: InlineAsmInput)
        ensures
            self.same(copy),
        decreases *self,
    {
        InlineAsmInput {
            constraint: self.constraint.clone(),
            expr: Box::new((*self.expr).clone()),
        }
    }
}

/// An inline assembly block.
#[derive(Debug, PartialEq)]
pub struct InlineAsm {
    pub template: String,
    pub asm_str_style: StrStyle,
    pub outputs: Vec<InlineAsmOutput>,
    pub inputs: Vec<InlineAsmInput>,
    pub clobbers: Vec<String>,
    pub volatile: bool,
    pub alignstack: bool,
    pub dialect: AsmDialect,
}

impl InlineAsm {
    /// Both values hold the same contents.
    pub open spec fn same(self, other: InlineAsm) -> bool
        decreases self,
    {
        &&& self.template@ == other.template@
        &&& self.asm_str_style == other.asm_str_style
        &&& same_asm_outputs(self.outputs@, other.outputs@)
        &&& same_asm_inputs(self.inputs@, other.inputs@)
        &&& same_strings(self.clobbers@, other.clobbers@)
        &&& self.volatile == other.volatile
        &&& self.alignstack == other.alignstack
        &&& self.dialect == other.dialect
    }

    /// Every value holds the same contents as itself.
    pub proof fn same_as_itself(self)
        ensures
            self.same(self),
        decreases self,
    {
        asm_outputs_same_as_themselves(self.outputs@);
        asm_inputs_same_as_themselves(self.inputs@);
    }
}

impl Clone for InlineAsm {
    fn clone(&self) -> (copy: InlineAsm)
        ensures
            self.same(copy),
        decreases *self,
    {
        InlineAsm {
            template: self.template.clone(),
            asm_str_style: self.asm_str_style,
            outputs: clone_asm_outputs(&self.outputs),
            inputs: clone_asm_inputs(&self.inputs),
            clobbers: clone_strings(&self.clobbers),
            volatile: self.volatile,
            alignstack: self.alignstack,
            dialect: self.dialect,
        }
    }
}

/// The form of an expression.
#[derive(Debug, PartialEq)]
pub enum ExprKind {
    Box(Box<Expr>),
    Array(Vec<Expr>),
    Call(Box<Expr>, Vec<Expr>),
    MethodCall(PathSegment, Vec<Expr>),
    Tup(Vec<Expr>),
    Binary(BinOp, Box<Expr>, Box<Expr>),
    Unary(UnOp, Box<Expr>),
    Lit(Lit),
    Cast(Box<Expr>, Box<Ty>),
    Type(Box<Expr>, Box<Ty>),
    Let(Box<Pat>, Box<Expr>),
    If(Box<Expr>, Box<Block>, Option<Box<Expr>>),
    While(Box<Expr>, Box<Block>, Option<Label>),
    ForLoop(Box<Pat>, Box<Expr>, Box<Block>, Option<Label>),
    Loop(Box<Block>, Option<Label>),
    Match(Box<Expr>, Vec<Arm>),
    Closure(CaptureBy, IsAsync, Movability, Box<FnDecl>, Box<Expr>, Span),
    Block(Box<Block>, Option<Label>),
    Async(CaptureBy, NodeId, Box<Block>),
    Await(Box<Expr>),
    TryBlock(Box<Block>),
    Assign(Box<Expr>, Box<Expr>),
    AssignOp(BinOp, Box<Expr>, Box<Expr>),
    Field(Box<Expr>, Ident),
    Index(Box<Expr>, Box<Expr>),
    Range(Option<Box<Expr>>, Option<Box<Expr>>, RangeLimits),
    Path(Option<QSelf>, Path),
    AddrOf(Mutability, Box<Expr>),
    Break(Option<Label>, Option<Box<Expr>>),
    Continue(Option<Label>),
    Ret(Option<Box<Expr>>),
    InlineAsm(Box<InlineAsm>),
    Mac(Mac),
    Struct(Path, Vec<Field>, Option<Box<Expr>>),
    Repeat(Box<Expr>, AnonConst),
    Paren(Box<Expr>),
    Try(Box<Expr>),
    Yield(Option<Box<Expr>>),
    /// An expression that could not be parsed.
    Invalid,
}

impl ExprKind {
    /// Both values hold the same contents.
    pub open spec fn same(self, other: ExprKind) -> bool
        decreases self,
    {
        match (self, other) {
            (ExprKind::Box(expr), ExprKind::Box(expr2)) => expr.same(*expr2),
            (ExprKind::Array(exprs), ExprKind::Array(exprs2)) => same_exprs(exprs@, exprs2@),
            (ExprKind::Call(func, params), ExprKind::Call(func2, params2)) => {
                &&& func.same(*func2)
                &&& same_exprs(params@, params2@)
            },
            (ExprKind::MethodCall(segment, exprs), ExprKind::MethodCall(segment2, exprs2)) => {
                &&& segment.same(segment2)
                &&& same_exprs(exprs@, exprs2@)
            },
            (ExprKind::Tup(exprs), ExprKind::Tup(exprs2)) => same_exprs(exprs@, exprs2@),
            (ExprKind::Binary(op, left, right), ExprKind::Binary(op2, left2, right2)) => {
                &&& op == op2
                &&& left.same(*left2)
                &&& right.same(*right2)
            },
            (ExprKind::Unary(op, expr), ExprKind::Unary(op2, expr2)) => {
                &&& op == op2
                &&& expr.same(*expr2)
            },
            (ExprKind::Lit(lit), ExprKind::Lit(lit2)) => lit.same(lit2),
            (ExprKind::Cast(expr, ty), ExprKind::Cast(expr2, ty2)) => {
                &&& expr.same(*expr2)
                &&& ty.same(*ty2)
            },
            (ExprKind::Type(expr, ty), ExprKind::Type(expr2, ty2)) => {
                &&& expr.same(*expr2)
                &&& ty.same(*ty2)
            },
            (ExprKind::Let(pat, expr), ExprKind::Let(pat2, expr2)) => {
                &&& pat.same(*pat2)
                &&& expr.same(*expr2)
            },
            (ExprKind::If(cond, block, otherwise), ExprKind::If(cond2, block2, otherwise2)) => {
                &&& cond.same(*cond2)
                &&& block.same(*block2)
                &&& match (otherwise, otherwise2) {
                    (Some(x), Some(y)) => x.same(*y),
                    (None, None) => true,
                    _ => false,
                }
            },
            (ExprKind::While(expr, block, label), ExprKind::While(expr2, block2, label2)) => {
                &&& expr.same(*expr2)
                &&& block.same(*block2)
                &&& match (label, label2) {
                    (Some(x), Some(y)) => x.same(y),
                    (None, None) => true,
                    _ => false,
                }
            },
            (
                ExprKind::ForLoop(pat, expr, block, label),
                ExprKind::ForLoop(pat2, expr2, block2, label2),
            ) => {
                &&& pat.same(*pat2)
                &&& expr.same(*expr2)
                &&& block.same(*block2)
                &&& match (label, label2) {
                    (Some(x), Some(y)) => x.same(y),
                    (None, None) => true,
                    _ => false,
                }
            },
            (ExprKind::Loop(block, label), ExprKind::Loop(block2, label2)) => {
                &&& block.same(*block2)
                &&& match (label, label2) {
                    (Some(x), Some(y)) => x.same(y),
                    (None, None) => true,
                    _ => false,
                }
            },
            (ExprKind::Match(expr, arms), ExprKind::Match(expr2, arms2)) => {
                &&& expr.same(*expr2)
                &&& same_arms(arms@, arms2@)
            },
            (
                ExprKind::Closure(capture, asyncness, movability, decl, expr, span),
                ExprKind::Closure(capture2, asyncness2, movability2, decl2, expr2, span2),
            ) => {
                &&& capture == capture2
                &&& asyncness == asyncness2
                &&& movability == movability2
                &&& decl.same(*decl2)
                &&& expr.same(*expr2)
                &&& span == span2
            },
            (ExprKind::Block(block, label), ExprKind::Block(block2, label2)) => {
                &&& block.same(*block2)
                &&& match (label, label2) {
                    (Some(x), Some(y)) => x.same(y),
                    (None, None) => true,
                    _ => false,
                }
            },
            (ExprKind::Async(capture, id, block), ExprKind::Async(capture2, id2, block2)) => {
                &&& capture == capture2
                &&& id == id2
                &&& block.same(*block2)
            },
            (ExprKind::Await(expr), ExprKind::Await(expr2)) => expr.same(*expr2),
            (ExprKind::TryBlock(block), ExprKind::TryBlock(block2)) => block.same(*block2),
            (ExprKind::Assign(left, right), ExprKind::Assign(left2, right2)) => {
                &&& left.same(*left2)
                &&& right.same(*right2)
            },
            (ExprKind::AssignOp(op, left, right), ExprKind::AssignOp(op2, left2, right2)) => {
                &&& op == op2
                &&& left.same(*left2)
                &&& right.same(*right2)
            },
            (ExprKind::Field(expr, ident), ExprKind::Field(expr2, ident2)) => {
                &&& expr.same(*expr2)
                &&& ident.same(ident2)
            },
            (ExprKind::Index(left, right), ExprKind::Index(left2, right2)) => {
                &&& left.same(*left2)
                &&& right.same(*right2)
            },
            (ExprKind::Range(left, right, limits), ExprKind::Range(left2, right2, limits2)) => {
                &&& match (left, left2) {
                    (Some(x), Some(y)) => x.same(*y),
                    (None, None) => true,
                    _ => false,
                }
                &&& match (right, right2) {
                    (Some(x), Some(y)) => x.same(*y),
                    (None, None) => true,
                    _ => false,
                }
                &&& limits == limits2
            },
            (ExprKind::Path(qself, path), ExprKind::Path(qself2, path2)) => {
                &&& match (qself, qself2) {
                    (Some(x), Some(y)) => x.same(y),
                    (None, None) => true,
                    _ => false,
                }
                &&& path.same(path2)
            },
            (ExprKind::AddrOf(mutability, expr), ExprKind::AddrOf(mutability2, expr2)) => {
                &&& mutability == mutability2
                &&& expr.same(*expr2)
            },
            (ExprKind::Break(label, expr), ExprKind::Break(label2, expr2)) => {
                &&& match (label, label2) {
                    (Some(x), Some(y)) => x.same(y),
                    (None, None) => true,
                    _ => false,
                }
                &&& match (expr, expr2) {
                    (Some(x), Some(y)) => x.same(*y),
                    (None, None) => true,
                    _ => false,
                }
            },
            (ExprKind::Continue(label), ExprKind::Continue(label2)) => {
                &&& match (label, label2) {
                    (Some(x), Some(y)) => x.same(y),
                    (None, None) => true,
                    _ => false,
                }
            },
            (ExprKind::Ret(expr), ExprKind::Ret(expr2)) => {
                &&& match (expr, expr2) {
                    (Some(x), Some(y)) => x.same(*y),
                    (None, None) => true,
                    _ => false,
                }
            },
            (ExprKind::InlineAsm(assembly), ExprKind::InlineAsm(assembly2)) => {
                &&& assembly.same(*assembly2)
            },
            (ExprKind::Mac(mac), ExprKind::Mac(mac2)) => mac.same(mac2),
            (ExprKind::Struct(path, fields, expr), ExprKind::Struct(path2, fields2, expr2)) => {
                &&& path.same(path2)
                &&& same_fields(fields@, fields2@)
                &&& match (expr, expr2) {
                    (Some(x), Some(y)) => x.same(*y),
                    (None, None) => true,
                    _ => false,
                }
            },
            (ExprKind::Repeat(expr, constant), ExprKind::Repeat(expr2, constant2)) => {
                &&& expr.same(*expr2)
                &&& constant.same(constant2)
            },
            (ExprKind::Paren(expr), ExprKind::Paren(expr2)) => expr.same(*expr2),
            (ExprKind::Try(expr), ExprKind::Try(expr2)) => expr.same(*expr2),
            (ExprKind::Yield(expr), ExprKind::Yield(expr2)) => {
                &&& match (expr, expr2) {
                    (Some(x), Some(y)) => x.same(*y),
                    (None, None) => true,
                    _ => false,
                }
            },
            (ExprKind::Invalid, ExprKind::Invalid) => true,
            _ => false,
        }
    }

    /// Every value holds the same contents as itself.
    pub proof fn same_as_itself(self)
        ensures
            self.same(self),
        decreases self,
    {
        match self {
            ExprKind::Box(expr) => {
                expr.same_as_itself();
            },
            ExprKind::Array(exprs) => {
                exprs_same_as_themselves(exprs@);
            },
            ExprKind::Call(func, params) => {
                func.same_as_itself();
                exprs_same_as_themselves(params@);
            },
            ExprKind::MethodCall(segment, exprs) => {
                segment.same_as_itself();
                exprs_same_as_themselves(exprs@);
            },
            ExprKind::Tup(exprs) => {
                exprs_same_as_themselves(exprs@);
            },
            ExprKind::Binary(_, left, right) => {
                left.same_as_itself();
                right.same_as_itself();
            },
            ExprKind::Unary(_, expr) => {
                expr.same_as_itself();
            },
            ExprKind::Lit(lit) => {
                lit.same_as_itself();
            },
            ExprKind::Cast(expr, ty) => {
                expr.same_as_itself();
                ty.same_as_itself();
            },
            ExprKind::Type(expr, ty) => {
                expr.same_as_itself();
                ty.same_as_itself();
            },
            ExprKind::Let(pat, expr) => {
                pat.same_as_itself();
                expr.same_as_itself();
            },
            ExprKind::If(cond, block, otherwise) => {
                cond.same_as_itself();
                block.same_as_itself();
                if let Some(x) = otherwise {
                    x.same_as_itself();
                }
            },
            ExprKind::While(expr, block, label) => {
                expr.same_as_itself();
                block.same_as_itself();
                if let Some(x) = label {
                    x.same_as_itself();
                }
            },
            ExprKind::ForLoop(pat, expr, block, label) => {
                pat.same_as_itself();
                expr.same_as_itself();
                block.same_as_itself();
                if let Some(x) = label {
                    x.same_as_itself();
                }
            },
            ExprKind::Loop(block, label) => {
                block.same_as_itself();
                if let Some(x) = label {
                    x.same_as_itself();
                }
            },
            ExprKind::Match(expr, arms) => {
                expr.same_as_itself();
                arms_same_as_themselves(arms@);
            },
            ExprKind::Closure(_, _, _, decl, expr, _) => {
                decl.same_as_itself();
                expr.same_as_itself();
            },
            ExprKind::Block(block, label) => {
                block.same_as_itself();
                if let Some(x) = label {
                    x.same_as_itself();
                }
            },
            ExprKind::Async(_, _, block) => {
                block.same_as_itself();
            },
            ExprKind::Await(expr) => {
                expr.same_as_itself();
            },
            ExprKind::TryBlock(block) => {
                block.same_as_itself();
            },
            ExprKind::Assign(left, right) => {
                left.same_as_itself();
                right.same_as_itself();
            },
            ExprKind::AssignOp(_, left, right) => {
                left.same_as_itself();
                right.same_as_itself();
            },
            ExprKind::Field(expr, ident) => {
                expr.same_as_itself();
                ident.same_as_itself();
            },
            ExprKind::Index(left, right) => {
                left.same_as_itself();
                right.same_as_itself();
            },
            ExprKind::Range(left, right, _) => {
                if let Some(x) = left {
                    x.same_as_itself();
                }
                if let Some(x) = right {
                    x.same_as_itself();
                }
            },
            ExprKind::Path(qself, path) => {
                if let Some(x) = qself {
                    x.same_as_itself();
                }
                path.same_as_itself();
            },
            ExprKind::AddrOf(_, expr) => {
                expr.same_as_itself();
            },
            ExprKind::Break(label, expr) => {
                if let Some(x) = label {
                    x.same_as_itself();
                }
                if let Some(x) = expr {
                    x.same_as_itself();
                }
            },
            ExprKind::Continue(label) => {
                if let Some(x) = label {
                    x.same_as_itself();
                }
            },
            ExprKind::Ret(expr) => {
                if let Some(x) = expr {
                    x.same_as_itself();
                }
            },
            ExprKind::InlineAsm(assembly) => {
                assembly.same_as_itself();
            },
            ExprKind::Mac(mac) => {
                mac.same_as_itself();
            },
            ExprKind::Struct(path, fields, expr) => {
                path.same_as_itself();
                fields_same_as_themselves(fields@);
                if let Some(x) = expr {
                    x.same_as_itself();
                }
            },
            ExprKind::Repeat(expr, constant) => {
                expr.same_as_itself();
                constant.same_as_itself();
            },
            ExprKind::Paren(expr) => {
                expr.same_as_itself();
            },
            ExprKind::Try(expr) => {
                expr.same_as_itself();
            },
            ExprKind::Yield(expr) => {
                if let Some(x) = expr {
                    x.same_as_itself();
                }
            },
            _ => {},
        }
    }
}

impl Clone for ExprKind {
    fn clone(&self) -> (copy: ExprKind)
        ensures
            self.same(copy),
        decreases *self,
    {
        match self {
            ExprKind::Box(expr) => ExprKind::Box(Box::new((**expr).clone())),
            ExprKind::Array(exprs) => ExprKind::Array(clone_exprs(exprs)),
            ExprKind::Call(func, params) => ExprKind::Call(
                Box::new((**func).clone()),
                clone_exprs(params),
            ),
            ExprKind::MethodCall(segment, exprs) => ExprKind::MethodCall(
                segment.clone(),
                clone_exprs(exprs),
            ),
            ExprKind::Tup(exprs) => ExprKind::Tup(clone_exprs(exprs)),
            ExprKind::Binary(op, left, right) => ExprKind::Binary(
                *op,
                Box::new((**left).clone()),
                Box::new((**right).clone()),
            ),
            ExprKind::Unary(op, expr) => ExprKind::Unary(*op, Box::new((**expr).clone())),
            ExprKind::Lit(lit) => ExprKind::Lit(lit.clone()),
            ExprKind::Cast(expr, ty) => ExprKind::Cast(
                Box::new((**expr).clone()),
                Box::new((**ty).clone()),
            ),
            ExprKind::Type(expr, ty) => ExprKind::Type(
                Box::new((**expr).clone()),
                Box::new((**ty).clone()),
            ),
            ExprKind::Let(pat, expr) => ExprKind::Let(
                Box::new((**pat).clone()),
                Box::new((**expr).clone()),
            ),
            ExprKind::If(cond, block, otherwise) => ExprKind::If(
                Box::new((**cond).clone()),
                Box::new((**block).clone()),
                match otherwise {
                    Some(x) => Some(Box::new((**x).clone())),
                    None => None,
                },
            ),
            ExprKind::While(expr, block, label) => ExprKind::While(
                Box::new((**expr).clone()),
                Box::new((**block).clone()),
                match label {
                    Some(x) => Some(x.clone()),
                    None => None,
                },
            ),
            ExprKind::ForLoop(pat, expr, block, label) => ExprKind::ForLoop(
                Box::new((**pat).clone()),
                Box::new((**expr).clone()),
                Box::new((**block).clone()),
                match label {
                    Some(x) => Some(x.clone()),
                    None => None,
                },
            ),
            ExprKind::Loop(block, label) => ExprKind::Loop(
                Box::new((**block).clone()),
                match label {
                    Some(x) => Some(x.clone()),
                    None => None,
                },
            ),
            ExprKind::Match(expr, arms) => ExprKind::Match(
                Box::new((**expr).clone()),
                clone_arms(arms),
            ),
            ExprKind::Closure(
                capture,
                asyncness,
                movability,
                decl,
                expr,
                span,
            ) => ExprKind::Closure(
                *capture,
                *asyncness,
                *movability,
                Box::new((**decl).clone()),
                Box::new((**expr).clone()),
                *span,
            ),
            ExprKind::Block(block, label) => ExprKind::Block(
                Box::new((**block).clone()),
                match label {
                    Some(x) => Some(x.clone()),
                    None => None,
                },
            ),
            ExprKind::Async(capture, id, block) => ExprKind::Async(
                *capture,
                *id,
                Box::new((**block).clone()),
            ),
            ExprKind::Await(expr) => ExprKind::Await(Box::new((**expr).clone())),
            ExprKind::TryBlock(block) => ExprKind::TryBlock(Box::new((**block).clone())),
            ExprKind::Assign(left, right) => ExprKind::Assign(
                Box::new((**left).clone()),
                Box::new((**right).clone()),
            ),
            ExprKind::AssignOp(op, left, right) => ExprKind::AssignOp(
                *op,
                Box::new((**left).clone()),
                Box::new((**right).clone()),
            ),
            ExprKind::Field(expr, ident) => ExprKind::Field(
                Box::new((**expr).clone()),
                ident.clone(),
            ),
            ExprKind::Index(left, right) => ExprKind::Index(
                Box::new((**left).clone()),
                Box::new((**right).clone()),
            ),
            ExprKind::Range(left, right, limits) => ExprKind::Range(
                match left {
                    Some(x) => Some(Box::new((**x).clone())),
                    None => None,
                },
                match right {
                    Some(x) => Some(Box::new((**x).clone())),
                    None => None,
                },
                *limits,
            ),
            ExprKind::Path(qself, path) => ExprKind::Path(
                match qself {
                    Some(x) => Some(x.clone()),
                    None => None,
                },
                path.clone(),
            ),
            ExprKind::AddrOf(mutability, expr) => ExprKind::AddrOf(
                *mutability,
                Box::new((**expr).clone()),
            ),
            ExprKind::Break(label, expr) => ExprKind::Break(
                match label {
                    Some(x) => Some(x.clone()),
                    None => None,
                },
                match expr {
                    Some(x) => Some(Box::new((**x).clone())),
                    None => None,
                },
            ),
            ExprKind::Continue(label) => ExprKind::Continue(
                match label {
                    Some(x) => Some(x.clone()),
                    None => None,
                },
            ),
            ExprKind::Ret(expr) => ExprKind::Ret(
                match expr {
                    Some(x) => Some(Box::new((**x).clone())),
                    None => None,
                },
            ),
            ExprKind::InlineAsm(assembly) => ExprKind::InlineAsm(Box::new((**assembly).clone())),
            ExprKind::Mac(mac) => ExprKind::Mac(mac.clone()),
            ExprKind::Struct(path, fields, expr) => ExprKind::Struct(
                path.clone(),
                clone_fields(fields),
                match expr {
                    Some(x) => Some(Box::new((**x).clone())),
                    None => None,
                },
            ),
            ExprKind::Repeat(expr, constant) => ExprKind::Repeat(
                Box::new((**expr).clone()),
                constant.clone(),
            ),
            ExprKind::Paren(expr) => ExprKind::Paren(Box::new((**expr).clone())),
            ExprKind::Try(expr) => ExprKind::Try(Box::new((**expr).clone())),
            ExprKind::Yield(expr) => ExprKind::Yield(
                match expr {
                    Some(x) => Some(Box::new((**x).clone())),
                    None => None,
                },
            ),
            ExprKind::Invalid => ExprKind::Invalid,
        }
    }
}

/// An expression.
#[derive(Debug, PartialEq)]
pub struct Expr {
    pub id: NodeId,
    pub kind: ExprKind,
    pub span: Span,
    pub attrs: Vec<Attribute>,
}

impl Expr {
    /// Both values hold the same contents.
    pub open spec fn same(self, other: Expr) -> bool
        decreases self,
    {
        &&& self.id == other.id
        &&& self.kind.same(other.kind)
        &&& self.span == other.span
        &&& same_attributes(self.attrs@, other.attrs@)
    }

    /// Every value holds the same contents as itself.
    pub proof fn same_as_itself(self)
        ensures
            self.same(self),
        decreases self,
    {
        self.kind.same_as_itself();
        attributes_same_as_themselves(self.attrs@);
    }
}

impl Clone for Expr {
    fn clone(&self) -> (copy: Expr)
        ensures
            self.same(copy),
        decreases *self,
    {
        Expr {
            id: self.id,
            kind: self.kind.clone(),
            span: self.span,
            attrs: clone_attributes(&self.attrs),
        }
    }
}

/// Both lists hold the same expressions in the same order.
pub open spec fn same_exprs(list: Seq<Expr>, other: Seq<Expr>) -> bool
    decreases list,
{
    &&& list.len() == other.len()
    &&& forall|i: int| 0 <= i < list.len() ==> (#[trigger] list[i]).same(other[i])
}

/// Every list of expressions is the same as itself.
pub proof fn exprs_same_as_themselves(list: Seq<Expr>)
    ensures
        same_exprs(list, list),
    decreases list,
{
    assert forall|i: int| 0 <= i < list.len() implies (#[trigger] list[i]).same(list[i]) by {
        list[i].same_as_itself();
    }
}

/// A copy of a list of expressions.
pub fn clone_exprs(list: &Vec<Expr>) -> (copy: Vec<Expr>)
    ensures
        same_exprs(list@, copy@),
    decreases *list,
{
    let mut copy: Vec<Expr> = Vec::new();
    let mut i: usize = 0;
    while i < list.len()
        invariant
            i <= list@.len(),
            copy@.len() == i,
            forall|j: int| 0 <= j < i ==> (#[trigger] list@[j]).same(copy@[j]),
        decreases list@.len() - i,
    {
        copy.push(list[i].clone());
        i += 1;
    }
    copy
}

/// Both lists hold the same match arms in the same order.
pub open spec fn same_arms(list: Seq<Arm>, other: Seq<Arm>) -> bool
    decreases list,
{
    &&& list.len() == other.len()
    &&& forall|i: int| 0 <= i < list.len() ==> (#[trigger] list[i]).same(other[i])
}

/// Every list of match arms is the same as itself.
pub proof fn arms_same_as_themselves(list: Seq<Arm>)
    ensures
        same_arms(list, list),
    decreases list,
{
    assert forall|i: int| 0 <= i < list.len() implies (#[trigger] list[i]).same(list[i]) by {
        list[i].same_as_itself();
    }
}

/// A copy of a list of match arms.
pub fn clone_arms(list: &Vec<Arm>) -> (copy: Vec<Arm>)
    ensures
        same_arms(list@, copy@),
    decreases *list,
{
    let mut copy: Vec<Arm> = Vec::new();
    let mut i: usize = 0;
    while i < list.len()
        invariant
            i <= list@.len(),
            copy@.len() == i,
            forall|j: int| 0 <= j < i ==> (#[trigger] list@[j]).same(copy@[j]),
        decreases list@.len() - i,
    {
        copy.push(list[i].clone());
        i += 1;
    }
    copy
}

/// Both lists hold the same field initialisers in the same order.
pub open spec fn same_fields(list: Seq<Field>, other: Seq<Field>) -> bool
    decreases list,
{
    &&& list.len() == other.len()
    &&& forall|i: int| 0 <= i < list.len() ==> (#[trigger] list[i]).same(other[i])
}

/// Every list of field initialisers is the same as itself.
pub proof fn fields_same_as_themselves(list: Seq<Field>)
    ensures
        same_fields(list, list),
    decreases list,
{
    assert forall|i: int| 0 <= i < list.len() implies (#[trigger] list[i]).same(list[i]) by {
        list[i].same_as_itself();
    }
}

/// A copy of a list of field initialisers.
pub fn clone_fields(list: &Vec<Field>) -> (copy: Vec<Field>)
    ensures
        same_fields(list@, copy@),
    decreases *list,
{
    let mut copy: Vec<Field> = Vec::new();
    let mut i: usize = 0;
    while i < list.len()
        invariant
            i <= list@.len(),
            copy@.len() == i,
            forall|j: int| 0 <= j < i ==> (#[trigger] list@[j]).same(copy@[j]),
        decreases list@.len() - i,
    {
        copy.push(list[i].clone());
        i += 1;
    }
    copy
}

/// Both lists hold the same output operands in the same order.
pub open spec fn same_asm_outputs(list: Seq<InlineAsmOutput>, other: Seq<InlineAsmOutput>) -> bool
    decreases list,
{
    &&& list.len() == other.len()
    &&& forall|i: int| 0 <= i < list.len() ==> (#[trigger] list[i]).same(other[i])
}

/// Every list of output operands is the same as itself.
pub proof fn asm_outputs_same_as_themselves(list: Seq<InlineAsmOutput>)
    ensures
        same_asm_outputs(list, list),
    decreases list,
{
    assert forall|i: int| 0 <= i < list.len() implies (#[trigger] list[i]).same(list[i]) by {
        list[i].same_as_itself();
    }
}

/// A copy of a list of output operands.
pub fn clone_asm_outputs(list: &Vec<InlineAsmOutput>) -> (copy: Vec<InlineAsmOutput>)
    ensures
        same_asm_outputs(list@, copy@),
    decreases *list,
{
    let mut copy: Vec<InlineAsmOutput> = Vec::new();
    let mut i: usize = 0;
    while i < list.len()
        invariant
            i <= list@.len(),
            copy@.len() == i,
            forall|j: int| 0 <= j < i ==> (#[trigger] list@[j]).same(copy@[j]),
        decreases list@.len() - i,
    {
        copy.push(list[i].clone());
        i += 1;
    }
    copy
}

/// Both lists hold the same input operands in the same order.
pub open spec fn same_asm_inputs(list: Seq<InlineAsmInput>, other: Seq<InlineAsmInput>) -> bool
    decreases list,
{
    &&& list.len() == other.len()
    &&& forall|i: int| 0 <= i < list.len() ==> (#[trigger] list[i]).same(other[i])
}

/// Every list of input operands is the same as itself.
pub proof fn asm_inputs_same_as_themselves(list: Seq<InlineAsmInput>)
    ensures
        same_asm_inputs(list, list),
    decreases list,
{
    assert forall|i: int| 0 <= i < list.len() implies (#[trigger] list[i]).same(list[i]) by {
        list[i].same_as_itself();
    }
}

/// A copy of a list of input operands.
pub fn clone_asm_inputs(list: &Vec<InlineAsmInput>) -> (copy: Vec<InlineAsmInput>)
    ensures
        same_asm_inputs(list@, copy@),
    decreases *list,
{
    let mut copy: Vec<InlineAsmInput> = Vec::new();
    let mut i: usize = 0;
    while i < list.len()
        invariant
            i <= list@.len(),
            copy@.len() == i,
            forall|j: int| 0 <= j < i ==> (#[trigger] list@[j]).same(copy@[j]),
        decreases list@.len() - i,
    {
        copy.push(list[i].clone());
        i += 1;
    }
    copy
}

} // verus!
