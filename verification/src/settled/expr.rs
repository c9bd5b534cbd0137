//! Parentheses in expressions.

use vstd::prelude::*;

use crate::ast::expr::{
    AnonConst, Arm, Expr, ExprKind, Field, InlineAsm, InlineAsmInput, InlineAsmOutput,
};

verus! {

impl AnonConst {
    /// All parentheses in it have the ids of what stands between them.
    pub open spec fn settled(self) -> bool
        decreases self,
    {
        self.value.settled()
    }
}

impl Arm {
    /// All parentheses in it have the ids of what stands between them.
    pub open spec fn settled(self) -> bool
        decreases self,
    {
        &&& self.pat.settled()
        &&& (self.guard matches Some(x) ==> x.settled())
        &&& self.body.settled()
    }
}

/// All parentheses in a list of match arms have the ids of what stands between them.
pub open spec fn settled_arms(list: Seq<Arm>) -> bool
    decreases list,
{
    forall|i: int| 0 <= i < list.len() ==> (#[trigger] list[i]).settled()
}

impl Field {
    /// All parentheses in it have the ids of what stands between them.
    pub open spec fn settled(self) -> bool
        decreases self,
    {
        self.expr.settled()
    }
}

/// All parentheses in a list of field initialisers have the ids of what stands between them.
pub open spec fn settled_fields(list: Seq<Field>) -> bool
    decreases list,
{
    forall|i: int| 0 <= i < list.len() ==> (#[trigger] list[i]).settled()
}

impl InlineAsmOutput {
    /// All parentheses in it have the ids of what stands between them.
    pub open spec fn settled(self) -> bool
        decreases self,
    {
        self.expr.settled()
    }
}

/// All parentheses in a list of output operands have the ids of what stands between them.
pub open spec fn settled_asm_outputs(list: Seq<InlineAsmOutput>) -> bool
    decreases list,
{
    forall|i: int| 0 <= i < list.len() ==> (#[trigger] list[i]).settled()
}

impl InlineAsmInput {
    /// All parentheses in it have the ids of what stands between them.
    pub open spec fn settled(self) -> bool
        decreases self,
    {
        self.expr.settled()
    }
}

/// All parentheses in a list of input operands have the ids of what stands between them.
pub open spec fn settled_asm_inputs(list: Seq<InlineAsmInput>) -> bool
    decreases list,
{
    forall|i: int| 0 <= i < list.len() ==> (#[trigger] list[i]).settled()
}

impl InlineAsm {
    /// All parentheses in it have the ids of what stands between them.
    pub open spec fn settled(self) -> bool
        decreases self,
    {
        &&& settled_asm_outputs(self.outputs@)
        &&& settled_asm_inputs(self.inputs@)
    }
}

impl ExprKind {
    /// All parentheses in it have the ids of what stands between them.
    pub open spec fn settled(self) -> bool
        decreases self,
    {
        match self {
            ExprKind::Box(expr) => expr.settled(),
            ExprKind::Array(exprs) => settled_exprs(exprs@),
            ExprKind::Call(func, params) => {
                &&& func.settled()
                &&& settled_exprs(params@)
            },
            ExprKind::MethodCall(segment, exprs) => {
                &&& segment.settled()
                &&& settled_exprs(exprs@)
            },
            ExprKind::Tup(exprs) => settled_exprs(exprs@),
            ExprKind::Binary(_, left, right) => {
                &&& left.settled()
                &&& right.settled()
            },
            ExprKind::Unary(_, expr) => expr.settled(),
            ExprKind::Cast(expr, ty) => {
                &&& expr.settled()
                &&& ty.settled()
            },
            ExprKind::Type(expr, ty) => {
                &&& expr.settled()
                &&& ty.settled()
            },
            ExprKind::Let(pat, expr) => {
                &&& pat.settled()
                &&& expr.settled()
            },
            ExprKind::If(cond, block, otherwise) => {
                &&& cond.settled()
                &&& block.settled()
                &&& (otherwise matches Some(x) ==> x.settled())
            },
            ExprKind::While(expr, block, _) => {
                &&& expr.settled()
                &&& block.settled()
            },
            ExprKind::ForLoop(pat, expr, block, _) => {
                &&& pat.settled()
                &&& expr.settled()
                &&& block.settled()
            },
            ExprKind::Loop(block, _) => block.settled(),
            ExprKind::Match(expr, arms) => {
                &&& expr.settled()
                &&& settled_arms(arms@)
            },
            ExprKind::Closure(_, _, _, decl, expr, _) => {
                &&& decl.settled()
                &&& expr.settled()
            },
            ExprKind::Block(block, _) => block.settled(),
            ExprKind::Async(_, _, block) => block.settled(),
            ExprKind::Await(expr) => expr.settled(),
            ExprKind::TryBlock(block) => block.settled(),
            ExprKind::Assign(left, right) => {
                &&& left.settled()
                &&& right.settled()
            },
            ExprKind::AssignOp(_, left, right) => {
                &&& left.settled()
                &&& right.settled()
            },
            ExprKind::Field(expr, _) => expr.settled(),
            ExprKind::Index(left, right) => {
                &&& left.settled()
                &&& right.settled()
            },
            ExprKind::Range(left, right, _) => {
                &&& (left matches Some(x) ==> x.settled())
                &&& (right matches Some(x) ==> x.settled())
            },
            ExprKind::Path(qself, path) => {
                &&& (qself matches Some(x) ==> x.settled())
                &&& path.settled()
            },
            ExprKind::AddrOf(_, expr) => expr.settled(),
            ExprKind::Break(_, expr) => (expr matches Some(x) ==> x.settled()),
            ExprKind::Ret(expr) => (expr matches Some(x) ==> x.settled()),
            ExprKind::InlineAsm(assembly) => assembly.settled(),
            ExprKind::Struct(path, fields, expr) => {
                &&& path.settled()
                &&& settled_fields(fields@)
                &&& (expr matches Some(x) ==> x.settled())
            },
            ExprKind::Repeat(expr, constant) => {
                &&& expr.settled()
                &&& constant.settled()
            },
            ExprKind::Paren(expr) => expr.settled(),
            ExprKind::Try(expr) => expr.settled(),
            ExprKind::Yield(expr) => (expr matches Some(x) ==> x.settled()),
            _ => true,
        }
    }
}

impl Expr {
    /// All parentheses in it have the ids of what stands between them.
    pub open spec fn settled(self) -> bool
        decreases self,
    {
        &&& (self.kind matches ExprKind::Paren(child) ==> self.id == child.id)
        &&& self.kind.settled()
    }
}

/// All parentheses in a list of expressions have the ids of what stands between them.
pub open spec fn settled_exprs(list: Seq<Expr>) -> bool
    decreases list,
{
    forall|i: int| 0 <= i < list.len() ==> (#[trigger] list[i]).settled()
}

} // verus!
