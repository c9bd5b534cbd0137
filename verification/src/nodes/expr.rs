//! Expressions.

use vstd::prelude::*;

use crate::ast::expr::{Expr, ExprKind};
use crate::ast::flags::{
    BinOpKind, BindingMode, BlockCheckMode, CaptureBy, IsAsync, Movability, Mutability,
    RangeLimits, TokenLitKind, UnOp, UnsafeSource,
};
use crate::ast::func::{FnDecl, FunctionRetTy, Param};
use crate::ast::ident::{Ident, Label, dummy_id, dummy_node_id, fresh_ident};
use crate::ast::lit::{Lit, LitKind, TokenLit};
use crate::ast::pat::{Pat, PatKind};
use crate::ast::path::{Path, PathSegment};
use crate::ast::span::{Spanned, dummy_sp, dummy_span, dummy_spanned};
use crate::ast::stmt::{Block, Stmt, StmtKind};
use crate::ast::ty::{Ty, TyKind};
use crate::error::Error;
use crate::lists::push_all;
use crate::nodes::path::{is_ident_path, plain_segment};
use crate::text::{bool_name, bool_text, same_text};

verus! {

/// The operands that a script sees of an expression, in order.
pub open spec fn operands(kind: ExprKind) -> Seq<Expr> {
    match kind {
        ExprKind::Cast(expr, _) => seq![*expr],
        ExprKind::Field(expr, _) => seq![*expr],
        ExprKind::Unary(_, expr) => seq![*expr],
        ExprKind::MethodCall(_, exprs) => exprs@,
        ExprKind::Assign(lhs, rhs) => seq![*lhs, *rhs],
        ExprKind::AssignOp(_, lhs, rhs) => seq![*lhs, *rhs],
        ExprKind::Binary(_, lhs, rhs) => seq![*lhs, *rhs],
        ExprKind::Call(func, params) => seq![*func] + params@,
        _ => seq![],
    }
}

/// How many operands a script has to give at least to replace those of an expression, where
/// they can be replaced at all.
pub open spec fn operands_needed(kind: ExprKind) -> Option<nat> {
    match kind {
        ExprKind::Field(..) => Some(1),
        ExprKind::Unary(..) => Some(1),
        ExprKind::MethodCall(..) => Some(0),
        ExprKind::Call(..) => Some(1),
        ExprKind::Assign(..) => Some(2),
        ExprKind::AssignOp(..) => Some(2),
        ExprKind::Binary(..) => Some(2),
        ExprKind::Cast(..) => Some(1),
        ExprKind::AddrOf(..) => Some(1),
        _ => None,
    }
}

/// `after` is `before` with its operands replaced by `exprs`.
///
/// The operands of a method call stay as they are.
pub open spec fn operands_replaced(before: ExprKind, exprs: Seq<Expr>, after: ExprKind) -> bool {
    match before {
        ExprKind::Field(_, ident) => after == ExprKind::Field(Box::new(exprs[0]), ident),
        ExprKind::Unary(op, _) => after == ExprKind::Unary(op, Box::new(exprs[0])),
        ExprKind::MethodCall(..) => after == before,
        ExprKind::Call(..) => {
            &&& after matches ExprKind::Call(func, params)
            &&& *func == exprs[0]
            &&& params@ == exprs.skip(1)
        },
        ExprKind::Assign(..) => after == ExprKind::Assign(
            Box::new(exprs[0]),
            Box::new(exprs[1]),
        ),
        ExprKind::AssignOp(op, ..) => after == ExprKind::AssignOp(
            op,
            Box::new(exprs[0]),
            Box::new(exprs[1]),
        ),
        ExprKind::Binary(op, ..) => after == ExprKind::Binary(
            op,
            Box::new(exprs[0]),
            Box::new(exprs[1]),
        ),
        ExprKind::Cast(_, ty) => after == ExprKind::Cast(Box::new(exprs[0]), ty),
        ExprKind::AddrOf(mutability, _) => after == ExprKind::AddrOf(
            mutability,
            Box::new(exprs[0]),
        ),
        _ => false,
    }
}

/// The type of a cast or a type ascription.
pub open spec fn ascribed_ty(kind: ExprKind) -> Option<Ty> {
    match kind {
        ExprKind::Cast(_, ty) => Some(*ty),
        ExprKind::Type(_, ty) => Some(*ty),
        _ => None,
    }
}

/// `after` is the cast or type ascription `before` with another type.
pub open spec fn ty_replaced(before: ExprKind, ty: Ty, after: ExprKind) -> bool {
    match before {
        ExprKind::Cast(expr, _) => after == ExprKind::Cast(expr, Box::new(ty)),
        ExprKind::Type(expr, _) => after == ExprKind::Type(expr, Box::new(ty)),
        _ => false,
    }
}

/// `after` is `before` in all but its form.
pub open spec fn only_kind_changed(before: Expr, after: Expr) -> bool {
    after == (Expr { kind: after.kind, ..before })
}

/// The binary operator that a script can make under this name.
pub open spec fn binary_operator(name: Seq<char>) -> Option<BinOpKind> {
    if name == "Add"@ {
        Some(BinOpKind::Add)
    } else if name == "Div"@ {
        Some(BinOpKind::Div)
    } else {
        None
    }
}

/// The unary operator that a script can make under this name.
pub open spec fn unary_operator(name: Seq<char>) -> Option<UnOp> {
    if name == "Deref"@ {
        Some(UnOp::Deref)
    } else {
        None
    }
}

/// The binary operator that a script can make under this name.
pub fn parse_binary_operator(name: &str) -> (result: Option<BinOpKind>)
    ensures
        result == binary_operator(name@),
{
    if same_text(name, "Add") {
        Some(BinOpKind::Add)
    } else if same_text(name, "Div") {
        Some(BinOpKind::Div)
    } else {
        None
    }
}

/// The unary operator that a script can make under this name.
pub fn parse_unary_operator(name: &str) -> (result: Option<UnOp>)
    ensures
        result == unary_operator(name@),
{
    if same_text(name, "Deref") {
        Some(UnOp::Deref)
    } else {
        None
    }
}

/// `param` is a closure parameter of this name whose type is to be inferred.
pub open spec fn is_closure_param(param: Param, name: String) -> bool {
    &&& param.attrs@ == Seq::<crate::ast::attr::Attribute>::empty()
    &&& *param.ty == (Ty { id: dummy_id(), kind: TyKind::Infer, span: dummy_span() })
    &&& *param.pat == (Pat {
        id: dummy_id(),
        kind: PatKind::Ident(
            BindingMode::ByValue(Mutability::Immutable),
            fresh_ident(name),
            None,
        ),
        span: dummy_span(),
    })
    &&& param.id == dummy_id()
    &&& param.span == dummy_span()
    &&& param.is_placeholder
}

/// `decl` is the declaration of a closure with parameters of these names.
pub open spec fn is_closure_decl(decl: FnDecl, names: Seq<String>) -> bool {
    &&& decl.inputs@.len() == names.len()
    &&& forall|i: int|
        0 <= i < names.len() ==> is_closure_param(#[trigger] decl.inputs@[i], names[i])
    &&& decl.output == FunctionRetTy::Default(dummy_span())
}

/// `lit` is the literal of a truth value.
pub open spec fn is_bool_lit(lit: Lit, value: bool) -> bool {
    &&& lit.token.kind == TokenLitKind::Bool
    &&& lit.token.symbol@ == bool_text(value)
    &&& lit.token.suffix is None
    &&& lit.kind == LitKind::Bool(value)
    &&& lit.span == dummy_span()
}

/// The block that a script makes of statements.
pub open spec fn scripted_block(stmts: Vec<Stmt>, is_safe: bool) -> Block {
    Block {
        stmts,
        id: dummy_id(),
        rules: if is_safe {
            BlockCheckMode::Default
        } else {
            BlockCheckMode::Unsafe(UnsafeSource::UserProvided)
        },
        span: dummy_span(),
    }
}

/// The label that a script makes of a name.
pub open spec fn scripted_label(label: Option<String>) -> Option<Label> {
    match label {
        Some(name) => Some(Label { ident: fresh_ident(name) }),
        None => None,
    }
}

/// The operand that a script may leave out.
pub open spec fn boxed(expr: Option<Expr>) -> Option<Box<Expr>> {
    match expr {
        Some(expr) => Some(Box::new(expr)),
        None => None,
    }
}

/// Puts an optional operand in a box.
fn box_expr(expr: Option<Expr>) -> (result: Option<Box<Expr>>)
    ensures
        result == boxed(expr),
{
    match expr {
        Some(expr) => Some(Box::new(expr)),
        None => None,
    }
}

/// The parameter of a closure that a script makes.
fn closure_param(name: String) -> (param: Param)
    ensures
        is_closure_param(param, name),
{
    Param {
        attrs: Vec::new(),
        ty: Box::new(Ty { id: dummy_node_id(), kind: TyKind::Infer, span: dummy_sp() }),
        pat: Box::new(
            Pat {
                id: dummy_node_id(),
                kind: PatKind::Ident(
                    BindingMode::ByValue(Mutability::Immutable),
                    Ident::from_str(name),
                    None,
                ),
                span: dummy_sp(),
            },
        ),
        id: dummy_node_id(),
        span: dummy_sp(),
        is_placeholder: true,
    }
}

impl Expr {
    /// The literal that a literal expression holds.
    pub fn get_node(&self) -> (result: Result<&Lit, Error>)
        ensures
            match self.kind {
                ExprKind::Lit(lit) => result == Ok::<&Lit, Error>(&lit),
                _ => result == Err::<&Lit, Error>(Error::ExprNode),
            },
    {
        match &self.kind {
            ExprKind::Lit(lit) => Ok(lit),
            _ => Err(Error::ExprNode),
        }
    }

    /// Whether the expression is a cast or a type ascription.
    pub fn has_ty(&self) -> (result: bool)
        ensures
            result == (ascribed_ty(self.kind) is Some),
    {
        match &self.kind {
            ExprKind::Cast(..) | ExprKind::Type(..) => true,
            _ => false,
        }
    }

    /// The type of a cast or a type ascription.
    pub fn get_ty(&self) -> (ty: &Ty)
        requires
            ascribed_ty(self.kind) is Some,
        ensures
            Some(*ty) == ascribed_ty(self.kind),
    {
        match &self.kind {
            ExprKind::Cast(_, ty) => ty,
            ExprKind::Type(_, ty) => ty,
            _ => vstd::pervasive::unreached(),
        }
    }

    /// Replaces the type of a cast or a type ascription.
    pub fn set_ty(&mut self, ty: Ty)
        requires
            ascribed_ty(old(self).kind) is Some,
        ensures
            only_kind_changed(*old(self), *final(self)),
            ty_replaced(old(self).kind, ty, final(self).kind),
    {
        match &mut self.kind {
            ExprKind::Cast(_, target) => {
                **target = ty;
            },
            ExprKind::Type(_, target) => {
                **target = ty;
            },
            _ => {},
        }
    }

    /// The name of the field that a field access reads.
    pub fn get_ident(&self) -> (result: Option<&Ident>)
        ensures
            match self.kind {
                ExprKind::Field(_, ident) => result == Some(&ident),
                _ => result is None,
            },
    {
        match &self.kind {
            ExprKind::Field(_, ident) => Some(ident),
            _ => None,
        }
    }

    /// The path of a path expression or a struct expression.
    pub fn get_path(&self) -> (result: Option<&Path>)
        ensures
            match self.kind {
                ExprKind::Path(_, path) => result == Some(&path),
                ExprKind::Struct(path, ..) => result == Some(&path),
                _ => result is None,
            },
    {
        match &self.kind {
            ExprKind::Path(_, path) => Some(path),
            ExprKind::Struct(path, _, _) => Some(path),
            _ => None,
        }
    }

    /// The operands of the expression.
    pub fn get_exprs(&self) -> (exprs: Vec<&Expr>)
        ensures
            exprs@.unref() == operands(self.kind),
    {
        let mut exprs: Vec<&Expr> = Vec::new();
        match &self.kind {
            ExprKind::Cast(expr, _) => {
                exprs.push(expr);
            },
            ExprKind::Field(expr, _) => {
                exprs.push(expr);
            },
            ExprKind::Unary(_, expr) => {
                exprs.push(expr);
            },
            ExprKind::MethodCall(_, args) => {
                push_all(&mut exprs, args);
            },
            ExprKind::Assign(lhs, rhs) => {
                exprs.push(lhs);
                exprs.push(rhs);
            },
            ExprKind::AssignOp(_, lhs, rhs) => {
                exprs.push(lhs);
                exprs.push(rhs);
            },
            ExprKind::Binary(_, lhs, rhs) => {
                exprs.push(lhs);
                exprs.push(rhs);
            },
            ExprKind::Call(func, params) => {
                exprs.push(func);
                push_all(&mut exprs, params);
            },
            _ => {},
        }
        assert(exprs@.unref() =~= operands(self.kind));
        exprs
    }

    /// How many operands have to be given at least to replace those of the expression, where
    /// they can be replaced at all.
    pub fn exprs_needed(&self) -> (count: Option<usize>)
        ensures
            match operands_needed(self.kind) {
                Some(needed) => count is Some && count->0 == needed,
                None => count is None,
            },
    {
        match &self.kind {
            ExprKind::MethodCall(..) => Some(0),
            ExprKind::Field(..) | ExprKind::Unary(..) | ExprKind::Call(..) => Some(1),
            ExprKind::Cast(..) | ExprKind::AddrOf(..) => Some(1),
            ExprKind::Assign(..) | ExprKind::AssignOp(..) | ExprKind::Binary(..) => Some(2),
            _ => None,
        }
    }

    /// Replaces the operands of the expression.
    pub fn set_exprs(&mut self, exprs: Vec<Expr>)
        requires
            operands_needed(old(self).kind) is Some,
            exprs@.len() >= operands_needed(old(self).kind)->0,
        ensures
            only_kind_changed(*old(self), *final(self)),
            operands_replaced(old(self).kind, exprs@, final(self).kind),
    {
        let mut exprs = exprs;
        match &mut self.kind {
            ExprKind::Field(expr, _) => {
                **expr = exprs.remove(0);
            },
            ExprKind::Unary(_, expr) => {
                **expr = exprs.remove(0);
            },
            ExprKind::Cast(expr, _) => {
                **expr = exprs.remove(0);
            },
            ExprKind::AddrOf(_, expr) => {
                **expr = exprs.remove(0);
            },
            ExprKind::Call(func, params) => {
                **func = exprs.remove(0);
                *params = exprs;
            },
            ExprKind::Assign(lhs, rhs) => {
                **lhs = exprs.remove(0);
                **rhs = exprs.remove(0);
            },
            ExprKind::AssignOp(_, lhs, rhs) => {
                **lhs = exprs.remove(0);
                **rhs = exprs.remove(0);
            },
            ExprKind::Binary(_, lhs, rhs) => {
                **lhs = exprs.remove(0);
                **rhs = exprs.remove(0);
            },
            _ => {},
        }
    }

    /// The name of the operator of a unary, binary or assigning operation.
    pub fn get_op(&self) -> (result: Option<&'static str>)
        ensures
            match self.kind {
                ExprKind::Unary(op, _) => result == Some(op.ast_name()),
                ExprKind::Binary(op, ..) => result == Some(op.node.ast_name()),
                ExprKind::AssignOp(op, ..) => result == Some(op.node.ast_name()),
                _ => result is None,
            },
    {
        match &self.kind {
            ExprKind::Unary(op, _) => Some(op.ast_name()),
            ExprKind::Binary(op, _, _) => Some(op.node.ast_name()),
            ExprKind::AssignOp(op, _, _) => Some(op.node.ast_name()),
            _ => None,
        }
    }

    /// The name of the method that a method call calls.
    pub fn get_method_name(&self) -> (result: Option<&str>)
        ensures
            match self.kind {
                ExprKind::MethodCall(segment, _) => result is Some && result->0@
                    == segment.ident.name@,
                _ => result is None,
            },
    {
        match &self.kind {
            ExprKind::MethodCall(segment, _) => Some(segment.ident.name.as_str()),
            _ => None,
        }
    }

    /// Renames the method that a method call calls; other expressions stay as they are.
    pub fn set_method_name(&mut self, name: String)
        ensures
            only_kind_changed(*old(self), *final(self)),
            match old(self).kind {
                ExprKind::MethodCall(segment, exprs) => final(self).kind == ExprKind::MethodCall(
                    PathSegment { ident: fresh_ident(name), ..segment },
                    exprs,
                ),
                _ => *final(self) == *old(self),
            },
    {
        match &mut self.kind {
            ExprKind::MethodCall(segment, _) => {
                segment.ident = Ident::from_str(name);
            },
            _ => {},
        }
    }

    /// Turns the expression into a literal.
    pub fn to_lit(&mut self, lit: Lit)
        ensures
            *final(self) == (Expr { kind: ExprKind::Lit(lit), ..*old(self) }),
    {
        self.kind = ExprKind::Lit(lit);
    }

    /// Turns the expression into an index expression.
    pub fn to_index(&mut self, indexed: Expr, indexee: Expr)
        ensures
            *final(self) == (Expr {
                kind: ExprKind::Index(Box::new(indexed), Box::new(indexee)),
                ..*old(self)
            }),
    {
        self.kind = ExprKind::Index(Box::new(indexed), Box::new(indexee));
    }

    /// Turns the expression into a half-open range.
    pub fn to_range(&mut self, lhs: Option<Expr>, rhs: Option<Expr>)
        ensures
            *final(self) == (Expr {
                kind: ExprKind::Range(boxed(lhs), boxed(rhs), RangeLimits::HalfOpen),
                ..*old(self)
            }),
    {
        self.kind = ExprKind::Range(box_expr(lhs), box_expr(rhs), RangeLimits::HalfOpen);
    }

    /// Turns the expression into a binary operation.
    pub fn to_binary(&mut self, op: &str, lhs: Expr, rhs: Expr)
        requires
            binary_operator(op@) is Some,
        ensures
            *final(self) == (Expr {
                kind: ExprKind::Binary(
                    Spanned { node: binary_operator(op@)->0, span: dummy_span() },
                    Box::new(lhs),
                    Box::new(rhs),
                ),
                ..*old(self)
            }),
    {
        if let Some(op) = parse_binary_operator(op) {
            self.kind = ExprKind::Binary(dummy_spanned(op), Box::new(lhs), Box::new(rhs));
        }
    }

    /// Turns the expression into a unary operation. Only dereferencing can be asked for.
    pub fn to_unary(&mut self, op: &str, expr: Expr)
        requires
            unary_operator(op@) is Some,
        ensures
            *final(self) == (Expr {
                kind: ExprKind::Unary(unary_operator(op@)->0, Box::new(expr)),
                ..*old(self)
            }),
    {
        if let Some(op) = parse_unary_operator(op) {
            self.kind = ExprKind::Unary(op, Box::new(expr));
        }
    }

    /// Turns the expression into a call of the first of `exprs` on the others.
    pub fn to_call(&mut self, exprs: Vec<Expr>)
        requires
            exprs@.len() > 0,
        ensures
            only_kind_changed(*old(self), *final(self)),
            final(self).kind matches ExprKind::Call(func, params) && *func == exprs@[0]
                && params@ == exprs@.skip(1),
    {
        let mut exprs = exprs;
        let func: Expr = exprs.remove(0);
        self.kind = ExprKind::Call(Box::new(func), exprs);
    }

    /// Turns the expression into a cast.
    pub fn to_cast(&mut self, expr: Expr, ty: Ty)
        ensures
            *final(self) == (Expr {
                kind: ExprKind::Cast(Box::new(expr), Box::new(ty)),
                ..*old(self)
            }),
    {
        self.kind = ExprKind::Cast(Box::new(expr), Box::new(ty));
    }

    /// Turns the expression into a borrow.
    pub fn to_addr_of(&mut self, expr: Expr, mutable: bool)
        ensures
            *final(self) == (Expr {
                kind: ExprKind::AddrOf(
                    if mutable {
                        Mutability::Mutable
                    } else {
                        Mutability::Immutable
                    },
                    Box::new(expr),
                ),
                ..*old(self)
            }),
    {
        let mutability: Mutability = if mutable {
            Mutability::Mutable
        } else {
            Mutability::Immutable
        };
        self.kind = ExprKind::AddrOf(mutability, Box::new(expr));
    }

    /// Turns the expression into a block.
    pub fn to_block(&mut self, stmts: Vec<Stmt>, label: Option<String>, is_safe: bool)
        ensures
            *final(self) == (Expr {
                kind: ExprKind::Block(
                    Box::new(scripted_block(stmts, is_safe)),
                    scripted_label(label),
                ),
                ..*old(self)
            }),
    {
        let label: Option<Label> = match label {
            Some(name) => Some(Label { ident: Ident::from_str(name) }),
            None => None,
        };
        let rules: BlockCheckMode = if is_safe {
            BlockCheckMode::Default
        } else {
            BlockCheckMode::Unsafe(UnsafeSource::UserProvided)
        };
        let block = Block { stmts, id: dummy_node_id(), rules, span: dummy_sp() };
        self.kind = ExprKind::Block(Box::new(block), label);
    }

    /// The statement made of this expression.
    pub fn to_stmt(self, is_semi: bool) -> (stmt: Stmt)
        ensures
            stmt == (Stmt {
                id: dummy_id(),
                kind: if is_semi {
                    StmtKind::Semi(Box::new(self))
                } else {
                    StmtKind::Expr(Box::new(self))
                },
                span: dummy_span(),
            }),
    {
        let kind: StmtKind = if is_semi {
            StmtKind::Semi(Box::new(self))
        } else {
            StmtKind::Expr(Box::new(self))
        };
        Stmt { id: dummy_node_id(), kind, span: dummy_sp() }
    }

    /// Turns the expression into a method call.
    pub fn to_method_call(&mut self, segment: String, exprs: Vec<Expr>)
        ensures
            *final(self) == (Expr {
                kind: ExprKind::MethodCall(plain_segment(segment), exprs),
                ..*old(self)
            }),
    {
        self.kind = ExprKind::MethodCall(
            PathSegment::from_ident(Ident::from_str(segment)),
            exprs,
        );
    }

    /// Turns the expression into a closure.
    pub fn to_closure(&mut self, params: Vec<String>, expr: Expr)
        ensures
            only_kind_changed(*old(self), *final(self)),
            final(self).kind matches ExprKind::Closure(
                capture,
                asyncness,
                movability,
                decl,
                body,
                span,
            ) && capture == CaptureBy::Ref && asyncness == IsAsync::NotAsync && movability
                == Movability::Movable && is_closure_decl(*decl, params@) && *body == expr && span
                == dummy_span(),
    {
        let mut inputs: Vec<Param> = Vec::new();
        let mut i: usize = 0;
        while i < params.len()
            invariant
                i <= params@.len(),
                inputs@.len() == i,
                forall|j: int| 0 <= j < i ==> is_closure_param(#[trigger] inputs@[j], params@[j]),
            decreases params@.len() - i,
        {
            inputs.push(closure_param(params[i].clone()));
            i += 1;
        }
        let decl = FnDecl { inputs, output: FunctionRetTy::Default(dummy_sp()) };
        self.kind = ExprKind::Closure(
            CaptureBy::Ref,
            IsAsync::NotAsync,
            Movability::Movable,
            Box::new(decl),
            Box::new(expr),
            dummy_sp(),
        );
    }

    /// Turns the expression into a field access.
    pub fn to_field(&mut self, expr: Expr, ident: String)
        ensures
            *final(self) == (Expr {
                kind: ExprKind::Field(Box::new(expr), fresh_ident(ident)),
                ..*old(self)
            }),
    {
        self.kind = ExprKind::Field(Box::new(expr), Ident::from_str(ident));
    }

    /// Turns the expression into a path of one name.
    pub fn to_ident_path(&mut self, path: String)
        ensures
            only_kind_changed(*old(self), *final(self)),
            final(self).kind matches ExprKind::Path(qself, named) && qself is None
                && is_ident_path(named, path),
    {
        self.kind = ExprKind::Path(None, Path::from_ident(Ident::from_str(path)));
    }

    /// Turns the expression into a path.
    pub fn to_path(&mut self, path: Path)
        ensures
            *final(self) == (Expr { kind: ExprKind::Path(None, path), ..*old(self) }),
    {
        self.kind = ExprKind::Path(None, path);
    }

    /// Turns the expression into the literal of a truth value.
    pub fn to_bool_lit(&mut self, value: bool)
        ensures
            only_kind_changed(*old(self), *final(self)),
            final(self).kind matches ExprKind::Lit(lit) && is_bool_lit(lit, value),
    {
        let lit = Lit {
            token: TokenLit {
                kind: TokenLitKind::Bool,
                symbol: bool_name(value),
                suffix: None,
            },
            kind: LitKind::Bool(value),
            span: dummy_sp(),
        };
        self.kind = ExprKind::Lit(lit);
    }
}

} // verus!
