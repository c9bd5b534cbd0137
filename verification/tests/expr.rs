//! Expressions under the requests of scripts.

use lua_ast_node::ast::expr::{Expr, ExprKind};
use lua_ast_node::ast::flags::{
    BinOpKind, BindingMode, BlockCheckMode, CaptureBy, IsAsync, LitIntType, Movability, Mutability,
    RangeLimits, TokenLitKind, UnOp, UnsafeSource,
};
use lua_ast_node::ast::func::FunctionRetTy;
use lua_ast_node::ast::ident::{Ident, NodeId, MAX_NODE_ID};
use lua_ast_node::ast::lit::{Lit, LitKind, TokenLit};
use lua_ast_node::ast::pat::PatKind;
use lua_ast_node::ast::path::{Path, PathSegment};
use lua_ast_node::ast::span::{Span, Spanned};
use lua_ast_node::ast::stmt::StmtKind;
use lua_ast_node::ast::ty::{Ty, TyKind};
use lua_ast_node::error::Error;
use lua_ast_node::nodes::expr::{parse_binary_operator, parse_unary_operator};

const HERE: Span = Span { lo: 3, hi: 9, ctxt: 0 };
const NOWHERE: Span = Span { lo: 0, hi: 0, ctxt: 0 };

fn expr(id: u32, kind: ExprKind) -> Expr {
    Expr { id: NodeId(id), kind, span: HERE, attrs: Vec::new() }
}

fn int_lit(value: u128) -> Lit {
    Lit {
        token: TokenLit {
            kind: TokenLitKind::Integer,
            symbol: value.to_string(),
            suffix: None,
        },
        kind: LitKind::Int(value, LitIntType::Unsuffixed),
        span: HERE,
    }
}

fn number(id: u32, value: u128) -> Expr {
    expr(id, ExprKind::Lit(int_lit(value)))
}

fn ty(id: u32) -> Ty {
    Ty { id: NodeId(id), kind: TyKind::Never, span: HERE }
}

fn ident(name: &str) -> Ident {
    Ident { name: name.to_owned(), span: NOWHERE }
}

fn op(kind: BinOpKind) -> Spanned<BinOpKind> {
    Spanned { node: kind, span: NOWHERE }
}

fn copies(exprs: Vec<&Expr>) -> Vec<Expr> {
    exprs.into_iter().cloned().collect()
}

#[test]
fn literal_is_taken_out_of_literal_expression() {
    let e = number(1, 5);
    assert_eq!(e.get_node(), Ok(&int_lit(5)));
    let p = expr(1, ExprKind::Paren(Box::new(number(2, 5))));
    assert_eq!(p.get_node(), Err(Error::ExprNode));
}

#[test]
fn type_of_cast_is_set_and_read() {
    let mut e = expr(1, ExprKind::Cast(Box::new(number(2, 5)), Box::new(ty(3))));
    assert_eq!(*e.get_ty(), ty(3));
    e.set_ty(ty(4));
    assert_eq!(*e.get_ty(), ty(4));
    assert_eq!(e, expr(1, ExprKind::Cast(Box::new(number(2, 5)), Box::new(ty(4)))));
}

#[test]
fn type_of_ascription_is_set_and_read() {
    let mut e = expr(1, ExprKind::Type(Box::new(number(2, 5)), Box::new(ty(3))));
    e.set_ty(ty(4));
    assert_eq!(*e.get_ty(), ty(4));
    assert!(matches!(e.kind, ExprKind::Type(..)));
}

#[test]
fn field_access_has_an_ident() {
    let e = expr(1, ExprKind::Field(Box::new(number(2, 5)), ident("x")));
    assert_eq!(e.get_ident(), Some(&ident("x")));
    assert_eq!(number(1, 5).get_ident(), None);
}

#[test]
fn path_and_struct_expressions_have_a_path() {
    let path = Path {
        span: HERE,
        segments: vec![PathSegment { ident: ident("a"), id: NodeId(7), args: None }],
    };
    let e = expr(1, ExprKind::Path(None, path.clone()));
    assert_eq!(e.get_path(), Some(&path));
    let s = expr(1, ExprKind::Struct(path.clone(), Vec::new(), None));
    assert_eq!(s.get_path(), Some(&path));
    assert_eq!(number(1, 5).get_path(), None);
}

#[test]
fn operands_are_listed_in_order() {
    let call = expr(1, ExprKind::Call(Box::new(number(2, 5)), vec![number(3, 6), number(4, 7)]));
    assert_eq!(copies(call.get_exprs()), vec![number(2, 5), number(3, 6), number(4, 7)]);
    let assign = expr(1, ExprKind::Assign(Box::new(number(2, 5)), Box::new(number(3, 6))));
    assert_eq!(copies(assign.get_exprs()), vec![number(2, 5), number(3, 6)]);
    let unary = expr(1, ExprKind::Unary(UnOp::Neg, Box::new(number(2, 5))));
    assert_eq!(copies(unary.get_exprs()), vec![number(2, 5)]);
    let method = PathSegment { ident: ident("m"), id: NodeId(7), args: None };
    let method_call = expr(1, ExprKind::MethodCall(method, vec![number(2, 5), number(3, 6)]));
    assert_eq!(copies(method_call.get_exprs()), vec![number(2, 5), number(3, 6)]);
    let borrow = expr(1, ExprKind::AddrOf(Mutability::Mutable, Box::new(number(2, 5))));
    assert_eq!(copies(borrow.get_exprs()), Vec::new());
}

#[test]
fn operands_that_are_set_are_read_back() {
    let mut call = expr(1, ExprKind::Call(Box::new(number(2, 5)), vec![number(3, 6)]));
    call.set_exprs(vec![number(4, 1), number(5, 2), number(6, 3)]);
    assert_eq!(copies(call.get_exprs()), vec![number(4, 1), number(5, 2), number(6, 3)]);
    assert_eq!(call.id, NodeId(1));

    let mut sum = expr(
        1,
        ExprKind::Binary(op(BinOpKind::Mul), Box::new(number(2, 5)), Box::new(number(3, 6))),
    );
    sum.set_exprs(vec![number(4, 1), number(5, 2), number(6, 3)]);
    assert_eq!(copies(sum.get_exprs()), vec![number(4, 1), number(5, 2)]);
    assert_eq!(sum.get_op(), Some("Mul"));

    let mut field = expr(1, ExprKind::Field(Box::new(number(2, 5)), ident("x")));
    field.set_exprs(vec![number(4, 1)]);
    assert_eq!(copies(field.get_exprs()), vec![number(4, 1)]);
    assert_eq!(field.get_ident(), Some(&ident("x")));
}

#[test]
fn operands_to_give_are_counted() {
    let sum = ExprKind::Binary(op(BinOpKind::Mul), Box::new(number(2, 5)), Box::new(number(3, 6)));
    assert_eq!(expr(1, sum).exprs_needed(), Some(2));
    let call = ExprKind::Call(Box::new(number(2, 5)), Vec::new());
    assert_eq!(expr(1, call).exprs_needed(), Some(1));
    let method = PathSegment { ident: ident("m"), id: NodeId(7), args: None };
    assert_eq!(expr(1, ExprKind::MethodCall(method, Vec::new())).exprs_needed(), Some(0));
    assert_eq!(number(1, 5).exprs_needed(), None);
    assert!(!number(1, 5).has_ty());
    assert!(expr(1, ExprKind::Cast(Box::new(number(2, 5)), Box::new(ty(3)))).has_ty());
}

#[test]
fn only_some_operators_have_names_to_build_them() {
    assert_eq!(parse_binary_operator("Add"), Some(BinOpKind::Add));
    assert_eq!(parse_binary_operator("Div"), Some(BinOpKind::Div));
    assert_eq!(parse_binary_operator("Mul"), None);
    assert_eq!(parse_unary_operator("Deref"), Some(UnOp::Deref));
    assert_eq!(parse_unary_operator("Neg"), None);
}

#[test]
fn operand_of_borrow_is_set() {
    let mut borrow = expr(1, ExprKind::AddrOf(Mutability::Mutable, Box::new(number(2, 5))));
    borrow.set_exprs(vec![number(4, 1)]);
    assert_eq!(borrow, expr(1, ExprKind::AddrOf(Mutability::Mutable, Box::new(number(4, 1)))));
}

#[test]
fn method_call_keeps_its_operands() {
    let method = PathSegment { ident: ident("m"), id: NodeId(7), args: None };
    let mut call = expr(1, ExprKind::MethodCall(method, vec![number(2, 5)]));
    let before = call.clone();
    call.set_exprs(vec![number(4, 1), number(5, 2)]);
    assert_eq!(call, before);
}

#[test]
fn operators_are_named() {
    let neg = expr(1, ExprKind::Unary(UnOp::Neg, Box::new(number(2, 5))));
    assert_eq!(neg.get_op(), Some("Neg"));
    let shl = expr(
        1,
        ExprKind::AssignOp(op(BinOpKind::Shl), Box::new(number(2, 5)), Box::new(number(3, 6))),
    );
    assert_eq!(shl.get_op(), Some("Shl"));
    assert_eq!(number(1, 5).get_op(), None);
}

#[test]
fn method_is_renamed() {
    let method = PathSegment {
        ident: Ident { name: "old".to_owned(), span: HERE },
        id: NodeId(7),
        args: None,
    };
    let mut call = expr(1, ExprKind::MethodCall(method, vec![number(2, 5)]));
    assert_eq!(call.get_method_name(), Some("old"));
    call.set_method_name("new".to_owned());
    assert_eq!(call.get_method_name(), Some("new"));
    let renamed = PathSegment { ident: ident("new"), id: NodeId(7), args: None };
    assert_eq!(call, expr(1, ExprKind::MethodCall(renamed, vec![number(2, 5)])));

    let mut other = number(1, 5);
    other.set_method_name("new".to_owned());
    assert_eq!(other, number(1, 5));
    assert_eq!(other.get_method_name(), None);
}

#[test]
fn expressions_are_built() {
    let mut e = number(1, 5);
    e.to_lit(int_lit(8));
    assert_eq!(e, number(1, 8));

    e.to_index(number(2, 1), number(3, 2));
    assert_eq!(e, expr(1, ExprKind::Index(Box::new(number(2, 1)), Box::new(number(3, 2)))));

    e.to_range(Some(number(2, 1)), None);
    assert_eq!(
        e,
        expr(1, ExprKind::Range(Some(Box::new(number(2, 1))), None, RangeLimits::HalfOpen)),
    );

    e.to_cast(number(2, 1), ty(3));
    assert_eq!(e, expr(1, ExprKind::Cast(Box::new(number(2, 1)), Box::new(ty(3)))));

    e.to_addr_of(number(2, 1), true);
    assert_eq!(e, expr(1, ExprKind::AddrOf(Mutability::Mutable, Box::new(number(2, 1)))));
    e.to_addr_of(number(2, 1), false);
    assert_eq!(e, expr(1, ExprKind::AddrOf(Mutability::Immutable, Box::new(number(2, 1)))));

    e.to_field(number(2, 1), "f".to_owned());
    assert_eq!(e, expr(1, ExprKind::Field(Box::new(number(2, 1)), ident("f"))));
}

#[test]
fn operations_are_built_by_name() {
    let mut e = number(1, 5);
    e.to_binary("Add", number(2, 1), number(3, 2));
    assert_eq!(
        e,
        expr(
            1,
            ExprKind::Binary(op(BinOpKind::Add), Box::new(number(2, 1)), Box::new(number(3, 2))),
        )
    );
    e.to_binary("Div", number(2, 1), number(3, 2));
    assert_eq!(e.get_op(), Some("Div"));
    assert_eq!(copies(e.get_exprs()), vec![number(2, 1), number(3, 2)]);
    e.to_unary("Deref", number(2, 1));
    assert_eq!(e, expr(1, ExprKind::Unary(UnOp::Deref, Box::new(number(2, 1)))));
}

#[test]
fn calls_are_built() {
    let mut e = number(1, 5);
    e.to_call(vec![number(2, 1), number(3, 2), number(4, 3)]);
    assert_eq!(
        e,
        expr(1, ExprKind::Call(Box::new(number(2, 1)), vec![number(3, 2), number(4, 3)])),
    );
    e.to_method_call("len".to_owned(), vec![number(2, 1)]);
    let method = PathSegment { ident: ident("len"), id: NodeId(MAX_NODE_ID), args: None };
    assert_eq!(e, expr(1, ExprKind::MethodCall(method, vec![number(2, 1)])));
    assert_eq!(e.get_method_name(), Some("len"));
}

#[test]
fn blocks_are_built() {
    let mut e = number(1, 5);
    let stmt = number(2, 1).to_stmt(true);
    e.to_block(vec![stmt.clone()], Some("'l".to_owned()), false);
    match &e.kind {
        ExprKind::Block(block, label) => {
            assert_eq!(block.stmts, vec![stmt]);
            assert_eq!(block.id, NodeId(MAX_NODE_ID));
            assert_eq!(block.rules, BlockCheckMode::Unsafe(UnsafeSource::UserProvided));
            assert_eq!(block.span, NOWHERE);
            assert_eq!(label.as_ref().unwrap().ident, ident("'l"));
        }
        _ => panic!("no block"),
    }
    e.to_block(Vec::new(), None, true);
    match &e.kind {
        ExprKind::Block(block, label) => {
            assert_eq!(block.rules, BlockCheckMode::Default);
            assert!(label.is_none());
        }
        _ => panic!("no block"),
    }
}

#[test]
fn expression_statements_are_made() {
    let semi = number(2, 1).to_stmt(true);
    assert_eq!(semi.kind, StmtKind::Semi(Box::new(number(2, 1))));
    assert_eq!(semi.id, NodeId(MAX_NODE_ID));
    assert_eq!(semi.span, NOWHERE);
    let tail = number(2, 1).to_stmt(false);
    assert_eq!(tail.kind, StmtKind::Expr(Box::new(number(2, 1))));
}

#[test]
fn closures_are_built() {
    let mut e = number(1, 5);
    e.to_closure(vec!["a".to_owned(), "b".to_owned()], number(2, 1));
    match &e.kind {
        ExprKind::Closure(capture, asyncness, movability, decl, body, span) => {
            assert_eq!(*capture, CaptureBy::Ref);
            assert_eq!(*asyncness, IsAsync::NotAsync);
            assert_eq!(*movability, Movability::Movable);
            assert_eq!(**body, number(2, 1));
            assert_eq!(*span, NOWHERE);
            assert_eq!(decl.output, FunctionRetTy::Default(NOWHERE));
            assert_eq!(decl.inputs.len(), 2);
            assert_eq!(
                decl.inputs[1].pat.kind,
                PatKind::Ident(BindingMode::ByValue(Mutability::Immutable), ident("b"), None)
            );
            assert_eq!(decl.inputs[0].ty.kind, TyKind::Infer);
            assert!(decl.inputs[0].is_placeholder);
        }
        _ => panic!("no closure"),
    }
}

#[test]
fn paths_are_built() {
    let mut e = number(1, 5);
    e.to_ident_path("x".to_owned());
    let path = Path {
        span: NOWHERE,
        segments: vec![PathSegment { ident: ident("x"), id: NodeId(MAX_NODE_ID), args: None }],
    };
    assert_eq!(e, expr(1, ExprKind::Path(None, path.clone())));
    let mut other = number(2, 5);
    other.to_path(path.clone());
    assert_eq!(other.get_path(), Some(&path));
}

#[test]
fn truth_values_are_built() {
    let mut e = number(1, 5);
    e.to_bool_lit(true);
    let lit = e.get_node().unwrap();
    assert_eq!(lit.token.kind, TokenLitKind::Bool);
    assert_eq!(lit.token.symbol, "true");
    assert_eq!(lit.token.suffix, None);
    assert_eq!(lit.kind, LitKind::Bool(true));
    assert_eq!(lit.span, NOWHERE);
    e.to_bool_lit(false);
    assert_eq!(e.get_node().unwrap().token.symbol, "false");
}

#[test]
fn forms_are_named() {
    assert_eq!(number(1, 5).kind.ast_name(), "Lit");
    assert_eq!(ExprKind::Invalid.ast_name(), "Err");
    assert_eq!(ExprKind::Tup(Vec::new()).ast_name(), "Tup");
    assert_eq!(BinOpKind::BitXor.ast_name(), "BitXor");
    assert_eq!(UnOp::Not.ast_name(), "Not");
    assert_eq!(TyKind::Never.ast_name(), "Never");
}
