//! Handles, and what is handed over to scripts.

use std::rc::Rc;

use lua_ast_node::ast::attr::Mac;
use lua_ast_node::ast::expr::{Expr, ExprKind};
use lua_ast_node::ast::flags::{Abi, BinOpKind};
use lua_ast_node::ast::ident::{AttrId, Ident, NodeId};
use lua_ast_node::ast::item::{Crate, Mod};
use lua_ast_node::ast::pat::{Pat, PatKind};
use lua_ast_node::ast::span::{Span, Spanned};
use lua_ast_node::ast::stmt::{Stmt, StmtKind};
use lua_ast_node::ast::ty::{Ty, TyKind};
use lua_ast_node::ast::vis::VisibilityKind;
use lua_ast_node::filter_map::FilterMap;
use lua_ast_node::handle::{LuaAstNode, NodeTable};
use lua_ast_node::lua::{AstNode, LuaNode, LuaValue, ToLuaAstNode, ToLuaExt};
use lua_ast_node::nodes::func::FnKind;

const HERE: Span = Span { lo: 3, hi: 9, ctxt: 0 };

fn expr(id: u32, kind: ExprKind) -> Expr {
    Expr { id: NodeId(id), kind, span: HERE, attrs: Vec::new() }
}

fn leaf(id: u32) -> Expr {
    expr(id, ExprKind::Tup(Vec::new()))
}

fn stmt(id: u32) -> Stmt {
    Stmt { id: NodeId(id), kind: StmtKind::Expr(Box::new(leaf(id + 1))), span: HERE }
}

fn lua<T: ToLuaExt<LuaNode>>(item: T) -> LuaValue<LuaNode> {
    item.to_lua_ext()
}

fn text(s: &str) -> LuaValue<LuaNode> {
    LuaValue::Str(s.to_owned())
}

#[test]
fn all_handles_see_one_node() {
    let mut table = NodeTable::new();
    let a = LuaAstNode::new(leaf(1), &mut table);
    let b = a.share(&mut table);
    let other = LuaAstNode::new(leaf(2), &mut table);
    assert_eq!(b.handle_count(&table), 2);
    assert_eq!(other.handle_count(&table), 1);
    a.borrow_mut(&mut table).id = NodeId(3);
    assert_eq!(*b.borrow(&table), leaf(3));
    assert_eq!(*other.borrow(&table), leaf(2));
    b.map(&mut table, |e: &mut Expr| e.id = NodeId(4));
    assert_eq!(*a.borrow(&table), leaf(4));
    assert_eq!(*other.borrow(&table), leaf(2));
}

#[test]
fn last_handle_gives_the_node_up() {
    let mut table = NodeTable::new();
    let a = LuaAstNode::new(leaf(1), &mut table);
    let b = a.share(&mut table);
    let copy = a.into_inner(&mut table);
    assert_eq!(copy, leaf(1));
    b.borrow_mut(&mut table).id = NodeId(5);
    assert_eq!(copy, leaf(1));
    assert_eq!(b.into_inner(&mut table), leaf(5));
}

#[test]
fn released_handle_leaves_the_node_to_the_others() {
    let mut table = NodeTable::new();
    let a = LuaAstNode::new(leaf(1), &mut table);
    let b = a.share(&mut table);
    a.release(&mut table);
    assert_eq!(*b.borrow(&table), leaf(1));
    b.release(&mut table);
    let c = LuaAstNode::new(leaf(2), &mut table);
    assert_eq!(*c.borrow(&table), leaf(2));
}

#[test]
fn visitor_goes_through_the_node_of_a_handle() {
    let mut table = NodeTable::new();
    let a = LuaAstNode::new(expr(1, ExprKind::Paren(Box::new(leaf(2)))), &mut table);
    let mut visitor = FilterMap::new(
        0u8,
        |n: &u8, name: &str| -> (u8, bool) { (*n + 1, name == "Tup") },
        |n: &u8, _: &Expr| -> (u8, Expr) { (*n, leaf(7)) },
        |_: &u8, _: &Mac| -> u8 { panic!("a macro call") },
    );
    a.walk(&mut table, &mut visitor);
    assert_eq!(visitor.state, 1);
    assert_eq!(*a.borrow(&table), expr(7, ExprKind::Paren(Box::new(leaf(7)))));
}

#[test]
fn plain_values_are_converted() {
    assert_eq!(lua(true), LuaValue::Boolean(true));
    assert_eq!(lua(200u8), LuaValue::Integer(200));
    assert_eq!(lua(60000u16), LuaValue::Integer(60000));
    assert_eq!(lua(70000u32), LuaValue::Integer(70000));
    assert_eq!(lua(u128::MAX), LuaValue::Integer(u128::MAX));
    assert_eq!(lua(9usize), LuaValue::Integer(9));
    assert_eq!(lua('x'), text("x"));
    assert_eq!(lua("abc".to_owned()), text("abc"));
    assert_eq!(lua(NodeId(5)), LuaValue::Integer(5));
    assert_eq!(lua(AttrId(6)), LuaValue::Integer(6));
    assert_eq!(lua(Ident { name: "id".to_owned(), span: HERE }), text("id"));
    assert_eq!(lua(HERE), LuaValue::Span(HERE));
}

#[test]
fn names_are_converted() {
    assert_eq!(lua(Abi::C), text("C"));
    assert_eq!(lua(Abi::SysV64), text("sysv64"));
    assert_eq!(lua(Abi::RustIntrinsic), text("rust-intrinsic"));
    assert_eq!(lua(FnKind::Normal), text("Normal"));
    assert_eq!(lua(FnKind::ImplMethod), text("ImplMethod"));
}

#[test]
fn collections_are_converted() {
    assert_eq!(lua(Some(1u8)), LuaValue::Integer(1));
    assert_eq!(lua(None::<u8>), LuaValue::Nil);
    assert_eq!(
        lua(vec![1u8, 2]),
        LuaValue::Table(vec![LuaValue::Integer(1), LuaValue::Integer(2)])
    );
    assert_eq!(
        lua((1u8, true)),
        LuaValue::Table(vec![LuaValue::Integer(1), LuaValue::Boolean(true)])
    );
    let three = LuaValue::Table(vec![LuaValue::Integer(1), LuaValue::Boolean(true), text("c")]);
    assert_eq!(lua((1u8, true, 'c')), three);
    assert_eq!(lua(Box::new((1u8, true, 'c'))), three);
    assert_eq!(lua(&7u8), LuaValue::Integer(7));
    assert_eq!(lua(Rc::new(7u8)), LuaValue::Integer(7));
}

#[test]
fn nodes_are_handed_over_whole() {
    assert_eq!(lua(leaf(1)), LuaValue::Node(LuaNode::Expr(leaf(1))));
    assert_eq!(lua(&leaf(1)), LuaValue::Node(LuaNode::Expr(leaf(1))));
    let whole: LuaNode = vec![stmt(1)].to_lua_ast_node();
    assert_eq!(whole, LuaNode::Stmts(vec![stmt(1)]));
    assert_eq!(
        lua(vec![stmt(1)]),
        LuaValue::Table(vec![LuaValue::Node(LuaNode::Stmt(stmt(1)))])
    );
}

#[test]
fn values_with_spans_are_handed_over_as_nodes() {
    let op = Spanned { node: BinOpKind::Add, span: HERE };
    assert_eq!(lua(op), LuaValue::Node(LuaNode::BinOp(op)));
    let vis = Spanned { node: VisibilityKind::Public, span: HERE };
    assert_eq!(
        lua(vec![vis.clone()]),
        LuaValue::Table(vec![LuaValue::Node(LuaNode::Visibility(vis))]),
    );
    assert_eq!(lua(BinOpKind::Add), LuaValue::Node(LuaNode::BinOpKind(BinOpKind::Add)));
}

#[test]
fn any_value_with_its_span_is_handed_over_as_it_is() {
    let name = Ident { name: "id".to_owned(), span: HERE };
    let spanned = Spanned { node: name, span: HERE };
    let value: LuaValue<Spanned<Ident>> = spanned.clone().to_lua_ext();
    assert_eq!(value, LuaValue::Node(spanned.clone()));
    let node: Spanned<Ident> = spanned.clone().to_lua_ast_node();
    assert_eq!(node, spanned);
    let list: LuaValue<Spanned<Ident>> = vec![spanned.clone()].to_lua_ext();
    assert_eq!(list, LuaValue::Table(vec![LuaValue::Node(spanned)]));
}

#[test]
fn nodes_of_any_kind_are_converted() {
    let t = Ty { id: NodeId(1), kind: TyKind::Never, span: HERE };
    let p = Pat { id: NodeId(1), kind: PatKind::Wild, span: HERE };
    let c = Crate {
        module: Mod { inner: HERE, items: Vec::new(), inline: true },
        attrs: Vec::new(),
        span: HERE,
    };
    assert_eq!(lua(AstNode::Ty(t.clone())), LuaValue::Node(LuaNode::Ty(t)));
    assert_eq!(lua(AstNode::Pat(p.clone())), LuaValue::Node(LuaNode::Pat(p)));
    assert_eq!(lua(AstNode::Crate(c.clone())), LuaValue::Node(LuaNode::Crate(c)));
    assert_eq!(
        lua(AstNode::Stmts(vec![stmt(1), stmt(3)])),
        LuaValue::Table(vec![
            LuaValue::Node(LuaNode::Stmt(stmt(1))),
            LuaValue::Node(LuaNode::Stmt(stmt(3))),
        ])
    );
}
