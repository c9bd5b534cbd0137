//! Searching, visiting and rewriting whole trees.

use lua_ast_node::ast::attr::Mac;
use lua_ast_node::ast::expr::{Arm, Expr, ExprKind};
use lua_ast_node::ast::flags::{
    Abi, BinOpKind, BlockCheckMode, Constness, FnHeader, IsAsync, LitIntType, MacDelimiter,
    Mutability, RangeLimits, TokenLitKind, UnOp, Unsafety,
};
use lua_ast_node::ast::func::{FnDecl, FunctionRetTy};
use lua_ast_node::ast::generics::{Generics, WhereClause};
use lua_ast_node::ast::ident::{Ident, NodeId, SimplePath};
use lua_ast_node::ast::item::{ForeignItem, ForeignItemKind, ForeignMod, Item, ItemKind, Mod};
use lua_ast_node::ast::lit::{Lit, LitKind, TokenLit};
use lua_ast_node::ast::pat::{Pat, PatKind};
use lua_ast_node::ast::span::{Span, Spanned};
use lua_ast_node::ast::stmt::{Block, Stmt, StmtKind};
use lua_ast_node::ast::ty::{Ty, TyKind};
use lua_ast_node::ast::vis::VisibilityKind;
use lua_ast_node::filter_map::FilterMap;
use lua_ast_node::search::find_subexpr;
use lua_ast_node::walk::WalkAst;

const HERE: Span = Span { lo: 3, hi: 9, ctxt: 0 };

fn expr(id: u32, kind: ExprKind) -> Expr {
    Expr { id: NodeId(id), kind, span: HERE, attrs: Vec::new() }
}

fn number(id: u32) -> Expr {
    let lit = Lit {
        token: TokenLit { kind: TokenLitKind::Integer, symbol: "1".to_owned(), suffix: None },
        kind: LitKind::Int(1, LitIntType::Unsuffixed),
        span: HERE,
    };
    expr(id, ExprKind::Lit(lit))
}

fn neg(id: u32, inner: Expr) -> Expr {
    expr(id, ExprKind::Unary(UnOp::Neg, Box::new(inner)))
}

fn paren(id: u32, inner: Expr) -> Expr {
    expr(id, ExprKind::Paren(Box::new(inner)))
}

fn sum(id: u32, lhs: Expr, rhs: Expr) -> Expr {
    let op = Spanned { node: BinOpKind::Add, span: HERE };
    expr(id, ExprKind::Binary(op, Box::new(lhs), Box::new(rhs)))
}

fn stmt(id: u32, e: Expr) -> Stmt {
    Stmt { id: NodeId(id), kind: StmtKind::Semi(Box::new(e)), span: HERE }
}

fn block(id: u32, stmts: Vec<Stmt>) -> Block {
    Block { stmts, id: NodeId(id), rules: BlockCheckMode::Default, span: HERE }
}

fn wild(id: u32) -> Pat {
    Pat { id: NodeId(id), kind: PatKind::Wild, span: HERE }
}

fn arm(id: u32, guard: Option<Expr>, body: Expr) -> Arm {
    Arm {
        attrs: Vec::new(),
        pat: Box::new(wild(id + 1)),
        guard: guard.map(Box::new),
        body: Box::new(body),
        span: HERE,
        id: NodeId(id),
        is_placeholder: false,
    }
}

fn mac() -> Mac {
    Mac {
        path: SimplePath {
            span: HERE,
            segments: vec![Ident { name: "m".to_owned(), span: HERE }],
        },
        delim: MacDelimiter::Parenthesis,
        tts: String::new(),
        span: HERE,
    }
}

fn generics() -> Generics {
    Generics {
        params: Vec::new(),
        where_clause: WhereClause { predicates: Vec::new(), span: HERE },
        span: HERE,
    }
}

fn item(id: u32, kind: ItemKind) -> Item {
    Item {
        ident: Ident { name: "i".to_owned(), span: HERE },
        attrs: Vec::new(),
        id: NodeId(id),
        kind,
        vis: Spanned { node: VisibilityKind::Inherited, span: HERE },
        span: HERE,
        tokens: None,
    }
}

fn function(id: u32, stmts: Vec<Stmt>) -> Item {
    let header = FnHeader {
        unsafety: Unsafety::Normal,
        asyncness: Spanned { node: IsAsync::NotAsync, span: HERE },
        constness: Spanned { node: Constness::NotConst, span: HERE },
        abi: Abi::Rust,
    };
    let decl = FnDecl { inputs: Vec::new(), output: FunctionRetTy::Default(HERE) };
    item(
        id,
        ItemKind::Fn(Box::new(decl), header, generics(), Box::new(block(id + 1, stmts))),
    )
}

fn module(id: u32, items: Vec<Item>) -> Item {
    item(id, ItemKind::Mod(Mod { inner: HERE, items, inline: true }))
}

fn foreign(id: u32) -> ForeignItem {
    ForeignItem {
        ident: Ident { name: "g".to_owned(), span: HERE },
        attrs: Vec::new(),
        kind: ForeignItemKind::Ty,
        id: NodeId(id),
        span: HERE,
        vis: Spanned { node: VisibilityKind::Inherited, span: HERE },
    }
}

#[test]
fn the_expression_itself_is_found_first() {
    let e = neg(1, number(1));
    assert_eq!(e.find_subexpr(1), Some(&e));
}

#[test]
fn expressions_inside_are_found() {
    let e = expr(
        1,
        ExprKind::Call(
            Box::new(number(2)),
            vec![neg(3, number(4)), sum(5, number(6), paren(7, number(8)))],
        ),
    );
    for (id, found) in [(2, number(2)), (4, number(4)), (6, number(6)), (8, number(8))] {
        assert_eq!(e.find_subexpr(id), Some(&found));
    }
    assert_eq!(e.find_subexpr(9), None);
}

#[test]
fn the_first_of_two_is_found() {
    let e = expr(1, ExprKind::Tup(vec![neg(2, number(3)), neg(3, number(4))]));
    assert_eq!(e.find_subexpr(3), Some(&number(3)));
}

#[test]
fn an_expression_comes_before_those_inside_it() {
    let e = expr(1, ExprKind::Array(vec![neg(3, number(3))]));
    assert_eq!(e.find_subexpr(3), Some(&neg(3, number(3))));
}

#[test]
fn only_condition_and_else_of_an_if_are_searched() {
    let with_else = expr(
        1,
        ExprKind::If(
            Box::new(number(2)),
            Box::new(block(3, vec![stmt(4, number(5))])),
            Some(Box::new(number(6))),
        ),
    );
    assert_eq!(with_else.find_subexpr(2), Some(&number(2)));
    assert_eq!(with_else.find_subexpr(5), None);
    assert_eq!(with_else.find_subexpr(6), Some(&number(6)));
    let without = expr(
        1,
        ExprKind::If(Box::new(number(2)), Box::new(block(3, Vec::new())), None),
    );
    assert_eq!(without.find_subexpr(6), None);
}

#[test]
fn arms_blocks_and_ranges_are_not_searched() {
    let e = expr(1, ExprKind::Match(Box::new(number(2)), vec![arm(3, None, number(5))]));
    assert_eq!(e.find_subexpr(2), Some(&number(2)));
    assert_eq!(e.find_subexpr(5), None);
    let b = expr(1, ExprKind::Block(Box::new(block(2, vec![stmt(3, number(4))])), None));
    assert_eq!(b.find_subexpr(4), None);
    let r = expr(1, ExprKind::Range(Some(Box::new(number(2))), None, RangeLimits::HalfOpen));
    assert_eq!(r.find_subexpr(2), None);
}

#[test]
fn the_found_expression_can_be_replaced() {
    let mut e = expr(1, ExprKind::Tup(vec![number(2), sum(3, number(4), number(5))]));
    match find_subexpr(&mut e, &|x: &Expr| -> bool { x.id == NodeId(5) }) {
        Some(found) => *found = neg(6, number(7)),
        None => panic!("not found"),
    }
    assert_eq!(e, expr(1, ExprKind::Tup(vec![number(2), sum(3, number(4), neg(6, number(7)))])));
    assert!(find_subexpr(&mut e, &|x: &Expr| -> bool { x.id == NodeId(5) }).is_none());
    assert_eq!(e, expr(1, ExprKind::Tup(vec![number(2), sum(3, number(4), neg(6, number(7)))])));
}

fn minus(x: &Expr) -> Expr {
    neg(100, x.clone())
}

fn no_macro(_: &(), _: &Mac) {
    panic!("a macro call")
}

#[test]
fn accepted_root_is_replaced() {
    let mut e = number(1);
    e.filtermap_subexprs(
        &mut (),
        |_: &(), name: &str| -> ((), bool) { ((), name == "Lit") },
        |_: &(), x: &Expr| -> ((), Expr) { ((), minus(x)) },
        no_macro,
    );
    assert_eq!(e, neg(100, number(1)));
}

#[test]
fn accepted_expressions_are_replaced_wherever_they_stand() {
    let tree = |leaf: &dyn Fn(u32) -> Expr| {
        expr(
            1,
            ExprKind::Match(
                Box::new(leaf(2)),
                vec![
                    arm(3, Some(leaf(5)), leaf(6)),
                    arm(
                        7,
                        None,
                        expr(
                            9,
                            ExprKind::Block(Box::new(block(10, vec![stmt(11, leaf(12))])), None),
                        ),
                    ),
                ],
            ),
        )
    };
    let mut e = tree(&number);
    e.filtermap_subexprs(
        &mut (),
        |_: &(), name: &str| -> ((), bool) { ((), name == "Lit") },
        |_: &(), x: &Expr| -> ((), Expr) { ((), minus(x)) },
        no_macro,
    );
    assert_eq!(e, tree(&|id| minus(&number(id))));
}

#[test]
fn accepted_expressions_are_not_looked_into() {
    let mut e = sum(1, neg(2, neg(3, number(4))), number(5));
    e.filtermap_subexprs(
        &mut (),
        |_: &(), name: &str| -> ((), bool) { ((), name == "Unary") },
        |_: &(), x: &Expr| -> ((), Expr) { ((), paren(101, x.clone())) },
        no_macro,
    );
    assert_eq!(e, sum(1, paren(101, neg(2, neg(3, number(4)))), number(5)));
}

#[test]
fn rejected_expressions_stay() {
    let mut e = sum(1, paren(4, number(4)), number(5));
    let before = e.clone();
    e.filtermap_subexprs(
        &mut (),
        |_: &(), _: &str| -> ((), bool) { ((), false) },
        |_: &(), x: &Expr| -> ((), Expr) { ((), minus(x)) },
        no_macro,
    );
    assert_eq!(e, before);
}

#[test]
fn parentheses_take_on_the_id_inside() {
    let mut e = paren(1, paren(2, number(3)));
    e.filtermap_subexprs(
        &mut (),
        |_: &(), _: &str| -> ((), bool) { ((), false) },
        |_: &(), x: &Expr| -> ((), Expr) { ((), minus(x)) },
        no_macro,
    );
    let once = paren(3, paren(3, number(3)));
    assert_eq!(e, once);
    e.filtermap_subexprs(
        &mut (),
        |_: &(), _: &str| -> ((), bool) { ((), false) },
        |_: &(), x: &Expr| -> ((), Expr) { ((), minus(x)) },
        no_macro,
    );
    assert_eq!(e, once);
    let mut mapped = paren(1, number(3));
    mapped.filtermap_subexprs(
        &mut (),
        |_: &(), name: &str| -> ((), bool) { ((), name == "Lit") },
        |_: &(), x: &Expr| -> ((), Expr) { ((), minus(x)) },
        no_macro,
    );
    assert_eq!(mapped, paren(100, neg(100, number(3))));
}

#[test]
fn accepted_macro_calls_are_replaced() {
    let mut e = sum(1, expr(2, ExprKind::Mac(mac())), number(3));
    e.filtermap_subexprs(
        &mut (),
        |_: &(), name: &str| -> ((), bool) { ((), name == "Mac") },
        |_: &(), _: &Expr| -> ((), Expr) { ((), number(4)) },
        no_macro,
    );
    assert_eq!(e, sum(1, number(4), number(3)));
}

#[test]
fn rejected_macro_calls_are_reported_and_stay() {
    let seen = std::cell::Cell::new(0);
    let mut e = sum(1, expr(2, ExprKind::Mac(mac())), number(3));
    let before = e.clone();
    e.filtermap_subexprs(
        &mut (),
        |_: &(), _: &str| -> ((), bool) { ((), false) },
        |_: &(), x: &Expr| -> ((), Expr) { ((), minus(x)) },
        |_: &(), m: &Mac| {
            assert_eq!(*m, mac());
            seen.set(seen.get() + 1);
        },
    );
    assert_eq!(e, before);
    assert_eq!(seen.get(), 1);
}

#[test]
fn calls_are_made_in_order_and_pass_the_state_on() {
    let mut log: Vec<String> = Vec::new();
    let mut e = sum(1, neg(2, number(3)), paren(4, sum(5, number(6), number(7))));
    e.filtermap_subexprs(
        &mut log,
        |log: &Vec<String>, name: &str| -> (Vec<String>, bool) {
            let mut next = log.clone();
            next.push(name.to_owned());
            (next, name == "Lit")
        },
        |log: &Vec<String>, x: &Expr| -> (Vec<String>, Expr) {
            let mut next = log.clone();
            next.push(format!("map {}", x.id.as_u32()));
            (next, number(100 + log.len() as u32))
        },
        |log: &Vec<String>, _: &Mac| -> Vec<String> { log.clone() },
    );
    assert_eq!(
        log,
        vec![
            "Binary", "Unary", "Lit", "map 3", "Paren", "Binary", "Lit", "map 6", "Lit", "map 7",
        ]
    );
    assert_eq!(
        e,
        sum(1, neg(2, number(103)), paren(5, sum(5, number(107), number(109))))
    );
}

#[test]
fn visitor_keeps_its_state_from_node_to_node() {
    let mut counter = FilterMap::new(
        0u32,
        |n: &u32, name: &str| -> (u32, bool) { (*n + 1, name == "Lit") },
        |n: &u32, x: &Expr| -> (u32, Expr) { (*n, x.clone()) },
        |n: &u32, _: &Mac| -> u32 { *n + 1000 },
    );
    let mut f = function(
        1,
        vec![stmt(3, neg(4, number(5))), stmt(6, expr(7, ExprKind::Mac(mac())))],
    );
    let before = f.clone();
    f.walk(&mut counter);
    assert_eq!(f, before);
    assert_eq!(counter.state, 1003);
    let mut lone = sum(8, number(9), number(10));
    lone.walk(&mut counter);
    assert_eq!(counter.state, 1005);
}

#[test]
fn nodes_of_other_kinds_are_gone_through() {
    let mut visitor = FilterMap::new(
        (),
        |_: &(), name: &str| -> ((), bool) { ((), name == "Lit") },
        |_: &(), x: &Expr| -> ((), Expr) { ((), minus(x)) },
        no_macro,
    );
    let mut f = function(1, vec![stmt(3, number(4))]);
    f.walk(&mut visitor);
    assert_eq!(f, function(1, vec![stmt(3, neg(100, number(4)))]));
    let mut root = number(5);
    root.walk(&mut visitor);
    assert_eq!(root, number(5));
    let mut t = Ty {
        id: NodeId(1),
        kind: TyKind::Ptr(lua_ast_node::ast::ty::MutTy {
            ty: Box::new(Ty { id: NodeId(2), kind: TyKind::Never, span: HERE }),
            mutbl: Mutability::Mutable,
        }),
        span: HERE,
    };
    let before = t.clone();
    t.walk(&mut visitor);
    assert_eq!(t, before);
}

fn ids(stmts: Vec<&Stmt>) -> Vec<u32> {
    stmts.into_iter().map(|s| s.id.as_u32()).collect()
}

#[test]
fn statements_are_visited_in_order() {
    let inner = expr(6, ExprKind::Block(Box::new(block(7, vec![stmt(8, number(9))])), None));
    let nested = Stmt {
        id: NodeId(10),
        kind: StmtKind::Item(Box::new(function(11, vec![stmt(13, number(14))]))),
        span: HERE,
    };
    let f = function(1, vec![stmt(3, number(4)), stmt(5, inner), nested, stmt(15, number(16))]);
    assert_eq!(ids(f.visit_stmts()), vec![3, 5, 8, 10, 13, 15]);
}

#[test]
fn items_are_visited_from_the_outside_in() {
    let m = module(1, vec![function(2, Vec::new()), module(4, vec![function(5, Vec::new())])]);
    let found: Vec<u32> = m.visit_items().into_iter().map(|i| i.id.as_u32()).collect();
    assert_eq!(found, vec![1, 2, 4, 5]);
    assert_eq!(m.visit_items()[0], &m);
}

#[test]
fn foreign_items_are_visited() {
    let outside = item(
        2,
        ItemKind::ForeignMod(ForeignMod { abi: Abi::C, items: vec![foreign(3), foreign(4)] }),
    );
    let m = module(1, vec![outside]);
    let found: Vec<u32> = m.visit_foreign_items().into_iter().map(|i| i.id.as_u32()).collect();
    assert_eq!(found, vec![3, 4]);
    assert_eq!(m.visit_stmts().len(), 0);
}

#[test]
fn macro_calls_hold_no_statements() {
    let call = Stmt {
        id: NodeId(3),
        kind: StmtKind::Semi(Box::new(expr(4, ExprKind::Mac(mac())))),
        span: HERE,
    };
    assert_eq!(ids(function(1, vec![call]).visit_stmts()), vec![3]);
}
