//! The statements, items and foreign items that stand in a node, each one before those that stand
//! in it.

use vstd::prelude::*;

use crate::ast::expr::{Expr, ExprKind};
use crate::ast::item::{ForeignItem, Item, ItemKind};
use crate::ast::stmt::{Block, Stmt};
use crate::parts::expr::{exprs_parts, fields_of_expr_are_parts, fields_of_expr_kind_are_parts};
use crate::parts::{Part, group_contains, listed_statements, parts, visits_at_a_part};
use crate::visit::expr::nodes_in_expr;
use crate::visit::func::nodes_in_fn_decl;
use crate::visit::generics::nodes_in_generics;
use crate::visit::item::{list_item, nodes_in_item, nodes_in_item_kind, nodes_in_items};
use crate::visit::stmt::{nodes_in_block, nodes_in_stmt, nodes_in_stmt_kind, nodes_in_stmts};

pub mod expr;
pub mod func;
pub mod generics;
pub mod item;
pub mod pat;
pub mod path;
pub mod stmt;
pub mod ty;

verus! {

/// A node that a script can ask to visit.
pub enum Visited<'a> {
    Stmt(&'a Stmt),
    Item(&'a Item),
    ForeignItem(&'a ForeignItem),
}

/// One list behind another.
#[verifier::opaque]
pub open spec fn joined<'a>(first: Seq<Visited<'a>>, second: Seq<Visited<'a>>) -> Seq<
    Visited<'a>,
> {
    first + second
}

/// It does not matter which two of three neighbouring lists are joined first.
pub broadcast proof fn joined_is_associative<'a>(
    a: Seq<Visited<'a>>,
    b: Seq<Visited<'a>>,
    c: Seq<Visited<'a>>,
)
    ensures
        #[trigger] joined(joined(a, b), c) == joined(a, joined(b, c)),
{
    reveal(joined);
    assert((a + b) + c =~= a + (b + c));
}

/// An empty list behind another one adds nothing.
pub broadcast proof fn joined_with_nothing<'a>(list: Seq<Visited<'a>>)
    ensures
        #[trigger] joined(list, seq![]) == list,
{
    reveal(joined);
    assert(list + seq![] =~= list);
}

/// A list behind an empty one is the list itself.
pub broadcast proof fn nothing_joined_with<'a>(list: Seq<Visited<'a>>)
    ensures
        #[trigger] joined(seq![], list) == list,
{
    reveal(joined);
    assert(seq![] + list =~= list);
}

pub broadcast group group_joined {
    joined_is_associative,
    nothing_joined_with,
    joined_with_nothing,
}

/// Putting one node behind a list is joining it with the list of that node.
pub(crate) proof fn lemma_pushed<'a>(list: Seq<Visited<'a>>, node: Visited<'a>)
    ensures
        list.push(node) == joined(list, seq![node]),
{
    reveal(joined);
    assert(list.push(node) =~= list + seq![node]);
}

/// The statements in a list, in order.
pub open spec fn stmts_of(list: Seq<Visited<'_>>) -> Seq<Stmt>
    decreases list.len(),
{
    if list.len() == 0 {
        seq![]
    } else {
        match list.last() {
            Visited::Stmt(node) => stmts_of(list.drop_last()).push(*node),
            _ => stmts_of(list.drop_last()),
        }
    }
}

/// The items in a list, in order.
pub open spec fn items_of(list: Seq<Visited<'_>>) -> Seq<Item>
    decreases list.len(),
{
    if list.len() == 0 {
        seq![]
    } else {
        match list.last() {
            Visited::Item(node) => items_of(list.drop_last()).push(*node),
            _ => items_of(list.drop_last()),
        }
    }
}

/// The foreign items in a list, in order.
pub open spec fn foreign_items_of(list: Seq<Visited<'_>>) -> Seq<ForeignItem>
    decreases list.len(),
{
    if list.len() == 0 {
        seq![]
    } else {
        match list.last() {
            Visited::ForeignItem(node) => foreign_items_of(list.drop_last()).push(*node),
            _ => foreign_items_of(list.drop_last()),
        }
    }
}

impl Item {
    /// The statements that stand in the item, in order: each one before those that stand in it.
    pub fn visit_stmts(&self) -> (nodes: Vec<&Stmt>)
        ensures
            nodes@.unref() == stmts_of(nodes_in_item(*self)),
    {
        let mut list: Vec<Visited<'_>> = Vec::new();
        list_item(self, &mut list);
        proof {
            nothing_joined_with(nodes_in_item(*self));
            assert(Seq::<Visited<'_>>::empty() =~= seq![]);
        }
        let mut nodes: Vec<&Stmt> = Vec::new();
        let mut i: usize = 0;
        assert(nodes@.unref() =~= stmts_of(list@.take(0)));
        while i < list.len()
            invariant
                i <= list@.len(),
                nodes@.unref() == stmts_of(list@.take(i as int)),
            decreases list@.len() - i,
        {
            let ghost before = nodes@.unref();
            match &list[i] {
                Visited::Stmt(node) => nodes.push(*node),
                _ => {},
            }
            i += 1;
            proof {
                assert(list@.take(i as int).drop_last() =~= list@.take(i - 1));
                match list@[i - 1] {
                    Visited::Stmt(node) => {
                        assert(nodes@.unref() =~= before.push(*node));
                    },
                    _ => {},
                }
            }
        }
        assert(list@.take(i as int) =~= list@);
        nodes
    }

    /// The items that stand in the item, in order: each one before those that stand in it, the item
    /// itself first.
    pub fn visit_items(&self) -> (nodes: Vec<&Item>)
        ensures
            nodes@.unref() == items_of(nodes_in_item(*self)),
    {
        let mut list: Vec<Visited<'_>> = Vec::new();
        list_item(self, &mut list);
        proof {
            nothing_joined_with(nodes_in_item(*self));
            assert(Seq::<Visited<'_>>::empty() =~= seq![]);
        }
        let mut nodes: Vec<&Item> = Vec::new();
        let mut i: usize = 0;
        assert(nodes@.unref() =~= items_of(list@.take(0)));
        while i < list.len()
            invariant
                i <= list@.len(),
                nodes@.unref() == items_of(list@.take(i as int)),
            decreases list@.len() - i,
        {
            let ghost before = nodes@.unref();
            match &list[i] {
                Visited::Item(node) => nodes.push(*node),
                _ => {},
            }
            i += 1;
            proof {
                assert(list@.take(i as int).drop_last() =~= list@.take(i - 1));
                match list@[i - 1] {
                    Visited::Item(node) => {
                        assert(nodes@.unref() =~= before.push(*node));
                    },
                    _ => {},
                }
            }
        }
        assert(list@.take(i as int) =~= list@);
        nodes
    }

    /// The foreign items that stand in the item, in order: each one before those that stand in it.
    pub fn visit_foreign_items(&self) -> (nodes: Vec<&ForeignItem>)
        ensures
            nodes@.unref() == foreign_items_of(nodes_in_item(*self)),
    {
        let mut list: Vec<Visited<'_>> = Vec::new();
        list_item(self, &mut list);
        proof {
            nothing_joined_with(nodes_in_item(*self));
            assert(Seq::<Visited<'_>>::empty() =~= seq![]);
        }
        let mut nodes: Vec<&ForeignItem> = Vec::new();
        let mut i: usize = 0;
        assert(nodes@.unref() =~= foreign_items_of(list@.take(0)));
        while i < list.len()
            invariant
                i <= list@.len(),
                nodes@.unref() == foreign_items_of(list@.take(i as int)),
            decreases list@.len() - i,
        {
            let ghost before = nodes@.unref();
            match &list[i] {
                Visited::ForeignItem(node) => nodes.push(*node),
                _ => {},
            }
            i += 1;
            proof {
                assert(list@.take(i as int).drop_last() =~= list@.take(i - 1));
                match list@[i - 1] {
                    Visited::ForeignItem(node) => {
                        assert(nodes@.unref() =~= before.push(*node));
                    },
                    _ => {},
                }
            }
        }
        assert(list@.take(i as int) =~= list@);
        nodes
    }
}

/// A list behind another one has the statements of both.
pub proof fn statements_of_two_lists<'a>(first: Seq<Visited<'a>>, second: Seq<Visited<'a>>)
    ensures
        stmts_of(joined(first, second)) == stmts_of(first) + stmts_of(second),
    decreases second.len(),
{
    reveal(joined);
    if second.len() == 0 {
        assert(first + second =~= first);
        assert(stmts_of(first) + stmts_of(second) =~= stmts_of(first));
    } else {
        assert((first + second).drop_last() =~= first + second.drop_last());
        statements_of_two_lists(first, second.drop_last());
        assert(stmts_of(first + second) =~= stmts_of(first) + stmts_of(second));
    }
}

/// A list behind another one has the items of both.
pub proof fn items_of_two_lists<'a>(first: Seq<Visited<'a>>, second: Seq<Visited<'a>>)
    ensures
        items_of(joined(first, second)) == items_of(first) + items_of(second),
    decreases second.len(),
{
    reveal(joined);
    if second.len() == 0 {
        assert(first + second =~= first);
        assert(items_of(first) + items_of(second) =~= items_of(first));
    } else {
        assert((first + second).drop_last() =~= first + second.drop_last());
        items_of_two_lists(first, second.drop_last());
        assert(items_of(first + second) =~= items_of(first) + items_of(second));
    }
}

/// A list behind another one has the foreign items of both.
pub proof fn foreign_items_of_two_lists<'a>(first: Seq<Visited<'a>>, second: Seq<Visited<'a>>)
    ensures
        foreign_items_of(joined(first, second)) == foreign_items_of(first) + foreign_items_of(
            second,
        ),
    decreases second.len(),
{
    reveal(joined);
    if second.len() == 0 {
        assert(first + second =~= first);
        assert(foreign_items_of(first) + foreign_items_of(second) =~= foreign_items_of(first));
    } else {
        assert((first + second).drop_last() =~= first + second.drop_last());
        foreign_items_of_two_lists(first, second.drop_last());
        assert(foreign_items_of(first + second) =~= foreign_items_of(first) + foreign_items_of(
            second,
        ));
    }
}

/// A list of one node has that node among the nodes of its kind, and none of another kind.
pub proof fn nodes_are_sorted_by_kind(stmt: Stmt, item: Item, foreign: ForeignItem)
    ensures
        stmts_of(seq![Visited::Stmt(&stmt)]) == seq![stmt],
        stmts_of(seq![Visited::Item(&item)]).len() == 0,
        stmts_of(seq![Visited::ForeignItem(&foreign)]).len() == 0,
        items_of(seq![Visited::Item(&item)]) == seq![item],
        items_of(seq![Visited::Stmt(&stmt)]).len() == 0,
        items_of(seq![Visited::ForeignItem(&foreign)]).len() == 0,
        foreign_items_of(seq![Visited::ForeignItem(&foreign)]) == seq![foreign],
        foreign_items_of(seq![Visited::Stmt(&stmt)]).len() == 0,
        foreign_items_of(seq![Visited::Item(&item)]).len() == 0,
{
    let s = seq![Visited::Stmt(&stmt)];
    let i = seq![Visited::Item(&item)];
    let f = seq![Visited::ForeignItem(&foreign)];
    assert(s.drop_last() =~= seq![]);
    assert(i.drop_last() =~= seq![]);
    assert(f.drop_last() =~= seq![]);
    assert(stmts_of(s.drop_last()) =~= seq![]);
    assert(items_of(i.drop_last()) =~= seq![]);
    assert(foreign_items_of(f.drop_last()) =~= seq![]);
    assert(stmts_of(i.drop_last()) =~= seq![]);
    assert(stmts_of(f.drop_last()) =~= seq![]);
    assert(items_of(s.drop_last()) =~= seq![]);
    assert(items_of(f.drop_last()) =~= seq![]);
    assert(foreign_items_of(s.drop_last()) =~= seq![]);
    assert(foreign_items_of(i.drop_last()) =~= seq![]);
    assert(stmts_of(s) =~= seq![stmt]);
    assert(items_of(i) =~= seq![item]);
    assert(foreign_items_of(f) =~= seq![foreign]);
}

/// An item is the first of the items that are visited in it.
pub proof fn item_comes_first(item: Item)
    ensures
        items_of(nodes_in_item(item)).len() > 0,
        items_of(nodes_in_item(item))[0] == item,
{
    let own = seq![Visited::Item(&item)];
    let rest = nodes_in_item_kind(item.kind);
    items_of_two_lists(own, rest);
    assert(items_of(own.drop_last()) =~= seq![]);
    assert(items_of(own) =~= seq![item]);
}

/// Every one of the first `count` statements of a block is visited.
pub proof fn statements_of_a_block_are_visited(stmts: Seq<Stmt>, count: int, index: int)
    requires
        0 <= index < count <= stmts.len(),
    ensures
        stmts_of(nodes_in_stmts(stmts, count)).contains(stmts[index]),
    decreases count,
{
    let earlier = nodes_in_stmts(stmts, count - 1);
    let last = nodes_in_stmt(stmts[count - 1]);
    statements_of_two_lists(earlier, last);
    let all = stmts_of(nodes_in_stmts(stmts, count));
    if index < count - 1 {
        statements_of_a_block_are_visited(stmts, count - 1, index);
        let k = choose|k: int|
            0 <= k < stmts_of(earlier).len() && stmts_of(earlier)[k] == stmts[index];
        assert(all[k] == stmts[index]);
    } else {
        let own = seq![Visited::Stmt(&stmts[index])];
        statements_of_two_lists(own, nodes_in_stmt_kind(stmts[index].kind));
        assert(stmts_of(own.drop_last()) =~= seq![]);
        assert(stmts_of(own) =~= seq![stmts[index]]);
        assert(all[stmts_of(earlier).len() as int] == stmts[index]);
    }
}

/// Every statement in the body of a function is visited.
pub proof fn statements_of_a_function_are_visited(item: Item, index: int)
    requires
        item.kind matches ItemKind::Fn(_, _, _, body) && 0 <= index < body.stmts@.len(),
    ensures
        stmts_of(nodes_in_item(item)).contains(item.kind->Fn_3.stmts@[index]),
{
    let decl = item.kind->Fn_0;
    let generics = item.kind->Fn_2;
    let body = item.kind->Fn_3;
    let in_body = nodes_in_stmts(body.stmts@, body.stmts@.len() as int);
    statements_of_a_block_are_visited(body.stmts@, body.stmts@.len() as int, index);
    let own = seq![Visited::Item(&item)];
    let head = nodes_in_generics(generics);
    let sig = nodes_in_fn_decl(*decl);
    statements_of_two_lists(own, joined(head, joined(sig, in_body)));
    statements_of_two_lists(head, joined(sig, in_body));
    statements_of_two_lists(sig, in_body);
    let k = choose|k: int|
        0 <= k < stmts_of(in_body).len() && stmts_of(in_body)[k] == body.stmts@[index];
    let all = stmts_of(nodes_in_item(item));
    let shift = stmts_of(own).len() + stmts_of(head).len() + stmts_of(sig).len();
    assert(all[shift + k] == body.stmts@[index]);
}

/// Every one of the first `count` items of a module is visited.
pub proof fn items_of_a_module_are_visited(items: Seq<Item>, count: int, index: int)
    requires
        0 <= index < count <= items.len(),
    ensures
        items_of(nodes_in_items(items, count)).contains(items[index]),
    decreases count,
{
    let earlier = nodes_in_items(items, count - 1);
    items_of_two_lists(earlier, nodes_in_item(items[count - 1]));
    let all = items_of(nodes_in_items(items, count));
    if index < count - 1 {
        items_of_a_module_are_visited(items, count - 1, index);
        let k = choose|k: int|
            0 <= k < items_of(earlier).len() && items_of(earlier)[k] == items[index];
        assert(all[k] == items[index]);
    } else {
        item_comes_first(items[index]);
        assert(all[items_of(earlier).len() as int] == items[index]);
    }
}

/// The expression holds this block.
pub open spec fn holds_block(kind: ExprKind, block: Block) -> bool {
    ||| kind matches ExprKind::If(_, b, _) && *b == block
    ||| kind matches ExprKind::While(_, b, _) && *b == block
    ||| kind matches ExprKind::ForLoop(_, _, b, _) && *b == block
    ||| kind matches ExprKind::Loop(b, _) && *b == block
    ||| kind matches ExprKind::Block(b, _) && *b == block
    ||| kind matches ExprKind::Async(_, _, b) && *b == block
    ||| kind matches ExprKind::TryBlock(b) && *b == block
}

/// Every statement of every block that an expression holds is visited in the expression.
pub proof fn statements_of_blocks_are_visited(expr: Expr, block: Block, index: int)
    requires
        holds_block(expr.kind, block),
        0 <= index < block.stmts@.len(),
    ensures
        stmts_of(nodes_in_expr(expr)).contains(block.stmts@[index]),
{
    let stmt = block.stmts@[index];
    let seen = Visited::Stmt(&stmt);
    statements_of_a_block_are_visited(block.stmts@, block.stmts@.len() as int, index);
    listed_statements(nodes_in_block(block), stmt);
    fields_of_expr_kind_are_parts(expr.kind);
    visits_at_a_part(Part::ExprKind(expr.kind), Part::Block(block), seen);
    fields_of_expr_are_parts(expr);
    visits_at_a_part(Part::Expr(expr), Part::ExprKind(expr.kind), seen);
    listed_statements(nodes_in_expr(expr), stmt);
}

/// The expression stands directly in the other one: as an operand, a condition, a scrutinee, an
/// element, the body of a closure, or the guard or the body of an arm.
pub open spec fn stands_in(inner: Expr, kind: ExprKind) -> bool {
    ||| kind matches ExprKind::Box(e) && *e == inner
    ||| kind matches ExprKind::Array(es) && es@.contains(inner)
    ||| kind matches ExprKind::Call(f, es) && (*f == inner || es@.contains(inner))
    ||| kind matches ExprKind::MethodCall(_, es) && es@.contains(inner)
    ||| kind matches ExprKind::Tup(es) && es@.contains(inner)
    ||| kind matches ExprKind::Binary(_, l, r) && (*l == inner || *r == inner)
    ||| kind matches ExprKind::Unary(_, e) && *e == inner
    ||| kind matches ExprKind::Cast(e, _) && *e == inner
    ||| kind matches ExprKind::Type(e, _) && *e == inner
    ||| kind matches ExprKind::Let(_, e) && *e == inner
    ||| kind matches ExprKind::If(c, _, e) && (*c == inner || e == Some(Box::new(inner)))
    ||| kind matches ExprKind::While(c, _, _) && *c == inner
    ||| kind matches ExprKind::ForLoop(_, e, _, _) && *e == inner
    ||| kind matches ExprKind::Match(e, _) && *e == inner
    ||| kind matches ExprKind::Closure(_, _, _, _, e, _) && *e == inner
    ||| kind matches ExprKind::Await(e) && *e == inner
    ||| kind matches ExprKind::Assign(l, r) && (*l == inner || *r == inner)
    ||| kind matches ExprKind::AssignOp(_, l, r) && (*l == inner || *r == inner)
    ||| kind matches ExprKind::Field(e, _) && *e == inner
    ||| kind matches ExprKind::Index(l, r) && (*l == inner || *r == inner)
    ||| kind matches ExprKind::Range(l, r, _) && (l == Some(Box::new(inner)) || r == Some(
        Box::new(inner),
    ))
    ||| kind matches ExprKind::AddrOf(_, e) && *e == inner
    ||| kind matches ExprKind::Break(_, e) && e == Some(Box::new(inner))
    ||| kind matches ExprKind::Ret(e) && e == Some(Box::new(inner))
    ||| kind matches ExprKind::Struct(_, _, e) && e == Some(Box::new(inner))
    ||| kind matches ExprKind::Repeat(e, _) && *e == inner
    ||| kind matches ExprKind::Paren(e) && *e == inner
    ||| kind matches ExprKind::Try(e) && *e == inner
    ||| kind matches ExprKind::Yield(e) && e == Some(Box::new(inner))
}

/// Every statement that is visited in an expression is visited in every expression that it stands
/// directly in.
pub proof fn statements_of_operands_are_visited(expr: Expr, inner: Expr, stmt: Stmt)
    requires
        stands_in(inner, expr.kind),
        stmts_of(nodes_in_expr(inner)).contains(stmt),
    ensures
        stmts_of(nodes_in_expr(expr)).contains(stmt),
{
    let seen = Visited::Stmt(&stmt);
    listed_statements(nodes_in_expr(inner), stmt);
    lemma_stands_in_is_a_part(expr.kind, inner);
    visits_at_a_part(Part::ExprKind(expr.kind), Part::Expr(inner), seen);
    fields_of_expr_are_parts(expr);
    visits_at_a_part(Part::Expr(expr), Part::ExprKind(expr.kind), seen);
    listed_statements(nodes_in_expr(expr), stmt);
}

/// An expression that stands directly in another one is a part of it.
pub proof fn lemma_stands_in_is_a_part(kind: ExprKind, inner: Expr)
    requires
        stands_in(inner, kind),
    ensures
        parts(Part::ExprKind(kind)).contains(Part::Expr(inner)),
{
    fields_of_expr_kind_are_parts(kind);
    match kind {
        ExprKind::Array(es) => lemma_element(es@, inner),
        ExprKind::MethodCall(_, es) => lemma_element(es@, inner),
        ExprKind::Tup(es) => lemma_element(es@, inner),
        ExprKind::Call(f, es) => {
            if *f != inner {
                lemma_element(es@, inner);
            }
        },
        _ => {},
    }
}

/// Every expression that is a part of a form stands directly in it.
pub proof fn lemma_part_stands_in(kind: ExprKind, inner: Expr)
    requires
        parts(Part::ExprKind(kind)).contains(Part::Expr(inner)),
    ensures
        stands_in(inner, kind),
{
    broadcast use group_contains;

    match kind {
        ExprKind::Array(es) => lemma_part_is_element(es@, inner),
        ExprKind::MethodCall(_, es) => lemma_part_is_element(es@, inner),
        ExprKind::Tup(es) => lemma_part_is_element(es@, inner),
        ExprKind::Call(f, es) => {
            if *f != inner {
                lemma_part_is_element(es@, inner);
            }
        },
        _ => {},
    }
}

/// An expression that is a part made of a list is an element of it.
proof fn lemma_part_is_element(list: Seq<Expr>, inner: Expr)
    ensures
        exprs_parts(list).contains(Part::Expr(inner)) ==> list.contains(inner),
{
    if exprs_parts(list).contains(Part::Expr(inner)) {
        let i = choose|i: int| 0 <= i < list.len() && exprs_parts(list)[i] == Part::Expr(inner);
        assert(list[i] == inner);
    }
}

/// An element of a list stands at some position.
proof fn lemma_element(list: Seq<Expr>, inner: Expr)
    requires
        list.contains(inner),
    ensures
        exists|i: int| 0 <= i < list.len() && #[trigger] list[i] == inner,
{
}

} // verus!
