//! The search for an expression inside an expression.

use vstd::prelude::*;

use crate::ast::attr::attributes_same_as_themselves;
use crate::ast::expr::{Expr, ExprKind, arms_same_as_themselves};
use crate::ast::ident::{MAX_NODE_ID, NodeId};
use crate::lists::push_all;
use crate::nodes::expr::only_kind_changed;

verus! {

/// The expressions that the search looks into below an expression of this form, in order.
///
/// Blocks, arms, patterns and types are not looked into.
pub open spec fn children(kind: ExprKind) -> Seq<Expr> {
    match kind {
        ExprKind::Box(expr) => seq![*expr],
        ExprKind::Unary(_, expr) => seq![*expr],
        ExprKind::Cast(expr, _) => seq![*expr],
        ExprKind::Type(expr, _) => seq![*expr],
        ExprKind::While(expr, _, _) => seq![*expr],
        ExprKind::ForLoop(_, expr, _, _) => seq![*expr],
        ExprKind::Match(expr, _) => seq![*expr],
        ExprKind::Closure(_, _, _, _, expr, _) => seq![*expr],
        ExprKind::Await(expr) => seq![*expr],
        ExprKind::Field(expr, _) => seq![*expr],
        ExprKind::AddrOf(_, expr) => seq![*expr],
        ExprKind::Repeat(expr, _) => seq![*expr],
        ExprKind::Paren(expr) => seq![*expr],
        ExprKind::Try(expr) => seq![*expr],
        ExprKind::Array(exprs) => exprs@,
        ExprKind::MethodCall(_, exprs) => exprs@,
        ExprKind::Tup(exprs) => exprs@,
        ExprKind::Call(func, params) => seq![*func] + params@,
        ExprKind::Binary(_, lhs, rhs) => seq![*lhs, *rhs],
        ExprKind::Assign(lhs, rhs) => seq![*lhs, *rhs],
        ExprKind::AssignOp(_, lhs, rhs) => seq![*lhs, *rhs],
        ExprKind::Index(lhs, rhs) => seq![*lhs, *rhs],
        ExprKind::If(cond, _, Some(otherwise)) => seq![*cond, *otherwise],
        ExprKind::If(cond, _, None) => seq![*cond],
        _ => seq![],
    }
}

/// The two forms agree in all but the children.
pub open spec fn same_but_children(kind: ExprKind, other: ExprKind) -> bool {
    match (kind, other) {
        (ExprKind::Box(_), ExprKind::Box(_)) => true,
        (ExprKind::Unary(a0, _), ExprKind::Unary(b0, _)) => a0 == b0,
        (ExprKind::Cast(_, a1), ExprKind::Cast(_, b1)) => a1 == b1,
        (ExprKind::Type(_, a1), ExprKind::Type(_, b1)) => a1 == b1,
        (ExprKind::While(_, a1, a2), ExprKind::While(_, b1, b2)) => a1 == b1 && a2 == b2,
        (ExprKind::ForLoop(a0, _, a2, a3), ExprKind::ForLoop(b0, _, b2, b3)) => {
            &&& a0 == b0
            &&& a2 == b2
            &&& a3 == b3
        },
        (ExprKind::Match(_, a1), ExprKind::Match(_, b1)) => a1 == b1,
        (ExprKind::Closure(a0, a1, a2, a3, _, a5), ExprKind::Closure(b0, b1, b2, b3, _, b5)) => {
            &&& a0 == b0
            &&& a1 == b1
            &&& a2 == b2
            &&& a3 == b3
            &&& a5 == b5
        },
        (ExprKind::Await(_), ExprKind::Await(_)) => true,
        (ExprKind::Field(_, a1), ExprKind::Field(_, b1)) => a1 == b1,
        (ExprKind::AddrOf(a0, _), ExprKind::AddrOf(b0, _)) => a0 == b0,
        (ExprKind::Repeat(_, a1), ExprKind::Repeat(_, b1)) => a1 == b1,
        (ExprKind::Paren(_), ExprKind::Paren(_)) => true,
        (ExprKind::Try(_), ExprKind::Try(_)) => true,
        (ExprKind::Array(_), ExprKind::Array(_)) => true,
        (ExprKind::MethodCall(a0, _), ExprKind::MethodCall(b0, _)) => a0 == b0,
        (ExprKind::Tup(_), ExprKind::Tup(_)) => true,
        (ExprKind::Binary(a0, _, _), ExprKind::Binary(b0, _, _)) => a0 == b0,
        (ExprKind::Assign(_, _), ExprKind::Assign(_, _)) => true,
        (ExprKind::AssignOp(a0, _, _), ExprKind::AssignOp(b0, _, _)) => a0 == b0,
        (ExprKind::Index(_, _), ExprKind::Index(_, _)) => true,
        (ExprKind::Call(..), ExprKind::Call(..)) => true,
        (ExprKind::If(_, a1, a2), ExprKind::If(_, b1, b2)) => a1 == b1 && a2 is Some == b2 is Some,
        _ => kind == other,
    }
}

/// `after` is `before` with its child at `index` replaced by `child`.
pub open spec fn child_replaced(before: Expr, index: int, child: Expr, after: Expr) -> bool {
    &&& only_kind_changed(before, after)
    &&& same_but_children(before.kind, after.kind)
    &&& children(after.kind) =~= children(before.kind).update(index, child)
}

/// A path leads from an expression to one inside it. It holds the positions of children, the
/// topmost one last.
pub open spec fn is_path(expr: Expr, path: Seq<int>) -> bool
    decreases path.len(),
{
    path.len() > 0 ==> {
        &&& 0 <= path.last() < children(expr.kind).len()
        &&& is_path(children(expr.kind)[path.last()], path.drop_last())
    }
}

/// The path that this list of positions holds.
pub open spec fn steps(list: Seq<usize>) -> Seq<int> {
    Seq::new(list.len(), |i: int| list[i] as int)
}

/// The expression to which a path leads.
pub open spec fn node_at(expr: Expr, path: Seq<int>) -> Expr
    decreases path.len(),
{
    if path.len() == 0 {
        expr
    } else {
        node_at(children(expr.kind)[path.last()], path.drop_last())
    }
}

/// `after` is `before` with the expression at the end of the path replaced by `node`.
pub open spec fn replaced_at(before: Expr, path: Seq<int>, node: Expr, after: Expr) -> bool
    decreases path.len(),
{
    if path.len() == 0 {
        after == node
    } else {
        exists|child: Expr|
            #![trigger child_replaced(before, path.last(), child, after)]
            child_replaced(before, path.last(), child, after) && replaced_at(
                children(before.kind)[path.last()],
                path.drop_last(),
                node,
                child,
            )
    }
}

/// What a test may answer on an expression.
pub type Verdict = spec_fn(Expr, bool) -> bool;

/// What this closure may answer on an expression.
pub open spec fn verdict_of<C: Fn(&Expr) -> bool>(test: C) -> Verdict {
    |expr: Expr, answer: bool| call_ensures(test, (&expr,), answer)
}

/// Whether an expression has this id.
pub open spec fn has_id(id: NodeId) -> Verdict {
    |expr: Expr, answer: bool| answer == (expr.id == id)
}

/// Every child is smaller than the expression that it belongs to.
proof fn lemma_children_smaller(expr: Expr)
    ensures
        forall|i: int|
            0 <= i < children(expr.kind).len() ==> decreases_to!(
                expr => #[trigger] children(expr.kind)[i]
            ),
{
    assert forall|i: int| 0 <= i < children(expr.kind).len() implies decreases_to!(
        expr => #[trigger] children(expr.kind)[i]
    ) by {
        match expr.kind {
            ExprKind::Array(exprs) => {
                assert(children(expr.kind)[i] == exprs@[i]);
            },
            ExprKind::Tup(exprs) => {
                assert(children(expr.kind)[i] == exprs@[i]);
            },
            ExprKind::MethodCall(_, exprs) => {
                assert(children(expr.kind)[i] == exprs@[i]);
            },
            ExprKind::Call(func, params) => {
                if i > 0 {
                    assert(children(expr.kind)[i] == params@[i - 1]);
                }
            },
            _ => {},
        }
    }
}

/// The property holds of the expression and of everything that the search looks into below it.
pub open spec fn holds_throughout(property: spec_fn(Expr) -> bool, expr: Expr) -> bool
    decreases expr,
    via holds_throughout_decreases
{
    &&& property(expr)
    &&& forall|i: int|
        0 <= i < children(expr.kind).len() ==> holds_throughout(
            property,
            #[trigger] children(expr.kind)[i],
        )
}

#[via_fn]
proof fn holds_throughout_decreases(property: spec_fn(Expr) -> bool, expr: Expr) {
    lemma_children_smaller(expr);
}

/// The test turned down the expression and everything that the search looks into below it.
pub open spec fn all_rejected(verdict: Verdict, expr: Expr) -> bool {
    holds_throughout(|node: Expr| verdict(node, false), expr)
}

/// The test can be put to the expression and to everything that the search looks into below
/// it.
pub open spec fn can_search<C: Fn(&Expr) -> bool>(test: C, expr: Expr) -> bool {
    holds_throughout(|node: Expr| call_requires(test, (&node,)), expr)
}

/// The path leads to the first expression that the test accepted: each expression comes before
/// its children, and each child before those behind it.
pub open spec fn first_accepted(verdict: Verdict, expr: Expr, path: Seq<int>) -> bool
    decreases path.len(),
{
    if path.len() == 0 {
        verdict(expr, true)
    } else {
        &&& verdict(expr, false)
        &&& 0 <= path.last() < children(expr.kind).len()
        &&& forall|i: int|
            0 <= i < path.last() ==> all_rejected(verdict, #[trigger] children(expr.kind)[i])
        &&& first_accepted(
            verdict,
            children(expr.kind)[path.last()],
            path.drop_last(),
        )
    }
}

/// The children of an expression.
fn child_refs(expr: &Expr) -> (list: Vec<&Expr>)
    ensures
        list@.unref() == children(expr.kind),
{
    let mut list: Vec<&Expr> = Vec::new();
    match &expr.kind {
        ExprKind::Box(child) => list.push(child),
        ExprKind::Unary(_, child) => list.push(child),
        ExprKind::Cast(child, _) => list.push(child),
        ExprKind::Type(child, _) => list.push(child),
        ExprKind::While(child, _, _) => list.push(child),
        ExprKind::ForLoop(_, child, _, _) => list.push(child),
        ExprKind::Match(child, _) => list.push(child),
        ExprKind::Closure(_, _, _, _, child, _) => list.push(child),
        ExprKind::Await(child) => list.push(child),
        ExprKind::Field(child, _) => list.push(child),
        ExprKind::AddrOf(_, child) => list.push(child),
        ExprKind::Repeat(child, _) => list.push(child),
        ExprKind::Paren(child) => list.push(child),
        ExprKind::Try(child) => list.push(child),
        ExprKind::Array(exprs) => push_all(&mut list, exprs),
        ExprKind::MethodCall(_, exprs) => push_all(&mut list, exprs),
        ExprKind::Tup(exprs) => push_all(&mut list, exprs),
        ExprKind::Call(func, params) => {
            list.push(func);
            push_all(&mut list, params);
        },
        ExprKind::Binary(_, lhs, rhs) => {
            list.push(lhs);
            list.push(rhs);
        },
        ExprKind::Assign(lhs, rhs) => {
            list.push(lhs);
            list.push(rhs);
        },
        ExprKind::AssignOp(_, lhs, rhs) => {
            list.push(lhs);
            list.push(rhs);
        },
        ExprKind::Index(lhs, rhs) => {
            list.push(lhs);
            list.push(rhs);
        },
        ExprKind::If(cond, _, otherwise) => {
            list.push(cond);
            if let Some(otherwise) = otherwise {
                list.push(otherwise);
            }
        },
        _ => {},
    }
    assert(list@.unref() =~= children(expr.kind));
    list
}

/// The child at `index`, to be changed.
fn child_mut(expr: &mut Expr, index: usize) -> (child: &mut Expr)
    requires
        index < children(old(expr).kind).len(),
    ensures
        *child == children(old(expr).kind)[index as int],
        child_replaced(*old(expr), index as int, *final(child), *final(expr)),
{
    match &mut expr.kind {
        ExprKind::Box(child) => child,
        ExprKind::Unary(_, child) => child,
        ExprKind::Cast(child, _) => child,
        ExprKind::Type(child, _) => child,
        ExprKind::While(child, _, _) => child,
        ExprKind::ForLoop(_, child, _, _) => child,
        ExprKind::Match(child, _) => child,
        ExprKind::Closure(_, _, _, _, child, _) => child,
        ExprKind::Await(child) => child,
        ExprKind::Field(child, _) => child,
        ExprKind::AddrOf(_, child) => child,
        ExprKind::Repeat(child, _) => child,
        ExprKind::Paren(child) => child,
        ExprKind::Try(child) => child,
        ExprKind::Array(exprs) => &mut exprs[index],
        ExprKind::MethodCall(_, exprs) => &mut exprs[index],
        ExprKind::Tup(exprs) => &mut exprs[index],
        ExprKind::Call(func, params) => {
            if index == 0 {
                func
            } else {
                &mut params[index - 1]
            }
        },
        ExprKind::Binary(_, lhs, rhs) => {
            if index == 0 {
                lhs
            } else {
                rhs
            }
        },
        ExprKind::Assign(lhs, rhs) => {
            if index == 0 {
                lhs
            } else {
                rhs
            }
        },
        ExprKind::AssignOp(_, lhs, rhs) => {
            if index == 0 {
                lhs
            } else {
                rhs
            }
        },
        ExprKind::Index(lhs, rhs) => {
            if index == 0 {
                lhs
            } else {
                rhs
            }
        },
        ExprKind::If(cond, _, otherwise) => {
            if index == 0 {
                cond
            } else {
                match otherwise {
                    Some(otherwise) => otherwise,
                    None => vstd::pervasive::unreached(),
                }
            }
        },
        _ => vstd::pervasive::unreached(),
    }
}

/// The path to the first expression that the test accepts.
fn search<C: Fn(&Expr) -> bool>(expr: &Expr, test: &C) -> (found: Option<Vec<usize>>)
    requires
        can_search(*test, *expr),
    ensures
        match found {
            Some(path) => first_accepted(verdict_of(*test), *expr, steps(path@)),
            None => all_rejected(verdict_of(*test), *expr),
        },
    decreases *expr,
{
    if test(expr) {
        return Some(Vec::new());
    }
    let list: Vec<&Expr> = child_refs(expr);
    proof {
        lemma_children_smaller(*expr);
    }
    let mut i: usize = 0;
    while i < list.len()
        invariant
            i <= list@.len(),
            list@.unref() == children(expr.kind),
            can_search(*test, *expr),
            call_ensures(*test, (expr,), false),
            forall|j: int|
                0 <= j < children(expr.kind).len() ==> decreases_to!(
                    *expr => #[trigger] children(expr.kind)[j]
                ),
            forall|j: int|
                0 <= j < i ==> all_rejected(
                    verdict_of(*test),
                    #[trigger] children(expr.kind)[j],
                ),
        decreases list@.len() - i,
    {
        assert(*list@[i as int] == children(expr.kind)[i as int]);
        match search(list[i], test) {
            Some(mut path) => {
                let ghost below = path@;
                path.push(i);
                assert(steps(path@).drop_last() =~= steps(below));
                return Some(path);
            },
            None => {},
        }
        i += 1;
    }
    None
}

/// The expression at the end of the path.
fn at_path<'a>(expr: &'a Expr, path: &Vec<usize>) -> (node: &'a Expr)
    requires
        is_path(*expr, steps(path@)),
    ensures
        *node == node_at(*expr, steps(path@)),
{
    let mut node: &'a Expr = expr;
    let mut left: usize = path.len();
    assert(steps(path@).take(left as int) =~= steps(path@));
    while left > 0
        invariant
            left <= path@.len(),
            is_path(*node, steps(path@).take(left as int)),
            node_at(*node, steps(path@).take(left as int)) == node_at(*expr, steps(path@)),
        decreases left,
    {
        let ghost rest = steps(path@).take(left as int);
        let list: Vec<&Expr> = child_refs(node);
        left -= 1;
        assert(rest.drop_last() =~= steps(path@).take(left as int));
        assert(list@.unref()[path@[left as int] as int] == *list@[path@[left as int] as int]);
        node = list[path[left]];
    }
    node
}

/// The expression at the end of the path, to be changed.
fn at_path_mut<'a>(expr: &'a mut Expr, path: Vec<usize>) -> (node: &'a mut Expr)
    requires
        is_path(*old(expr), steps(path@)),
    ensures
        *node == node_at(*old(expr), steps(path@)),
        replaced_at(*old(expr), steps(path@), *final(node), *final(expr)),
    decreases path@.len(),
{
    let ghost whole = path@;
    let mut path = path;
    match path.pop() {
        Some(index) => {
            proof {
                assert(steps(path@) =~= steps(whole).drop_last());
            }
            at_path_mut(child_mut(expr, index), path)
        },
        None => expr,
    }
}

/// The way to the first accepted expression is a path.
proof fn lemma_first_accepted_is_path(verdict: Verdict, expr: Expr, path: Seq<int>)
    requires
        first_accepted(verdict, expr, path),
    ensures
        is_path(expr, path),
        verdict(node_at(expr, path), true),
    decreases path.len(),
{
    if path.len() > 0 {
        lemma_first_accepted_is_path(
            verdict,
            children(expr.kind)[path.last()],
            path.drop_last(),
        );
    }
}

/// Finds the first expression that the test accepts, the given one included: each expression
/// is tried before its children, and each child before those behind it.
pub fn find_subexpr<'a, C: Fn(&Expr) -> bool>(expr: &'a mut Expr, test: &C) -> (found: Option<
    &'a mut Expr,
>)
    requires
        can_search(*test, *old(expr)),
    ensures
        match found {
            Some(node) => exists|path: Seq<int>|
                {
                    &&& #[trigger] first_accepted(verdict_of(*test), *old(expr), path)
                    &&& *node == node_at(*old(expr), path)
                    &&& replaced_at(*old(expr), path, *final(node), *final(expr))
                },
            None => all_rejected(verdict_of(*test), *old(expr)) && *final(expr) == *old(expr),
        },
{
    match search(expr, test) {
        Some(path) => {
            proof {
                lemma_first_accepted_is_path(verdict_of(*test), *expr, steps(path@));
            }
            Some(at_path_mut(expr, path))
        },
        None => None,
    }
}

/// What holds of the answers of one test holds of a search by it.
proof fn lemma_all_rejected_weaken(narrow: Verdict, wide: Verdict, expr: Expr)
    requires
        forall|node: Expr, answer: bool| #[trigger]
            narrow(node, answer) ==> wide(node, answer),
        all_rejected(narrow, expr),
    ensures
        all_rejected(wide, expr),
    decreases expr,
{
    lemma_children_smaller(expr);
    assert(narrow(expr, false));
    assert forall|i: int| 0 <= i < children(expr.kind).len() implies all_rejected(
        wide,
        #[trigger] children(expr.kind)[i],
    ) by {
        lemma_all_rejected_weaken(narrow, wide, children(expr.kind)[i]);
    }
}

/// What holds of the answers of one test holds of a search by it.
proof fn lemma_first_accepted_weaken(
    narrow: Verdict,
    wide: Verdict,
    expr: Expr,
    path: Seq<int>,
)
    requires
        forall|node: Expr, answer: bool| #[trigger]
            narrow(node, answer) ==> wide(node, answer),
        first_accepted(narrow, expr, path),
    ensures
        first_accepted(wide, expr, path),
    decreases path.len(),
{
    if path.len() == 0 {
        assert(narrow(expr, true));
    } else {
        assert(narrow(expr, false));
        assert forall|i: int| 0 <= i < path.last() implies all_rejected(
            wide,
            #[trigger] children(expr.kind)[i],
        ) by {
            lemma_all_rejected_weaken(narrow, wide, children(expr.kind)[i]);
        }
        lemma_first_accepted_weaken(
            narrow,
            wide,
            children(expr.kind)[path.last()],
            path.drop_last(),
        );
    }
}

/// A test that accepts every expression can be put to all of them.
proof fn lemma_can_search<C: Fn(&Expr) -> bool>(test: C, expr: Expr)
    requires
        forall|node: Expr| #[trigger] call_requires(test, (&node,)),
    ensures
        can_search(test, expr),
    decreases expr,
{
    lemma_children_smaller(expr);
    assert forall|i: int| 0 <= i < children(expr.kind).len() implies can_search(
        test,
        #[trigger] children(expr.kind)[i],
    ) by {
        lemma_can_search(test, children(expr.kind)[i]);
    }
}

impl Expr {
    /// The first expression with this id, the expression itself included.
    pub fn find_subexpr(&self, id: u32) -> (found: Option<&Expr>)
        requires
            id <= MAX_NODE_ID,
        ensures
            match found {
                Some(node) => exists|path: Seq<int>|
                    {
                        &&& #[trigger] first_accepted(has_id(NodeId(id)), *self, path)
                        &&& *node == node_at(*self, path)
                    },
                None => all_rejected(has_id(NodeId(id)), *self),
            },
    {
        let node_id: NodeId = NodeId::from_u32(id);
        let test = |sub_expr: &Expr| -> (answer: bool)
            ensures
                answer == (sub_expr.id == node_id),
            { sub_expr.id == node_id };
        proof {
            lemma_can_search(test, *self);
        }
        match search(self, &test) {
            Some(path) => {
                proof {
                    lemma_first_accepted_weaken(
                        verdict_of(test),
                        has_id(node_id),
                        *self,
                        steps(path@),
                    );
                    lemma_first_accepted_is_path(has_id(node_id), *self, steps(path@));
                }
                Some(at_path(self, &path))
            },
            None => {
                proof {
                    lemma_all_rejected_weaken(verdict_of(test), has_id(node_id), *self);
                }
                None
            },
        }
    }
}

/// A property that holds throughout an expression holds at the end of every path.
pub proof fn holds_at_every_path(
    property: spec_fn(Expr) -> bool,
    expr: Expr,
    path: Seq<int>,
)
    requires
        holds_throughout(property, expr),
        is_path(expr, path),
    ensures
        property(node_at(expr, path)),
    decreases path.len(),
{
    if path.len() > 0 {
        holds_at_every_path(
            property,
            children(expr.kind)[path.last()],
            path.drop_last(),
        );
    }
}

/// A search by id finds nothing exactly where no expression that it looks into has the id.
pub proof fn nothing_found_iff_absent(expr: Expr, id: NodeId)
    ensures
        all_rejected(has_id(id), expr) <==> forall|path: Seq<int>| #[trigger]
            is_path(expr, path) ==> node_at(expr, path).id != id,
{
    if all_rejected(has_id(id), expr) {
        assert forall|path: Seq<int>| #[trigger] is_path(expr, path) implies node_at(
            expr,
            path,
        ).id != id by {
            holds_at_every_path(|node: Expr| has_id(id)(node, false), expr, path);
        }
    }
    if forall|path: Seq<int>| #[trigger] is_path(expr, path) ==> node_at(expr, path).id != id {
        lemma_absent_is_rejected(expr, id);
    }
}

/// Where no expression has the id, every one of them is turned down.
proof fn lemma_absent_is_rejected(expr: Expr, id: NodeId)
    requires
        forall|path: Seq<int>| #[trigger] is_path(expr, path) ==> node_at(expr, path).id != id,
    ensures
        all_rejected(has_id(id), expr),
    decreases expr,
{
    lemma_children_smaller(expr);
    assert(is_path(expr, Seq::<int>::empty()));
    assert forall|i: int| 0 <= i < children(expr.kind).len() implies all_rejected(
        has_id(id),
        #[trigger] children(expr.kind)[i],
    ) by {
        let child = children(expr.kind)[i];
        assert forall|path: Seq<int>| #[trigger] is_path(child, path) implies node_at(
            child,
            path,
        ).id != id by {
            let longer = path.push(i);
            assert(longer.drop_last() =~= path);
            assert(is_path(expr, longer));
            assert(node_at(expr, longer) == node_at(child, path));
        }
        lemma_absent_is_rejected(child, id);
    }
}

/// The expression that a search by id finds is the only one that it may find.
pub proof fn found_is_unique(expr: Expr, id: NodeId, path: Seq<int>, other: Seq<int>)
    requires
        first_accepted(has_id(id), expr, path),
        first_accepted(has_id(id), expr, other),
    ensures
        path == other,
    decreases path.len(),
{
    if path.len() > 0 && other.len() > 0 {
        lemma_accepted_not_rejected(
            expr,
            id,
            path,
        );
        lemma_accepted_not_rejected(
            expr,
            id,
            other,
        );
        if path.last() == other.last() {
            found_is_unique(
                children(expr.kind)[path.last()],
                id,
                path.drop_last(),
                other.drop_last(),
            );
            assert(path =~= path.drop_last().push(path.last()));
            assert(other =~= other.drop_last().push(other.last()));
        }
    } else {
        assert(path =~= other);
    }
}

/// The child on the way to an accepted expression was not turned down throughout.
proof fn lemma_accepted_not_rejected(expr: Expr, id: NodeId, path: Seq<int>)
    requires
        first_accepted(has_id(id), expr, path),
        path.len() > 0,
    ensures
        !all_rejected(has_id(id), children(expr.kind)[path.last()]),
{
    let child = children(expr.kind)[path.last()];
    lemma_first_accepted_is_path(has_id(id), child, path.drop_last());
    if all_rejected(has_id(id), child) {
        holds_at_every_path(|node: Expr| has_id(id)(node, false), child, path.drop_last());
    }
}

/// What is put in the place of an expression is there afterwards.
pub proof fn replacement_is_in_place(before: Expr, path: Seq<int>, node: Expr, after: Expr)
    requires
        is_path(before, path),
        replaced_at(before, path, node, after),
    ensures
        is_path(after, path),
        node_at(after, path) == node,
    decreases path.len(),
{
    if path.len() > 0 {
        let child = choose|child: Expr|
            #![trigger child_replaced(before, path.last(), child, after)]
            child_replaced(before, path.last(), child, after) && replaced_at(
                children(before.kind)[path.last()],
                path.drop_last(),
                node,
                child,
            );
        replacement_is_in_place(
            children(before.kind)[path.last()],
            path.drop_last(),
            node,
            child,
        );
    }
}

/// What stands beside the way to a replaced expression stays as it was.
pub proof fn replacement_leaves_the_rest(
    before: Expr,
    path: Seq<int>,
    node: Expr,
    after: Expr,
    index: int,
)
    requires
        is_path(before, path),
        path.len() > 0,
        replaced_at(before, path, node, after),
        0 <= index < children(before.kind).len(),
        index != path.last(),
    ensures
        children(after.kind).len() == children(before.kind).len(),
        children(after.kind)[index] == children(before.kind)[index],
        only_kind_changed(before, after),
        same_but_children(before.kind, after.kind),
{
}

/// Which expressions the search looks into, form by form: the operand of each form that has one,
/// the operands of each form that has several from left to right, the callee before the arguments,
/// and of an `if` the condition before the alternative.
pub proof fn operands_are_looked_into(kind: ExprKind)
    ensures
        kind matches ExprKind::Box(e) ==> children(kind).len() == 1 && children(kind)[0] == *e,
        kind matches ExprKind::Unary(_, e) ==> children(kind).len() == 1 && children(kind)[0] == *e,
        kind matches ExprKind::Cast(e, _) ==> children(kind).len() == 1 && children(kind)[0] == *e,
        kind matches ExprKind::Type(e, _) ==> children(kind).len() == 1 && children(kind)[0] == *e,
        kind matches ExprKind::While(
            e,
            _,
            _,
        ) ==> children(kind).len() == 1 && children(kind)[0] == *e,
        kind matches ExprKind::ForLoop(
            _,
            e,
            _,
            _,
        ) ==> children(kind).len() == 1 && children(kind)[0] == *e,
        kind matches ExprKind::Match(e, _) ==> children(kind).len() == 1 && children(kind)[0] == *e,
        kind matches ExprKind::Closure(
            _,
            _,
            _,
            _,
            e,
            _,
        ) ==> children(kind).len() == 1 && children(kind)[0] == *e,
        kind matches ExprKind::Await(e) ==> children(kind).len() == 1 && children(kind)[0] == *e,
        kind matches ExprKind::Field(e, _) ==> children(kind).len() == 1 && children(kind)[0] == *e,
        kind matches ExprKind::AddrOf(
            _,
            e,
        ) ==> children(kind).len() == 1 && children(kind)[0] == *e,
        kind matches ExprKind::Repeat(
            e,
            _,
        ) ==> children(kind).len() == 1 && children(kind)[0] == *e,
        kind matches ExprKind::Paren(e) ==> children(kind).len() == 1 && children(kind)[0] == *e,
        kind matches ExprKind::Try(e) ==> children(kind).len() == 1 && children(kind)[0] == *e,
        kind matches ExprKind::Array(es) ==> children(kind) == es@,
        kind matches ExprKind::MethodCall(_, es) ==> children(kind) == es@,
        kind matches ExprKind::Tup(es) ==> children(kind) == es@,
        kind matches ExprKind::Call(f, es) ==> children(kind).len() == es@.len() + 1
            && children(kind)[0] == *f && children(kind).skip(1) == es@,
        kind matches ExprKind::Binary(
            _,
            l,
            r,
        ) ==> children(kind).len() == 2 && children(kind)[0] == *l
            && children(kind)[1] == *r,
        kind matches ExprKind::Assign(l, r) ==> children(kind).len() == 2 && children(kind)[0] == *l
            && children(kind)[1] == *r,
        kind matches ExprKind::AssignOp(
            _,
            l,
            r,
        ) ==> children(kind).len() == 2 && children(kind)[0] == *l
            && children(kind)[1] == *r,
        kind matches ExprKind::Index(l, r) ==> children(kind).len() == 2 && children(kind)[0] == *l
            && children(kind)[1] == *r,
        kind matches ExprKind::If(c, _, Some(e)) ==> children(kind).len() == 2
            && children(kind)[0] == *c && children(kind)[1] == *e,
        kind matches ExprKind::If(c, _, None) ==> children(kind).len() == 1
            && children(kind)[0] == *c,
        kind is Lit || kind is Let || kind is Loop || kind is Block || kind is Async
            || kind is TryBlock || kind is Range || kind is Path || kind is Break
            || kind is Continue || kind is Ret || kind is InlineAsm || kind is Mac
            || kind is Struct || kind is Yield || kind is Invalid ==> children(kind).len() == 0,
{
    if let ExprKind::Call(_, es) = kind {
        assert(children(kind).skip(1) =~= es@);
    }
}

/// The expression has this one as its only operand.
pub open spec fn has_sole_operand(kind: ExprKind, inner: Expr) -> bool {
    ||| kind matches ExprKind::Box(e) && *e == inner
    ||| kind matches ExprKind::Unary(_, e) && *e == inner
    ||| kind matches ExprKind::Cast(e, _) && *e == inner
    ||| kind matches ExprKind::Type(e, _) && *e == inner
    ||| kind matches ExprKind::While(e, _, _) && *e == inner
    ||| kind matches ExprKind::ForLoop(_, e, _, _) && *e == inner
    ||| kind matches ExprKind::Match(e, _) && *e == inner
    ||| kind matches ExprKind::Closure(_, _, _, _, e, _) && *e == inner
    ||| kind matches ExprKind::Await(e) && *e == inner
    ||| kind matches ExprKind::Field(e, _) && *e == inner
    ||| kind matches ExprKind::AddrOf(_, e) && *e == inner
    ||| kind matches ExprKind::Repeat(e, _) && *e == inner
    ||| kind matches ExprKind::Paren(e) && *e == inner
    ||| kind matches ExprKind::Try(e) && *e == inner
}

/// A search finds a child with the id where neither the expression nor anything in the children
/// before it has it, and finds nothing else.
pub proof fn child_with_the_id_is_found(expr: Expr, id: NodeId, index: int, path: Seq<int>)
    requires
        expr.id != id,
        0 <= index < children(expr.kind).len(),
        children(expr.kind)[index].id == id,
        forall|j: int|
            0 <= j < index ==> all_rejected(has_id(id), #[trigger] children(expr.kind)[j]),
    ensures
        first_accepted(has_id(id), expr, seq![index]),
        !all_rejected(has_id(id), expr),
        first_accepted(has_id(id), expr, path) ==> node_at(expr, path)
            == children(expr.kind)[index],
{
    let way = seq![index];
    assert(way.drop_last() =~= seq![]);
    assert(way.last() == index);
    assert(first_accepted(has_id(id), children(expr.kind)[index], way.drop_last()));
    assert(node_at(children(expr.kind)[index], way.drop_last()) == children(expr.kind)[index]);
    if all_rejected(has_id(id), expr) {
        assert(is_path(children(expr.kind)[index], way.drop_last()));
        holds_at_every_path(|node: Expr| has_id(id)(node, false), expr, way);
    }
    if first_accepted(has_id(id), expr, path) {
        found_is_unique(expr, id, path, way);
    }
}

/// The only operand of an expression is found where it has the id and the expression has not.
pub proof fn sole_operand_is_found(expr: Expr, inner: Expr, id: NodeId, path: Seq<int>)
    requires
        has_sole_operand(expr.kind, inner),
        expr.id != id,
        inner.id == id,
    ensures
        !all_rejected(has_id(id), expr),
        first_accepted(has_id(id), expr, path) ==> node_at(expr, path) == inner,
{
    operands_are_looked_into(expr.kind);
    child_with_the_id_is_found(expr, id, 0, path);
}

/// The right operand of an expression with two is found where it has the id and neither the
/// expression nor anything in the left operand has it.
pub proof fn right_operand_is_found(
    expr: Expr,
    left: Expr,
    right: Expr,
    id: NodeId,
    path: Seq<int>,
)
    requires
        (expr.kind matches ExprKind::Binary(_, l, r) && *l == left && *r == right) || (
        expr.kind matches ExprKind::Assign(l, r) && *l == left && *r == right) || (
        expr.kind matches ExprKind::AssignOp(_, l, r) && *l == left && *r == right) || (
        expr.kind matches ExprKind::Index(l, r) && *l == left && *r == right) || (
        expr.kind matches ExprKind::If(l, _, Some(r)) && *l == left && *r == right),
        expr.id != id,
        right.id == id,
        all_rejected(has_id(id), left),
    ensures
        !all_rejected(has_id(id), expr),
        first_accepted(has_id(id), expr, path) ==> node_at(expr, path) == right,
{
    operands_are_looked_into(expr.kind);
    child_with_the_id_is_found(expr, id, 1, path);
}

/// Putting the expression back that stands at the end of a path changes nothing.
pub proof fn putting_back_changes_nothing(before: Expr, path: Seq<int>, after: Expr)
    requires
        is_path(before, path),
        replaced_at(before, path, node_at(before, path), after),
    ensures
        before.same(after),
    decreases path.len(),
{
    if path.len() == 0 {
        before.same_as_itself();
    } else {
        let index = path.last();
        let node = node_at(before, path);
        let old_child = children(before.kind)[index];
        let child = choose|child: Expr|
            #![trigger child_replaced(before, index, child, after)]
            child_replaced(before, index, child, after) && replaced_at(
                old_child,
                path.drop_last(),
                node,
                child,
            );
        putting_back_changes_nothing(old_child, path.drop_last(), child);
        let b = children(before.kind);
        let a = children(after.kind);
        assert(a.len() == b.len());
        assert forall|i: int| 0 <= i < b.len() implies (#[trigger] b[i]).same(a[i]) by {
            if i != index {
                b[i].same_as_itself();
            }
        }
        lemma_same_children(before.kind, after.kind);
        attributes_same_as_themselves(before.attrs@);
    }
}

/// Forms that agree in all but the children hold the same contents where the children do.
proof fn lemma_same_children(kind: ExprKind, other: ExprKind)
    requires
        same_but_children(kind, other),
        children(kind).len() == children(other).len(),
        forall|i: int|
            0 <= i < children(kind).len() ==> (#[trigger] children(kind)[i]).same(
                children(other)[i],
            ),
    ensures
        kind.same(other),
{
    let b = children(kind);
    let a = children(other);
    match (kind, other) {
        (ExprKind::Box(expr), ExprKind::Box(expr2)) => {
            assert(b[0].same(a[0]));
        },
        (ExprKind::Array(exprs), ExprKind::Array(exprs2)) => {
            assert forall|i: int| 0 <= i < exprs@.len() implies (#[trigger] exprs@[i]).same(
                exprs2@[i],
            ) by {
                assert(b[i].same(a[i]));
            }
        },
        (ExprKind::Call(func, params), ExprKind::Call(func2, params2)) => {
            assert(b[0].same(a[0]));
            assert forall|i: int| 0 <= i < params@.len() implies (#[trigger] params@[i]).same(
                params2@[i],
            ) by {
                assert(b[i + 1].same(a[i + 1]));
            }
        },
        (ExprKind::MethodCall(segment, exprs), ExprKind::MethodCall(segment2, exprs2)) => {
            assert forall|i: int| 0 <= i < exprs@.len() implies (#[trigger] exprs@[i]).same(
                exprs2@[i],
            ) by {
                assert(b[i].same(a[i]));
            }
            segment.same_as_itself();
        },
        (ExprKind::Tup(exprs), ExprKind::Tup(exprs2)) => {
            assert forall|i: int| 0 <= i < exprs@.len() implies (#[trigger] exprs@[i]).same(
                exprs2@[i],
            ) by {
                assert(b[i].same(a[i]));
            }
        },
        (ExprKind::Binary(op, left, right), ExprKind::Binary(op2, left2, right2)) => {
            assert(b[0].same(a[0]));
            assert(b[1].same(a[1]));
        },
        (ExprKind::Unary(op, expr), ExprKind::Unary(op2, expr2)) => {
            assert(b[0].same(a[0]));
        },
        (ExprKind::Cast(expr, ty), ExprKind::Cast(expr2, ty2)) => {
            assert(b[0].same(a[0]));
            ty.same_as_itself();
        },
        (ExprKind::Type(expr, ty), ExprKind::Type(expr2, ty2)) => {
            assert(b[0].same(a[0]));
            ty.same_as_itself();
        },
        (ExprKind::If(cond, block, otherwise), ExprKind::If(cond2, block2, otherwise2)) => {
            assert(b[0].same(a[0]));
            block.same_as_itself();
            if otherwise is Some {
                assert(b[1].same(a[1]));
            }
        },
        (ExprKind::While(expr, block, label), ExprKind::While(expr2, block2, label2)) => {
            assert(b[0].same(a[0]));
            block.same_as_itself();
            if let Some(x) = label {
                x.same_as_itself();
            }
        },
        (
            ExprKind::ForLoop(pat, expr, block, label),
            ExprKind::ForLoop(pat2, expr2, block2, label2),
        ) => {
            assert(b[0].same(a[0]));
            pat.same_as_itself();
            block.same_as_itself();
            if let Some(x) = label {
                x.same_as_itself();
            }
        },
        (ExprKind::Match(expr, arms), ExprKind::Match(expr2, arms2)) => {
            assert(b[0].same(a[0]));
            arms_same_as_themselves(arms@);
        },
        (
            ExprKind::Closure(capture, asyncness, movability, decl, expr, span),
            ExprKind::Closure(capture2, asyncness2, movability2, decl2, expr2, span2),
        ) => {
            assert(b[0].same(a[0]));
            decl.same_as_itself();
        },
        (ExprKind::Await(expr), ExprKind::Await(expr2)) => {
            assert(b[0].same(a[0]));
        },
        (ExprKind::Assign(left, right), ExprKind::Assign(left2, right2)) => {
            assert(b[0].same(a[0]));
            assert(b[1].same(a[1]));
        },
        (ExprKind::AssignOp(op, left, right), ExprKind::AssignOp(op2, left2, right2)) => {
            assert(b[0].same(a[0]));
            assert(b[1].same(a[1]));
        },
        (ExprKind::Field(expr, ident), ExprKind::Field(expr2, ident2)) => {
            assert(b[0].same(a[0]));
            ident.same_as_itself();
        },
        (ExprKind::Index(left, right), ExprKind::Index(left2, right2)) => {
            assert(b[0].same(a[0]));
            assert(b[1].same(a[1]));
        },
        (ExprKind::AddrOf(mutability, expr), ExprKind::AddrOf(mutability2, expr2)) => {
            assert(b[0].same(a[0]));
        },
        (ExprKind::Repeat(expr, constant), ExprKind::Repeat(expr2, constant2)) => {
            assert(b[0].same(a[0]));
            constant.same_as_itself();
        },
        (ExprKind::Paren(expr), ExprKind::Paren(expr2)) => {
            assert(b[0].same(a[0]));
        },
        (ExprKind::Try(expr), ExprKind::Try(expr2)) => {
            assert(b[0].same(a[0]));
        },
        _ => {
            kind.same_as_itself();
        },
    }
}

/// An expression that is changed in its form alone keeps its id, its place and its attributes.
pub proof fn changed_form_keeps_the_rest(before: Expr, after: Expr)
    requires
        only_kind_changed(before, after),
    ensures
        after.id == before.id,
        after.span == before.span,
        after.attrs == before.attrs,
{
}

/// A test that can be put to every expression can be searched with anywhere.
pub proof fn total_test_can_search<C: Fn(&Expr) -> bool>(test: C, expr: Expr)
    requires
        forall|node: Expr| #[trigger] call_requires(test, (&node,)),
    ensures
        can_search(test, expr),
{
    lemma_can_search(test, expr);
}

/// One path leads to an expression that comes before the one that the other leads to: it leads to
/// one on the way, or turns off to an earlier child.
pub open spec fn comes_before(path: Seq<int>, other: Seq<int>) -> bool
    decreases other.len(),
{
    if other.len() == 0 {
        false
    } else if path.len() == 0 {
        true
    } else if path.last() == other.last() {
        comes_before(path.drop_last(), other.drop_last())
    } else {
        path.last() < other.last()
    }
}

/// The test accepted the expression that was found, and turned down every one that comes before it.
pub proof fn found_is_the_first_accepted(
    verdict: Verdict,
    expr: Expr,
    path: Seq<int>,
    other: Seq<int>,
)
    requires
        first_accepted(verdict, expr, path),
    ensures
        is_path(expr, path),
        verdict(node_at(expr, path), true),
        is_path(expr, other) && comes_before(other, path) ==> verdict(
            node_at(expr, other),
            false,
        ),
    decreases path.len(),
{
    lemma_first_accepted_is_path(verdict, expr, path);
    if is_path(expr, other) && comes_before(other, path) && other.len() > 0 {
        if other.last() == path.last() {
            found_is_the_first_accepted(
                verdict,
                children(expr.kind)[path.last()],
                path.drop_last(),
                other.drop_last(),
            );
        } else {
            holds_at_every_path(
                |node: Expr| verdict(node, false),
                children(expr.kind)[other.last()],
                other.drop_last(),
            );
        }
    }
}

/// Where nothing was found, the test turned down every expression that is looked into.
pub proof fn nothing_found_means_all_turned_down(verdict: Verdict, expr: Expr, path: Seq<int>)
    requires
        all_rejected(verdict, expr),
        is_path(expr, path),
    ensures
        verdict(node_at(expr, path), false),
{
    holds_at_every_path(|node: Expr| verdict(node, false), expr, path);
}

/// What a closure may answer is what it may give back, and having an id is having it.
pub proof fn verdicts_are_answers<C: Fn(&Expr) -> bool>(
    test: C,
    id: NodeId,
    expr: Expr,
    answer: bool,
)
    ensures
        verdict_of(test)(expr, answer) <==> call_ensures(test, (&expr,), answer),
        has_id(id)(expr, answer) <==> answer == (expr.id == id),
{
}

/// Every child is at the end of a path, and so is whatever is at the end of a path from a child.
pub proof fn paths_are_followed_step_by_step(expr: Expr, index: int, path: Seq<int>)
    requires
        0 <= index < children(expr.kind).len(),
    ensures
        is_path(expr, seq![]),
        node_at(expr, seq![]) == expr,
        is_path(expr, path.push(index)) <==> is_path(children(expr.kind)[index], path),
        node_at(expr, path.push(index)) == node_at(children(expr.kind)[index], path),
{
    assert(path.push(index).drop_last() =~= path);
    assert(path.push(index).last() == index);
}

} // verus!
