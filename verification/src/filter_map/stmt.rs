//! The visitor on statements.

use vstd::prelude::*;

use crate::ast::attr::{Mac, attributes_same_as_themselves};
use crate::ast::expr::Expr;
use crate::ast::stmt::{Block, Local, MacStmt, Stmt, StmtKind, same_stmts};
use crate::filter_map::{Rules, between};
use crate::settled::stmt::settled_stmts;

verus! {

impl<
    S,
    F: Fn(&S, &str) -> (S, bool),
    G: Fn(&S, &Expr) -> (S, Expr),
    H: Fn(&S, &Mac) -> S,
> Rules<S, F, G, H> {
    /// A block can be gone through.
    pub open spec fn can_visit_block(self, node: Block) -> bool
        decreases node,
    {
        self.can_visit_stmts(node.stmts@)
    }

    /// `after` is `before` with every expression in it visited in order.
    pub open spec fn visited_block(self, from: S, before: Block, to: S, after: Block) -> bool
        decreases before,
    {
        &&& self.visited_stmts(from, before.stmts@, to, after.stmts@)
        &&& before.id == after.id
        &&& before.rules == after.rules
        &&& before.span == after.span
    }

    /// Goes through a block.
    pub fn visit_block(&self, state: &mut S, node: &mut Block)
        requires
            self.can_visit_block(*old(node)),
        ensures
            self.visited_block(*old(state), *old(node), *final(state), *final(node)),
        decreases *old(node),
    {
        self.visit_stmts(state, &mut node.stmts);
    }

    /// A visit that accepts nothing settles a block, and leaves it as it is where it was settled.
    pub(crate) proof fn quiet_visit_of_block(self, from: S, before: Block, to: S, after: Block)
        requires
            self.accepts_nothing(),
            self.visited_block(from, before, to, after),
        ensures
            after.settled(),
            before.settled() ==> before.same(after),
        decreases before,
    {
        self.quiet_visit_of_stmts(from, before.stmts@, to, after.stmts@);
    }

    /// `after` is `before`, with every expression in it visited in order where it is there.
    pub open spec fn visited_optional_block(
        self,
        from: S,
        before: Option<Box<Block>>,
        to: S,
        after: Option<Box<Block>>,
    ) -> bool
        decreases before,
    {
        match (before, after) {
            (Some(x), Some(y)) => self.visited_block(from, *x, to, *y),
            (None, None) => from == to,
            _ => false,
        }
    }

    /// Goes through a block where it is there.
    pub fn visit_optional_block(&self, state: &mut S, node: &mut Option<Box<Block>>)
        requires
            *old(node) matches Some(x) ==> self.can_visit_block(*x),
        ensures
            self.visited_optional_block(*old(state), *old(node), *final(state), *final(node)),
        decreases *old(node),
    {
        if let Some(x) = node {
            self.visit_block(state, x);
        }
    }

    /// A visit that accepts nothing settles what is there, and leaves it as it is where it was
    /// settled.
    pub(crate) proof fn quiet_visit_of_optional_block(
        self,
        from: S,
        before: Option<Box<Block>>,
        to: S,
        after: Option<Box<Block>>,
    )
        requires
            self.accepts_nothing(),
            self.visited_optional_block(from, before, to, after),
        ensures
            after matches Some(y) ==> y.settled(),
            match (before, after) {
                (Some(x), Some(y)) => x.settled() ==> x.same(*y),
                (None, None) => true,
                _ => false,
            },
        decreases before,
    {
        if let (Some(x), Some(y)) = (before, after) {
            self.quiet_visit_of_block(from, *x, to, *y);
        }
    }

    /// A `let` statement can be gone through.
    pub open spec fn can_visit_local(self, node: Local) -> bool
        decreases node,
    {
        &&& self.can_visit_pat(*node.pat)
        &&& match node.ty {
            Some(x) => self.can_visit_ty(*x),
            None => true,
        }
        &&& match node.init {
            Some(x) => self.can_visit_expr(*x),
            None => true,
        }
    }

    /// `after` is `before` with every expression in it visited in order.
    pub open spec fn visited_local(self, from: S, before: Local, to: S, after: Local) -> bool
        decreases before,
    {
        &&& exists|first_mid: S, second_mid: S|
            {
                &&& #[trigger] between(first_mid)
                &&& #[trigger] between(second_mid)
                &&& self.visited_pat(from, *before.pat, first_mid, *after.pat)
                &&& self.visited_optional_ty(first_mid, before.ty, second_mid, after.ty)
                &&& self.visited_optional_expr(second_mid, before.init, to, after.init)
            }
        &&& before.id == after.id
        &&& before.span == after.span
        &&& before.attrs == after.attrs
    }

    /// Goes through a `let` statement.
    pub fn visit_local(&self, state: &mut S, node: &mut Local)
        requires
            self.can_visit_local(*old(node)),
        ensures
            self.visited_local(*old(state), *old(node), *final(state), *final(node)),
        decreases *old(node),
    {
        self.visit_pat(state, &mut node.pat);
        assert(between(*state));
        self.visit_optional_ty(state, &mut node.ty);
        assert(between(*state));
        self.visit_optional_expr(state, &mut node.init);
    }

    /// A visit that accepts nothing settles a `let` statement, and leaves it as it is where it was
    /// settled.
    pub(crate) proof fn quiet_visit_of_local(self, from: S, before: Local, to: S, after: Local)
        requires
            self.accepts_nothing(),
            self.visited_local(from, before, to, after),
        ensures
            after.settled(),
            before.settled() ==> before.same(after),
        decreases before,
    {
        let (first_mid, second_mid) = choose|first_mid: S, second_mid: S|
            {
                &&& #[trigger] between(first_mid)
                &&& #[trigger] between(second_mid)
                &&& self.visited_pat(from, *before.pat, first_mid, *after.pat)
                &&& self.visited_optional_ty(first_mid, before.ty, second_mid, after.ty)
                &&& self.visited_optional_expr(second_mid, before.init, to, after.init)
            };
        self.quiet_visit_of_pat(from, *before.pat, first_mid, *after.pat);
        self.quiet_visit_of_optional_ty(first_mid, before.ty, second_mid, after.ty);
        self.quiet_visit_of_optional_expr(second_mid, before.init, to, after.init);
        attributes_same_as_themselves(before.attrs@);
    }

    /// A macro call in statement position can be gone through.
    pub open spec fn can_visit_mac_stmt(self, node: MacStmt) -> bool
        decreases node,
    {
        self.can_visit_mac(node.mac)
    }

    /// `after` is `before` with every expression in it visited in order.
    pub open spec fn visited_mac_stmt(self, from: S, before: MacStmt, to: S, after: MacStmt) -> bool
        decreases before,
    {
        &&& self.visited_mac(from, before.mac, to, after.mac)
        &&& before.style == after.style
        &&& before.attrs == after.attrs
    }

    /// Goes through a macro call in statement position.
    pub fn visit_mac_stmt(&self, state: &mut S, node: &mut MacStmt)
        requires
            self.can_visit_mac_stmt(*old(node)),
        ensures
            self.visited_mac_stmt(*old(state), *old(node), *final(state), *final(node)),
        decreases *old(node),
    {
        self.visit_mac(state, &mut node.mac);
    }

    /// A visit that accepts nothing settles a macro call in statement position, and leaves it as it
    /// is where it was settled.
    pub(crate) proof fn quiet_visit_of_mac_stmt(
        self,
        from: S,
        before: MacStmt,
        to: S,
        after: MacStmt,
    )
        requires
            self.accepts_nothing(),
            self.visited_mac_stmt(from, before, to, after),
        ensures
            after.settled(),
            before.settled() ==> before.same(after),
        decreases before,
    {
        self.quiet_visit_of_mac(from, before.mac, to, after.mac);
        attributes_same_as_themselves(before.attrs@);
    }

    /// The form of a statement can be gone through.
    pub open spec fn can_visit_stmt_kind(self, node: StmtKind) -> bool
        decreases node,
    {
        match node {
            StmtKind::Local(local) => self.can_visit_local(*local),
            StmtKind::Item(item) => self.can_visit_item(*item),
            StmtKind::Expr(expr) => self.can_visit_expr(*expr),
            StmtKind::Semi(expr) => self.can_visit_expr(*expr),
            StmtKind::Mac(mac_stmt) => self.can_visit_mac_stmt(*mac_stmt),
        }
    }

    /// `after` is `before` with every expression in it visited in order.
    pub open spec fn visited_stmt_kind(
        self,
        from: S,
        before: StmtKind,
        to: S,
        after: StmtKind,
    ) -> bool
        decreases before,
    {
        match (before, after) {
            (StmtKind::Local(local), StmtKind::Local(local2)) => {
                self.visited_local(from, *local, to, *local2)
            },
            (StmtKind::Item(item), StmtKind::Item(item2)) => {
                self.visited_item(from, *item, to, *item2)
            },
            (StmtKind::Expr(expr), StmtKind::Expr(expr2)) => {
                self.visited_expr(from, *expr, to, *expr2)
            },
            (StmtKind::Semi(expr), StmtKind::Semi(expr2)) => {
                self.visited_expr(from, *expr, to, *expr2)
            },
            (StmtKind::Mac(mac_stmt), StmtKind::Mac(mac_stmt2)) => {
                self.visited_mac_stmt(from, *mac_stmt, to, *mac_stmt2)
            },
            _ => before == after && from == to,
        }
    }

    /// Goes through the form of a statement.
    pub fn visit_stmt_kind(&self, state: &mut S, node: &mut StmtKind)
        requires
            self.can_visit_stmt_kind(*old(node)),
        ensures
            self.visited_stmt_kind(*old(state), *old(node), *final(state), *final(node)),
        decreases *old(node),
    {
        match node {
            StmtKind::Local(local) => {
                self.visit_local(state, local);
            },
            StmtKind::Item(item) => {
                self.visit_item(state, item);
            },
            StmtKind::Expr(expr) => {
                self.visit_expr(state, expr);
            },
            StmtKind::Semi(expr) => {
                self.visit_expr(state, expr);
            },
            StmtKind::Mac(mac_stmt) => {
                self.visit_mac_stmt(state, mac_stmt);
            },
        }
    }

    /// A visit that accepts nothing settles the form of a statement, and leaves it as it is where
    /// it was settled.
    pub(crate) proof fn quiet_visit_of_stmt_kind(
        self,
        from: S,
        before: StmtKind,
        to: S,
        after: StmtKind,
    )
        requires
            self.accepts_nothing(),
            self.visited_stmt_kind(from, before, to, after),
        ensures
            after.settled(),
            before.settled() ==> before.same(after),
        decreases before,
    {
        match (before, after) {
            (StmtKind::Local(local), StmtKind::Local(local2)) => {
                self.quiet_visit_of_local(from, *local, to, *local2);
            },
            (StmtKind::Item(item), StmtKind::Item(item2)) => {
                self.quiet_visit_of_item(from, *item, to, *item2);
            },
            (StmtKind::Expr(expr), StmtKind::Expr(expr2)) => {
                self.quiet_visit_of_expr(from, *expr, to, *expr2);
            },
            (StmtKind::Semi(expr), StmtKind::Semi(expr2)) => {
                self.quiet_visit_of_expr(from, *expr, to, *expr2);
            },
            (StmtKind::Mac(mac_stmt), StmtKind::Mac(mac_stmt2)) => {
                self.quiet_visit_of_mac_stmt(from, *mac_stmt, to, *mac_stmt2);
            },
            _ => {},
        }
    }

    /// A statement can be gone through.
    pub open spec fn can_visit_stmt(self, node: Stmt) -> bool
        decreases node,
    {
        self.can_visit_stmt_kind(node.kind)
    }

    /// `after` is `before` with every expression in it visited in order.
    pub open spec fn visited_stmt(self, from: S, before: Stmt, to: S, after: Stmt) -> bool
        decreases before,
    {
        &&& self.visited_stmt_kind(from, before.kind, to, after.kind)
        &&& before.id == after.id
        &&& before.span == after.span
    }

    /// Goes through a statement.
    pub fn visit_stmt(&self, state: &mut S, node: &mut Stmt)
        requires
            self.can_visit_stmt(*old(node)),
        ensures
            self.visited_stmt(*old(state), *old(node), *final(state), *final(node)),
        decreases *old(node),
    {
        self.visit_stmt_kind(state, &mut node.kind);
    }

    /// A visit that accepts nothing settles a statement, and leaves it as it is where it was
    /// settled.
    pub(crate) proof fn quiet_visit_of_stmt(self, from: S, before: Stmt, to: S, after: Stmt)
        requires
            self.accepts_nothing(),
            self.visited_stmt(from, before, to, after),
        ensures
            after.settled(),
            before.settled() ==> before.same(after),
        decreases before,
    {
        self.quiet_visit_of_stmt_kind(from, before.kind, to, after.kind);
    }

    /// A list of statements can be gone through.
    pub open spec fn can_visit_stmts(self, list: Seq<Stmt>) -> bool
        decreases list,
    {
        forall|i: int| 0 <= i < list.len() ==> self.can_visit_stmt(#[trigger] list[i])
    }

    /// `after` is `before` with every expression in it visited in order.
    pub open spec fn visited_stmts(
        self,
        from: S,
        before: Seq<Stmt>,
        to: S,
        after: Seq<Stmt>,
    ) -> bool
        decreases before,
    {
        &&& before.len() == after.len()
        &&& if before.len() == 0 {
            from == to
        } else {
            exists|mid: S|
                {
                    &&& #[trigger] between(mid)
                    &&& self.visited_stmts(from, before.drop_last(), mid, after.drop_last())
                    &&& self.visited_stmt(mid, before.last(), to, after.last())
                }
        }
    }

    /// Goes through a list of statements.
    pub fn visit_stmts(&self, state: &mut S, list: &mut Vec<Stmt>)
        requires
            self.can_visit_stmts(old(list)@),
        ensures
            self.visited_stmts(*old(state), old(list)@, *final(state), final(list)@),
        decreases *old(list),
    {
        let ghost from = *state;
        let mut i: usize = 0;
        while i < list.len()
            invariant
                i <= list@.len(),
                list@.len() == old(list)@.len(),
                self.can_visit_stmts(old(list)@),
                self.visited_stmts(
                    from,
                    old(list)@.take(i as int),
                    *state,
                    list@.take(i as int),
                ),
                forall|j: int| i <= j < list@.len() ==> list@[j] == old(list)@[j],
            decreases list@.len() - i,
        {
            let ghost done = list@.take(i as int);
            assert(between(*state));
            assert(list@[i as int] == old(list)@[i as int]);
            self.visit_stmt(state, &mut list[i]);
            i += 1;
            assert(old(list)@.take(i as int).drop_last() =~= old(list)@.take(i - 1));
            assert(list@.take(i as int).drop_last() =~= done);
        }
        assert(old(list)@.take(i as int) =~= old(list)@);
        assert(list@.take(i as int) =~= list@);
    }

    /// A visit that accepts nothing settles a list, and leaves it as it is where it was settled.
    pub(crate) proof fn quiet_visit_of_stmts(
        self,
        from: S,
        before: Seq<Stmt>,
        to: S,
        after: Seq<Stmt>,
    )
        requires
            self.accepts_nothing(),
            self.visited_stmts(from, before, to, after),
        ensures
            settled_stmts(after),
            settled_stmts(before) ==> same_stmts(before, after),
        decreases before,
    {
        if before.len() > 0 {
            let mid = choose|mid: S|
                {
                    &&& #[trigger] between(mid)
                    &&& self.visited_stmts(from, before.drop_last(), mid, after.drop_last())
                    &&& self.visited_stmt(mid, before.last(), to, after.last())
                };
            self.quiet_visit_of_stmts(from, before.drop_last(), mid, after.drop_last());
            self.quiet_visit_of_stmt(mid, before.last(), to, after.last());
            assert forall|i: int| 0 <= i < after.len() implies (#[trigger] after[i]).settled() by {
                if i < after.len() - 1 {
                    assert(after[i] == after.drop_last()[i]);
                }
            }
            if settled_stmts(before) {
                assert forall|i: int| 0 <= i < before.len() - 1 implies (
                    #[trigger] before.drop_last()[i]
                ).settled() by {
                    assert(before.drop_last()[i] == before[i]);
                }
                assert forall|i: int| 0 <= i < before.len() implies (#[trigger] before[i]).same(
                    after[i],
                ) by {
                    if i < before.len() - 1 {
                        assert(before.drop_last()[i].same(after.drop_last()[i]));
                    }
                }
            }
        }
    }
}

} // verus!
