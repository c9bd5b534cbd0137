//! What statements are made of.

use vstd::prelude::*;

use crate::ast::attr::Mac;
use crate::ast::expr::Expr;
use crate::ast::stmt::{Block, Local, MacStmt, Stmt, StmtKind};
use crate::filter_map::{Rules, between};
use crate::parts::expr::optional_expr_parts;
use crate::parts::ty::optional_ty_parts;
use crate::parts::{
    Part, group_contains, nodes_in_joined_parts, nodes_in_one_part, nodes_in_parts, one_if, parts,
};
use crate::visit::stmt::{
    nodes_in_block, nodes_in_local, nodes_in_stmt, nodes_in_stmt_kind, nodes_in_stmts,
};
use crate::visit::{Visited, joined};

verus! {

/// What a block is made of, in the order of the text.
pub open spec fn parts_of_block(node: Block) -> Seq<Part> {
    stmts_parts(node.stmts@)
}

/// A block as a part, where it is there.
pub open spec fn optional_block_parts(node: Option<Box<Block>>) -> Seq<Part> {
    match node {
        Some(x) => seq![Part::Block(*x)],
        None => seq![],
    }
}

impl<
    S,
    F: Fn(&S, &str) -> (S, bool),
    G: Fn(&S, &Expr) -> (S, Expr),
    H: Fn(&S, &Mac) -> S,
> Rules<S, F, G, H> {
    /// Going through a block is going through what it is made of, part by part.
    pub proof fn goes_through_the_parts_of_block(
        self,
        from: S,
        before: Block,
        to: S,
        after: Block,
    )
        requires
            self.visited_block(from, before, to, after),
        ensures
            self.visited_parts(from, parts_of_block(before), to, parts_of_block(after)),
    {
        self.stmts_are_parts(from, before.stmts@, to, after.stmts@);
    }

    /// A visitor whose calls can always be made can go through a block.
    pub(crate) proof fn total_goes_through_block(self, node: Block)
        requires
            self.is_total(),
        ensures
            self.can_visit_block(node),
        decreases node,
    {
        assert forall|i: int| 0 <= i < node.stmts@.len() implies self.can_visit_stmt(
            #[trigger] node.stmts@[i],
        ) by {
            self.total_goes_through_stmt(node.stmts@[i]);
        }
    }

    /// Going through what may be there is going through it as a part.
    pub(crate) proof fn optional_block_is_part(
        self,
        from: S,
        before: Option<Box<Block>>,
        to: S,
        after: Option<Box<Block>>,
    )
        requires
            self.visited_optional_block(from, before, to, after),
        ensures
            self.visited_parts(
                from,
                optional_block_parts(before),
                to,
                optional_block_parts(after),
            ),
    {
        if let (Some(x), Some(y)) = (before, after) {
            self.single_part(from, Part::Block(*x), to, Part::Block(*y));
        }
    }
}

/// What is visited in a block is what is visited in what it is made of, part by part.
pub proof fn visits_the_parts_of_block(node: Block)
    ensures
        nodes_in_block(node) == nodes_in_parts(parts_of_block(node)),
{
    nodes_in_stmts_parts(node.stmts@, node.stmts@.len() as int);
    assert(node.stmts@.take(node.stmts@.len() as int) =~= node.stmts@);
}

/// Every node that a block holds in a field is a part of it.
pub proof fn fields_of_block_are_parts(node: Block)
    ensures
        (
            forall|i: int| 0 <= i < node.stmts@.len() ==> parts(
                Part::Block(node),
            ).contains(Part::Stmt(#[trigger] node.stmts@[i]))
        ),
{
    broadcast use group_contains;

    assert forall|i: int| 0 <= i < node.stmts@.len() implies stmts_parts(node.stmts@).contains(
        Part::Stmt(#[trigger] node.stmts@[i]),
    ) by {
        assert(stmts_parts(node.stmts@)[i] == Part::Stmt(node.stmts@[i]));
    }
}

/// What a `let` statement is made of, in the order of the text.
pub open spec fn parts_of_local(node: Local) -> Seq<Part> {
    seq![Part::Pat(*node.pat)] + (optional_ty_parts(node.ty) + optional_expr_parts(node.init))
}

impl<
    S,
    F: Fn(&S, &str) -> (S, bool),
    G: Fn(&S, &Expr) -> (S, Expr),
    H: Fn(&S, &Mac) -> S,
> Rules<S, F, G, H> {
    /// Going through a `let` statement is going through what it is made of, part by part.
    pub proof fn goes_through_the_parts_of_local(
        self,
        from: S,
        before: Local,
        to: S,
        after: Local,
    )
        requires
            self.visited_local(from, before, to, after),
        ensures
            self.visited_parts(from, parts_of_local(before), to, parts_of_local(after)),
    {
        let (first_mid, second_mid) = choose|first_mid: S, second_mid: S|
            {
                &&& #[trigger] between(first_mid)
                &&& #[trigger] between(second_mid)
                &&& self.visited_pat(from, *before.pat, first_mid, *after.pat)
                &&& self.visited_optional_ty(first_mid, before.ty, second_mid, after.ty)
                &&& self.visited_optional_expr(second_mid, before.init, to, after.init)
            };
        self.single_part(from, Part::Pat(*before.pat), first_mid, Part::Pat(*after.pat));
        self.optional_ty_is_part(first_mid, before.ty, second_mid, after.ty);
        self.optional_expr_is_part(second_mid, before.init, to, after.init);
        self.joined_parts(
            first_mid,
            optional_ty_parts(before.ty),
            second_mid,
            optional_ty_parts(after.ty),
            optional_expr_parts(before.init),
            to,
            optional_expr_parts(after.init),
        );
        self.joined_parts(
            from,
            seq![Part::Pat(*before.pat)],
            first_mid,
            seq![Part::Pat(*after.pat)],
            optional_ty_parts(before.ty) + optional_expr_parts(before.init),
            to,
            optional_ty_parts(after.ty) + optional_expr_parts(after.init),
        );
    }

    /// A visitor whose calls can always be made can go through a `let` statement.
    pub(crate) proof fn total_goes_through_local(self, node: Local)
        requires
            self.is_total(),
        ensures
            self.can_visit_local(node),
        decreases node,
    {
        self.total_goes_through_pat(*node.pat);
        if let Some(x) = node.ty {
            self.total_goes_through_ty(*x);
        }
        if let Some(x) = node.init {
            self.total_goes_through_expr(*x);
        }
    }
}

/// What is visited in a `let` statement is what is visited in what it is made of, part by part.
pub proof fn visits_the_parts_of_local(node: Local)
    ensures
        nodes_in_local(node) == nodes_in_parts(parts_of_local(node)),
{
    nodes_in_one_part(Part::Pat(*node.pat));
    if let Some(x) = node.ty {
        nodes_in_one_part(Part::Ty(*x));
    }
    if let Some(x) = node.init {
        nodes_in_one_part(Part::Expr(*x));
    }
    nodes_in_joined_parts(optional_ty_parts(node.ty), optional_expr_parts(node.init));
    nodes_in_joined_parts(
        seq![Part::Pat(*node.pat)],
        optional_ty_parts(node.ty) + optional_expr_parts(node.init),
    );
}

/// Every node that a `let` statement holds in a field is a part of it.
pub proof fn fields_of_local_are_parts(node: Local)
    ensures
        parts(Part::Local(node)).contains(Part::Pat(*node.pat)),
        (node.ty matches Some(x) ==> parts(Part::Local(node)).contains(Part::Ty(*x))),
        (node.init matches Some(x) ==> parts(Part::Local(node)).contains(Part::Expr(*x))),
{
    broadcast use group_contains;

}

/// The parts of a `let` statement stand in the order of the text.
pub proof fn parts_of_local_stand_in_order(node: Local)
    ensures
        parts(Part::Local(node)).len() == one_if(node.ty is Some) + one_if(node.init is Some) + 1,
        parts(Part::Local(node))[0] == Part::Pat(*node.pat),
        (node.ty matches Some(x) ==> parts(Part::Local(node))[1] == Part::Ty(*x)),
        (
            node.init matches Some(
                x,
            ) ==> parts(Part::Local(node))[one_if(node.ty is Some) + 1] == Part::Expr(*x)
        ),
{
}

/// What a macro call in statement position is made of, in the order of the text.
pub open spec fn parts_of_mac_stmt(node: MacStmt) -> Seq<Part> {
    seq![Part::Mac(node.mac)]
}

impl<
    S,
    F: Fn(&S, &str) -> (S, bool),
    G: Fn(&S, &Expr) -> (S, Expr),
    H: Fn(&S, &Mac) -> S,
> Rules<S, F, G, H> {
    /// Going through a macro call in statement position is going through what it is made of, part
    /// by part.
    pub proof fn goes_through_the_parts_of_mac_stmt(
        self,
        from: S,
        before: MacStmt,
        to: S,
        after: MacStmt,
    )
        requires
            self.visited_mac_stmt(from, before, to, after),
        ensures
            self.visited_parts(from, parts_of_mac_stmt(before), to, parts_of_mac_stmt(after)),
    {
        self.single_part(from, Part::Mac(before.mac), to, Part::Mac(after.mac));
    }

    /// A visitor whose calls can always be made can go through a macro call in statement position.
    pub(crate) proof fn total_goes_through_mac_stmt(self, node: MacStmt)
        requires
            self.is_total(),
        ensures
            self.can_visit_mac_stmt(node),
        decreases node,
    {
    }
}

/// Every node that a macro call in statement position holds in a field is a part of it.
pub proof fn fields_of_mac_stmt_are_parts(node: MacStmt)
    ensures
        parts(Part::MacStmt(node)).contains(Part::Mac(node.mac)),
{
    broadcast use group_contains;

}

/// What the form of a statement is made of, in the order of the text.
pub open spec fn parts_of_stmt_kind(node: StmtKind) -> Seq<Part> {
    match node {
        StmtKind::Local(local) => seq![Part::Local(*local)],
        StmtKind::Item(item) => seq![Part::Item(*item)],
        StmtKind::Expr(expr) => seq![Part::Expr(*expr)],
        StmtKind::Semi(expr) => seq![Part::Expr(*expr)],
        StmtKind::Mac(mac_stmt) => seq![Part::MacStmt(*mac_stmt)],
    }
}

impl<
    S,
    F: Fn(&S, &str) -> (S, bool),
    G: Fn(&S, &Expr) -> (S, Expr),
    H: Fn(&S, &Mac) -> S,
> Rules<S, F, G, H> {
    /// Going through the form of a statement is going through what it is made of, part by part.
    pub proof fn goes_through_the_parts_of_stmt_kind(
        self,
        from: S,
        before: StmtKind,
        to: S,
        after: StmtKind,
    )
        requires
            self.visited_stmt_kind(from, before, to, after),
        ensures
            self.visited_parts(from, parts_of_stmt_kind(before), to, parts_of_stmt_kind(after)),
    {
        match (before, after) {
            (StmtKind::Local(local), StmtKind::Local(local2)) => {
                self.single_part(from, Part::Local(*local), to, Part::Local(*local2));
            },
            (StmtKind::Item(item), StmtKind::Item(item2)) => {
                self.single_part(from, Part::Item(*item), to, Part::Item(*item2));
            },
            (StmtKind::Expr(expr), StmtKind::Expr(expr2)) => {
                self.single_part(from, Part::Expr(*expr), to, Part::Expr(*expr2));
            },
            (StmtKind::Semi(expr), StmtKind::Semi(expr2)) => {
                self.single_part(from, Part::Expr(*expr), to, Part::Expr(*expr2));
            },
            (StmtKind::Mac(mac_stmt), StmtKind::Mac(mac_stmt2)) => {
                self.single_part(from, Part::MacStmt(*mac_stmt), to, Part::MacStmt(*mac_stmt2));
            },
            _ => {},
        }
    }

    /// A visitor whose calls can always be made can go through the form of a statement.
    pub(crate) proof fn total_goes_through_stmt_kind(self, node: StmtKind)
        requires
            self.is_total(),
        ensures
            self.can_visit_stmt_kind(node),
        decreases node,
    {
        match node {
            StmtKind::Local(local) => {
                self.total_goes_through_local(*local);
            },
            StmtKind::Item(item) => {
                self.total_goes_through_item(*item);
            },
            StmtKind::Expr(expr) => {
                self.total_goes_through_expr(*expr);
            },
            StmtKind::Semi(expr) => {
                self.total_goes_through_expr(*expr);
            },
            StmtKind::Mac(mac_stmt) => {
                self.total_goes_through_mac_stmt(*mac_stmt);
            },
        }
    }
}

/// What is visited in the form of a statement is what is visited in what it is made of, part by
/// part.
pub proof fn visits_the_parts_of_stmt_kind(node: StmtKind)
    ensures
        nodes_in_stmt_kind(node) == nodes_in_parts(parts_of_stmt_kind(node)),
{
    match node {
        StmtKind::Local(local) => {
            nodes_in_one_part(Part::Local(*local));
        },
        StmtKind::Item(item) => {
            nodes_in_one_part(Part::Item(*item));
        },
        StmtKind::Expr(expr) => {
            nodes_in_one_part(Part::Expr(*expr));
        },
        StmtKind::Semi(expr) => {
            nodes_in_one_part(Part::Expr(*expr));
        },
        StmtKind::Mac(mac_stmt) => {
            nodes_in_one_part(Part::MacStmt(*mac_stmt));
        },
    }
}

/// Every node that the form of a statement holds in a field is a part of it.
pub proof fn fields_of_stmt_kind_are_parts(node: StmtKind)
    ensures
        node matches StmtKind::Local(
            local,
        ) ==> parts(Part::StmtKind(node)).contains(Part::Local(*local)),
        node matches StmtKind::Item(
            item,
        ) ==> parts(Part::StmtKind(node)).contains(Part::Item(*item)),
        node matches StmtKind::Expr(
            expr,
        ) ==> parts(Part::StmtKind(node)).contains(Part::Expr(*expr)),
        node matches StmtKind::Semi(
            expr,
        ) ==> parts(Part::StmtKind(node)).contains(Part::Expr(*expr)),
        node matches StmtKind::Mac(
            mac_stmt,
        ) ==> parts(Part::StmtKind(node)).contains(Part::MacStmt(*mac_stmt)),
{
    broadcast use group_contains;

}

/// What a statement is made of, in the order of the text.
pub open spec fn parts_of_stmt(node: Stmt) -> Seq<Part> {
    seq![Part::StmtKind(node.kind)]
}

/// Statements as parts.
pub open spec fn stmts_parts(list: Seq<Stmt>) -> Seq<Part> {
    list.map_values(|x: Stmt| Part::Stmt(x))
}

impl<
    S,
    F: Fn(&S, &str) -> (S, bool),
    G: Fn(&S, &Expr) -> (S, Expr),
    H: Fn(&S, &Mac) -> S,
> Rules<S, F, G, H> {
    /// Going through a statement is going through what it is made of, part by part.
    pub proof fn goes_through_the_parts_of_stmt(
        self,
        from: S,
        before: Stmt,
        to: S,
        after: Stmt,
    )
        requires
            self.visited_stmt(from, before, to, after),
        ensures
            self.visited_parts(from, parts_of_stmt(before), to, parts_of_stmt(after)),
    {
        self.single_part(from, Part::StmtKind(before.kind), to, Part::StmtKind(after.kind));
    }

    /// A visitor whose calls can always be made can go through a statement.
    pub(crate) proof fn total_goes_through_stmt(self, node: Stmt)
        requires
            self.is_total(),
        ensures
            self.can_visit_stmt(node),
        decreases node,
    {
        self.total_goes_through_stmt_kind(node.kind);
    }

    /// Going through a list of statements is going through them one by one.
    pub(crate) proof fn stmts_are_parts(
        self,
        from: S,
        before: Seq<Stmt>,
        to: S,
        after: Seq<Stmt>,
    )
        requires
            self.visited_stmts(from, before, to, after),
        ensures
            self.visited_parts(from, stmts_parts(before), to, stmts_parts(after)),
        decreases before.len(),
    {
        if before.len() > 0 {
            let mid = choose|mid: S|
                {
                    &&& #[trigger] between(mid)
                    &&& self.visited_stmts(from, before.drop_last(), mid, after.drop_last())
                    &&& self.visited_stmt(mid, before.last(), to, after.last())
                };
            self.stmts_are_parts(from, before.drop_last(), mid, after.drop_last());
            assert(stmts_parts(before).drop_last() =~= stmts_parts(before.drop_last()));
            assert(stmts_parts(after).drop_last() =~= stmts_parts(after.drop_last()));
        }
    }
}

/// What is visited in a statement is what is visited in what it is made of, part by part, behind
/// the node itself.
pub proof fn visits_the_parts_of_stmt(node: Stmt)
    ensures
        nodes_in_stmt(
            node,
        ) == joined(seq![Visited::Stmt(&node)], nodes_in_parts(parts_of_stmt(node))),
{
    nodes_in_one_part(Part::StmtKind(node.kind));
}

/// What is visited in a list of statements is what is visited in them one by one.
pub(crate) proof fn nodes_in_stmts_parts(list: Seq<Stmt>, count: int)
    requires
        0 <= count <= list.len(),
    ensures
        nodes_in_stmts(list, count) == nodes_in_parts(stmts_parts(list.take(count))),
    decreases count,
{
    if count > 0 {
        nodes_in_stmts_parts(list, count - 1);
        assert(stmts_parts(list.take(count)).drop_last() =~= stmts_parts(list.take(count - 1)));
    }
}

/// Every node that a statement holds in a field is a part of it.
pub proof fn fields_of_stmt_are_parts(node: Stmt)
    ensures
        parts(Part::Stmt(node)).contains(Part::StmtKind(node.kind)),
{
    broadcast use group_contains;

}

} // verus!
