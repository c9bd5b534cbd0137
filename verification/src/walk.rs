//! Nodes that visitors can go through.

use vstd::prelude::*;

use crate::ast::attr::Mac;
use crate::ast::expr::Expr;
use crate::ast::func::{FnDecl, Param};
use crate::ast::item::{Crate, ForeignItem, Item, ItemKind, Mod, StructField};
use crate::ast::pat::Pat;
use crate::ast::path::{Path, PathSegment, QSelf};
use crate::ast::stmt::{Block, Local, Stmt};
use crate::ast::ty::{MutTy, Ty};
use crate::filter_map::FilterMap;
use crate::parts::{Part, parts};

verus! {

/// A node that visitors of this kind can go through.
pub trait WalkAst<V>: Sized {
    /// The visitor can go through this node.
    spec fn can_walk(self, visitor: V) -> bool;

    /// `after` is this node after `visitor` has gone through it, and `changed` is the visitor
    /// then.
    spec fn walked(self, visitor: V, after: Self, changed: V) -> bool;

    /// Lets the visitor go through the node.
    fn walk(&mut self, visitor: &mut V)
        requires
            old(self).can_walk(*old(visitor)),
        ensures
            old(self).walked(*old(visitor), *final(self), *final(visitor)),
    ;
}

impl<
    S,
    F: Fn(&S, &str) -> (S, bool),
    G: Fn(&S, &Expr) -> (S, Expr),
    H: Fn(&S, &Mac) -> S,
> WalkAst<FilterMap<S, F, G, H>> for Crate {
    open spec fn can_walk(self, visitor: FilterMap<S, F, G, H>) -> bool {
        visitor.rules.can_visit_crate(self)
    }

    open spec fn walked(
        self,
        visitor: FilterMap<S, F, G, H>,
        after: Crate,
        changed: FilterMap<S, F, G, H>,
    ) -> bool {
        &&& visitor.rules.visited_crate(visitor.state, self, changed.state, after)
        &&& changed.rules == visitor.rules
    }

    fn walk(&mut self, visitor: &mut FilterMap<S, F, G, H>) {
        visitor.rules.visit_crate(&mut visitor.state, self);
    }
}

impl<
    S,
    F: Fn(&S, &str) -> (S, bool),
    G: Fn(&S, &Expr) -> (S, Expr),
    H: Fn(&S, &Mac) -> S,
> WalkAst<FilterMap<S, F, G, H>> for Mod {
    open spec fn can_walk(self, visitor: FilterMap<S, F, G, H>) -> bool {
        visitor.rules.can_visit_mod(self)
    }

    open spec fn walked(
        self,
        visitor: FilterMap<S, F, G, H>,
        after: Mod,
        changed: FilterMap<S, F, G, H>,
    ) -> bool {
        &&& visitor.rules.visited_mod(visitor.state, self, changed.state, after)
        &&& changed.rules == visitor.rules
    }

    fn walk(&mut self, visitor: &mut FilterMap<S, F, G, H>) {
        visitor.rules.visit_mod(&mut visitor.state, self);
    }
}

impl<
    S,
    F: Fn(&S, &str) -> (S, bool),
    G: Fn(&S, &Expr) -> (S, Expr),
    H: Fn(&S, &Mac) -> S,
> WalkAst<FilterMap<S, F, G, H>> for Item {
    open spec fn can_walk(self, visitor: FilterMap<S, F, G, H>) -> bool {
        visitor.rules.can_visit_item(self)
    }

    open spec fn walked(
        self,
        visitor: FilterMap<S, F, G, H>,
        after: Item,
        changed: FilterMap<S, F, G, H>,
    ) -> bool {
        &&& visitor.rules.visited_item(visitor.state, self, changed.state, after)
        &&& changed.rules == visitor.rules
    }

    fn walk(&mut self, visitor: &mut FilterMap<S, F, G, H>) {
        visitor.rules.visit_item(&mut visitor.state, self);
    }
}

impl<
    S,
    F: Fn(&S, &str) -> (S, bool),
    G: Fn(&S, &Expr) -> (S, Expr),
    H: Fn(&S, &Mac) -> S,
> WalkAst<FilterMap<S, F, G, H>> for ItemKind {
    open spec fn can_walk(self, visitor: FilterMap<S, F, G, H>) -> bool {
        visitor.rules.can_visit_item_kind(self)
    }

    open spec fn walked(
        self,
        visitor: FilterMap<S, F, G, H>,
        after: ItemKind,
        changed: FilterMap<S, F, G, H>,
    ) -> bool {
        &&& visitor.rules.visited_item_kind(visitor.state, self, changed.state, after)
        &&& changed.rules == visitor.rules
    }

    fn walk(&mut self, visitor: &mut FilterMap<S, F, G, H>) {
        visitor.rules.visit_item_kind(&mut visitor.state, self);
    }
}

impl<
    S,
    F: Fn(&S, &str) -> (S, bool),
    G: Fn(&S, &Expr) -> (S, Expr),
    H: Fn(&S, &Mac) -> S,
> WalkAst<FilterMap<S, F, G, H>> for ForeignItem {
    open spec fn can_walk(self, visitor: FilterMap<S, F, G, H>) -> bool {
        visitor.rules.can_visit_foreign_item(self)
    }

    open spec fn walked(
        self,
        visitor: FilterMap<S, F, G, H>,
        after: ForeignItem,
        changed: FilterMap<S, F, G, H>,
    ) -> bool {
        &&& visitor.rules.visited_foreign_item(visitor.state, self, changed.state, after)
        &&& changed.rules == visitor.rules
    }

    fn walk(&mut self, visitor: &mut FilterMap<S, F, G, H>) {
        visitor.rules.visit_foreign_item(&mut visitor.state, self);
    }
}

impl<
    S,
    F: Fn(&S, &str) -> (S, bool),
    G: Fn(&S, &Expr) -> (S, Expr),
    H: Fn(&S, &Mac) -> S,
> WalkAst<FilterMap<S, F, G, H>> for StructField {
    open spec fn can_walk(self, visitor: FilterMap<S, F, G, H>) -> bool {
        visitor.rules.can_visit_struct_field(self)
    }

    open spec fn walked(
        self,
        visitor: FilterMap<S, F, G, H>,
        after: StructField,
        changed: FilterMap<S, F, G, H>,
    ) -> bool {
        &&& visitor.rules.visited_struct_field(visitor.state, self, changed.state, after)
        &&& changed.rules == visitor.rules
    }

    fn walk(&mut self, visitor: &mut FilterMap<S, F, G, H>) {
        visitor.rules.visit_struct_field(&mut visitor.state, self);
    }
}

impl<
    S,
    F: Fn(&S, &str) -> (S, bool),
    G: Fn(&S, &Expr) -> (S, Expr),
    H: Fn(&S, &Mac) -> S,
> WalkAst<FilterMap<S, F, G, H>> for Stmt {
    open spec fn can_walk(self, visitor: FilterMap<S, F, G, H>) -> bool {
        visitor.rules.can_visit_stmt(self)
    }

    open spec fn walked(
        self,
        visitor: FilterMap<S, F, G, H>,
        after: Stmt,
        changed: FilterMap<S, F, G, H>,
    ) -> bool {
        &&& visitor.rules.visited_stmt(visitor.state, self, changed.state, after)
        &&& changed.rules == visitor.rules
    }

    fn walk(&mut self, visitor: &mut FilterMap<S, F, G, H>) {
        visitor.rules.visit_stmt(&mut visitor.state, self);
    }
}

impl<
    S,
    F: Fn(&S, &str) -> (S, bool),
    G: Fn(&S, &Expr) -> (S, Expr),
    H: Fn(&S, &Mac) -> S,
> WalkAst<FilterMap<S, F, G, H>> for Block {
    open spec fn can_walk(self, visitor: FilterMap<S, F, G, H>) -> bool {
        visitor.rules.can_visit_block(self)
    }

    open spec fn walked(
        self,
        visitor: FilterMap<S, F, G, H>,
        after: Block,
        changed: FilterMap<S, F, G, H>,
    ) -> bool {
        &&& visitor.rules.visited_block(visitor.state, self, changed.state, after)
        &&& changed.rules == visitor.rules
    }

    fn walk(&mut self, visitor: &mut FilterMap<S, F, G, H>) {
        visitor.rules.visit_block(&mut visitor.state, self);
    }
}

impl<
    S,
    F: Fn(&S, &str) -> (S, bool),
    G: Fn(&S, &Expr) -> (S, Expr),
    H: Fn(&S, &Mac) -> S,
> WalkAst<FilterMap<S, F, G, H>> for Local {
    open spec fn can_walk(self, visitor: FilterMap<S, F, G, H>) -> bool {
        visitor.rules.can_visit_local(self)
    }

    open spec fn walked(
        self,
        visitor: FilterMap<S, F, G, H>,
        after: Local,
        changed: FilterMap<S, F, G, H>,
    ) -> bool {
        &&& visitor.rules.visited_local(visitor.state, self, changed.state, after)
        &&& changed.rules == visitor.rules
    }

    fn walk(&mut self, visitor: &mut FilterMap<S, F, G, H>) {
        visitor.rules.visit_local(&mut visitor.state, self);
    }
}

/// The visitor goes through what stands below the expression; the expression itself is not
/// replaced.
impl<
    S,
    F: Fn(&S, &str) -> (S, bool),
    G: Fn(&S, &Expr) -> (S, Expr),
    H: Fn(&S, &Mac) -> S,
> WalkAst<FilterMap<S, F, G, H>> for Expr {
    open spec fn can_walk(self, visitor: FilterMap<S, F, G, H>) -> bool {
        visitor.rules.can_walk_expr(self)
    }

    open spec fn walked(
        self,
        visitor: FilterMap<S, F, G, H>,
        after: Expr,
        changed: FilterMap<S, F, G, H>,
    ) -> bool {
        &&& visitor.rules.walked_expr(visitor.state, self, changed.state, after)
        &&& changed.rules == visitor.rules
    }

    fn walk(&mut self, visitor: &mut FilterMap<S, F, G, H>) {
        visitor.rules.walk_expr(&mut visitor.state, self);
    }
}

impl<
    S,
    F: Fn(&S, &str) -> (S, bool),
    G: Fn(&S, &Expr) -> (S, Expr),
    H: Fn(&S, &Mac) -> S,
> WalkAst<FilterMap<S, F, G, H>> for Pat {
    open spec fn can_walk(self, visitor: FilterMap<S, F, G, H>) -> bool {
        visitor.rules.can_visit_pat(self)
    }

    open spec fn walked(
        self,
        visitor: FilterMap<S, F, G, H>,
        after: Pat,
        changed: FilterMap<S, F, G, H>,
    ) -> bool {
        &&& visitor.rules.visited_pat(visitor.state, self, changed.state, after)
        &&& changed.rules == visitor.rules
    }

    fn walk(&mut self, visitor: &mut FilterMap<S, F, G, H>) {
        visitor.rules.visit_pat(&mut visitor.state, self);
    }
}

impl<
    S,
    F: Fn(&S, &str) -> (S, bool),
    G: Fn(&S, &Expr) -> (S, Expr),
    H: Fn(&S, &Mac) -> S,
> WalkAst<FilterMap<S, F, G, H>> for Ty {
    open spec fn can_walk(self, visitor: FilterMap<S, F, G, H>) -> bool {
        visitor.rules.can_visit_ty(self)
    }

    open spec fn walked(
        self,
        visitor: FilterMap<S, F, G, H>,
        after: Ty,
        changed: FilterMap<S, F, G, H>,
    ) -> bool {
        &&& visitor.rules.visited_ty(visitor.state, self, changed.state, after)
        &&& changed.rules == visitor.rules
    }

    fn walk(&mut self, visitor: &mut FilterMap<S, F, G, H>) {
        visitor.rules.visit_ty(&mut visitor.state, self);
    }
}

impl<
    S,
    F: Fn(&S, &str) -> (S, bool),
    G: Fn(&S, &Expr) -> (S, Expr),
    H: Fn(&S, &Mac) -> S,
> WalkAst<FilterMap<S, F, G, H>> for MutTy {
    open spec fn can_walk(self, visitor: FilterMap<S, F, G, H>) -> bool {
        visitor.rules.can_visit_mut_ty(self)
    }

    open spec fn walked(
        self,
        visitor: FilterMap<S, F, G, H>,
        after: MutTy,
        changed: FilterMap<S, F, G, H>,
    ) -> bool {
        &&& visitor.rules.visited_mut_ty(visitor.state, self, changed.state, after)
        &&& changed.rules == visitor.rules
    }

    fn walk(&mut self, visitor: &mut FilterMap<S, F, G, H>) {
        visitor.rules.visit_mut_ty(&mut visitor.state, self);
    }
}

impl<
    S,
    F: Fn(&S, &str) -> (S, bool),
    G: Fn(&S, &Expr) -> (S, Expr),
    H: Fn(&S, &Mac) -> S,
> WalkAst<FilterMap<S, F, G, H>> for Path {
    open spec fn can_walk(self, visitor: FilterMap<S, F, G, H>) -> bool {
        visitor.rules.can_visit_path(self)
    }

    open spec fn walked(
        self,
        visitor: FilterMap<S, F, G, H>,
        after: Path,
        changed: FilterMap<S, F, G, H>,
    ) -> bool {
        &&& visitor.rules.visited_path(visitor.state, self, changed.state, after)
        &&& changed.rules == visitor.rules
    }

    fn walk(&mut self, visitor: &mut FilterMap<S, F, G, H>) {
        visitor.rules.visit_path(&mut visitor.state, self);
    }
}

impl<
    S,
    F: Fn(&S, &str) -> (S, bool),
    G: Fn(&S, &Expr) -> (S, Expr),
    H: Fn(&S, &Mac) -> S,
> WalkAst<FilterMap<S, F, G, H>> for PathSegment {
    open spec fn can_walk(self, visitor: FilterMap<S, F, G, H>) -> bool {
        visitor.rules.can_visit_segment(self)
    }

    open spec fn walked(
        self,
        visitor: FilterMap<S, F, G, H>,
        after: PathSegment,
        changed: FilterMap<S, F, G, H>,
    ) -> bool {
        &&& visitor.rules.visited_segment(visitor.state, self, changed.state, after)
        &&& changed.rules == visitor.rules
    }

    fn walk(&mut self, visitor: &mut FilterMap<S, F, G, H>) {
        visitor.rules.visit_segment(&mut visitor.state, self);
    }
}

impl<
    S,
    F: Fn(&S, &str) -> (S, bool),
    G: Fn(&S, &Expr) -> (S, Expr),
    H: Fn(&S, &Mac) -> S,
> WalkAst<FilterMap<S, F, G, H>> for QSelf {
    open spec fn can_walk(self, visitor: FilterMap<S, F, G, H>) -> bool {
        visitor.rules.can_visit_q_self(self)
    }

    open spec fn walked(
        self,
        visitor: FilterMap<S, F, G, H>,
        after: QSelf,
        changed: FilterMap<S, F, G, H>,
    ) -> bool {
        &&& visitor.rules.visited_q_self(visitor.state, self, changed.state, after)
        &&& changed.rules == visitor.rules
    }

    fn walk(&mut self, visitor: &mut FilterMap<S, F, G, H>) {
        visitor.rules.visit_q_self(&mut visitor.state, self);
    }
}

impl<
    S,
    F: Fn(&S, &str) -> (S, bool),
    G: Fn(&S, &Expr) -> (S, Expr),
    H: Fn(&S, &Mac) -> S,
> WalkAst<FilterMap<S, F, G, H>> for FnDecl {
    open spec fn can_walk(self, visitor: FilterMap<S, F, G, H>) -> bool {
        visitor.rules.can_visit_fn_decl(self)
    }

    open spec fn walked(
        self,
        visitor: FilterMap<S, F, G, H>,
        after: FnDecl,
        changed: FilterMap<S, F, G, H>,
    ) -> bool {
        &&& visitor.rules.visited_fn_decl(visitor.state, self, changed.state, after)
        &&& changed.rules == visitor.rules
    }

    fn walk(&mut self, visitor: &mut FilterMap<S, F, G, H>) {
        visitor.rules.visit_fn_decl(&mut visitor.state, self);
    }
}

impl<
    S,
    F: Fn(&S, &str) -> (S, bool),
    G: Fn(&S, &Expr) -> (S, Expr),
    H: Fn(&S, &Mac) -> S,
> WalkAst<FilterMap<S, F, G, H>> for Param {
    open spec fn can_walk(self, visitor: FilterMap<S, F, G, H>) -> bool {
        visitor.rules.can_visit_param(self)
    }

    open spec fn walked(
        self,
        visitor: FilterMap<S, F, G, H>,
        after: Param,
        changed: FilterMap<S, F, G, H>,
    ) -> bool {
        &&& visitor.rules.visited_param(visitor.state, self, changed.state, after)
        &&& changed.rules == visitor.rules
    }

    fn walk(&mut self, visitor: &mut FilterMap<S, F, G, H>) {
        visitor.rules.visit_param(&mut visitor.state, self);
    }
}

/// Walking a crate visits everything that it is made of, in the order of the text and from the
/// visitor's state before to its state after. The visitor keeps its rules, and where they accept
/// nothing, a crate stays as it is.
pub proof fn walking_visits_the_parts_of_crate<
    S,
    F: Fn(&S, &str) -> (S, bool),
    G: Fn(&S, &Expr) -> (S, Expr),
    H: Fn(&S, &Mac) -> S,
>(
    visitor: FilterMap<S, F, G, H>,
    before: Crate,
    after: Crate,
    changed: FilterMap<S, F, G, H>,
)
    requires
        before.walked(visitor, after, changed),
    ensures
        changed.rules == visitor.rules,
        visitor.rules.visited_parts(
            visitor.state,
            parts(Part::Crate(before)),
            changed.state,
            parts(Part::Crate(after)),
        ),
        visitor.rules.accepts_nothing() && before.settled() ==> before.same(after),
        visitor.rules.is_total() ==> before.can_walk(visitor),
        visitor.rules.visited_mod(visitor.state, before.module, changed.state, after.module),
        after.attrs == before.attrs,
        after.span == before.span,
{
    visitor.rules.goes_through_the_parts_of_crate(visitor.state, before, changed.state, after);
    if visitor.rules.accepts_nothing() {
        visitor.rules.quiet_visit_of_crate(visitor.state, before, changed.state, after);
    }
    if visitor.rules.is_total() {
        visitor.rules.total_goes_through_crate(before);
    }
}

/// Walking a module visits everything that it is made of, in the order of the text and from the
/// visitor's state before to its state after. The visitor keeps its rules, and where they accept
/// nothing, a module stays as it is.
pub proof fn walking_visits_the_parts_of_mod<
    S,
    F: Fn(&S, &str) -> (S, bool),
    G: Fn(&S, &Expr) -> (S, Expr),
    H: Fn(&S, &Mac) -> S,
>(
    visitor: FilterMap<S, F, G, H>,
    before: Mod,
    after: Mod,
    changed: FilterMap<S, F, G, H>,
)
    requires
        before.walked(visitor, after, changed),
    ensures
        changed.rules == visitor.rules,
        visitor.rules.visited_parts(
            visitor.state,
            parts(Part::Mod(before)),
            changed.state,
            parts(Part::Mod(after)),
        ),
        visitor.rules.accepts_nothing() && before.settled() ==> before.same(after),
        visitor.rules.is_total() ==> before.can_walk(visitor),
        visitor.rules.visited_items(visitor.state, before.items@, changed.state, after.items@),
        after.inner == before.inner,
        after.inline == before.inline,
{
    visitor.rules.goes_through_the_parts_of_mod(visitor.state, before, changed.state, after);
    if visitor.rules.accepts_nothing() {
        visitor.rules.quiet_visit_of_mod(visitor.state, before, changed.state, after);
    }
    if visitor.rules.is_total() {
        visitor.rules.total_goes_through_mod(before);
    }
}

/// Walking an item visits everything that it is made of, in the order of the text and from the
/// visitor's state before to its state after. The visitor keeps its rules, and where they accept
/// nothing, an item stays as it is.
pub proof fn walking_visits_the_parts_of_item<
    S,
    F: Fn(&S, &str) -> (S, bool),
    G: Fn(&S, &Expr) -> (S, Expr),
    H: Fn(&S, &Mac) -> S,
>(
    visitor: FilterMap<S, F, G, H>,
    before: Item,
    after: Item,
    changed: FilterMap<S, F, G, H>,
)
    requires
        before.walked(visitor, after, changed),
    ensures
        changed.rules == visitor.rules,
        visitor.rules.visited_parts(
            visitor.state,
            parts(Part::Item(before)),
            changed.state,
            parts(Part::Item(after)),
        ),
        visitor.rules.accepts_nothing() && before.settled() ==> before.same(after),
        visitor.rules.is_total() ==> before.can_walk(visitor),
{
    visitor.rules.goes_through_the_parts_of_item(visitor.state, before, changed.state, after);
    if visitor.rules.accepts_nothing() {
        visitor.rules.quiet_visit_of_item(visitor.state, before, changed.state, after);
    }
    if visitor.rules.is_total() {
        visitor.rules.total_goes_through_item(before);
    }
}

/// Walking the form of an item visits everything that it is made of, in the order of the text and
/// from the
/// visitor's state before to its state after. The visitor keeps its rules, and where they accept
/// nothing, the form of an item stays as it is.
pub proof fn walking_visits_the_parts_of_item_kind<
    S,
    F: Fn(&S, &str) -> (S, bool),
    G: Fn(&S, &Expr) -> (S, Expr),
    H: Fn(&S, &Mac) -> S,
>(
    visitor: FilterMap<S, F, G, H>,
    before: ItemKind,
    after: ItemKind,
    changed: FilterMap<S, F, G, H>,
)
    requires
        before.walked(visitor, after, changed),
    ensures
        changed.rules == visitor.rules,
        visitor.rules.visited_parts(
            visitor.state,
            parts(Part::ItemKind(before)),
            changed.state,
            parts(Part::ItemKind(after)),
        ),
        visitor.rules.accepts_nothing() && before.settled() ==> before.same(after),
        visitor.rules.is_total() ==> before.can_walk(visitor),
{
    visitor.rules.goes_through_the_parts_of_item_kind(visitor.state, before, changed.state, after);
    if visitor.rules.accepts_nothing() {
        visitor.rules.quiet_visit_of_item_kind(visitor.state, before, changed.state, after);
    }
    if visitor.rules.is_total() {
        visitor.rules.total_goes_through_item_kind(before);
    }
}

/// Walking a foreign item visits everything that it is made of, in the order of the text and from
/// the
/// visitor's state before to its state after. The visitor keeps its rules, and where they accept
/// nothing, a foreign item stays as it is.
pub proof fn walking_visits_the_parts_of_foreign_item<
    S,
    F: Fn(&S, &str) -> (S, bool),
    G: Fn(&S, &Expr) -> (S, Expr),
    H: Fn(&S, &Mac) -> S,
>(
    visitor: FilterMap<S, F, G, H>,
    before: ForeignItem,
    after: ForeignItem,
    changed: FilterMap<S, F, G, H>,
)
    requires
        before.walked(visitor, after, changed),
    ensures
        changed.rules == visitor.rules,
        visitor.rules.visited_parts(
            visitor.state,
            parts(Part::ForeignItem(before)),
            changed.state,
            parts(Part::ForeignItem(after)),
        ),
        visitor.rules.accepts_nothing() && before.settled() ==> before.same(after),
        visitor.rules.is_total() ==> before.can_walk(visitor),
{
    visitor.rules.goes_through_the_parts_of_foreign_item(
        visitor.state,
        before,
        changed.state,
        after,
    );
    if visitor.rules.accepts_nothing() {
        visitor.rules.quiet_visit_of_foreign_item(visitor.state, before, changed.state, after);
    }
    if visitor.rules.is_total() {
        visitor.rules.total_goes_through_foreign_item(before);
    }
}

/// Walking a field visits everything that it is made of, in the order of the text and from the
/// visitor's state before to its state after. The visitor keeps its rules, and where they accept
/// nothing, a field stays as it is.
pub proof fn walking_visits_the_parts_of_struct_field<
    S,
    F: Fn(&S, &str) -> (S, bool),
    G: Fn(&S, &Expr) -> (S, Expr),
    H: Fn(&S, &Mac) -> S,
>(
    visitor: FilterMap<S, F, G, H>,
    before: StructField,
    after: StructField,
    changed: FilterMap<S, F, G, H>,
)
    requires
        before.walked(visitor, after, changed),
    ensures
        changed.rules == visitor.rules,
        visitor.rules.visited_parts(
            visitor.state,
            parts(Part::StructField(before)),
            changed.state,
            parts(Part::StructField(after)),
        ),
        visitor.rules.accepts_nothing() && before.settled() ==> before.same(after),
        visitor.rules.is_total() ==> before.can_walk(visitor),
{
    visitor.rules.goes_through_the_parts_of_struct_field(
        visitor.state,
        before,
        changed.state,
        after,
    );
    if visitor.rules.accepts_nothing() {
        visitor.rules.quiet_visit_of_struct_field(visitor.state, before, changed.state, after);
    }
    if visitor.rules.is_total() {
        visitor.rules.total_goes_through_struct_field(before);
    }
}

/// Walking a statement visits everything that it is made of, in the order of the text and from the
/// visitor's state before to its state after. The visitor keeps its rules, and where they accept
/// nothing, a statement stays as it is.
pub proof fn walking_visits_the_parts_of_stmt<
    S,
    F: Fn(&S, &str) -> (S, bool),
    G: Fn(&S, &Expr) -> (S, Expr),
    H: Fn(&S, &Mac) -> S,
>(
    visitor: FilterMap<S, F, G, H>,
    before: Stmt,
    after: Stmt,
    changed: FilterMap<S, F, G, H>,
)
    requires
        before.walked(visitor, after, changed),
    ensures
        changed.rules == visitor.rules,
        visitor.rules.visited_parts(
            visitor.state,
            parts(Part::Stmt(before)),
            changed.state,
            parts(Part::Stmt(after)),
        ),
        visitor.rules.accepts_nothing() && before.settled() ==> before.same(after),
        visitor.rules.is_total() ==> before.can_walk(visitor),
{
    visitor.rules.goes_through_the_parts_of_stmt(visitor.state, before, changed.state, after);
    if visitor.rules.accepts_nothing() {
        visitor.rules.quiet_visit_of_stmt(visitor.state, before, changed.state, after);
    }
    if visitor.rules.is_total() {
        visitor.rules.total_goes_through_stmt(before);
    }
}

/// Walking a block visits everything that it is made of, in the order of the text and from the
/// visitor's state before to its state after. The visitor keeps its rules, and where they accept
/// nothing, a block stays as it is.
pub proof fn walking_visits_the_parts_of_block<
    S,
    F: Fn(&S, &str) -> (S, bool),
    G: Fn(&S, &Expr) -> (S, Expr),
    H: Fn(&S, &Mac) -> S,
>(
    visitor: FilterMap<S, F, G, H>,
    before: Block,
    after: Block,
    changed: FilterMap<S, F, G, H>,
)
    requires
        before.walked(visitor, after, changed),
    ensures
        changed.rules == visitor.rules,
        visitor.rules.visited_parts(
            visitor.state,
            parts(Part::Block(before)),
            changed.state,
            parts(Part::Block(after)),
        ),
        visitor.rules.accepts_nothing() && before.settled() ==> before.same(after),
        visitor.rules.is_total() ==> before.can_walk(visitor),
        visitor.rules.visited_stmts(visitor.state, before.stmts@, changed.state, after.stmts@),
{
    visitor.rules.goes_through_the_parts_of_block(visitor.state, before, changed.state, after);
    if visitor.rules.accepts_nothing() {
        visitor.rules.quiet_visit_of_block(visitor.state, before, changed.state, after);
    }
    if visitor.rules.is_total() {
        visitor.rules.total_goes_through_block(before);
    }
}

/// Walking a `let` statement visits everything that it is made of, in the order of the text and
/// from the
/// visitor's state before to its state after. The visitor keeps its rules, and where they accept
/// nothing, a `let` statement stays as it is.
pub proof fn walking_visits_the_parts_of_local<
    S,
    F: Fn(&S, &str) -> (S, bool),
    G: Fn(&S, &Expr) -> (S, Expr),
    H: Fn(&S, &Mac) -> S,
>(
    visitor: FilterMap<S, F, G, H>,
    before: Local,
    after: Local,
    changed: FilterMap<S, F, G, H>,
)
    requires
        before.walked(visitor, after, changed),
    ensures
        changed.rules == visitor.rules,
        visitor.rules.visited_parts(
            visitor.state,
            parts(Part::Local(before)),
            changed.state,
            parts(Part::Local(after)),
        ),
        visitor.rules.accepts_nothing() && before.settled() ==> before.same(after),
        visitor.rules.is_total() ==> before.can_walk(visitor),
{
    visitor.rules.goes_through_the_parts_of_local(visitor.state, before, changed.state, after);
    if visitor.rules.accepts_nothing() {
        visitor.rules.quiet_visit_of_local(visitor.state, before, changed.state, after);
    }
    if visitor.rules.is_total() {
        visitor.rules.total_goes_through_local(before);
    }
}

/// Walking an expression visits everything that it is made of, in the order of the text and from
/// the
/// visitor's state before to its state after. The visitor keeps its rules, and where they accept
/// nothing, an expression stays as it is.
pub proof fn walking_visits_the_parts_of_expr<
    S,
    F: Fn(&S, &str) -> (S, bool),
    G: Fn(&S, &Expr) -> (S, Expr),
    H: Fn(&S, &Mac) -> S,
>(
    visitor: FilterMap<S, F, G, H>,
    before: Expr,
    after: Expr,
    changed: FilterMap<S, F, G, H>,
)
    requires
        before.walked(visitor, after, changed),
    ensures
        changed.rules == visitor.rules,
        visitor.rules.visited_parts(
            visitor.state,
            parts(Part::Expr(before)),
            changed.state,
            parts(Part::Expr(after)),
        ),
        visitor.rules.accepts_nothing() && before.settled() ==> before.same(after),
        visitor.rules.is_total() ==> before.can_walk(visitor),
{
    visitor.rules.goes_through_the_parts_of_expr(visitor.state, before, changed.state, after);
    if visitor.rules.accepts_nothing() {
        visitor.rules.quiet_walk_of_expr(visitor.state, before, changed.state, after);
    }
    if visitor.rules.is_total() {
        visitor.rules.total_goes_through_expr(before);
    }
}

/// Walking a pattern visits everything that it is made of, in the order of the text and from the
/// visitor's state before to its state after. The visitor keeps its rules, and where they accept
/// nothing, a pattern stays as it is.
pub proof fn walking_visits_the_parts_of_pat<
    S,
    F: Fn(&S, &str) -> (S, bool),
    G: Fn(&S, &Expr) -> (S, Expr),
    H: Fn(&S, &Mac) -> S,
>(
    visitor: FilterMap<S, F, G, H>,
    before: Pat,
    after: Pat,
    changed: FilterMap<S, F, G, H>,
)
    requires
        before.walked(visitor, after, changed),
    ensures
        changed.rules == visitor.rules,
        visitor.rules.visited_parts(
            visitor.state,
            parts(Part::Pat(before)),
            changed.state,
            parts(Part::Pat(after)),
        ),
        visitor.rules.accepts_nothing() && before.settled() ==> before.same(after),
        visitor.rules.is_total() ==> before.can_walk(visitor),
{
    visitor.rules.goes_through_the_parts_of_pat(visitor.state, before, changed.state, after);
    if visitor.rules.accepts_nothing() {
        visitor.rules.quiet_visit_of_pat(visitor.state, before, changed.state, after);
    }
    if visitor.rules.is_total() {
        visitor.rules.total_goes_through_pat(before);
    }
}

/// Walking a type visits everything that it is made of, in the order of the text and from the
/// visitor's state before to its state after. The visitor keeps its rules, and where they accept
/// nothing, a type stays as it is.
pub proof fn walking_visits_the_parts_of_ty<
    S,
    F: Fn(&S, &str) -> (S, bool),
    G: Fn(&S, &Expr) -> (S, Expr),
    H: Fn(&S, &Mac) -> S,
>(
    visitor: FilterMap<S, F, G, H>,
    before: Ty,
    after: Ty,
    changed: FilterMap<S, F, G, H>,
)
    requires
        before.walked(visitor, after, changed),
    ensures
        changed.rules == visitor.rules,
        visitor.rules.visited_parts(
            visitor.state,
            parts(Part::Ty(before)),
            changed.state,
            parts(Part::Ty(after)),
        ),
        visitor.rules.accepts_nothing() && before.settled() ==> before.same(after),
        visitor.rules.is_total() ==> before.can_walk(visitor),
{
    visitor.rules.goes_through_the_parts_of_ty(visitor.state, before, changed.state, after);
    if visitor.rules.accepts_nothing() {
        visitor.rules.quiet_visit_of_ty(visitor.state, before, changed.state, after);
    }
    if visitor.rules.is_total() {
        visitor.rules.total_goes_through_ty(before);
    }
}

/// Walking a type behind a pointer visits everything that it is made of, in the order of the text
/// and from the
/// visitor's state before to its state after. The visitor keeps its rules, and where they accept
/// nothing, a type behind a pointer stays as it is.
pub proof fn walking_visits_the_parts_of_mut_ty<
    S,
    F: Fn(&S, &str) -> (S, bool),
    G: Fn(&S, &Expr) -> (S, Expr),
    H: Fn(&S, &Mac) -> S,
>(
    visitor: FilterMap<S, F, G, H>,
    before: MutTy,
    after: MutTy,
    changed: FilterMap<S, F, G, H>,
)
    requires
        before.walked(visitor, after, changed),
    ensures
        changed.rules == visitor.rules,
        visitor.rules.visited_parts(
            visitor.state,
            parts(Part::MutTy(before)),
            changed.state,
            parts(Part::MutTy(after)),
        ),
        visitor.rules.accepts_nothing() && before.settled() ==> before.same(after),
        visitor.rules.is_total() ==> before.can_walk(visitor),
{
    visitor.rules.goes_through_the_parts_of_mut_ty(visitor.state, before, changed.state, after);
    if visitor.rules.accepts_nothing() {
        visitor.rules.quiet_visit_of_mut_ty(visitor.state, before, changed.state, after);
    }
    if visitor.rules.is_total() {
        visitor.rules.total_goes_through_mut_ty(before);
    }
}

/// Walking a path visits everything that it is made of, in the order of the text and from the
/// visitor's state before to its state after. The visitor keeps its rules, and where they accept
/// nothing, a path stays as it is.
pub proof fn walking_visits_the_parts_of_path<
    S,
    F: Fn(&S, &str) -> (S, bool),
    G: Fn(&S, &Expr) -> (S, Expr),
    H: Fn(&S, &Mac) -> S,
>(
    visitor: FilterMap<S, F, G, H>,
    before: Path,
    after: Path,
    changed: FilterMap<S, F, G, H>,
)
    requires
        before.walked(visitor, after, changed),
    ensures
        changed.rules == visitor.rules,
        visitor.rules.visited_parts(
            visitor.state,
            parts(Part::Path(before)),
            changed.state,
            parts(Part::Path(after)),
        ),
        visitor.rules.accepts_nothing() && before.settled() ==> before.same(after),
        visitor.rules.is_total() ==> before.can_walk(visitor),
{
    visitor.rules.goes_through_the_parts_of_path(visitor.state, before, changed.state, after);
    if visitor.rules.accepts_nothing() {
        visitor.rules.quiet_visit_of_path(visitor.state, before, changed.state, after);
    }
    if visitor.rules.is_total() {
        visitor.rules.total_goes_through_path(before);
    }
}

/// Walking a path segment visits everything that it is made of, in the order of the text and from
/// the
/// visitor's state before to its state after. The visitor keeps its rules, and where they accept
/// nothing, a path segment stays as it is.
pub proof fn walking_visits_the_parts_of_segment<
    S,
    F: Fn(&S, &str) -> (S, bool),
    G: Fn(&S, &Expr) -> (S, Expr),
    H: Fn(&S, &Mac) -> S,
>(
    visitor: FilterMap<S, F, G, H>,
    before: PathSegment,
    after: PathSegment,
    changed: FilterMap<S, F, G, H>,
)
    requires
        before.walked(visitor, after, changed),
    ensures
        changed.rules == visitor.rules,
        visitor.rules.visited_parts(
            visitor.state,
            parts(Part::PathSegment(before)),
            changed.state,
            parts(Part::PathSegment(after)),
        ),
        visitor.rules.accepts_nothing() && before.settled() ==> before.same(after),
        visitor.rules.is_total() ==> before.can_walk(visitor),
{
    visitor.rules.goes_through_the_parts_of_segment(visitor.state, before, changed.state, after);
    if visitor.rules.accepts_nothing() {
        visitor.rules.quiet_visit_of_segment(visitor.state, before, changed.state, after);
    }
    if visitor.rules.is_total() {
        visitor.rules.total_goes_through_segment(before);
    }
}

/// Walking an explicit self type visits everything that it is made of, in the order of the text and
/// from the
/// visitor's state before to its state after. The visitor keeps its rules, and where they accept
/// nothing, an explicit self type stays as it is.
pub proof fn walking_visits_the_parts_of_q_self<
    S,
    F: Fn(&S, &str) -> (S, bool),
    G: Fn(&S, &Expr) -> (S, Expr),
    H: Fn(&S, &Mac) -> S,
>(
    visitor: FilterMap<S, F, G, H>,
    before: QSelf,
    after: QSelf,
    changed: FilterMap<S, F, G, H>,
)
    requires
        before.walked(visitor, after, changed),
    ensures
        changed.rules == visitor.rules,
        visitor.rules.visited_parts(
            visitor.state,
            parts(Part::QSelf(before)),
            changed.state,
            parts(Part::QSelf(after)),
        ),
        visitor.rules.accepts_nothing() && before.settled() ==> before.same(after),
        visitor.rules.is_total() ==> before.can_walk(visitor),
{
    visitor.rules.goes_through_the_parts_of_q_self(visitor.state, before, changed.state, after);
    if visitor.rules.accepts_nothing() {
        visitor.rules.quiet_visit_of_q_self(visitor.state, before, changed.state, after);
    }
    if visitor.rules.is_total() {
        visitor.rules.total_goes_through_q_self(before);
    }
}

/// Walking a function declaration visits everything that it is made of, in the order of the text
/// and from the
/// visitor's state before to its state after. The visitor keeps its rules, and where they accept
/// nothing, a function declaration stays as it is.
pub proof fn walking_visits_the_parts_of_fn_decl<
    S,
    F: Fn(&S, &str) -> (S, bool),
    G: Fn(&S, &Expr) -> (S, Expr),
    H: Fn(&S, &Mac) -> S,
>(
    visitor: FilterMap<S, F, G, H>,
    before: FnDecl,
    after: FnDecl,
    changed: FilterMap<S, F, G, H>,
)
    requires
        before.walked(visitor, after, changed),
    ensures
        changed.rules == visitor.rules,
        visitor.rules.visited_parts(
            visitor.state,
            parts(Part::FnDecl(before)),
            changed.state,
            parts(Part::FnDecl(after)),
        ),
        visitor.rules.accepts_nothing() && before.settled() ==> before.same(after),
        visitor.rules.is_total() ==> before.can_walk(visitor),
{
    visitor.rules.goes_through_the_parts_of_fn_decl(visitor.state, before, changed.state, after);
    if visitor.rules.accepts_nothing() {
        visitor.rules.quiet_visit_of_fn_decl(visitor.state, before, changed.state, after);
    }
    if visitor.rules.is_total() {
        visitor.rules.total_goes_through_fn_decl(before);
    }
}

/// Walking a parameter visits everything that it is made of, in the order of the text and from the
/// visitor's state before to its state after. The visitor keeps its rules, and where they accept
/// nothing, a parameter stays as it is.
pub proof fn walking_visits_the_parts_of_param<
    S,
    F: Fn(&S, &str) -> (S, bool),
    G: Fn(&S, &Expr) -> (S, Expr),
    H: Fn(&S, &Mac) -> S,
>(
    visitor: FilterMap<S, F, G, H>,
    before: Param,
    after: Param,
    changed: FilterMap<S, F, G, H>,
)
    requires
        before.walked(visitor, after, changed),
    ensures
        changed.rules == visitor.rules,
        visitor.rules.visited_parts(
            visitor.state,
            parts(Part::Param(before)),
            changed.state,
            parts(Part::Param(after)),
        ),
        visitor.rules.accepts_nothing() && before.settled() ==> before.same(after),
        visitor.rules.is_total() ==> before.can_walk(visitor),
{
    visitor.rules.goes_through_the_parts_of_param(visitor.state, before, changed.state, after);
    if visitor.rules.accepts_nothing() {
        visitor.rules.quiet_visit_of_param(visitor.state, before, changed.state, after);
    }
    if visitor.rules.is_total() {
        visitor.rules.total_goes_through_param(before);
    }
}

} // verus!
