//! What is handed over to scripts.

use std::rc::Rc;

use vstd::prelude::*;

use crate::ast::attr::Attribute;
use crate::ast::expr::Expr;
use crate::ast::flags::{Abi, BinOpKind, Constness, FnHeader, IsAsync, RangeEnd};
use crate::ast::func::{FnDecl, Param};
use crate::ast::ident::{AttrId, Ident, NodeId};
use crate::ast::item::{Crate, ForeignItem, Item, ItemKind, Mod, StructField, UseTree};
use crate::ast::lit::Lit;
use crate::ast::pat::Pat;
use crate::ast::path::{Path, PathSegment, QSelf};
use crate::ast::span::{Span, Spanned};
use crate::ast::stmt::{Local, Stmt};
use crate::ast::ty::{MutTy, Ty};
use crate::ast::vis::VisibilityKind;
use crate::nodes::func::{FnKind, FnLike};
use crate::nodes::res::Res;
use crate::text::char_name;

verus! {

/// A node that a script gets a handle on.
#[derive(Debug, PartialEq)]
pub enum LuaNode {
    /// A whole crate.
    Crate(Crate),
    Expr(Expr),
    Pat(Pat),
    Ty(Ty),
    Stmt(Stmt),
    /// A list of statements, handed over as one node.
    Stmts(Vec<Stmt>),
    Item(Item),
    ItemKind(ItemKind),
    ForeignItem(ForeignItem),
    Mod(Mod),
    UseTree(UseTree),
    StructField(StructField),
    Local(Local),
    Lit(Lit),
    Path(Path),
    PathSegment(PathSegment),
    QSelf(QSelf),
    MutTy(MutTy),
    FnDecl(FnDecl),
    FnHeader(FnHeader),
    Param(Param),
    Attribute(Attribute),
    FnLike(FnLike),
    Res(Res),
    BinOpKind(BinOpKind),
    VisibilityKind(VisibilityKind),
    RangeEnd(RangeEnd),
    IsAsync(IsAsync),
    Constness(Constness),
    BinOp(Spanned<BinOpKind>),
    Visibility(Spanned<VisibilityKind>),
    SpannedRangeEnd(Spanned<RangeEnd>),
    Asyncness(Spanned<IsAsync>),
    SpannedConstness(Spanned<Constness>),
}

/// A value as a script sees it. Its nodes are of the kind `N`.
#[derive(Debug, PartialEq)]
pub enum LuaValue<N> {
    Nil,
    Boolean(bool),
    /// A number. Scripts compute with 64 bits: one that is too large for a signed integer
    /// reaches them rounded.
    Integer(u128),
    Str(String),
    /// A sequence; scripts count from 1.
    Table(Vec<LuaValue<N>>),
    Node(N),
    /// A source position that scripts can only hand back.
    Span(Span),
}

/// A kind of nodes that can be values of type `T`.
pub trait Holds<T>: Sized {
    /// The node that is this value.
    spec fn held(item: T) -> Self;

    /// Makes a node of the value.
    fn hold(item: T) -> (node: Self)
        ensures
            node == Self::held(item),
    ;

    /// Different values are different nodes.
    proof fn held_tells_values_apart(first: T, second: T)
        requires
            Self::held(first) == Self::held(second),
        ensures
            first == second,
    ;
}

/// Values of any one type are nodes by themselves.
impl<T> Holds<T> for T {
    open spec fn held(item: T) -> T {
        item
    }

    fn hold(item: T) -> (node: T) {
        item
    }

    proof fn held_tells_values_apart(first: T, second: T) {
    }
}

/// A value that can be handed over as one node.
///
/// Nodes are always handed over in this way. A list of statements can be, or else it is handed
/// over as a table of its statements.
pub trait ToLuaAstNode<N>: Sized {
    /// The node that is handed over for this.
    spec fn lua_node(self) -> N;

    /// Hands the value over as a node.
    fn to_lua_ast_node(self) -> (node: N)
        ensures
            node == self.lua_node(),
    ;
}

impl<T, N: Holds<T>> ToLuaAstNode<N> for T {
    open spec fn lua_node(self) -> N {
        N::held(self)
    }

    fn to_lua_ast_node(self) -> (node: N) {
        N::hold(self)
    }
}

/// A value that can be handed over to a script, with nodes of the kind `N`.
pub trait ToLuaExt<N>: Sized {
    /// The script gets `value` for this.
    spec fn converts(self, value: LuaValue<N>) -> bool;

    /// Turns the value into what a script gets for it.
    fn to_lua_ext(self) -> (value: LuaValue<N>)
        ensures
            self.converts(value),
    ;
}

/// A value that is always handed over as a node. Lists of statements are not.
pub trait LuaAstNodeSafe<N>: ToLuaAstNode<N> + ToLuaExt<N> {
    /// What a script gets for the value is the node that is handed over for it.
    proof fn converts_to_its_node(self, value: LuaValue<N>)
        ensures
            self.converts(value) <==> value == LuaValue::Node(self.lua_node()),
    ;
}

/// What a script gets for a value that is always handed over as a node is the node that is handed
/// over for it and nothing else, so never a table.
pub proof fn nodes_are_handed_over_whole<N, T: LuaAstNodeSafe<N>>(item: T, value: LuaValue<N>)
    ensures
        item.converts(value) <==> value == LuaValue::Node(item.lua_node()),
{
    item.converts_to_its_node(value);
}

/// A value with its span is handed over as it is: no other value is handed over for it, and it for
/// no other.
pub proof fn spanned_values_are_handed_over_as_they_are<T>(
    item: Spanned<T>,
    value: LuaValue<Spanned<T>>,
)
    ensures
        item.converts(value) <==> value == LuaValue::Node(item),
{
}

/// `value` is this text.
pub open spec fn is_text<N>(value: LuaValue<N>, text: Seq<char>) -> bool {
    value matches LuaValue::Str(string) && string@ == text
}

impl<N, T: ToLuaExt<N> + Clone> ToLuaExt<N> for &T {
    open spec fn converts(self, value: LuaValue<N>) -> bool {
        exists|copy: T| #[trigger]
            call_ensures(T::clone, (self,), copy) && copy.converts(value)
    }

    fn to_lua_ext(self) -> (value: LuaValue<N>) {
        (*self).clone().to_lua_ext()
    }
}

impl<N, T: ToLuaExt<N> + Clone> ToLuaExt<N> for Rc<T> {
    open spec fn converts(self, value: LuaValue<N>) -> bool {
        exists|copy: T| #[trigger]
            call_ensures(T::clone, (&*self,), copy) && copy.converts(value)
    }

    fn to_lua_ext(self) -> (value: LuaValue<N>) {
        (*self).clone().to_lua_ext()
    }
}

impl<N, T: ToLuaExt<N>> ToLuaExt<N> for Option<T> {
    open spec fn converts(self, value: LuaValue<N>) -> bool {
        match self {
            Some(x) => x.converts(value),
            None => value == LuaValue::<N>::Nil,
        }
    }

    fn to_lua_ext(self) -> (value: LuaValue<N>) {
        if let Some(x) = self {
            x.to_lua_ext()
        } else {
            LuaValue::Nil
        }
    }
}

impl<N, T: ToLuaExt<N>> ToLuaExt<N> for Vec<T> {
    open spec fn converts(self, value: LuaValue<N>) -> bool {
        &&& value matches LuaValue::Table(entries)
        &&& entries@.len() == self@.len()
        &&& forall|i: int| 0 <= i < self@.len() ==> (#[trigger] self@[i]).converts(entries@[i])
    }

    fn to_lua_ext(self) -> (value: LuaValue<N>) {
        let mut rest = self;
        let mut entries: Vec<LuaValue<N>> = Vec::new();
        while rest.len() > 0
            invariant
                entries@.len() + rest@.len() == self@.len(),
                rest@ == self@.skip(entries@.len() as int),
                forall|i: int|
                    0 <= i < entries@.len() ==> (#[trigger] self@[i]).converts(entries@[i]),
            decreases rest@.len(),
        {
            let x: T = rest.remove(0);
            entries.push(x.to_lua_ext());
            assert(rest@ =~= self@.skip(entries@.len() as int));
        }
        LuaValue::Table(entries)
    }
}

impl<N, A: ToLuaExt<N>, B: ToLuaExt<N>> ToLuaExt<N> for (A, B) {
    open spec fn converts(self, value: LuaValue<N>) -> bool {
        &&& value matches LuaValue::Table(entries)
        &&& entries@.len() == 2
        &&& self.0.converts(entries@[0])
        &&& self.1.converts(entries@[1])
    }

    fn to_lua_ext(self) -> (value: LuaValue<N>) {
        let (a, b) = self;
        LuaValue::Table(vec![a.to_lua_ext(), b.to_lua_ext()])
    }
}

impl<N, A: ToLuaExt<N>, B: ToLuaExt<N>, C: ToLuaExt<N>> ToLuaExt<N> for (A, B, C) {
    open spec fn converts(self, value: LuaValue<N>) -> bool {
        &&& value matches LuaValue::Table(entries)
        &&& entries@.len() == 3
        &&& self.0.converts(entries@[0])
        &&& self.1.converts(entries@[1])
        &&& self.2.converts(entries@[2])
    }

    fn to_lua_ext(self) -> (value: LuaValue<N>) {
        let (a, b, c) = self;
        LuaValue::Table(vec![a.to_lua_ext(), b.to_lua_ext(), c.to_lua_ext()])
    }
}

impl<N, A: ToLuaExt<N>, B: ToLuaExt<N>, C: ToLuaExt<N>> ToLuaExt<N> for Box<(A, B, C)> {
    open spec fn converts(self, value: LuaValue<N>) -> bool {
        (*self).converts(value)
    }

    fn to_lua_ext(self) -> (value: LuaValue<N>) {
        (*self).to_lua_ext()
    }
}

impl<N> ToLuaExt<N> for bool {
    open spec fn converts(self, value: LuaValue<N>) -> bool {
        value == LuaValue::<N>::Boolean(self)
    }

    fn to_lua_ext(self) -> (value: LuaValue<N>) {
        LuaValue::Boolean(self)
    }
}

impl<N> ToLuaExt<N> for u8 {
    open spec fn converts(self, value: LuaValue<N>) -> bool {
        value == LuaValue::<N>::Integer(self as u128)
    }

    fn to_lua_ext(self) -> (value: LuaValue<N>) {
        LuaValue::Integer(self as u128)
    }
}

impl<N> ToLuaExt<N> for u16 {
    open spec fn converts(self, value: LuaValue<N>) -> bool {
        value == LuaValue::<N>::Integer(self as u128)
    }

    fn to_lua_ext(self) -> (value: LuaValue<N>) {
        LuaValue::Integer(self as u128)
    }
}

impl<N> ToLuaExt<N> for u32 {
    open spec fn converts(self, value: LuaValue<N>) -> bool {
        value == LuaValue::<N>::Integer(self as u128)
    }

    fn to_lua_ext(self) -> (value: LuaValue<N>) {
        LuaValue::Integer(self as u128)
    }
}

impl<N> ToLuaExt<N> for u128 {
    open spec fn converts(self, value: LuaValue<N>) -> bool {
        value == LuaValue::<N>::Integer(self)
    }

    fn to_lua_ext(self) -> (value: LuaValue<N>) {
        LuaValue::Integer(self)
    }
}

impl<N> ToLuaExt<N> for usize {
    open spec fn converts(self, value: LuaValue<N>) -> bool {
        value == LuaValue::<N>::Integer(self as u128)
    }

    fn to_lua_ext(self) -> (value: LuaValue<N>) {
        LuaValue::Integer(self as u128)
    }
}

impl<N> ToLuaExt<N> for char {
    open spec fn converts(self, value: LuaValue<N>) -> bool {
        is_text(value, seq![self])
    }

    fn to_lua_ext(self) -> (value: LuaValue<N>) {
        LuaValue::Str(char_name(self))
    }
}

impl<N> ToLuaExt<N> for String {
    open spec fn converts(self, value: LuaValue<N>) -> bool {
        is_text(value, self@)
    }

    fn to_lua_ext(self) -> (value: LuaValue<N>) {
        LuaValue::Str(self)
    }
}

impl<N> ToLuaExt<N> for Ident {
    open spec fn converts(self, value: LuaValue<N>) -> bool {
        is_text(value, self.name@)
    }

    fn to_lua_ext(self) -> (value: LuaValue<N>) {
        LuaValue::Str(self.name)
    }
}

impl<N> ToLuaExt<N> for Abi {
    open spec fn converts(self, value: LuaValue<N>) -> bool {
        is_text(value, self.name()@)
    }

    fn to_lua_ext(self) -> (value: LuaValue<N>) {
        LuaValue::Str(self.name().to_owned())
    }
}

impl<N> ToLuaExt<N> for FnKind {
    open spec fn converts(self, value: LuaValue<N>) -> bool {
        is_text(value, self.ast_name()@)
    }

    fn to_lua_ext(self) -> (value: LuaValue<N>) {
        LuaValue::Str(self.ast_name().to_owned())
    }
}

impl<N> ToLuaExt<N> for NodeId {
    open spec fn converts(self, value: LuaValue<N>) -> bool {
        value == LuaValue::<N>::Integer(self.0 as u128)
    }

    fn to_lua_ext(self) -> (value: LuaValue<N>) {
        self.as_u32().to_lua_ext()
    }
}

impl<N> ToLuaExt<N> for AttrId {
    open spec fn converts(self, value: LuaValue<N>) -> bool {
        value == LuaValue::<N>::Integer(self.0 as u128)
    }

    fn to_lua_ext(self) -> (value: LuaValue<N>) {
        self.0.to_lua_ext()
    }
}

impl<N> ToLuaExt<N> for Span {
    open spec fn converts(self, value: LuaValue<N>) -> bool {
        value == LuaValue::<N>::Span(self)
    }

    fn to_lua_ext(self) -> (value: LuaValue<N>) {
        LuaValue::Span(self)
    }
}

/// A node of the tree of any kind.
#[derive(Debug, PartialEq)]
pub enum AstNode {
    Crate(Crate),
    Expr(Expr),
    Pat(Pat),
    Ty(Ty),
    Stmts(Vec<Stmt>),
    Stmt(Stmt),
    Item(Item),
}

impl ToLuaExt<LuaNode> for AstNode {
    open spec fn converts(self, value: LuaValue<LuaNode>) -> bool {
        match self {
            AstNode::Crate(x) => value == LuaValue::Node(LuaNode::Crate(x)),
            AstNode::Expr(x) => value == LuaValue::Node(LuaNode::Expr(x)),
            AstNode::Pat(x) => value == LuaValue::Node(LuaNode::Pat(x)),
            AstNode::Ty(x) => value == LuaValue::Node(LuaNode::Ty(x)),
            AstNode::Stmts(x) => x.converts(value),
            AstNode::Stmt(x) => value == LuaValue::Node(LuaNode::Stmt(x)),
            AstNode::Item(x) => value == LuaValue::Node(LuaNode::Item(x)),
        }
    }

    fn to_lua_ext(self) -> (value: LuaValue<LuaNode>) {
        match self {
            AstNode::Crate(x) => x.to_lua_ext(),
            AstNode::Expr(x) => x.to_lua_ext(),
            AstNode::Pat(x) => x.to_lua_ext(),
            AstNode::Ty(x) => x.to_lua_ext(),
            AstNode::Stmts(x) => x.to_lua_ext(),
            AstNode::Stmt(x) => x.to_lua_ext(),
            AstNode::Item(x) => x.to_lua_ext(),
        }
    }
}

impl<N: Holds<Crate>> ToLuaExt<N> for Crate {
    open spec fn converts(self, value: LuaValue<N>) -> bool {
        value == LuaValue::Node(N::held(self))
    }

    fn to_lua_ext(self) -> (value: LuaValue<N>) {
        LuaValue::Node(N::hold(self))
    }
}

impl<N: Holds<Crate>> LuaAstNodeSafe<N> for Crate {
    proof fn converts_to_its_node(self, value: LuaValue<N>) {
    }
}

impl Holds<Crate> for LuaNode {
    open spec fn held(item: Crate) -> LuaNode {
        LuaNode::Crate(item)
    }

    fn hold(item: Crate) -> (node: LuaNode) {
        LuaNode::Crate(item)
    }

    proof fn held_tells_values_apart(first: Crate, second: Crate) {
    }
}

impl<N: Holds<Expr>> ToLuaExt<N> for Expr {
    open spec fn converts(self, value: LuaValue<N>) -> bool {
        value == LuaValue::Node(N::held(self))
    }

    fn to_lua_ext(self) -> (value: LuaValue<N>) {
        LuaValue::Node(N::hold(self))
    }
}

impl<N: Holds<Expr>> LuaAstNodeSafe<N> for Expr {
    proof fn converts_to_its_node(self, value: LuaValue<N>) {
    }
}

impl Holds<Expr> for LuaNode {
    open spec fn held(item: Expr) -> LuaNode {
        LuaNode::Expr(item)
    }

    fn hold(item: Expr) -> (node: LuaNode) {
        LuaNode::Expr(item)
    }

    proof fn held_tells_values_apart(first: Expr, second: Expr) {
    }
}

impl<N: Holds<Pat>> ToLuaExt<N> for Pat {
    open spec fn converts(self, value: LuaValue<N>) -> bool {
        value == LuaValue::Node(N::held(self))
    }

    fn to_lua_ext(self) -> (value: LuaValue<N>) {
        LuaValue::Node(N::hold(self))
    }
}

impl<N: Holds<Pat>> LuaAstNodeSafe<N> for Pat {
    proof fn converts_to_its_node(self, value: LuaValue<N>) {
    }
}

impl Holds<Pat> for LuaNode {
    open spec fn held(item: Pat) -> LuaNode {
        LuaNode::Pat(item)
    }

    fn hold(item: Pat) -> (node: LuaNode) {
        LuaNode::Pat(item)
    }

    proof fn held_tells_values_apart(first: Pat, second: Pat) {
    }
}

impl<N: Holds<Ty>> ToLuaExt<N> for Ty {
    open spec fn converts(self, value: LuaValue<N>) -> bool {
        value == LuaValue::Node(N::held(self))
    }

    fn to_lua_ext(self) -> (value: LuaValue<N>) {
        LuaValue::Node(N::hold(self))
    }
}

impl<N: Holds<Ty>> LuaAstNodeSafe<N> for Ty {
    proof fn converts_to_its_node(self, value: LuaValue<N>) {
    }
}

impl Holds<Ty> for LuaNode {
    open spec fn held(item: Ty) -> LuaNode {
        LuaNode::Ty(item)
    }

    fn hold(item: Ty) -> (node: LuaNode) {
        LuaNode::Ty(item)
    }

    proof fn held_tells_values_apart(first: Ty, second: Ty) {
    }
}

impl<N: Holds<Stmt>> ToLuaExt<N> for Stmt {
    open spec fn converts(self, value: LuaValue<N>) -> bool {
        value == LuaValue::Node(N::held(self))
    }

    fn to_lua_ext(self) -> (value: LuaValue<N>) {
        LuaValue::Node(N::hold(self))
    }
}

impl<N: Holds<Stmt>> LuaAstNodeSafe<N> for Stmt {
    proof fn converts_to_its_node(self, value: LuaValue<N>) {
    }
}

impl Holds<Stmt> for LuaNode {
    open spec fn held(item: Stmt) -> LuaNode {
        LuaNode::Stmt(item)
    }

    fn hold(item: Stmt) -> (node: LuaNode) {
        LuaNode::Stmt(item)
    }

    proof fn held_tells_values_apart(first: Stmt, second: Stmt) {
    }
}

impl<N: Holds<Item>> ToLuaExt<N> for Item {
    open spec fn converts(self, value: LuaValue<N>) -> bool {
        value == LuaValue::Node(N::held(self))
    }

    fn to_lua_ext(self) -> (value: LuaValue<N>) {
        LuaValue::Node(N::hold(self))
    }
}

impl<N: Holds<Item>> LuaAstNodeSafe<N> for Item {
    proof fn converts_to_its_node(self, value: LuaValue<N>) {
    }
}

impl Holds<Item> for LuaNode {
    open spec fn held(item: Item) -> LuaNode {
        LuaNode::Item(item)
    }

    fn hold(item: Item) -> (node: LuaNode) {
        LuaNode::Item(item)
    }

    proof fn held_tells_values_apart(first: Item, second: Item) {
    }
}

impl<N: Holds<ItemKind>> ToLuaExt<N> for ItemKind {
    open spec fn converts(self, value: LuaValue<N>) -> bool {
        value == LuaValue::Node(N::held(self))
    }

    fn to_lua_ext(self) -> (value: LuaValue<N>) {
        LuaValue::Node(N::hold(self))
    }
}

impl<N: Holds<ItemKind>> LuaAstNodeSafe<N> for ItemKind {
    proof fn converts_to_its_node(self, value: LuaValue<N>) {
    }
}

impl Holds<ItemKind> for LuaNode {
    open spec fn held(item: ItemKind) -> LuaNode {
        LuaNode::ItemKind(item)
    }

    fn hold(item: ItemKind) -> (node: LuaNode) {
        LuaNode::ItemKind(item)
    }

    proof fn held_tells_values_apart(first: ItemKind, second: ItemKind) {
    }
}

impl<N: Holds<ForeignItem>> ToLuaExt<N> for ForeignItem {
    open spec fn converts(self, value: LuaValue<N>) -> bool {
        value == LuaValue::Node(N::held(self))
    }

    fn to_lua_ext(self) -> (value: LuaValue<N>) {
        LuaValue::Node(N::hold(self))
    }
}

impl<N: Holds<ForeignItem>> LuaAstNodeSafe<N> for ForeignItem {
    proof fn converts_to_its_node(self, value: LuaValue<N>) {
    }
}

impl Holds<ForeignItem> for LuaNode {
    open spec fn held(item: ForeignItem) -> LuaNode {
        LuaNode::ForeignItem(item)
    }

    fn hold(item: ForeignItem) -> (node: LuaNode) {
        LuaNode::ForeignItem(item)
    }

    proof fn held_tells_values_apart(first: ForeignItem, second: ForeignItem) {
    }
}

impl<N: Holds<Mod>> ToLuaExt<N> for Mod {
    open spec fn converts(self, value: LuaValue<N>) -> bool {
        value == LuaValue::Node(N::held(self))
    }

    fn to_lua_ext(self) -> (value: LuaValue<N>) {
        LuaValue::Node(N::hold(self))
    }
}

impl<N: Holds<Mod>> LuaAstNodeSafe<N> for Mod {
    proof fn converts_to_its_node(self, value: LuaValue<N>) {
    }
}

impl Holds<Mod> for LuaNode {
    open spec fn held(item: Mod) -> LuaNode {
        LuaNode::Mod(item)
    }

    fn hold(item: Mod) -> (node: LuaNode) {
        LuaNode::Mod(item)
    }

    proof fn held_tells_values_apart(first: Mod, second: Mod) {
    }
}

impl<N: Holds<UseTree>> ToLuaExt<N> for UseTree {
    open spec fn converts(self, value: LuaValue<N>) -> bool {
        value == LuaValue::Node(N::held(self))
    }

    fn to_lua_ext(self) -> (value: LuaValue<N>) {
        LuaValue::Node(N::hold(self))
    }
}

impl<N: Holds<UseTree>> LuaAstNodeSafe<N> for UseTree {
    proof fn converts_to_its_node(self, value: LuaValue<N>) {
    }
}

impl Holds<UseTree> for LuaNode {
    open spec fn held(item: UseTree) -> LuaNode {
        LuaNode::UseTree(item)
    }

    fn hold(item: UseTree) -> (node: LuaNode) {
        LuaNode::UseTree(item)
    }

    proof fn held_tells_values_apart(first: UseTree, second: UseTree) {
    }
}

impl<N: Holds<StructField>> ToLuaExt<N> for StructField {
    open spec fn converts(self, value: LuaValue<N>) -> bool {
        value == LuaValue::Node(N::held(self))
    }

    fn to_lua_ext(self) -> (value: LuaValue<N>) {
        LuaValue::Node(N::hold(self))
    }
}

impl<N: Holds<StructField>> LuaAstNodeSafe<N> for StructField {
    proof fn converts_to_its_node(self, value: LuaValue<N>) {
    }
}

impl Holds<StructField> for LuaNode {
    open spec fn held(item: StructField) -> LuaNode {
        LuaNode::StructField(item)
    }

    fn hold(item: StructField) -> (node: LuaNode) {
        LuaNode::StructField(item)
    }

    proof fn held_tells_values_apart(first: StructField, second: StructField) {
    }
}

impl<N: Holds<Local>> ToLuaExt<N> for Local {
    open spec fn converts(self, value: LuaValue<N>) -> bool {
        value == LuaValue::Node(N::held(self))
    }

    fn to_lua_ext(self) -> (value: LuaValue<N>) {
        LuaValue::Node(N::hold(self))
    }
}

impl<N: Holds<Local>> LuaAstNodeSafe<N> for Local {
    proof fn converts_to_its_node(self, value: LuaValue<N>) {
    }
}

impl Holds<Local> for LuaNode {
    open spec fn held(item: Local) -> LuaNode {
        LuaNode::Local(item)
    }

    fn hold(item: Local) -> (node: LuaNode) {
        LuaNode::Local(item)
    }

    proof fn held_tells_values_apart(first: Local, second: Local) {
    }
}

impl<N: Holds<Lit>> ToLuaExt<N> for Lit {
    open spec fn converts(self, value: LuaValue<N>) -> bool {
        value == LuaValue::Node(N::held(self))
    }

    fn to_lua_ext(self) -> (value: LuaValue<N>) {
        LuaValue::Node(N::hold(self))
    }
}

impl<N: Holds<Lit>> LuaAstNodeSafe<N> for Lit {
    proof fn converts_to_its_node(self, value: LuaValue<N>) {
    }
}

impl Holds<Lit> for LuaNode {
    open spec fn held(item: Lit) -> LuaNode {
        LuaNode::Lit(item)
    }

    fn hold(item: Lit) -> (node: LuaNode) {
        LuaNode::Lit(item)
    }

    proof fn held_tells_values_apart(first: Lit, second: Lit) {
    }
}

impl<N: Holds<Path>> ToLuaExt<N> for Path {
    open spec fn converts(self, value: LuaValue<N>) -> bool {
        value == LuaValue::Node(N::held(self))
    }

    fn to_lua_ext(self) -> (value: LuaValue<N>) {
        LuaValue::Node(N::hold(self))
    }
}

impl<N: Holds<Path>> LuaAstNodeSafe<N> for Path {
    proof fn converts_to_its_node(self, value: LuaValue<N>) {
    }
}

impl Holds<Path> for LuaNode {
    open spec fn held(item: Path) -> LuaNode {
        LuaNode::Path(item)
    }

    fn hold(item: Path) -> (node: LuaNode) {
        LuaNode::Path(item)
    }

    proof fn held_tells_values_apart(first: Path, second: Path) {
    }
}

impl<N: Holds<PathSegment>> ToLuaExt<N> for PathSegment {
    open spec fn converts(self, value: LuaValue<N>) -> bool {
        value == LuaValue::Node(N::held(self))
    }

    fn to_lua_ext(self) -> (value: LuaValue<N>) {
        LuaValue::Node(N::hold(self))
    }
}

impl<N: Holds<PathSegment>> LuaAstNodeSafe<N> for PathSegment {
    proof fn converts_to_its_node(self, value: LuaValue<N>) {
    }
}

impl Holds<PathSegment> for LuaNode {
    open spec fn held(item: PathSegment) -> LuaNode {
        LuaNode::PathSegment(item)
    }

    fn hold(item: PathSegment) -> (node: LuaNode) {
        LuaNode::PathSegment(item)
    }

    proof fn held_tells_values_apart(first: PathSegment, second: PathSegment) {
    }
}

impl<N: Holds<QSelf>> ToLuaExt<N> for QSelf {
    open spec fn converts(self, value: LuaValue<N>) -> bool {
        value == LuaValue::Node(N::held(self))
    }

    fn to_lua_ext(self) -> (value: LuaValue<N>) {
        LuaValue::Node(N::hold(self))
    }
}

impl<N: Holds<QSelf>> LuaAstNodeSafe<N> for QSelf {
    proof fn converts_to_its_node(self, value: LuaValue<N>) {
    }
}

impl Holds<QSelf> for LuaNode {
    open spec fn held(item: QSelf) -> LuaNode {
        LuaNode::QSelf(item)
    }

    fn hold(item: QSelf) -> (node: LuaNode) {
        LuaNode::QSelf(item)
    }

    proof fn held_tells_values_apart(first: QSelf, second: QSelf) {
    }
}

impl<N: Holds<MutTy>> ToLuaExt<N> for MutTy {
    open spec fn converts(self, value: LuaValue<N>) -> bool {
        value == LuaValue::Node(N::held(self))
    }

    fn to_lua_ext(self) -> (value: LuaValue<N>) {
        LuaValue::Node(N::hold(self))
    }
}

impl<N: Holds<MutTy>> LuaAstNodeSafe<N> for MutTy {
    proof fn converts_to_its_node(self, value: LuaValue<N>) {
    }
}

impl Holds<MutTy> for LuaNode {
    open spec fn held(item: MutTy) -> LuaNode {
        LuaNode::MutTy(item)
    }

    fn hold(item: MutTy) -> (node: LuaNode) {
        LuaNode::MutTy(item)
    }

    proof fn held_tells_values_apart(first: MutTy, second: MutTy) {
    }
}

impl<N: Holds<FnDecl>> ToLuaExt<N> for FnDecl {
    open spec fn converts(self, value: LuaValue<N>) -> bool {
        value == LuaValue::Node(N::held(self))
    }

    fn to_lua_ext(self) -> (value: LuaValue<N>) {
        LuaValue::Node(N::hold(self))
    }
}

impl<N: Holds<FnDecl>> LuaAstNodeSafe<N> for FnDecl {
    proof fn converts_to_its_node(self, value: LuaValue<N>) {
    }
}

impl Holds<FnDecl> for LuaNode {
    open spec fn held(item: FnDecl) -> LuaNode {
        LuaNode::FnDecl(item)
    }

    fn hold(item: FnDecl) -> (node: LuaNode) {
        LuaNode::FnDecl(item)
    }

    proof fn held_tells_values_apart(first: FnDecl, second: FnDecl) {
    }
}

impl<N: Holds<FnHeader>> ToLuaExt<N> for FnHeader {
    open spec fn converts(self, value: LuaValue<N>) -> bool {
        value == LuaValue::Node(N::held(self))
    }

    fn to_lua_ext(self) -> (value: LuaValue<N>) {
        LuaValue::Node(N::hold(self))
    }
}

impl<N: Holds<FnHeader>> LuaAstNodeSafe<N> for FnHeader {
    proof fn converts_to_its_node(self, value: LuaValue<N>) {
    }
}

impl Holds<FnHeader> for LuaNode {
    open spec fn held(item: FnHeader) -> LuaNode {
        LuaNode::FnHeader(item)
    }

    fn hold(item: FnHeader) -> (node: LuaNode) {
        LuaNode::FnHeader(item)
    }

    proof fn held_tells_values_apart(first: FnHeader, second: FnHeader) {
    }
}

impl<N: Holds<Param>> ToLuaExt<N> for Param {
    open spec fn converts(self, value: LuaValue<N>) -> bool {
        value == LuaValue::Node(N::held(self))
    }

    fn to_lua_ext(self) -> (value: LuaValue<N>) {
        LuaValue::Node(N::hold(self))
    }
}

impl<N: Holds<Param>> LuaAstNodeSafe<N> for Param {
    proof fn converts_to_its_node(self, value: LuaValue<N>) {
    }
}

impl Holds<Param> for LuaNode {
    open spec fn held(item: Param) -> LuaNode {
        LuaNode::Param(item)
    }

    fn hold(item: Param) -> (node: LuaNode) {
        LuaNode::Param(item)
    }

    proof fn held_tells_values_apart(first: Param, second: Param) {
    }
}

impl<N: Holds<Attribute>> ToLuaExt<N> for Attribute {
    open spec fn converts(self, value: LuaValue<N>) -> bool {
        value == LuaValue::Node(N::held(self))
    }

    fn to_lua_ext(self) -> (value: LuaValue<N>) {
        LuaValue::Node(N::hold(self))
    }
}

impl<N: Holds<Attribute>> LuaAstNodeSafe<N> for Attribute {
    proof fn converts_to_its_node(self, value: LuaValue<N>) {
    }
}

impl Holds<Attribute> for LuaNode {
    open spec fn held(item: Attribute) -> LuaNode {
        LuaNode::Attribute(item)
    }

    fn hold(item: Attribute) -> (node: LuaNode) {
        LuaNode::Attribute(item)
    }

    proof fn held_tells_values_apart(first: Attribute, second: Attribute) {
    }
}

impl<N: Holds<FnLike>> ToLuaExt<N> for FnLike {
    open spec fn converts(self, value: LuaValue<N>) -> bool {
        value == LuaValue::Node(N::held(self))
    }

    fn to_lua_ext(self) -> (value: LuaValue<N>) {
        LuaValue::Node(N::hold(self))
    }
}

impl<N: Holds<FnLike>> LuaAstNodeSafe<N> for FnLike {
    proof fn converts_to_its_node(self, value: LuaValue<N>) {
    }
}

impl Holds<FnLike> for LuaNode {
    open spec fn held(item: FnLike) -> LuaNode {
        LuaNode::FnLike(item)
    }

    fn hold(item: FnLike) -> (node: LuaNode) {
        LuaNode::FnLike(item)
    }

    proof fn held_tells_values_apart(first: FnLike, second: FnLike) {
    }
}

impl<N: Holds<Res>> ToLuaExt<N> for Res {
    open spec fn converts(self, value: LuaValue<N>) -> bool {
        value == LuaValue::Node(N::held(self))
    }

    fn to_lua_ext(self) -> (value: LuaValue<N>) {
        LuaValue::Node(N::hold(self))
    }
}

impl<N: Holds<Res>> LuaAstNodeSafe<N> for Res {
    proof fn converts_to_its_node(self, value: LuaValue<N>) {
    }
}

impl Holds<Res> for LuaNode {
    open spec fn held(item: Res) -> LuaNode {
        LuaNode::Res(item)
    }

    fn hold(item: Res) -> (node: LuaNode) {
        LuaNode::Res(item)
    }

    proof fn held_tells_values_apart(first: Res, second: Res) {
    }
}

impl<N: Holds<BinOpKind>> ToLuaExt<N> for BinOpKind {
    open spec fn converts(self, value: LuaValue<N>) -> bool {
        value == LuaValue::Node(N::held(self))
    }

    fn to_lua_ext(self) -> (value: LuaValue<N>) {
        LuaValue::Node(N::hold(self))
    }
}

impl<N: Holds<BinOpKind>> LuaAstNodeSafe<N> for BinOpKind {
    proof fn converts_to_its_node(self, value: LuaValue<N>) {
    }
}

impl Holds<BinOpKind> for LuaNode {
    open spec fn held(item: BinOpKind) -> LuaNode {
        LuaNode::BinOpKind(item)
    }

    fn hold(item: BinOpKind) -> (node: LuaNode) {
        LuaNode::BinOpKind(item)
    }

    proof fn held_tells_values_apart(first: BinOpKind, second: BinOpKind) {
    }
}

impl<N: Holds<VisibilityKind>> ToLuaExt<N> for VisibilityKind {
    open spec fn converts(self, value: LuaValue<N>) -> bool {
        value == LuaValue::Node(N::held(self))
    }

    fn to_lua_ext(self) -> (value: LuaValue<N>) {
        LuaValue::Node(N::hold(self))
    }
}

impl<N: Holds<VisibilityKind>> LuaAstNodeSafe<N> for VisibilityKind {
    proof fn converts_to_its_node(self, value: LuaValue<N>) {
    }
}

impl Holds<VisibilityKind> for LuaNode {
    open spec fn held(item: VisibilityKind) -> LuaNode {
        LuaNode::VisibilityKind(item)
    }

    fn hold(item: VisibilityKind) -> (node: LuaNode) {
        LuaNode::VisibilityKind(item)
    }

    proof fn held_tells_values_apart(first: VisibilityKind, second: VisibilityKind) {
    }
}

impl<N: Holds<RangeEnd>> ToLuaExt<N> for RangeEnd {
    open spec fn converts(self, value: LuaValue<N>) -> bool {
        value == LuaValue::Node(N::held(self))
    }

    fn to_lua_ext(self) -> (value: LuaValue<N>) {
        LuaValue::Node(N::hold(self))
    }
}

impl<N: Holds<RangeEnd>> LuaAstNodeSafe<N> for RangeEnd {
    proof fn converts_to_its_node(self, value: LuaValue<N>) {
    }
}

impl Holds<RangeEnd> for LuaNode {
    open spec fn held(item: RangeEnd) -> LuaNode {
        LuaNode::RangeEnd(item)
    }

    fn hold(item: RangeEnd) -> (node: LuaNode) {
        LuaNode::RangeEnd(item)
    }

    proof fn held_tells_values_apart(first: RangeEnd, second: RangeEnd) {
    }
}

impl<N: Holds<IsAsync>> ToLuaExt<N> for IsAsync {
    open spec fn converts(self, value: LuaValue<N>) -> bool {
        value == LuaValue::Node(N::held(self))
    }

    fn to_lua_ext(self) -> (value: LuaValue<N>) {
        LuaValue::Node(N::hold(self))
    }
}

impl<N: Holds<IsAsync>> LuaAstNodeSafe<N> for IsAsync {
    proof fn converts_to_its_node(self, value: LuaValue<N>) {
    }
}

impl Holds<IsAsync> for LuaNode {
    open spec fn held(item: IsAsync) -> LuaNode {
        LuaNode::IsAsync(item)
    }

    fn hold(item: IsAsync) -> (node: LuaNode) {
        LuaNode::IsAsync(item)
    }

    proof fn held_tells_values_apart(first: IsAsync, second: IsAsync) {
    }
}

impl<N: Holds<Constness>> ToLuaExt<N> for Constness {
    open spec fn converts(self, value: LuaValue<N>) -> bool {
        value == LuaValue::Node(N::held(self))
    }

    fn to_lua_ext(self) -> (value: LuaValue<N>) {
        LuaValue::Node(N::hold(self))
    }
}

impl<N: Holds<Constness>> LuaAstNodeSafe<N> for Constness {
    proof fn converts_to_its_node(self, value: LuaValue<N>) {
    }
}

impl Holds<Constness> for LuaNode {
    open spec fn held(item: Constness) -> LuaNode {
        LuaNode::Constness(item)
    }

    fn hold(item: Constness) -> (node: LuaNode) {
        LuaNode::Constness(item)
    }

    proof fn held_tells_values_apart(first: Constness, second: Constness) {
    }
}

impl Holds<Vec<Stmt>> for LuaNode {
    open spec fn held(item: Vec<Stmt>) -> LuaNode {
        LuaNode::Stmts(item)
    }

    fn hold(item: Vec<Stmt>) -> (node: LuaNode) {
        LuaNode::Stmts(item)
    }

    proof fn held_tells_values_apart(first: Vec<Stmt>, second: Vec<Stmt>) {
    }
}

impl Holds<Spanned<BinOpKind>> for LuaNode {
    open spec fn held(item: Spanned<BinOpKind>) -> LuaNode {
        LuaNode::BinOp(item)
    }

    fn hold(item: Spanned<BinOpKind>) -> (node: LuaNode) {
        LuaNode::BinOp(item)
    }

    proof fn held_tells_values_apart(first: Spanned<BinOpKind>, second: Spanned<BinOpKind>) {
    }
}

impl Holds<Spanned<VisibilityKind>> for LuaNode {
    open spec fn held(item: Spanned<VisibilityKind>) -> LuaNode {
        LuaNode::Visibility(item)
    }

    fn hold(item: Spanned<VisibilityKind>) -> (node: LuaNode) {
        LuaNode::Visibility(item)
    }

    proof fn held_tells_values_apart(
        first: Spanned<VisibilityKind>,
        second: Spanned<VisibilityKind>,
    ) {
    }
}

impl Holds<Spanned<RangeEnd>> for LuaNode {
    open spec fn held(item: Spanned<RangeEnd>) -> LuaNode {
        LuaNode::SpannedRangeEnd(item)
    }

    fn hold(item: Spanned<RangeEnd>) -> (node: LuaNode) {
        LuaNode::SpannedRangeEnd(item)
    }

    proof fn held_tells_values_apart(first: Spanned<RangeEnd>, second: Spanned<RangeEnd>) {
    }
}

impl Holds<Spanned<IsAsync>> for LuaNode {
    open spec fn held(item: Spanned<IsAsync>) -> LuaNode {
        LuaNode::Asyncness(item)
    }

    fn hold(item: Spanned<IsAsync>) -> (node: LuaNode) {
        LuaNode::Asyncness(item)
    }

    proof fn held_tells_values_apart(first: Spanned<IsAsync>, second: Spanned<IsAsync>) {
    }
}

impl Holds<Spanned<Constness>> for LuaNode {
    open spec fn held(item: Spanned<Constness>) -> LuaNode {
        LuaNode::SpannedConstness(item)
    }

    fn hold(item: Spanned<Constness>) -> (node: LuaNode) {
        LuaNode::SpannedConstness(item)
    }

    proof fn held_tells_values_apart(first: Spanned<Constness>, second: Spanned<Constness>) {
    }
}

impl<T, N: Holds<Spanned<T>>> ToLuaExt<N> for Spanned<T> {
    open spec fn converts(self, value: LuaValue<N>) -> bool {
        value == LuaValue::Node(N::held(self))
    }

    fn to_lua_ext(self) -> (value: LuaValue<N>) {
        LuaValue::Node(N::hold(self))
    }
}

impl<T, N: Holds<Spanned<T>>> LuaAstNodeSafe<N> for Spanned<T> {
    proof fn converts_to_its_node(self, value: LuaValue<N>) {
    }
}

/// What is handed over as a node is the value and nothing less: two values that a script gets the
/// same node for are equal.
pub proof fn handed_over_node_is_the_value<N: Holds<T>, T>(first: T, second: T)
    requires
        <T as ToLuaAstNode<N>>::lua_node(first) == <T as ToLuaAstNode<N>>::lua_node(second),
    ensures
        first == second,
{
    N::held_tells_values_apart(first, second);
}

/// A node of any kind is converted as what it is: a list of statements as a list, all others as
/// themselves.
pub proof fn nodes_of_any_kind_are_converted_as_they_are(value: LuaValue<LuaNode>)
    ensures
        forall|x: Crate| #[trigger]
            AstNode::Crate(x).converts(value) <==> value == LuaValue::Node(LuaNode::Crate(x)),
        forall|x: Expr| #[trigger]
            AstNode::Expr(x).converts(value) <==> value == LuaValue::Node(LuaNode::Expr(x)),
        forall|x: Pat| #[trigger]
            AstNode::Pat(x).converts(value) <==> value == LuaValue::Node(LuaNode::Pat(x)),
        forall|x: Ty| #[trigger]
            AstNode::Ty(x).converts(value) <==> value == LuaValue::Node(LuaNode::Ty(x)),
        forall|x: Stmt| #[trigger]
            AstNode::Stmt(x).converts(value) <==> value == LuaValue::Node(LuaNode::Stmt(x)),
        forall|x: Item| #[trigger]
            AstNode::Item(x).converts(value) <==> value == LuaValue::Node(LuaNode::Item(x)),
        forall|x: Vec<Stmt>| #[trigger]
            AstNode::Stmts(x).converts(value) ==> (value matches LuaValue::Table(entries)
                && entries@.len() == x@.len() && (forall|i: int|
                0 <= i < x@.len() ==> #[trigger] entries@[i] == LuaValue::Node(
                    LuaNode::Stmt(x@[i]),
                ))),
{
    assert forall|x: Vec<Stmt>| #[trigger] AstNode::Stmts(x).converts(value) implies (
    value matches LuaValue::Table(entries) && entries@.len() == x@.len() && (forall|i: int|
        0 <= i < x@.len() ==> #[trigger] entries@[i] == LuaValue::Node(
            LuaNode::Stmt(x@[i]),
        ))) by {
        let entries = value->Table_0;
        assert forall|i: int| 0 <= i < x@.len() implies #[trigger] entries@[i] == LuaValue::Node(
            LuaNode::Stmt(x@[i]),
        ) by {
            assert(x@[i].converts(entries@[i]));
        }
    }
}

/// What may be missing is nil where it is, and otherwise converted as if it could not be.
pub proof fn missing_is_nil<N, T: ToLuaExt<N>>(item: T, value: LuaValue<N>)
    ensures
        Some(item).converts(value) <==> item.converts(value),
        None::<T>.converts(value) <==> value == LuaValue::<N>::Nil,
{
}

/// A list is a table of as many entries, each of them what its element is converted to.
pub proof fn lists_are_tables<N, T: ToLuaExt<N>>(list: Vec<T>, value: LuaValue<N>, index: int)
    requires
        list.converts(value),
    ensures
        value matches LuaValue::Table(entries) && entries@.len() == list@.len() && (0 <= index
            < list@.len() ==> list@[index].converts(entries@[index])),
{
}

/// Pairs and triples are tables of their components in order.
pub proof fn tuples_are_tables<N, A: ToLuaExt<N>, B: ToLuaExt<N>, C: ToLuaExt<N>>(
    a: A,
    b: B,
    c: C,
    pair: LuaValue<N>,
    triple: LuaValue<N>,
    boxed: LuaValue<N>,
)
    ensures
        (a, b).converts(pair) ==> (pair matches LuaValue::Table(entries) && entries@.len() == 2
            && a.converts(entries@[0]) && b.converts(entries@[1])),
        (a, b, c).converts(triple) ==> (triple matches LuaValue::Table(entries) && entries@.len()
            == 3 && a.converts(entries@[0]) && b.converts(entries@[1]) && c.converts(
            entries@[2],
        )),
        Box::new((a, b, c)).converts(boxed) <==> (a, b, c).converts(boxed),
{
}

/// Numbers and ids are converted to the numbers that they are.
pub proof fn numbers_are_converted_to_themselves<N>(
    a: u8,
    b: u16,
    c: u32,
    d: u128,
    e: usize,
    value: LuaValue<N>,
)
    ensures
        a.converts(value) ==> (value matches LuaValue::Integer(n) && n == a),
        b.converts(value) ==> (value matches LuaValue::Integer(n) && n == b),
        c.converts(value) ==> (value matches LuaValue::Integer(n) && n == c),
        d.converts(value) ==> (value matches LuaValue::Integer(n) && n == d),
        e.converts(value) ==> (value matches LuaValue::Integer(n) && n == e),
        NodeId(c).converts(value) <==> c.converts(value),
        AttrId(e).converts(value) <==> e.converts(value),
{
}

/// Names and characters are converted to their texts.
pub proof fn names_are_converted_to_their_texts<N>(
    name: String,
    ident: Ident,
    ch: char,
    value: LuaValue<N>,
)
    ensures
        name.converts(value) ==> (value matches LuaValue::Str(text) && text@ == name@),
        ident.converts(value) ==> (value matches LuaValue::Str(text) && text@ == ident.name@),
        ch.converts(value) ==> (value matches LuaValue::Str(text) && text@ == seq![ch]),
{
}

/// Truth values and spans are converted to themselves.
pub proof fn truth_values_and_spans_are_kept<N>(truth: bool, span: Span, value: LuaValue<N>)
    ensures
        truth.converts(value) <==> value == LuaValue::<N>::Boolean(truth),
        span.converts(value) <==> value == LuaValue::<N>::Span(span),
{
}

/// Calling conventions and kinds of functions are converted to their names.
pub proof fn conventions_are_converted_to_their_names<N>(
    abi: Abi,
    kind: FnKind,
    value: LuaValue<N>,
)
    ensures
        abi.converts(value) ==> (value matches LuaValue::Str(text) && text@ == abi.name()@),
        kind.converts(value) ==> (value matches LuaValue::Str(text) && text@ == kind.ast_name()@),
{
}

/// What is behind a reference is converted as a copy of it.
pub proof fn references_are_converted_as_copies<N, T: ToLuaExt<N> + Clone>(
    item: T,
    value: LuaValue<N>,
)
    ensures
        (&item).converts(value) <==> exists|copy: T| #[trigger]
            call_ensures(T::clone, (&item,), copy) && copy.converts(value),
{
}

} // verus!
