//! Items, functions and statements under the requests of scripts.

use lua_ast_node::ast::attr::{Attribute, Mac};
use lua_ast_node::ast::expr::{Expr, ExprKind};
use lua_ast_node::ast::flags::{
    Abi, AttrStyle, BindingMode, Constness, CrateSugar, Defaultness, FnHeader, ImplPolarity,
    IsAsync, MacDelimiter, MacStmtStyle, Mutability, Unsafety,
};
use lua_ast_node::ast::func::{FnDecl, FunctionRetTy, Param};
use lua_ast_node::ast::generics::{
    GenericParam, GenericParamKind, Generics, TraitRef, WhereClause,
};
use lua_ast_node::ast::ident::{AttrId, Ident, NodeId, SimplePath, MAX_NODE_ID};
use lua_ast_node::ast::item::{
    ForeignItem, ForeignItemKind, Item, ItemKind, Mod, NestedUse, StructField, UseTree,
    UseTreeKind, VariantData,
};
use lua_ast_node::ast::pat::{Pat, PatKind};
use lua_ast_node::ast::path::{Path, PathSegment};
use lua_ast_node::ast::span::{Span, Spanned};
use lua_ast_node::ast::stmt::{Block, Local, MacStmt, Stmt, StmtKind};
use lua_ast_node::ast::ty::{Ty, TyKind};
use lua_ast_node::ast::flags::BlockCheckMode;
use lua_ast_node::ast::vis::VisibilityKind;
use lua_ast_node::error::Error;
use lua_ast_node::nodes::func::{FnKind, FnLike};
use lua_ast_node::nodes::res::{LuaHirId, Namespace, Res};
use lua_ast_node::nodes::stmt::StmtNode;

const HERE: Span = Span { lo: 3, hi: 9, ctxt: 0 };
const NOWHERE: Span = Span { lo: 0, hi: 0, ctxt: 0 };
const DUMMY: NodeId = NodeId(MAX_NODE_ID);

fn ident(name: &str) -> Ident {
    Ident { name: name.to_owned(), span: NOWHERE }
}

fn ty(id: u32) -> Ty {
    Ty { id: NodeId(id), kind: TyKind::Never, span: HERE }
}

fn expr(id: u32) -> Expr {
    Expr { id: NodeId(id), kind: ExprKind::Tup(Vec::new()), span: HERE, attrs: Vec::new() }
}

fn binding(id: u32, name: &str) -> Pat {
    Pat {
        id: NodeId(id),
        kind: PatKind::Ident(BindingMode::ByValue(Mutability::Immutable), ident(name), None),
        span: HERE,
    }
}

fn param(id: u32) -> Param {
    Param {
        attrs: Vec::new(),
        ty: Box::new(ty(id + 1)),
        pat: Box::new(binding(id + 2, "p")),
        id: NodeId(id),
        span: HERE,
        is_placeholder: false,
    }
}

fn field(id: u32) -> StructField {
    StructField {
        span: HERE,
        ident: Some(ident("f")),
        vis: Spanned { node: VisibilityKind::Inherited, span: HERE },
        id: NodeId(id),
        ty: Box::new(ty(id + 1)),
        attrs: Vec::new(),
        is_placeholder: false,
    }
}

fn no_generics() -> Generics {
    Generics {
        params: Vec::new(),
        where_clause: WhereClause { predicates: Vec::new(), span: HERE },
        span: HERE,
    }
}

fn lifetime(name: &str, ctxt: u32) -> GenericParam {
    GenericParam {
        id: DUMMY,
        ident: Ident { name: name.to_owned(), span: Span { lo: 0, hi: 0, ctxt } },
        attrs: Vec::new(),
        bounds: Vec::new(),
        is_placeholder: false,
        kind: GenericParamKind::Lifetime,
    }
}

fn item(kind: ItemKind) -> Item {
    Item {
        ident: ident("i"),
        attrs: Vec::new(),
        id: NodeId(1),
        kind,
        vis: Spanned { node: VisibilityKind::Public, span: HERE },
        span: HERE,
        tokens: None,
    }
}

fn header() -> FnHeader {
    FnHeader {
        unsafety: Unsafety::Normal,
        asyncness: Spanned { node: IsAsync::NotAsync, span: HERE },
        constness: Spanned { node: Constness::NotConst, span: HERE },
        abi: Abi::Rust,
    }
}

fn decl(inputs: Vec<Param>) -> FnDecl {
    FnDecl { inputs, output: FunctionRetTy::Default(HERE) }
}

fn block() -> Block {
    Block { stmts: Vec::new(), id: NodeId(50), rules: BlockCheckMode::Default, span: HERE }
}

fn function(inputs: Vec<Param>, generics: Generics) -> ItemKind {
    ItemKind::Fn(Box::new(decl(inputs)), header(), generics, Box::new(block()))
}

fn structure(fields: Vec<StructField>) -> ItemKind {
    ItemKind::Struct(VariantData::Struct(fields, false), no_generics())
}

fn attr(names: &[&str]) -> Attribute {
    Attribute {
        path: SimplePath { span: HERE, segments: names.iter().map(|n| ident(n)).collect() },
        tokens: String::new(),
        id: AttrId(4),
        style: AttrStyle::Outer,
        is_sugared_doc: false,
        span: HERE,
    }
}

fn use_tree(kind: UseTreeKind) -> UseTree {
    UseTree { prefix: SimplePath { span: HERE, segments: vec![ident("a")] }, kind, span: HERE }
}

fn mac() -> Mac {
    Mac {
        path: SimplePath { span: HERE, segments: vec![ident("m")] },
        delim: MacDelimiter::Parenthesis,
        tts: String::new(),
        span: HERE,
    }
}

fn local() -> Local {
    Local {
        id: NodeId(20),
        pat: Box::new(binding(21, "x")),
        ty: None,
        init: None,
        span: HERE,
        attrs: vec![attr(&["allow"])],
    }
}

fn copies<T: Clone>(list: Vec<&T>) -> Vec<T> {
    list.into_iter().cloned().collect()
}

#[test]
fn item_is_renamed() {
    let mut i = item(structure(Vec::new()));
    i.set_ident("j".to_owned());
    assert_eq!(i.ident, ident("j"));
    assert_eq!(i.id, NodeId(1));
}

#[test]
fn visibility_is_named() {
    let mut i = item(structure(Vec::new()));
    assert_eq!(i.get_vis(), "Public");
    i.vis.node = VisibilityKind::Crate(CrateSugar::PubCrate);
    assert_eq!(i.get_vis(), "Crate");
    i.vis.node = VisibilityKind::Restricted {
        path: Box::new(SimplePath { span: HERE, segments: vec![ident("a")] }),
        id: NodeId(3),
    };
    assert_eq!(i.get_vis(), "Restricted");
    i.vis.node = VisibilityKind::Inherited;
    assert_eq!(i.get_vis(), "Inherited");
}

#[test]
fn use_item_has_a_tree() {
    let tree = use_tree(UseTreeKind::Glob);
    assert_eq!(item(ItemKind::Use(Box::new(tree.clone()))).get_node(), Ok(&tree));
    assert_eq!(item(structure(Vec::new())).get_node(), Err(Error::ItemNode));
}

#[test]
fn structs_have_fields() {
    let i = item(structure(vec![field(10), field(12)]));
    assert_eq!(copies(i.get_fields().unwrap()), vec![field(10), field(12)]);
    assert_eq!(i.kind.get_field_ids(), Some(vec![10, 12]));
    let tuple = item(
        ItemKind::Struct(VariantData::Tuple(vec![field(14)], NodeId(2)), no_generics()),
    );
    assert_eq!(tuple.kind.get_field_ids(), Some(vec![14]));
    let unit = item(ItemKind::Struct(VariantData::Unit(NodeId(2)), no_generics()));
    assert_eq!(unit.kind.get_field_ids(), Some(Vec::new()));
    let union = item(ItemKind::Union(VariantData::Struct(vec![field(10)], false), no_generics()));
    assert!(union.get_fields().is_none());
    assert_eq!(union.kind.get_field_ids(), None);
}

#[test]
fn functions_have_parameters() {
    let mut i = item(function(vec![param(10), param(20)], no_generics()));
    assert_eq!(i.get_arg_ids(), Some(vec![10, 20]));
    assert_eq!(i.kind.get_arg_ids(), Some(vec![10, 20]));
    assert_eq!(copies(i.get_args().unwrap()), vec![param(10), param(20)]);
    i.set_args(vec![param(30)]);
    assert_eq!(i, item(function(vec![param(30)], no_generics())));
    assert_eq!(copies(i.get_args().unwrap()), vec![param(30)]);

    let mut s = item(structure(Vec::new()));
    let before = s.clone();
    s.set_args(vec![param(30)]);
    assert_eq!(s, before);
    assert!(s.get_args().is_none());
    assert_eq!(s.get_arg_ids(), None);
}

#[test]
fn lifetime_is_added_once() {
    let mut i = item(function(Vec::new(), no_generics()));
    i.add_lifetime("a");
    let mut one = no_generics();
    one.params.push(lifetime("'a", 0));
    assert_eq!(i.kind, function(Vec::new(), one.clone()));
    i.add_lifetime("a");
    assert_eq!(i.kind, function(Vec::new(), one.clone()));
    i.kind.add_lifetime("b");
    let mut two = one;
    two.params.push(lifetime("'b", 0));
    assert_eq!(i.kind, function(Vec::new(), two));
}

#[test]
fn parameter_of_another_kind_or_context_is_no_such_lifetime() {
    let mut generics = no_generics();
    let mut ty_param = lifetime("'a", 0);
    ty_param.kind = GenericParamKind::Type { default: None };
    generics.params.push(ty_param);
    generics.params.push(lifetime("'a", 5));
    let mut i = item(ItemKind::Struct(VariantData::Unit(NodeId(2)), generics.clone()));
    i.add_lifetime("a");
    generics.params.push(lifetime("'a", 0));
    assert_eq!(i.kind, ItemKind::Struct(VariantData::Unit(NodeId(2)), generics.clone()));
    i.add_lifetime("a");
    assert_eq!(i.kind, ItemKind::Struct(VariantData::Unit(NodeId(2)), generics));
}

#[test]
fn other_items_get_no_lifetime() {
    let mut i = item(ItemKind::TyAlias(Box::new(ty(3)), no_generics()));
    let before = i.clone();
    i.add_lifetime("a");
    assert_eq!(i, before);
}

#[test]
fn impl_has_a_trait() {
    let path = Path {
        span: HERE,
        segments: vec![PathSegment { ident: ident("T"), id: NodeId(8), args: None }],
    };
    let with = |trait_ref: Option<TraitRef>| {
        item(ItemKind::Impl(
            Unsafety::Normal,
            ImplPolarity::Positive,
            Defaultness::Final,
            no_generics(),
            trait_ref,
            Box::new(ty(3)),
            Vec::new(),
        ))
    };
    let trait_ref = TraitRef { path: path.clone(), ref_id: NodeId(9) };
    assert_eq!(with(Some(trait_ref)).get_trait_ref(), Some(&path));
    assert_eq!(with(None).get_trait_ref(), None);
    assert_eq!(item(structure(Vec::new())).get_trait_ref(), None);
}

fn clone_derive() -> Attribute {
    Attribute {
        path: SimplePath { span: NOWHERE, segments: vec![ident("derive")] },
        tokens: "(Clone)".to_owned(),
        id: AttrId(0),
        style: AttrStyle::Outer,
        is_sugared_doc: false,
        span: NOWHERE,
    }
}

#[test]
fn first_copy_marker_is_removed() {
    let mut i = item(structure(Vec::new()));
    i.attrs = vec![
        attr(&["repr"]),
        attr(&["rustc_copy_clone_marker", "x"]),
        attr(&["rustc_copy_clone_marker"]),
        attr(&["rustc_copy_clone_marker"]),
    ];
    i.remove_copy_derive();
    assert_eq!(
        i.attrs,
        vec![
            attr(&["repr"]),
            attr(&["rustc_copy_clone_marker", "x"]),
            attr(&["rustc_copy_clone_marker"]),
            clone_derive(),
        ]
    );
}

#[test]
fn clone_is_derived_without_a_marker_too() {
    let mut i = item(structure(Vec::new()));
    i.attrs = vec![attr(&["repr"])];
    i.remove_copy_derive();
    assert_eq!(i.attrs, vec![attr(&["repr"]), clone_derive()]);
}

#[test]
fn attribute_of_one_word_has_an_ident() {
    assert_eq!(attr(&["repr"]).ident(), Some(&ident("repr")));
    assert_eq!(attr(&["a", "b"]).ident(), None);
    assert_eq!(attr(&[]).ident(), None);
}

fn foreign(kind: ForeignItemKind) -> ForeignItem {
    ForeignItem {
        ident: ident("g"),
        attrs: Vec::new(),
        kind,
        id: NodeId(60),
        span: HERE,
        vis: Spanned { node: VisibilityKind::Public, span: HERE },
    }
}

#[test]
fn foreign_functions_have_parameters() {
    let mut f = foreign(ForeignItemKind::Fn(Box::new(decl(vec![param(10)])), no_generics()));
    assert_eq!(copies(f.get_args().unwrap()), vec![param(10)]);
    f.set_ident("h".to_owned());
    assert_eq!(f.ident, ident("h"));
    assert!(foreign(ForeignItemKind::Ty).get_args().is_none());
}

#[test]
fn field_gets_another_type() {
    let mut f = field(10);
    f.attrs.push(attr(&["doc"]));
    f.set_ty(ty(70));
    assert_eq!(*f.ty, ty(70));
    assert_eq!(copies(f.get_attrs()), vec![attr(&["doc"])]);
}

#[test]
fn module_items_come_and_go() {
    let first = item(structure(Vec::new()));
    let second = item(function(Vec::new(), no_generics()));
    let mut m = Mod { inner: HERE, items: Vec::new(), inline: true };
    m.insert_item(0, first.clone());
    m.insert_item(1, first.clone());
    m.insert_item(1, second.clone());
    assert_eq!(m.num_items(), 3);
    assert_eq!(m.drain_items(), vec![first.clone(), second, first]);
    assert_eq!(m, Mod { inner: HERE, items: Vec::new(), inline: true });
    assert_eq!(m.num_items(), 0);
}

#[test]
fn use_trees_are_read() {
    let simple = use_tree(UseTreeKind::Simple(Some(ident("b")), NodeId(1), NodeId(2)));
    assert_eq!(simple.get_rename(), Some("b"));
    assert!(simple.get_nested().is_none());
    let plain = use_tree(UseTreeKind::Simple(None, NodeId(1), NodeId(2)));
    assert_eq!(plain.get_rename(), None);
    let nested = NestedUse { tree: plain, id: NodeId(3) };
    let braces = use_tree(UseTreeKind::Nested(vec![nested.clone()]));
    assert_eq!(copies(braces.get_nested().unwrap()), vec![nested]);
    assert_eq!(braces.get_rename(), None);
}

#[test]
fn functions_of_all_kinds_are_described() {
    let f = FnLike {
        kind: FnKind::TraitMethod,
        id: NodeId(5),
        ident: ident("f"),
        span: HERE,
        decl: Box::new(decl(vec![param(10)])),
        block: None,
        attrs: Vec::new(),
    };
    assert_eq!(f.get_kind(), "TraitMethod");
    assert_eq!(f.get_id(), NodeId(5));
    assert_eq!(*f.get_ident(), ident("f"));
    assert!(!f.has_block());
    assert_eq!(copies(f.decl.get_args()), vec![param(10)]);
    let mut g = f.clone();
    assert_eq!(g, f);
    g.block = Some(Box::new(block()));
    assert!(g.has_block());
    assert_eq!(FnKind::Foreign.ast_name(), "Foreign");
}

#[test]
fn parameter_changes() {
    let mut p = param(10);
    p.set_ty(ty(70));
    assert_eq!(*p.ty, ty(70));
    assert_eq!(p.get_pat_id(), NodeId(12));
    let cases = [
        ("ByRefMut", BindingMode::ByRef(Mutability::Mutable)),
        ("ByRefImmut", BindingMode::ByRef(Mutability::Immutable)),
        ("ByValMut", BindingMode::ByValue(Mutability::Mutable)),
        ("ByValImmut", BindingMode::ByValue(Mutability::Immutable)),
    ];
    for (name, mode) in cases {
        p.set_binding(name);
        assert_eq!(p.pat.kind, PatKind::Ident(mode, ident("p"), None));
    }
    p.pat.kind = PatKind::Wild;
    p.set_binding("unknown");
    assert_eq!(p.pat.kind, PatKind::Wild);
}

#[test]
fn statements_are_made_of_nodes() {
    let stmt = |kind: StmtKind| Stmt { id: NodeId(30), kind, span: HERE };
    let e = stmt(StmtKind::Semi(Box::new(expr(1))));
    assert_eq!(e.get_node(), Ok(StmtNode::Expr(&expr(1))));
    let e2 = stmt(StmtKind::Expr(Box::new(expr(1))));
    assert_eq!(e2.get_node(), Ok(StmtNode::Expr(&expr(1))));
    let l = stmt(StmtKind::Local(Box::new(local())));
    assert_eq!(l.get_node(), Ok(StmtNode::Local(&local())));
    let i = item(structure(Vec::new()));
    let si = stmt(StmtKind::Item(Box::new(i.clone())));
    assert_eq!(si.get_node(), Ok(StmtNode::Item(&i)));
    let m = stmt(StmtKind::Mac(Box::new(MacStmt {
        mac: mac(),
        style: MacStmtStyle::Semicolon,
        attrs: Vec::new(),
    })));
    assert_eq!(m.get_node(), Err(Error::MacStmt));
}

#[test]
fn statement_becomes_an_expression() {
    let mut s = local().to_stmt();
    assert_eq!(s, Stmt { id: DUMMY, kind: StmtKind::Local(Box::new(local())), span: NOWHERE });
    s.to_expr(expr(1), true);
    assert_eq!(s.kind, StmtKind::Semi(Box::new(expr(1))));
    s.to_expr(expr(2), false);
    assert_eq!(s.kind, StmtKind::Expr(Box::new(expr(2))));
    assert_eq!(s.id, DUMMY);
}

#[test]
fn local_changes() {
    let mut l = local();
    l.set_ty(Some(ty(5)));
    l.set_init(Some(expr(6)));
    assert_eq!(l.ty, Some(Box::new(ty(5))));
    assert_eq!(l.init, Some(Box::new(expr(6))));
    l.set_ty(None);
    l.set_init(None);
    assert_eq!(l, local());
    assert_eq!(*l.get_pat(), binding(21, "x"));
    assert_eq!(l.get_pat_id(), NodeId(21));
    assert_eq!(copies(l.get_attrs()), vec![attr(&["allow"])]);
    assert_eq!(l.get_pat().get_ident(), Some(&ident("x")));
    let wild = Pat { id: NodeId(1), kind: PatKind::Wild, span: HERE };
    assert_eq!(wild.get_ident(), None);
}

#[test]
fn namespaces_are_described() {
    assert_eq!(Res { namespace: Some(Namespace::TypeNS) }.get_namespace(), Some("type"));
    assert_eq!(Res { namespace: Some(Namespace::ValueNS) }.get_namespace(), Some("value"));
    assert_eq!(Res { namespace: Some(Namespace::MacroNS) }.get_namespace(), Some("macro"));
    assert_eq!(Res { namespace: None }.get_namespace(), None);
}

#[test]
fn resolved_ids_are_compared_and_printed() {
    let a = LuaHirId { owner: 12, local_id: 0 };
    let b = LuaHirId { owner: 12, local_id: 1 };
    assert!(a.same_id(&a));
    assert!(!a.same_id(&b));
    assert_eq!(a.text(), "HirId { owner: 12, local_id: 0 }");
    assert_ne!(a.text(), b.text());
    assert_ne!(a.text(), LuaHirId { owner: 1, local_id: 20 }.text());
}

#[test]
fn spanned_values_are_read() {
    let s = Spanned { node: Mutability::Mutable, span: HERE };
    assert_eq!(*s.get_node(), Mutability::Mutable);
    assert_eq!(s.get_span(), HERE);
    let copy = s.clone();
    assert_eq!(copy, s);
}
