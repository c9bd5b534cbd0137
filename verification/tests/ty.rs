//! Types and paths under the requests of scripts.

use lua_ast_node::ast::expr::{AnonConst, Expr, ExprKind};
use lua_ast_node::ast::flags::Mutability;
use lua_ast_node::ast::ident::{Ident, Lifetime, NodeId, MAX_NODE_ID};
use lua_ast_node::ast::path::{
    AngleBracketedArgs, GenericArg, GenericArgs, ParenthesizedArgs, Path, PathSegment,
};
use lua_ast_node::ast::span::Span;
use lua_ast_node::ast::ty::{MutTy, Ty, TyKind};
use lua_ast_node::error::Error;

const HERE: Span = Span { lo: 3, hi: 9, ctxt: 0 };
const NOWHERE: Span = Span { lo: 0, hi: 0, ctxt: 0 };
const DUMMY: NodeId = NodeId(MAX_NODE_ID);

fn ty(id: u32, kind: TyKind) -> Ty {
    Ty { id: NodeId(id), kind, span: HERE }
}

fn never(id: u32) -> Ty {
    ty(id, TyKind::Never)
}

fn mut_ty(target: Ty) -> MutTy {
    MutTy { ty: Box::new(target), mutbl: Mutability::Immutable }
}

fn ident(name: &str) -> Ident {
    Ident { name: name.to_owned(), span: NOWHERE }
}

fn segment(name: &str) -> PathSegment {
    PathSegment { ident: ident(name), id: DUMMY, args: None }
}

fn path(names: &[&str]) -> Path {
    Path { span: HERE, segments: names.iter().map(|n| segment(n)).collect() }
}

fn length() -> AnonConst {
    AnonConst {
        id: NodeId(9),
        value: Box::new(Expr {
            id: NodeId(10),
            kind: ExprKind::Invalid,
            span: HERE,
            attrs: Vec::new(),
        }),
    }
}

fn lifetime(name: &str) -> Lifetime {
    Lifetime { id: DUMMY, ident: ident(name) }
}

fn copies(tys: Vec<&Ty>) -> Vec<Ty> {
    tys.into_iter().cloned().collect()
}

#[test]
fn inner_types_are_set_and_read() {
    let mut slice = ty(1, TyKind::Slice(Box::new(never(2))));
    assert_eq!(copies(slice.get_tys()), vec![never(2)]);
    slice.set_tys(vec![never(3), never(4)]);
    assert_eq!(slice, ty(1, TyKind::Slice(Box::new(never(3)))));

    assert_eq!(slice.tys_needed(), Some(1));
    assert_eq!(never(1).tys_needed(), None);

    let mut array = ty(1, TyKind::Array(Box::new(never(2)), length()));
    array.set_tys(vec![never(3)]);
    assert_eq!(array, ty(1, TyKind::Array(Box::new(never(3)), length())));

    let mut tuple = ty(1, TyKind::Tup(vec![never(2)]));
    tuple.set_tys(vec![never(3), never(4)]);
    assert_eq!(copies(tuple.get_tys()), vec![never(3), never(4)]);
    tuple.set_tys(Vec::new());
    assert_eq!(tuple, ty(1, TyKind::Tup(Vec::new())));
}

#[test]
fn pointee_is_set_and_read() {
    let mut ptr = ty(1, TyKind::Ptr(mut_ty(never(2))));
    assert_eq!(ptr.get_mut_ty(), Some(&mut_ty(never(2))));
    ptr.set_mut_ty(mut_ty(never(3)));
    assert_eq!(ptr, ty(1, TyKind::Ptr(mut_ty(never(3)))));

    let mut reference = ty(1, TyKind::Rptr(Some(lifetime("'a")), mut_ty(never(2))));
    reference.set_mut_ty(mut_ty(never(3)));
    assert_eq!(reference, ty(1, TyKind::Rptr(Some(lifetime("'a")), mut_ty(never(3)))));

    let mut other = never(1);
    other.set_mut_ty(mut_ty(never(3)));
    assert_eq!(other, never(1));
    assert_eq!(other.get_mut_ty(), None);
}

#[test]
fn path_type_has_a_path() {
    assert_eq!(ty(1, TyKind::Path(None, path(&["a", "b"]))).get_path(), Some(&path(&["a", "b"])));
    assert_eq!(never(1).get_path(), None);
}

#[test]
fn simple_path_is_built() {
    let mut t = never(1);
    t.to_simple_path("libc".to_owned());
    let expected = Path { span: NOWHERE, segments: vec![segment("libc")] };
    assert_eq!(t, ty(1, TyKind::Path(None, expected)));
}

#[test]
fn reference_is_built() {
    let mut t = never(1);
    t.to_rptr(Some("a"), mut_ty(never(2)));
    assert_eq!(t, ty(1, TyKind::Rptr(Some(lifetime("'a")), mut_ty(never(2)))));
    t.to_rptr(None, mut_ty(never(3)));
    assert_eq!(t, ty(1, TyKind::Rptr(None, mut_ty(never(3)))));
}

#[test]
fn type_is_wrapped_in_a_slice() {
    let mut t = ty(1, TyKind::Tup(vec![never(2)]));
    t.wrap_in_slice();
    let inner = Ty { id: DUMMY, kind: TyKind::Tup(vec![never(2)]), span: NOWHERE };
    assert_eq!(copies(t.get_tys()), vec![inner]);
    assert_eq!(t.id, NodeId(1));
    assert_eq!(t.span, HERE);
}

#[test]
fn type_becomes_a_generic_argument() {
    let mut t = never(1);
    t.wrap_as_generic_angle_arg("Vec".to_owned());
    let arg = GenericArg::Type(Box::new(Ty { id: DUMMY, kind: TyKind::Never, span: NOWHERE }));
    let args = GenericArgs::AngleBracketed(AngleBracketedArgs {
        span: NOWHERE,
        args: vec![arg],
        constraints: Vec::new(),
    });
    let segment = PathSegment { ident: ident("Vec"), id: DUMMY, args: Some(Box::new(args)) };
    assert_eq!(t, ty(1, TyKind::Path(None, Path { span: NOWHERE, segments: vec![segment] })));
}

#[test]
fn lifetime_is_added_to_the_last_segment() {
    let mut t = ty(1, TyKind::Path(None, path(&["a", "B"])));
    t.add_lifetime("x");
    t.add_lifetime("y");
    let args = GenericArgs::AngleBracketed(AngleBracketedArgs {
        span: NOWHERE,
        args: vec![GenericArg::Lifetime(lifetime("'x")), GenericArg::Lifetime(lifetime("'y"))],
        constraints: Vec::new(),
    });
    let last = PathSegment { ident: ident("B"), id: DUMMY, args: Some(Box::new(args)) };
    let expected = Path { span: HERE, segments: vec![segment("a"), last] };
    assert_eq!(t, ty(1, TyKind::Path(None, expected)));
}

#[test]
fn lifetime_is_not_added_between_round_brackets() {
    let args = GenericArgs::Parenthesized(ParenthesizedArgs {
        span: HERE,
        inputs: vec![never(2)],
        output: None,
    });
    let only = PathSegment { ident: ident("Fn"), id: DUMMY, args: Some(Box::new(args)) };
    let mut t = ty(1, TyKind::Path(None, Path { span: HERE, segments: vec![only] }));
    let before = t.clone();
    t.add_lifetime("x");
    assert_eq!(t, before);
    let mut other = never(1);
    other.add_lifetime("x");
    assert_eq!(other, never(1));
}

#[test]
fn root_behind_pointers_is_replaced() {
    let inner = ty(2, TyKind::Rptr(None, mut_ty(never(3))));
    let mut t = ty(1, TyKind::Ptr(mut_ty(inner)));
    let result: Result<(), String> = t.map_ptr_root(&|root: &Ty| -> Result<Ty, String> {
        assert_eq!(*root, never(3));
        Ok(ty(4, TyKind::Infer))
    });
    assert_eq!(result, Ok(()));
    let expected = ty(2, TyKind::Rptr(None, mut_ty(ty(4, TyKind::Infer))));
    assert_eq!(t, ty(1, TyKind::Ptr(mut_ty(expected))));
}

#[test]
fn type_stays_where_the_callback_fails() {
    let mut t = ty(1, TyKind::Ptr(mut_ty(never(3))));
    let before = t.clone();
    let result: Result<(), u8> = t.map_ptr_root(&|_: &Ty| -> Result<Ty, u8> { Err(7) });
    assert_eq!(result, Err(7));
    assert_eq!(t, before);
}

#[test]
fn own_root_changes_no_type() {
    let mut t = ty(1, TyKind::Ptr(mut_ty(never(3))));
    let before = t.clone();
    let result: Result<(), u8> =
        t.map_ptr_root(&|root: &Ty| -> Result<Ty, u8> { Ok(root.clone()) });
    assert_eq!(result, Ok(()));
    assert_eq!(t, before);
}

#[test]
fn pointee_changes() {
    let mut m = mut_ty(never(1));
    m.set_ty(never(2));
    m.set_mutable(true);
    assert_eq!(m, MutTy { ty: Box::new(never(2)), mutbl: Mutability::Mutable });
    m.set_mutable(false);
    assert_eq!(m.mutbl, Mutability::Immutable);
}

#[test]
fn segments_are_set_and_read() {
    let mut p = path(&["std", "vec"]);
    assert!(!p.has_generic_args());
    assert_eq!(p.get_segments(), vec![&ident("std"), &ident("vec")]);
    assert_eq!(p.set_segments(vec!["core".to_owned()]), Ok(()));
    assert_eq!(p, path(&["core"]));
}

#[test]
fn segments_with_generic_arguments_are_not_set() {
    let mut p = path(&["std", "Vec"]);
    p.set_generic_angled_arg_tys(2, vec![never(1), never(2)]);
    assert!(p.has_generic_args());
    let args = GenericArgs::AngleBracketed(AngleBracketedArgs {
        span: NOWHERE,
        args: vec![GenericArg::Type(Box::new(never(1))), GenericArg::Type(Box::new(never(2)))],
        constraints: Vec::new(),
    });
    assert_eq!(p.segments[1].args, Some(Box::new(args)));
    assert_eq!(p.segments[0], segment("std"));
    let before = p.clone();
    assert_eq!(p.set_segments(vec!["core".to_owned()]), Err(Error::GenericSegments));
    assert_eq!(p, before);
}

#[test]
fn segments_are_mapped() {
    let mut p = path(&["a", "b"]);
    p.map_segments(&|segments: &Vec<PathSegment>| -> Vec<PathSegment> {
        let mut reversed = segments.clone();
        reversed.reverse();
        reversed
    });
    assert_eq!(p, path(&["b", "a"]));
}
