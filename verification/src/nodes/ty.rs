//! Types.

use vstd::prelude::*;

use crate::ast::flags::Mutability;
use crate::ast::ident::{Ident, Lifetime, dummy_id, dummy_node_id, fresh_ident};
use crate::ast::path::{
    AngleBracketedArgs, AssocTyConstraint, GenericArg, GenericArgs, Path, PathSegment,
};
use crate::ast::span::{dummy_sp, dummy_span};
use crate::ast::ty::{MutTy, Ty, TyKind};
use crate::lists::refs;
use crate::nodes::path::{is_angled_args, is_ident_path};
use crate::text::{lifetime_name, lifetime_text};

verus! {

/// The types that a script sees inside a type, where it can ask for them.
pub open spec fn inner_tys(kind: TyKind) -> Option<Seq<Ty>> {
    match kind {
        TyKind::Slice(ty) => Some(seq![*ty]),
        TyKind::Array(ty, _) => Some(seq![*ty]),
        TyKind::Tup(tys) => Some(tys@),
        _ => None,
    }
}

/// `after` is the slice, array or tuple `before` with other types inside.
pub open spec fn inner_tys_replaced(before: TyKind, tys: Seq<Ty>, after: TyKind) -> bool {
    match before {
        TyKind::Slice(_) => after == TyKind::Slice(Box::new(tys[0])),
        TyKind::Array(_, length) => after == TyKind::Array(Box::new(tys[0]), length),
        TyKind::Tup(_) => after matches TyKind::Tup(elements) && elements@ == tys,
        _ => false,
    }
}

/// What stands behind a pointer or a reference.
pub open spec fn pointee(kind: TyKind) -> Option<MutTy> {
    match kind {
        TyKind::Ptr(mut_ty) => Some(mut_ty),
        TyKind::Rptr(_, mut_ty) => Some(mut_ty),
        _ => None,
    }
}

/// The lifetime that a script makes of a name.
pub open spec fn is_lifetime(lifetime: Lifetime, name: Seq<char>) -> bool {
    &&& lifetime.id == dummy_id()
    &&& lifetime.ident.name@ == lifetime_text(name)
    &&& lifetime.ident.span == dummy_span()
}

/// The generic argument is the lifetime that a script makes of a name.
pub open spec fn is_lifetime_arg(arg: GenericArg, name: Seq<char>) -> bool {
    arg matches GenericArg::Lifetime(lifetime) && is_lifetime(lifetime, name)
}

/// `after` is `before` with a lifetime behind its other generic arguments. Arguments between
/// round brackets take no lifetime.
pub open spec fn segment_lifetime_added(
    before: PathSegment,
    name: Seq<char>,
    after: PathSegment,
) -> bool {
    &&& after.ident == before.ident
    &&& after.id == before.id
    &&& match before.args {
        None => {
            &&& after.args matches Some(args)
            &&& *args matches GenericArgs::AngleBracketed(angled)
            &&& angled.span == dummy_span()
            &&& angled.constraints@ == Seq::<AssocTyConstraint>::empty()
            &&& angled.args@.len() == 1
            &&& is_lifetime_arg(angled.args@[0], name)
        },
        Some(args) => match *args {
            GenericArgs::AngleBracketed(angled) => {
                &&& after.args matches Some(args2)
                &&& *args2 matches GenericArgs::AngleBracketed(angled2)
                &&& angled2.span == angled.span
                &&& angled2.constraints == angled.constraints
                &&& angled2.args@.len() == angled.args@.len() + 1
                &&& angled2.args@.drop_last() =~= angled.args@
                &&& is_lifetime_arg(angled2.args@.last(), name)
            },
            GenericArgs::Parenthesized(_) => after.args == before.args,
        },
    }
}

/// `after` is `before` with a lifetime among the generic arguments of its last segment.
pub open spec fn path_lifetime_added(before: Path, name: Seq<char>, after: Path) -> bool {
    &&& after.span == before.span
    &&& after.segments@.len() == before.segments@.len()
    &&& after.segments@.drop_last() == before.segments@.drop_last()
    &&& segment_lifetime_added(before.segments@.last(), name, after.segments@.last())
}

/// The type to which a chain of pointers and references leads.
pub open spec fn ptr_root(ty: Ty) -> Ty
    decreases ty,
{
    match ty.kind {
        TyKind::Ptr(mut_ty) => ptr_root(*mut_ty.ty),
        TyKind::Rptr(_, mut_ty) => ptr_root(*mut_ty.ty),
        _ => ty,
    }
}

/// The type with the end of its chain of pointers and references replaced by `root`.
pub open spec fn with_ptr_root(ty: Ty, root: Ty) -> Ty
    decreases ty,
{
    match ty.kind {
        TyKind::Ptr(mut_ty) => Ty {
            kind: TyKind::Ptr(
                MutTy { ty: Box::new(with_ptr_root(*mut_ty.ty, root)), ..mut_ty },
            ),
            ..ty
        },
        TyKind::Rptr(lifetime, mut_ty) => Ty {
            kind: TyKind::Rptr(
                lifetime,
                MutTy { ty: Box::new(with_ptr_root(*mut_ty.ty, root)), ..mut_ty },
            ),
            ..ty
        },
        _ => root,
    }
}

/// The unnumbered type of this form.
pub open spec fn scripted_ty(kind: TyKind) -> Ty {
    Ty { id: dummy_id(), kind, span: dummy_span() }
}

/// A lifetime made of a name.
fn scripted_lifetime(name: &str) -> (lifetime: Lifetime)
    ensures
        is_lifetime(lifetime, name@),
{
    Lifetime { id: dummy_node_id(), ident: Ident::from_str(lifetime_name(name)) }
}

/// Puts an argument behind others between angle brackets.
fn push_angled(generic_args: &mut GenericArgs, arg: GenericArg)
    requires
        *old(generic_args) is AngleBracketed,
    ensures
        match (*old(generic_args), *final(generic_args)) {
            (GenericArgs::AngleBracketed(before), GenericArgs::AngleBracketed(after)) => {
                &&& after.span == before.span
                &&& after.constraints == before.constraints
                &&& after.args@ == before.args@.push(arg)
            },
            _ => false,
        },
{
    match generic_args {
        GenericArgs::AngleBracketed(angled) => angled.args.push(arg),
        GenericArgs::Parenthesized(_) => {},
    }
}

/// Adds a lifetime to the generic arguments of a segment.
fn add_segment_lifetime(segment: &mut PathSegment, name: &str)
    ensures
        segment_lifetime_added(*old(segment), name@, *final(segment)),
{
    let arg = GenericArg::Lifetime(scripted_lifetime(name));
    match &mut segment.args {
        Some(generic_args) => {
            if let GenericArgs::AngleBracketed(_) = **generic_args {
                push_angled(generic_args, arg);
            }
        },
        None => {
            segment.args = Some(
                Box::new(
                    GenericArgs::AngleBracketed(
                        AngleBracketedArgs {
                            span: dummy_sp(),
                            args: vec![arg],
                            constraints: Vec::new(),
                        },
                    ),
                ),
            );
        },
    }
}

impl Ty {
    /// How many types have to be given at least to replace those inside a slice, an array or a
    /// tuple; other types have none inside that can be replaced.
    pub fn tys_needed(&self) -> (count: Option<usize>)
        ensures
            match self.kind {
                TyKind::Slice(_) => count == Some(1usize),
                TyKind::Array(..) => count == Some(1usize),
                TyKind::Tup(_) => count == Some(0usize),
                _ => count is None,
            },
            count is Some == inner_tys(self.kind) is Some,
    {
        match &self.kind {
            TyKind::Slice(_) | TyKind::Array(..) => Some(1),
            TyKind::Tup(_) => Some(0),
            _ => None,
        }
    }

    /// The types inside a slice, an array or a tuple.
    pub fn get_tys(&self) -> (tys: Vec<&Ty>)
        requires
            inner_tys(self.kind) is Some,
        ensures
            tys@.unref() == inner_tys(self.kind)->0,
    {
        let mut tys: Vec<&Ty> = Vec::new();
        match &self.kind {
            TyKind::Slice(ty) => tys.push(ty),
            TyKind::Array(ty, _) => tys.push(ty),
            TyKind::Tup(elements) => {
                tys = refs(elements);
            },
            _ => {},
        }
        assert(tys@.unref() =~= inner_tys(self.kind)->0);
        tys
    }

    /// Replaces the types inside a slice, an array or a tuple.
    pub fn set_tys(&mut self, tys: Vec<Ty>)
        requires
            inner_tys(old(self).kind) is Some,
            old(self).kind is Tup || tys@.len() > 0,
        ensures
            *final(self) == (Ty { kind: final(self).kind, ..*old(self) }),
            inner_tys_replaced(old(self).kind, tys@, final(self).kind),
    {
        let mut tys = tys;
        match &mut self.kind {
            TyKind::Slice(ty) => {
                **ty = tys.remove(0);
            },
            TyKind::Array(ty, _) => {
                **ty = tys.remove(0);
            },
            TyKind::Tup(elements) => {
                *elements = tys;
            },
            _ => {},
        }
    }

    /// What stands behind a pointer or a reference.
    pub fn get_mut_ty(&self) -> (result: Option<&MutTy>)
        ensures
            match pointee(self.kind) {
                Some(mut_ty) => result == Some(&mut_ty),
                None => result is None,
            },
    {
        match &self.kind {
            TyKind::Ptr(mut_ty) => Some(mut_ty),
            TyKind::Rptr(_, mut_ty) => Some(mut_ty),
            _ => None,
        }
    }

    /// Replaces what stands behind a pointer or a reference. Other types stay as they are.
    pub fn set_mut_ty(&mut self, mt: MutTy)
        ensures
            match old(self).kind {
                TyKind::Ptr(_) => *final(self) == (Ty { kind: TyKind::Ptr(mt), ..*old(self) }),
                TyKind::Rptr(lifetime, _) => *final(self) == (Ty {
                    kind: TyKind::Rptr(lifetime, mt),
                    ..*old(self)
                }),
                _ => *final(self) == *old(self),
            },
            pointee(old(self).kind) is Some ==> pointee(final(self).kind) == Some(mt),
    {
        match &mut self.kind {
            TyKind::Ptr(mut_ty) => {
                *mut_ty = mt;
            },
            TyKind::Rptr(_, mut_ty) => {
                *mut_ty = mt;
            },
            _ => {},
        }
    }

    /// The path of a path type.
    pub fn get_path(&self) -> (result: Option<&Path>)
        ensures
            match self.kind {
                TyKind::Path(_, path) => result == Some(&path),
                _ => result is None,
            },
    {
        match &self.kind {
            TyKind::Path(_, path) => Some(path),
            _ => None,
        }
    }

    /// Turns the type into a path of one name.
    pub fn to_simple_path(&mut self, path: String)
        ensures
            *final(self) == (Ty { kind: final(self).kind, ..*old(self) }),
            final(self).kind matches TyKind::Path(qself, named) && qself is None
                && is_ident_path(named, path),
    {
        self.kind = TyKind::Path(None, Path::from_ident(Ident::from_str(path)));
    }

    /// Turns the type into a reference.
    pub fn to_rptr(&mut self, lt: Option<&str>, mut_ty: MutTy)
        ensures
            *final(self) == (Ty { kind: final(self).kind, ..*old(self) }),
            final(self).kind matches TyKind::Rptr(lifetime, target) && target == mut_ty && (
            match (lt, lifetime) {
                (Some(name), Some(lifetime)) => is_lifetime(lifetime, name@),
                (None, None) => true,
                _ => false,
            }),
            pointee(final(self).kind) == Some(mut_ty),
    {
        let lifetime: Option<Lifetime> = match lt {
            Some(name) => Some(scripted_lifetime(name)),
            None => None,
        };
        self.kind = TyKind::Rptr(lifetime, mut_ty);
    }

    /// Turns the type into a slice of what it was.
    pub fn wrap_in_slice(&mut self)
        ensures
            *final(self) == (Ty {
                kind: TyKind::Slice(Box::new(scripted_ty(old(self).kind))),
                ..*old(self)
            }),
    {
        let mut placeholder = TyKind::Invalid;
        std::mem::swap(&mut placeholder, &mut self.kind);
        self.kind = TyKind::Slice(
            Box::new(Ty { id: dummy_node_id(), kind: placeholder, span: dummy_sp() }),
        );
    }

    /// Turns the type into a path of one name with what it was as the generic argument.
    pub fn wrap_as_generic_angle_arg(&mut self, name: String)
        ensures
            *final(self) == (Ty { kind: final(self).kind, ..*old(self) }),
            final(self).kind matches TyKind::Path(qself, path) && qself is None && path.span
                == dummy_span() && path.segments@.len() == 1 && path.segments@[0].ident
                == fresh_ident(name) && path.segments@[0].id == dummy_id() && (
            path.segments@[0].args matches Some(args) && is_angled_args(
                *args,
                seq![scripted_ty(old(self).kind)],
            )),
    {
        let mut placeholder = TyKind::Invalid;
        std::mem::swap(&mut placeholder, &mut self.kind);
        let arg = GenericArg::Type(
            Box::new(Ty { id: dummy_node_id(), kind: placeholder, span: dummy_sp() }),
        );
        let args = GenericArgs::AngleBracketed(
            AngleBracketedArgs { span: dummy_sp(), args: vec![arg], constraints: Vec::new() },
        );
        let segment = PathSegment {
            ident: Ident::from_str(name),
            id: dummy_node_id(),
            args: Some(Box::new(args)),
        };
        self.kind = TyKind::Path(None, Path { span: dummy_sp(), segments: vec![segment] });
    }

    /// Adds a lifetime to the generic arguments of the last segment of a path type. Other types
    /// stay as they are.
    pub fn add_lifetime(&mut self, lifetime: &str)
        requires
            old(self).kind matches TyKind::Path(_, path) ==> path.segments@.len() > 0,
        ensures
            match old(self).kind {
                TyKind::Path(qself, path) => {
                    &&& *final(self) == (Ty { kind: final(self).kind, ..*old(self) })
                    &&& final(self).kind matches TyKind::Path(qself2, path2)
                    &&& qself2 == qself
                    &&& path_lifetime_added(path, lifetime@, path2)
                },
                _ => *final(self) == *old(self),
            },
    {
        if let TyKind::Path(_, path) = &mut self.kind {
            let ghost before = path.segments@;
            let last: usize = path.segments.len() - 1;
            add_segment_lifetime(&mut path.segments[last], lifetime);
            assert(path.segments@.drop_last() =~= before.drop_last());
        }
    }

    /// Replaces the type to which a chain of pointers and references leads by what the callback
    /// gives for it. Where the callback fails, so does the call, and the type stays as it is.
    pub fn map_ptr_root<E, F: Fn(&Ty) -> Result<Ty, E>>(&mut self, callback: &F) -> (result:
        Result<(), E>)
        requires
            call_requires(*callback, (&ptr_root(*old(self)),)),
        ensures
            exists|answer: Result<Ty, E>|
                {
                    &&& #[trigger] call_ensures(*callback, (&ptr_root(*old(self)),), answer)
                    &&& match answer {
                        Ok(root) => {
                            &&& result == Ok::<(), E>(())
                            &&& *final(self) == with_ptr_root(*old(self), root)
                        },
                        Err(error) => {
                            &&& result == Err::<(), E>(error)
                            &&& *final(self) == *old(self)
                        },
                    }
                },
        decreases *old(self),
    {
        match &mut self.kind {
            TyKind::Rptr(_, mut_ty) => mut_ty.ty.map_ptr_root(callback),
            TyKind::Ptr(mut_ty) => mut_ty.ty.map_ptr_root(callback),
            _ => match callback(self) {
                Ok(root) => {
                    *self = root;
                    Ok(())
                },
                Err(error) => Err(error),
            },
        }
    }
}

impl MutTy {
    /// Replaces the type.
    pub fn set_ty(&mut self, ty: Ty)
        ensures
            *final(self) == (MutTy { ty: Box::new(ty), ..*old(self) }),
    {
        self.ty = Box::new(ty);
    }

    /// Says whether the type can be changed through the pointer.
    pub fn set_mutable(&mut self, mutable: bool)
        ensures
            *final(self) == (MutTy {
                mutbl: if mutable {
                    Mutability::Mutable
                } else {
                    Mutability::Immutable
                },
                ..*old(self)
            }),
    {
        self.mutbl = if mutable {
            Mutability::Mutable
        } else {
            Mutability::Immutable
        };
    }
}

} // verus!
