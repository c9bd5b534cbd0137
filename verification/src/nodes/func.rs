//! Functions and their parameters.

use vstd::prelude::*;

use crate::ast::attr::{Attribute, clone_attributes, same_attributes};
use crate::ast::flags::{BindingMode, Mutability};
use crate::ast::func::{FnDecl, Param};
use crate::ast::ident::{Ident, NodeId};
use crate::ast::pat::{Pat, PatKind};
use crate::ast::span::Span;
use crate::ast::stmt::Block;
use crate::ast::ty::Ty;
use crate::lists::refs;
use crate::text::same_text;

verus! {

/// Where a function stands.
#[derive(Debug, Clone, Copy, PartialEq, Eq, Structural)]
pub enum FnKind {
    /// A free function.
    Normal,
    /// A method of an `impl`.
    ImplMethod,
    /// A method of a trait.
    TraitMethod,
    /// A function of a block of foreign items.
    Foreign,
}

/// What free functions, methods and foreign functions have in common.
#[derive(Debug, PartialEq)]
pub struct FnLike {
    pub kind: FnKind,
    pub id: NodeId,
    pub ident: Ident,
    pub span: Span,
    pub decl: Box<FnDecl>,
    pub block: Option<Box<Block>>,
    pub attrs: Vec<Attribute>,
}

impl FnLike {
    /// Both values hold the same contents.
    pub open spec fn same(self, other: FnLike) -> bool {
        &&& self.kind == other.kind
        &&& self.id == other.id
        &&& self.ident.same(other.ident)
        &&& self.span == other.span
        &&& self.decl.same(*other.decl)
        &&& match (self.block, other.block) {
            (Some(x), Some(y)) => x.same(*y),
            (None, None) => true,
            _ => false,
        }
        &&& same_attributes(self.attrs@, other.attrs@)
    }

    /// The name of the function's kind.
    pub fn get_kind(&self) -> (name: &'static str)
        ensures
            name == self.kind.ast_name(),
    {
        self.kind.ast_name()
    }

    /// The function's id.
    pub fn get_id(&self) -> (id: NodeId)
        ensures
            id == self.id,
    {
        self.id
    }

    /// The function's name.
    pub fn get_ident(&self) -> (ident: &Ident)
        ensures
            *ident == self.ident,
    {
        &self.ident
    }

    /// Whether the function has a body.
    pub fn has_block(&self) -> (result: bool)
        ensures
            result == (self.block is Some),
    {
        self.block.is_some()
    }
}

impl Clone for FnLike {
    fn clone(&self) -> (copy: FnLike)
        ensures
            self.same(copy),
    {
        FnLike {
            kind: self.kind,
            id: self.id,
            ident: self.ident.clone(),
            span: self.span,
            decl: Box::new((*self.decl).clone()),
            block: match &self.block {
                Some(x) => Some(Box::new((**x).clone())),
                None => None,
            },
            attrs: clone_attributes(&self.attrs),
        }
    }
}

impl FnDecl {
    /// The parameters of the function.
    pub fn get_args(&self) -> (args: Vec<&Param>)
        ensures
            args@.unref() == self.inputs@,
    {
        refs(&self.inputs)
    }
}

/// The binding mode that a script can ask for under this name.
pub open spec fn binding_mode(name: Seq<char>) -> Option<BindingMode> {
    if name == "ByRefMut"@ {
        Some(BindingMode::ByRef(Mutability::Mutable))
    } else if name == "ByRefImmut"@ {
        Some(BindingMode::ByRef(Mutability::Immutable))
    } else if name == "ByValMut"@ {
        Some(BindingMode::ByValue(Mutability::Mutable))
    } else if name == "ByValImmut"@ {
        Some(BindingMode::ByValue(Mutability::Immutable))
    } else {
        None
    }
}

/// The binding mode of this name.
pub fn parse_binding_mode(name: &str) -> (result: Option<BindingMode>)
    ensures
        result == binding_mode(name@),
{
    if same_text(name, "ByRefMut") {
        Some(BindingMode::ByRef(Mutability::Mutable))
    } else if same_text(name, "ByRefImmut") {
        Some(BindingMode::ByRef(Mutability::Immutable))
    } else if same_text(name, "ByValMut") {
        Some(BindingMode::ByValue(Mutability::Mutable))
    } else if same_text(name, "ByValImmut") {
        Some(BindingMode::ByValue(Mutability::Immutable))
    } else {
        None
    }
}

impl Param {
    /// Replaces the type of the parameter.
    pub fn set_ty(&mut self, ty: Ty)
        ensures
            *final(self) == (Param { ty: Box::new(ty), ..*old(self) }),
    {
        self.ty = Box::new(ty);
    }

    /// The id of the parameter's pattern.
    pub fn get_pat_id(&self) -> (id: NodeId)
        ensures
            id == self.pat.id,
    {
        self.pat.id
    }

    /// Changes how a parameter that is a plain name is bound. Other parameters stay as they are.
    pub fn set_binding(&mut self, binding_str: &str)
        requires
            old(self).pat.kind is Ident ==> binding_mode(binding_str@) is Some,
        ensures
            match old(self).pat.kind {
                PatKind::Ident(_, ident, sub_pat) => *final(self) == (Param {
                    pat: Box::new(
                        Pat {
                            kind: PatKind::Ident(
                                binding_mode(binding_str@)->0,
                                ident,
                                sub_pat,
                            ),
                            ..*old(self).pat
                        },
                    ),
                    ..*old(self)
                }),
                _ => *final(self) == *old(self),
            },
    {
        if let PatKind::Ident(binding, _, _) = &mut self.pat.kind {
            if let Some(mode) = parse_binding_mode(binding_str) {
                *binding = mode;
            }
        }
    }
}

/// A copy of a function agrees with it in every field.
pub proof fn copied_fn_like_agrees(node: FnLike, copy: FnLike)
    requires
        node.same(copy),
    ensures
        node.kind == copy.kind,
        node.id == copy.id,
        node.ident.same(copy.ident),
        node.span == copy.span,
        node.decl.same(*copy.decl),
        match (node.block, copy.block) {
            (Some(x), Some(y)) => x.same(*y),
            (None, None) => true,
            _ => false,
        },
        node.attrs@.len() == copy.attrs@.len(),
        forall|i: int| 0 <= i < node.attrs@.len() ==> (#[trigger] node.attrs@[i]).same(
            copy.attrs@[i],
        ),
{
}

/// A binding mode is by reference or by value, and mutable or not, as its name says.
pub proof fn binding_mode_is_as_its_name_says(name: Seq<char>)
    ensures
        binding_mode(name) == Some(BindingMode::ByRef(Mutability::Mutable)) <==> name
            == "ByRefMut"@,
        binding_mode(name) == Some(BindingMode::ByRef(Mutability::Immutable)) <==> name
            == "ByRefImmut"@,
        binding_mode(name) == Some(BindingMode::ByValue(Mutability::Mutable)) <==> name
            == "ByValMut"@,
        binding_mode(name) == Some(BindingMode::ByValue(Mutability::Immutable)) <==> name
            == "ByValImmut"@,
{
    reveal_strlit("ByRefMut");
    reveal_strlit("ByRefImmut");
    reveal_strlit("ByValMut");
    reveal_strlit("ByValImmut");
    assert("ByRefMut"@.len() == 8);
    assert("ByRefImmut"@.len() == 10);
    assert("ByValMut"@.len() == 8);
    assert("ByValImmut"@.len() == 10);
    assert("ByRefMut"@[2] == 'R');
    assert("ByValMut"@[2] == 'V');
    assert("ByRefImmut"@[2] == 'R');
    assert("ByValImmut"@[2] == 'V');
}

} // verus!
