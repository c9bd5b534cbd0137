//! Items.

use vstd::prelude::*;

use crate::ast::attr::{
    Attribute, Mac, MacroDef, attributes_same_as_themselves, clone_attributes, same_attributes,
};
use crate::ast::expr::{AnonConst, Expr};
use crate::ast::flags::{Abi, Defaultness, FnHeader, ImplPolarity, IsAuto, Mutability, Unsafety};
use crate::ast::func::{FnDecl, MethodSig};
use crate::ast::generics::{
    GenericBound, Generics, TraitRef, bounds_same_as_themselves, clone_bounds, same_bounds,
};
use crate::ast::ident::{Ident, NodeId, SimplePath};
use crate::ast::span::Span;
use crate::ast::stmt::Block;
use crate::ast::ty::Ty;
use crate::ast::vis::{Visibility, clone_visibility, same_visibility};

verus! {

/// What a use tree imports.
#[derive(Debug, PartialEq)]
pub enum UseTreeKind {
    Simple(Option<Ident>, NodeId, NodeId),
    Nested(Vec<NestedUse>),
    Glob,
}

impl UseTreeKind {
    /// Both values hold the same contents.
    pub open spec fn same(self, other: UseTreeKind) -> bool
        decreases self,
    {
        match (self, other) {
            (
                UseTreeKind::Simple(ident, first_id, second_id),
                UseTreeKind::Simple(ident2, first_id2, second_id2),
            ) => {
                &&& match (ident, ident2) {
                    (Some(x), Some(y)) => x.same(y),
                    (None, None) => true,
                    _ => false,
                }
                &&& first_id == first_id2
                &&& second_id == second_id2
            },
            (UseTreeKind::Nested(trees), UseTreeKind::Nested(trees2)) => {
                &&& same_nested_uses(trees@, trees2@)
            },
            (UseTreeKind::Glob, UseTreeKind::Glob) => true,
            _ => false,
        }
    }

    /// Every value holds the same contents as itself.
    pub proof fn same_as_itself(self)
        ensures
            self.same(self),
        decreases self,
    {
        match self {
            UseTreeKind::Simple(ident, _, _) => {
                if let Some(x) = ident {
                    x.same_as_itself();
                }
            },
            UseTreeKind::Nested(trees) => {
                nested_uses_same_as_themselves(trees@);
            },
            _ => {},
        }
    }
}

impl Clone for UseTreeKind {
    fn clone(&self) -> (copy: UseTreeKind)
        ensures
            self.same(copy),
        decreases *self,
    {
        match self {
            UseTreeKind::Simple(ident, first_id, second_id) => UseTreeKind::Simple(
                match ident {
                    Some(x) => Some(x.clone()),
                    None => None,
                },
                *first_id,
                *second_id,
            ),
            UseTreeKind::Nested(trees) => UseTreeKind::Nested(clone_nested_uses(trees)),
            UseTreeKind::Glob => UseTreeKind::Glob,
        }
    }
}

/// A tree between the braces of a use tree, with its id.
#[derive(Debug, PartialEq)]
pub struct NestedUse {
    pub tree: UseTree,
    pub id: NodeId,
}

impl NestedUse {
    /// Both values hold the same contents.
    pub open spec fn same(self, other: NestedUse) -> bool
        decreases self,
    {
        &&& self.tree.same(other.tree)
        &&& self.id == other.id
    }

    /// Every value holds the same contents as itself.
    pub proof fn same_as_itself(self)
        ensures
            self.same(self),
        decreases self,
    {
        self.tree.same_as_itself();
    }
}

impl Clone for NestedUse {
    fn clone(&self) -> (copy: NestedUse)
        ensures
            self.same(copy),
        decreases *self,
    {
        NestedUse {
            tree: self.tree.clone(),
            id: self.id,
        }
    }
}

/// A tree of imports.
#[derive(Debug, PartialEq)]
pub struct UseTree {
    pub prefix: SimplePath,
    pub kind: UseTreeKind,
    pub span: Span,
}

impl UseTree {
    /// Both values hold the same contents.
    pub open spec fn same(self, other: UseTree) -> bool
        decreases self,
    {
        &&& self.prefix.same(other.prefix)
        &&& self.kind.same(other.kind)
        &&& self.span == other.span
    }

    /// Every value holds the same contents as itself.
    pub proof fn same_as_itself(self)
        ensures
            self.same(self),
        decreases self,
    {
        self.prefix.same_as_itself();
        self.kind.same_as_itself();
    }
}

impl Clone for UseTree {
    fn clone(&self) -> (copy: UseTree)
        ensures
            self.same(copy),
        decreases *self,
    {
        UseTree {
            prefix: self.prefix.clone(),
            kind: self.kind.clone(),
            span: self.span,
        }
    }
}

/// A field of a struct, a union or an enum variant.
#[derive(Debug, PartialEq)]
pub struct StructField {
    pub span: Span,
    pub ident: Option<Ident>,
    pub vis: Visibility,
    pub id: NodeId,
    pub ty: Box<Ty>,
    pub attrs: Vec<Attribute>,
    pub is_placeholder: bool,
}

impl StructField {
    /// Both values hold the same contents.
    pub open spec fn same(self, other: StructField) -> bool
        decreases self,
    {
        &&& self.span == other.span
        &&& match (self.ident, other.ident) {
            (Some(x), Some(y)) => x.same(y),
            (None, None) => true,
            _ => false,
        }
        &&& same_visibility(self.vis, other.vis)
        &&& self.id == other.id
        &&& self.ty.same(*other.ty)
        &&& same_attributes(self.attrs@, other.attrs@)
        &&& self.is_placeholder == other.is_placeholder
    }

    /// Every value holds the same contents as itself.
    pub proof fn same_as_itself(self)
        ensures
            self.same(self),
        decreases self,
    {
        if let Some(x) = self.ident {
            x.same_as_itself();
        }
        self.vis.node.same_as_itself();
        self.ty.same_as_itself();
        attributes_same_as_themselves(self.attrs@);
    }
}

impl Clone for StructField {
    fn clone(&self) -> (copy: StructField)
        ensures
            self.same(copy),
        decreases *self,
    {
        StructField {
            span: self.span,
            ident: match &self.ident {
                Some(x) => Some(x.clone()),
                None => None,
            },
            vis: clone_visibility(&self.vis),
            id: self.id,
            ty: Box::new((*self.ty).clone()),
            attrs: clone_attributes(&self.attrs),
            is_placeholder: self.is_placeholder,
        }
    }
}

/// The fields of a struct, a union or an enum variant.
#[derive(Debug, PartialEq)]
pub enum VariantData {
    Struct(Vec<StructField>, bool),
    Tuple(Vec<StructField>, NodeId),
    Unit(NodeId),
}

impl VariantData {
    /// Both values hold the same contents.
    pub open spec fn same(self, other: VariantData) -> bool
        decreases self,
    {
        match (self, other) {
            (VariantData::Struct(fields, flag), VariantData::Struct(fields2, flag2)) => {
                &&& same_struct_fields(fields@, fields2@)
                &&& flag == flag2
            },
            (VariantData::Tuple(fields, id), VariantData::Tuple(fields2, id2)) => {
                &&& same_struct_fields(fields@, fields2@)
                &&& id == id2
            },
            (VariantData::Unit(id), VariantData::Unit(id2)) => id == id2,
            _ => false,
        }
    }

    /// Every value holds the same contents as itself.
    pub proof fn same_as_itself(self)
        ensures
            self.same(self),
        decreases self,
    {
        match self {
            VariantData::Struct(fields, _) => {
                struct_fields_same_as_themselves(fields@);
            },
            VariantData::Tuple(fields, _) => {
                struct_fields_same_as_themselves(fields@);
            },
            _ => {},
        }
    }
}

impl Clone for VariantData {
    fn clone(&self) -> (copy: VariantData)
        ensures
            self.same(copy),
        decreases *self,
    {
        match self {
            VariantData::Struct(fields, flag) => VariantData::Struct(
                clone_struct_fields(fields),
                *flag,
            ),
            VariantData::Tuple(fields, id) => VariantData::Tuple(clone_struct_fields(fields), *id),
            VariantData::Unit(id) => VariantData::Unit(*id),
        }
    }
}

/// A variant of an enum.
#[derive(Debug, PartialEq)]
pub struct Variant {
    pub ident: Ident,
    pub attrs: Vec<Attribute>,
    pub id: NodeId,
    pub data: VariantData,
    pub disr_expr: Option<AnonConst>,
    pub span: Span,
    pub is_placeholder: bool,
}

impl Variant {
    /// Both values hold the same contents.
    pub open spec fn same(self, other: Variant) -> bool
        decreases self,
    {
        &&& self.ident.same(other.ident)
        &&& same_attributes(self.attrs@, other.attrs@)
        &&& self.id == other.id
        &&& self.data.same(other.data)
        &&& match (self.disr_expr, other.disr_expr) {
            (Some(x), Some(y)) => x.same(y),
            (None, None) => true,
            _ => false,
        }
        &&& self.span == other.span
        &&& self.is_placeholder == other.is_placeholder
    }

    /// Every value holds the same contents as itself.
    pub proof fn same_as_itself(self)
        ensures
            self.same(self),
        decreases self,
    {
        self.ident.same_as_itself();
        attributes_same_as_themselves(self.attrs@);
        self.data.same_as_itself();
        if let Some(x) = self.disr_expr {
            x.same_as_itself();
        }
    }
}

impl Clone for Variant {
    fn clone(&self) -> (copy: Variant)
        ensures
            self.same(copy),
        decreases *self,
    {
        Variant {
            ident: self.ident.clone(),
            attrs: clone_attributes(&self.attrs),
            id: self.id,
            data: self.data.clone(),
            disr_expr: match &self.disr_expr {
                Some(x) => Some(x.clone()),
                None => None,
            },
            span: self.span,
            is_placeholder: self.is_placeholder,
        }
    }
}

/// The variants of an enum.
#[derive(Debug, PartialEq)]
pub struct EnumDef {
    pub variants: Vec<Variant>,
}

impl EnumDef {
    /// Both values hold the same contents.
    pub open spec fn same(self, other: EnumDef) -> bool
        decreases self,
    {
        &&& same_variants(self.variants@, other.variants@)
    }

    /// Every value holds the same contents as itself.
    pub proof fn same_as_itself(self)
        ensures
            self.same(self),
        decreases self,
    {
        variants_same_as_themselves(self.variants@);
    }
}

impl Clone for EnumDef {
    fn clone(&self) -> (copy: EnumDef)
        ensures
            self.same(copy),
        decreases *self,
    {
        EnumDef {
            variants: clone_variants(&self.variants),
        }
    }
}

/// The contents of a module.
#[derive(Debug, PartialEq)]
pub struct Mod {
    pub inner: Span,
    pub items: Vec<Item>,
    pub inline: bool,
}

impl Mod {
    /// Both values hold the same contents.
    pub open spec fn same(self, other: Mod) -> bool
        decreases self,
    {
        &&& self.inner == other.inner
        &&& same_items(self.items@, other.items@)
        &&& self.inline == other.inline
    }

    /// Every value holds the same contents as itself.
    pub proof fn same_as_itself(self)
        ensures
            self.same(self),
        decreases self,
    {
        items_same_as_themselves(self.items@);
    }
}

impl Clone for Mod {
    fn clone(&self) -> (copy: Mod)
        ensures
            self.same(copy),
        decreases *self,
    {
        Mod {
            inner: self.inner,
            items: clone_items(&self.items),
            inline: self.inline,
        }
    }
}

/// The form of a foreign item.
#[derive(Debug, PartialEq)]
pub enum ForeignItemKind {
    Fn(Box<FnDecl>, Generics),
    Static(Box<Ty>, Mutability),
    Ty,
    Macro(Mac),
}

impl ForeignItemKind {
    /// Both values hold the same contents.
    pub open spec fn same(self, other: ForeignItemKind) -> bool
        decreases self,
    {
        match (self, other) {
            (ForeignItemKind::Fn(decl, generics), ForeignItemKind::Fn(decl2, generics2)) => {
                &&& decl.same(*decl2)
                &&& generics.same(generics2)
            },
            (
                ForeignItemKind::Static(ty, mutability),
                ForeignItemKind::Static(ty2, mutability2),
            ) => {
                &&& ty.same(*ty2)
                &&& mutability == mutability2
            },
            (ForeignItemKind::Ty, ForeignItemKind::Ty) => true,
            (ForeignItemKind::Macro(mac), ForeignItemKind::Macro(mac2)) => mac.same(mac2),
            _ => false,
        }
    }

    /// Every value holds the same contents as itself.
    pub proof fn same_as_itself(self)
        ensures
            self.same(self),
        decreases self,
    {
        match self {
            ForeignItemKind::Fn(decl, generics) => {
                decl.same_as_itself();
                generics.same_as_itself();
            },
            ForeignItemKind::Static(ty, _) => {
                ty.same_as_itself();
            },
            ForeignItemKind::Macro(mac) => {
                mac.same_as_itself();
            },
            _ => {},
        }
    }
}

impl Clone for ForeignItemKind {
    fn clone(&self) -> (copy: ForeignItemKind)
        ensures
            self.same(copy),
        decreases *self,
    {
        match self {
            ForeignItemKind::Fn(decl, generics) => ForeignItemKind::Fn(
                Box::new((**decl).clone()),
                generics.clone(),
            ),
            ForeignItemKind::Static(ty, mutability) => ForeignItemKind::Static(
                Box::new((**ty).clone()),
                *mutability,
            ),
            ForeignItemKind::Ty => ForeignItemKind::Ty,
            ForeignItemKind::Macro(mac) => ForeignItemKind::Macro(mac.clone()),
        }
    }
}

/// An item of an `extern` block.
#[derive(Debug, PartialEq)]
pub struct ForeignItem {
    pub ident: Ident,
    pub attrs: Vec<Attribute>,
    pub kind: ForeignItemKind,
    pub id: NodeId,
    pub span: Span,
    pub vis: Visibility,
}

impl ForeignItem {
    /// Both values hold the same contents.
    pub open spec fn same(self, other: ForeignItem) -> bool
        decreases self,
    {
        &&& self.ident.same(other.ident)
        &&& same_attributes(self.attrs@, other.attrs@)
        &&& self.kind.same(other.kind)
        &&& self.id == other.id
        &&& self.span == other.span
        &&& same_visibility(self.vis, other.vis)
    }

    /// Every value holds the same contents as itself.
    pub proof fn same_as_itself(self)
        ensures
            self.same(self),
        decreases self,
    {
        self.ident.same_as_itself();
        attributes_same_as_themselves(self.attrs@);
        self.kind.same_as_itself();
        self.vis.node.same_as_itself();
    }
}

impl Clone for ForeignItem {
    fn clone(&self) -> (copy: ForeignItem)
        ensures
            self.same(copy),
        decreases *self,
    {
        ForeignItem {
            ident: self.ident.clone(),
            attrs: clone_attributes(&self.attrs),
            kind: self.kind.clone(),
            id: self.id,
            span: self.span,
            vis: clone_visibility(&self.vis),
        }
    }
}

/// An `extern` block.
#[derive(Debug, PartialEq)]
pub struct ForeignMod {
    pub abi: Abi,
    pub items: Vec<ForeignItem>,
}

impl ForeignMod {
    /// Both values hold the same contents.
    pub open spec fn same(self, other: ForeignMod) -> bool
        decreases self,
    {
        &&& self.abi == other.abi
        &&& same_foreign_items(self.items@, other.items@)
    }

    /// Every value holds the same contents as itself.
    pub proof fn same_as_itself(self)
        ensures
            self.same(self),
        decreases self,
    {
        foreign_items_same_as_themselves(self.items@);
    }
}

impl Clone for ForeignMod {
    fn clone(&self) -> (copy: ForeignMod)
        ensures
            self.same(copy),
        decreases *self,
    {
        ForeignMod {
            abi: self.abi,
            items: clone_foreign_items(&self.items),
        }
    }
}

/// The form of a trait item.
#[derive(Debug, PartialEq)]
pub enum TraitItemKind {
    Const(Box<Ty>, Option<Box<Expr>>),
    Method(MethodSig, Option<Box<Block>>),
    Type(Vec<GenericBound>, Option<Box<Ty>>),
    Macro(Mac),
}

impl TraitItemKind {
    /// Both values hold the same contents.
    pub open spec fn same(self, other: TraitItemKind) -> bool
        decreases self,
    {
        match (self, other) {
            (TraitItemKind::Const(ty, expr), TraitItemKind::Const(ty2, expr2)) => {
                &&& ty.same(*ty2)
                &&& match (expr, expr2) {
                    (Some(x), Some(y)) => x.same(*y),
                    (None, None) => true,
                    _ => false,
                }
            },
            (TraitItemKind::Method(sig, block), TraitItemKind::Method(sig2, block2)) => {
                &&& sig.same(sig2)
                &&& match (block, block2) {
                    (Some(x), Some(y)) => x.same(*y),
                    (None, None) => true,
                    _ => false,
                }
            },
            (TraitItemKind::Type(bounds, ty), TraitItemKind::Type(bounds2, ty2)) => {
                &&& same_bounds(bounds@, bounds2@)
                &&& match (ty, ty2) {
                    (Some(x), Some(y)) => x.same(*y),
                    (None, None) => true,
                    _ => false,
                }
            },
            (TraitItemKind::Macro(mac), TraitItemKind::Macro(mac2)) => mac.same(mac2),
            _ => false,
        }
    }

    /// Every value holds the same contents as itself.
    pub proof fn same_as_itself(self)
        ensures
            self.same(self),
        decreases self,
    {
        match self {
            TraitItemKind::Const(ty, expr) => {
                ty.same_as_itself();
                if let Some(x) = expr {
                    x.same_as_itself();
                }
            },
            TraitItemKind::Method(sig, block) => {
                sig.same_as_itself();
                if let Some(x) = block {
                    x.same_as_itself();
                }
            },
            TraitItemKind::Type(bounds, ty) => {
                bounds_same_as_themselves(bounds@);
                if let Some(x) = ty {
                    x.same_as_itself();
                }
            },
            TraitItemKind::Macro(mac) => {
                mac.same_as_itself();
            },
        }
    }
}

impl Clone for TraitItemKind {
    fn clone(&self) -> (copy: TraitItemKind)
        ensures
            self.same(copy),
        decreases *self,
    {
        match self {
            TraitItemKind::Const(ty, expr) => TraitItemKind::Const(
                Box::new((**ty).clone()),
                match expr {
                    Some(x) => Some(Box::new((**x).clone())),
                    None => None,
                },
            ),
            TraitItemKind::Method(sig, block) => TraitItemKind::Method(
                sig.clone(),
                match block {
                    Some(x) => Some(Box::new((**x).clone())),
                    None => None,
                },
            ),
            TraitItemKind::Type(bounds, ty) => TraitItemKind::Type(
                clone_bounds(bounds),
                match ty {
                    Some(x) => Some(Box::new((**x).clone())),
                    None => None,
                },
            ),
            TraitItemKind::Macro(mac) => TraitItemKind::Macro(mac.clone()),
        }
    }
}

/// An item of a trait.
#[derive(Debug, PartialEq)]
pub struct TraitItem {
    pub id: NodeId,
    pub ident: Ident,
    pub attrs: Vec<Attribute>,
    pub generics: Generics,
    pub kind: TraitItemKind,
    pub span: Span,
    pub tokens: Option<String>,
}

impl TraitItem {
    /// Both values hold the same contents.
    pub open spec fn same(self, other: TraitItem) -> bool
        decreases self,
    {
        &&& self.id == other.id
        &&& self.ident.same(other.ident)
        &&& same_attributes(self.attrs@, other.attrs@)
        &&& self.generics.same(other.generics)
        &&& self.kind.same(other.kind)
        &&& self.span == other.span
        &&& match (self.tokens, other.tokens) {
            (Some(x), Some(y)) => x@ == y@,
            (None, None) => true,
            _ => false,
        }
    }

    /// Every value holds the same contents as itself.
    pub proof fn same_as_itself(self)
        ensures
            self.same(self),
        decreases self,
    {
        self.ident.same_as_itself();
        attributes_same_as_themselves(self.attrs@);
        self.generics.same_as_itself();
        self.kind.same_as_itself();
    }
}

impl Clone for TraitItem {
    fn clone(&self) -> (copy: TraitItem)
        ensures
            self.same(copy),
        decreases *self,
    {
        TraitItem {
            id: self.id,
            ident: self.ident.clone(),
            attrs: clone_attributes(&self.attrs),
            generics: self.generics.clone(),
            kind: self.kind.clone(),
            span: self.span,
            tokens: match &self.tokens {
                Some(x) => Some(x.clone()),
                None => None,
            },
        }
    }
}

/// The form of an item of an `impl`.
#[derive(Debug, PartialEq)]
pub enum ImplItemKind {
    Const(Box<Ty>, Box<Expr>),
    Method(MethodSig, Box<Block>),
    TyAlias(Box<Ty>),
    OpaqueTy(Vec<GenericBound>),
    Macro(Mac),
}

impl ImplItemKind {
    /// Both values hold the same contents.
    pub open spec fn same(self, other: ImplItemKind) -> bool
        decreases self,
    {
        match (self, other) {
            (ImplItemKind::Const(ty, expr), ImplItemKind::Const(ty2, expr2)) => {
                &&& ty.same(*ty2)
                &&& expr.same(*expr2)
            },
            (ImplItemKind::Method(sig, block), ImplItemKind::Method(sig2, block2)) => {
                &&& sig.same(sig2)
                &&& block.same(*block2)
            },
            (ImplItemKind::TyAlias(ty), ImplItemKind::TyAlias(ty2)) => ty.same(*ty2),
            (ImplItemKind::OpaqueTy(bounds), ImplItemKind::OpaqueTy(bounds2)) => {
                &&& same_bounds(bounds@, bounds2@)
            },
            (ImplItemKind::Macro(mac), ImplItemKind::Macro(mac2)) => mac.same(mac2),
            _ => false,
        }
    }

    /// Every value holds the same contents as itself.
    pub proof fn same_as_itself(self)
        ensures
            self.same(self),
        decreases self,
    {
        match self {
            ImplItemKind::Const(ty, expr) => {
                ty.same_as_itself();
                expr.same_as_itself();
            },
            ImplItemKind::Method(sig, block) => {
                sig.same_as_itself();
                block.same_as_itself();
            },
            ImplItemKind::TyAlias(ty) => {
                ty.same_as_itself();
            },
            ImplItemKind::OpaqueTy(bounds) => {
                bounds_same_as_themselves(bounds@);
            },
            ImplItemKind::Macro(mac) => {
                mac.same_as_itself();
            },
        }
    }
}

impl Clone for ImplItemKind {
    fn clone(&self) -> (copy: ImplItemKind)
        ensures
            self.same(copy),
        decreases *self,
    {
        match self {
            ImplItemKind::Const(ty, expr) => ImplItemKind::Const(
                Box::new((**ty).clone()),
                Box::new((**expr).clone()),
            ),
            ImplItemKind::Method(sig, block) => ImplItemKind::Method(
                sig.clone(),
                Box::new((**block).clone()),
            ),
            ImplItemKind::TyAlias(ty) => ImplItemKind::TyAlias(Box::new((**ty).clone())),
            ImplItemKind::OpaqueTy(bounds) => ImplItemKind::OpaqueTy(clone_bounds(bounds)),
            ImplItemKind::Macro(mac) => ImplItemKind::Macro(mac.clone()),
        }
    }
}

/// An item of an `impl`.
#[derive(Debug, PartialEq)]
pub struct ImplItem {
    pub id: NodeId,
    pub ident: Ident,
    pub vis: Visibility,
    pub defaultness: Defaultness,
    pub attrs: Vec<Attribute>,
    pub generics: Generics,
    pub kind: ImplItemKind,
    pub span: Span,
    pub tokens: Option<String>,
}

impl ImplItem {
    /// Both values hold the same contents.
    pub open spec fn same(self, other: ImplItem) -> bool
        decreases self,
    {
        &&& self.id == other.id
        &&& self.ident.same(other.ident)
        &&& same_visibility(self.vis, other.vis)
        &&& self.defaultness == other.defaultness
        &&& same_attributes(self.attrs@, other.attrs@)
        &&& self.generics.same(other.generics)
        &&& self.kind.same(other.kind)
        &&& self.span == other.span
        &&& match (self.tokens, other.tokens) {
            (Some(x), Some(y)) => x@ == y@,
            (None, None) => true,
            _ => false,
        }
    }

    /// Every value holds the same contents as itself.
    pub proof fn same_as_itself(self)
        ensures
            self.same(self),
        decreases self,
    {
        self.ident.same_as_itself();
        self.vis.node.same_as_itself();
        attributes_same_as_themselves(self.attrs@);
        self.generics.same_as_itself();
        self.kind.same_as_itself();
    }
}

impl Clone for ImplItem {
    fn clone(&self) -> (copy: ImplItem)
        ensures
            self.same(copy),
        decreases *self,
    {
        ImplItem {
            id: self.id,
            ident: self.ident.clone(),
            vis: clone_visibility(&self.vis),
            defaultness: self.defaultness,
            attrs: clone_attributes(&self.attrs),
            generics: self.generics.clone(),
            kind: self.kind.clone(),
            span: self.span,
            tokens: match &self.tokens {
                Some(x) => Some(x.clone()),
                None => None,
            },
        }
    }
}

/// The form of an item.
#[derive(Debug, PartialEq)]
pub enum ItemKind {
    ExternCrate(Option<String>),
    Use(Box<UseTree>),
    Static(Box<Ty>, Mutability, Box<Expr>),
    Const(Box<Ty>, Box<Expr>),
    Fn(Box<FnDecl>, FnHeader, Generics, Box<Block>),
    Mod(Mod),
    ForeignMod(ForeignMod),
    GlobalAsm(String),
    TyAlias(Box<Ty>, Generics),
    OpaqueTy(Vec<GenericBound>, Generics),
    Enum(EnumDef, Generics),
    Struct(VariantData, Generics),
    Union(VariantData, Generics),
    Trait(IsAuto, Unsafety, Generics, Vec<GenericBound>, Vec<TraitItem>),
    TraitAlias(Generics, Vec<GenericBound>),
    Impl(Unsafety, ImplPolarity, Defaultness, Generics, Option<TraitRef>, Box<Ty>, Vec<ImplItem>),
    Mac(Mac),
    MacroDef(MacroDef),
}

impl ItemKind {
    /// Both values hold the same contents.
    pub open spec fn same(self, other: ItemKind) -> bool
        decreases self,
    {
        match (self, other) {
            (ItemKind::ExternCrate(text), ItemKind::ExternCrate(text2)) => {
                &&& match (text, text2) {
                    (Some(x), Some(y)) => x@ == y@,
                    (None, None) => true,
                    _ => false,
                }
            },
            (ItemKind::Use(tree), ItemKind::Use(tree2)) => tree.same(*tree2),
            (ItemKind::Static(ty, mutability, expr), ItemKind::Static(ty2, mutability2, expr2)) => {
                &&& ty.same(*ty2)
                &&& mutability == mutability2
                &&& expr.same(*expr2)
            },
            (ItemKind::Const(ty, expr), ItemKind::Const(ty2, expr2)) => {
                &&& ty.same(*ty2)
                &&& expr.same(*expr2)
            },
            (
                ItemKind::Fn(decl, header, generics, block),
                ItemKind::Fn(decl2, header2, generics2, block2),
            ) => {
                &&& decl.same(*decl2)
                &&& header == header2
                &&& generics.same(generics2)
                &&& block.same(*block2)
            },
            (ItemKind::Mod(module), ItemKind::Mod(module2)) => module.same(module2),
            (ItemKind::ForeignMod(foreign_mod), ItemKind::ForeignMod(foreign_mod2)) => {
                &&& foreign_mod.same(foreign_mod2)
            },
            (ItemKind::GlobalAsm(text), ItemKind::GlobalAsm(text2)) => text@ == text2@,
            (ItemKind::TyAlias(ty, generics), ItemKind::TyAlias(ty2, generics2)) => {
                &&& ty.same(*ty2)
                &&& generics.same(generics2)
            },
            (ItemKind::OpaqueTy(bounds, generics), ItemKind::OpaqueTy(bounds2, generics2)) => {
                &&& same_bounds(bounds@, bounds2@)
                &&& generics.same(generics2)
            },
            (ItemKind::Enum(definition, generics), ItemKind::Enum(definition2, generics2)) => {
                &&& definition.same(definition2)
                &&& generics.same(generics2)
            },
            (ItemKind::Struct(data, generics), ItemKind::Struct(data2, generics2)) => {
                &&& data.same(data2)
                &&& generics.same(generics2)
            },
            (ItemKind::Union(data, generics), ItemKind::Union(data2, generics2)) => {
                &&& data.same(data2)
                &&& generics.same(generics2)
            },
            (
                ItemKind::Trait(auto, unsafety, generics, bounds, items),
                ItemKind::Trait(auto2, unsafety2, generics2, bounds2, items2),
            ) => {
                &&& auto == auto2
                &&& unsafety == unsafety2
                &&& generics.same(generics2)
                &&& same_bounds(bounds@, bounds2@)
                &&& same_trait_items(items@, items2@)
            },
            (ItemKind::TraitAlias(generics, bounds), ItemKind::TraitAlias(generics2, bounds2)) => {
                &&& generics.same(generics2)
                &&& same_bounds(bounds@, bounds2@)
            },
            (
                ItemKind::Impl(unsafety, polarity, defaultness, generics, trait_ref, ty, items),
                ItemKind::Impl(
                    unsafety2,
                    polarity2,
                    defaultness2,
                    generics2,
                    trait_ref2,
                    ty2,
                    items2,
                ),
            ) => {
                &&& unsafety == unsafety2
                &&& polarity == polarity2
                &&& defaultness == defaultness2
                &&& generics.same(generics2)
                &&& match (trait_ref, trait_ref2) {
                    (Some(x), Some(y)) => x.same(y),
                    (None, None) => true,
                    _ => false,
                }
                &&& ty.same(*ty2)
                &&& same_impl_items(items@, items2@)
            },
            (ItemKind::Mac(mac), ItemKind::Mac(mac2)) => mac.same(mac2),
            (ItemKind::MacroDef(definition), ItemKind::MacroDef(definition2)) => {
                &&& definition.same(definition2)
            },
            _ => false,
        }
    }

    /// Every value holds the same contents as itself.
    pub proof fn same_as_itself(self)
        ensures
            self.same(self),
        decreases self,
    {
        match self {
            ItemKind::Use(tree) => {
                tree.same_as_itself();
            },
            ItemKind::Static(ty, _, expr) => {
                ty.same_as_itself();
                expr.same_as_itself();
            },
            ItemKind::Const(ty, expr) => {
                ty.same_as_itself();
                expr.same_as_itself();
            },
            ItemKind::Fn(decl, _, generics, block) => {
                decl.same_as_itself();
                generics.same_as_itself();
                block.same_as_itself();
            },
            ItemKind::Mod(module) => {
                module.same_as_itself();
            },
            ItemKind::ForeignMod(foreign_mod) => {
                foreign_mod.same_as_itself();
            },
            ItemKind::TyAlias(ty, generics) => {
                ty.same_as_itself();
                generics.same_as_itself();
            },
            ItemKind::OpaqueTy(bounds, generics) => {
                bounds_same_as_themselves(bounds@);
                generics.same_as_itself();
            },
            ItemKind::Enum(definition, generics) => {
                definition.same_as_itself();
                generics.same_as_itself();
            },
            ItemKind::Struct(data, generics) => {
                data.same_as_itself();
                generics.same_as_itself();
            },
            ItemKind::Union(data, generics) => {
                data.same_as_itself();
                generics.same_as_itself();
            },
            ItemKind::Trait(_, _, generics, bounds, items) => {
                generics.same_as_itself();
                bounds_same_as_themselves(bounds@);
                trait_items_same_as_themselves(items@);
            },
            ItemKind::TraitAlias(generics, bounds) => {
                generics.same_as_itself();
                bounds_same_as_themselves(bounds@);
            },
            ItemKind::Impl(_, _, _, generics, trait_ref, ty, items) => {
                generics.same_as_itself();
                if let Some(x) = trait_ref {
                    x.same_as_itself();
                }
                ty.same_as_itself();
                impl_items_same_as_themselves(items@);
            },
            ItemKind::Mac(mac) => {
                mac.same_as_itself();
            },
            ItemKind::MacroDef(definition) => {
                definition.same_as_itself();
            },
            _ => {},
        }
    }
}

impl Clone for ItemKind {
    fn clone(&self) -> (copy: ItemKind)
        ensures
            self.same(copy),
        decreases *self,
    {
        match self {
            ItemKind::ExternCrate(text) => ItemKind::ExternCrate(
                match text {
                    Some(x) => Some(x.clone()),
                    None => None,
                },
            ),
            ItemKind::Use(tree) => ItemKind::Use(Box::new((**tree).clone())),
            ItemKind::Static(ty, mutability, expr) => ItemKind::Static(
                Box::new((**ty).clone()),
                *mutability,
                Box::new((**expr).clone()),
            ),
            ItemKind::Const(ty, expr) => ItemKind::Const(
                Box::new((**ty).clone()),
                Box::new((**expr).clone()),
            ),
            ItemKind::Fn(decl, header, generics, block) => ItemKind::Fn(
                Box::new((**decl).clone()),
                *header,
                generics.clone(),
                Box::new((**block).clone()),
            ),
            ItemKind::Mod(module) => ItemKind::Mod(module.clone()),
            ItemKind::ForeignMod(foreign_mod) => ItemKind::ForeignMod(foreign_mod.clone()),
            ItemKind::GlobalAsm(text) => ItemKind::GlobalAsm(text.clone()),
            ItemKind::TyAlias(ty, generics) => ItemKind::TyAlias(
                Box::new((**ty).clone()),
                generics.clone(),
            ),
            ItemKind::OpaqueTy(bounds, generics) => ItemKind::OpaqueTy(
                clone_bounds(bounds),
                generics.clone(),
            ),
            ItemKind::Enum(definition, generics) => ItemKind::Enum(
                definition.clone(),
                generics.clone(),
            ),
            ItemKind::Struct(data, generics) => ItemKind::Struct(data.clone(), generics.clone()),
            ItemKind::Union(data, generics) => ItemKind::Union(data.clone(), generics.clone()),
            ItemKind::Trait(auto, unsafety, generics, bounds, items) => ItemKind::Trait(
                *auto,
                *unsafety,
                generics.clone(),
                clone_bounds(bounds),
                clone_trait_items(items),
            ),
            ItemKind::TraitAlias(generics, bounds) => ItemKind::TraitAlias(
                generics.clone(),
                clone_bounds(bounds),
            ),
            ItemKind::Impl(
                unsafety,
                polarity,
                defaultness,
                generics,
                trait_ref,
                ty,
                items,
            ) => ItemKind::Impl(
                *unsafety,
                *polarity,
                *defaultness,
                generics.clone(),
                match trait_ref {
                    Some(x) => Some(x.clone()),
                    None => None,
                },
                Box::new((**ty).clone()),
                clone_impl_items(items),
            ),
            ItemKind::Mac(mac) => ItemKind::Mac(mac.clone()),
            ItemKind::MacroDef(definition) => ItemKind::MacroDef(definition.clone()),
        }
    }
}

/// An item.
#[derive(Debug, PartialEq)]
pub struct Item {
    pub ident: Ident,
    pub attrs: Vec<Attribute>,
    pub id: NodeId,
    pub kind: ItemKind,
    pub vis: Visibility,
    pub span: Span,
    pub tokens: Option<String>,
}

impl Item {
    /// Both values hold the same contents.
    pub open spec fn same(self, other: Item) -> bool
        decreases self,
    {
        &&& self.ident.same(other.ident)
        &&& same_attributes(self.attrs@, other.attrs@)
        &&& self.id == other.id
        &&& self.kind.same(other.kind)
        &&& same_visibility(self.vis, other.vis)
        &&& self.span == other.span
        &&& match (self.tokens, other.tokens) {
            (Some(x), Some(y)) => x@ == y@,
            (None, None) => true,
            _ => false,
        }
    }

    /// Every value holds the same contents as itself.
    pub proof fn same_as_itself(self)
        ensures
            self.same(self),
        decreases self,
    {
        self.ident.same_as_itself();
        attributes_same_as_themselves(self.attrs@);
        self.kind.same_as_itself();
        self.vis.node.same_as_itself();
    }
}

impl Clone for Item {
    fn clone(&self) -> (copy: Item)
        ensures
            self.same(copy),
        decreases *self,
    {
        Item {
            ident: self.ident.clone(),
            attrs: clone_attributes(&self.attrs),
            id: self.id,
            kind: self.kind.clone(),
            vis: clone_visibility(&self.vis),
            span: self.span,
            tokens: match &self.tokens {
                Some(x) => Some(x.clone()),
                None => None,
            },
        }
    }
}

/// A whole crate.
#[derive(Debug, PartialEq)]
pub struct Crate {
    pub module: Mod,
    pub attrs: Vec<Attribute>,
    pub span: Span,
}

impl Crate {
    /// Both values hold the same contents.
    pub open spec fn same(self, other: Crate) -> bool
        decreases self,
    {
        &&& self.module.same(other.module)
        &&& same_attributes(self.attrs@, other.attrs@)
        &&& self.span == other.span
    }

    /// Every value holds the same contents as itself.
    pub proof fn same_as_itself(self)
        ensures
            self.same(self),
        decreases self,
    {
        self.module.same_as_itself();
        attributes_same_as_themselves(self.attrs@);
    }
}

impl Clone for Crate {
    fn clone(&self) -> (copy: Crate)
        ensures
            self.same(copy),
        decreases *self,
    {
        Crate {
            module: self.module.clone(),
            attrs: clone_attributes(&self.attrs),
            span: self.span,
        }
    }
}

/// Both lists hold the same items in the same order.
pub open spec fn same_items(list: Seq<Item>, other: Seq<Item>) -> bool
    decreases list,
{
    &&& list.len() == other.len()
    &&& forall|i: int| 0 <= i < list.len() ==> (#[trigger] list[i]).same(other[i])
}

/// Every list of items is the same as itself.
pub proof fn items_same_as_themselves(list: Seq<Item>)
    ensures
        same_items(list, list),
    decreases list,
{
    assert forall|i: int| 0 <= i < list.len() implies (#[trigger] list[i]).same(list[i]) by {
        list[i].same_as_itself();
    }
}

/// A copy of a list of items.
pub fn clone_items(list: &Vec<Item>) -> (copy: Vec<Item>)
    ensures
        same_items(list@, copy@),
    decreases *list,
{
    let mut copy: Vec<Item> = Vec::new();
    let mut i: usize = 0;
    while i < list.len()
        invariant
            i <= list@.len(),
            copy@.len() == i,
            forall|j: int| 0 <= j < i ==> (#[trigger] list@[j]).same(copy@[j]),
        decreases list@.len() - i,
    {
        copy.push(list[i].clone());
        i += 1;
    }
    copy
}

/// Both lists hold the same foreign items in the same order.
pub open spec fn same_foreign_items(list: Seq<ForeignItem>, other: Seq<ForeignItem>) -> bool
    decreases list,
{
    &&& list.len() == other.len()
    &&& forall|i: int| 0 <= i < list.len() ==> (#[trigger] list[i]).same(other[i])
}

/// Every list of foreign items is the same as itself.
pub proof fn foreign_items_same_as_themselves(list: Seq<ForeignItem>)
    ensures
        same_foreign_items(list, list),
    decreases list,
{
    assert forall|i: int| 0 <= i < list.len() implies (#[trigger] list[i]).same(list[i]) by {
        list[i].same_as_itself();
    }
}

/// A copy of a list of foreign items.
pub fn clone_foreign_items(list: &Vec<ForeignItem>) -> (copy: Vec<ForeignItem>)
    ensures
        same_foreign_items(list@, copy@),
    decreases *list,
{
    let mut copy: Vec<ForeignItem> = Vec::new();
    let mut i: usize = 0;
    while i < list.len()
        invariant
            i <= list@.len(),
            copy@.len() == i,
            forall|j: int| 0 <= j < i ==> (#[trigger] list@[j]).same(copy@[j]),
        decreases list@.len() - i,
    {
        copy.push(list[i].clone());
        i += 1;
    }
    copy
}

/// Both lists hold the same variants in the same order.
pub open spec fn same_variants(list: Seq<Variant>, other: Seq<Variant>) -> bool
    decreases list,
{
    &&& list.len() == other.len()
    &&& forall|i: int| 0 <= i < list.len() ==> (#[trigger] list[i]).same(other[i])
}

/// Every list of variants is the same as itself.
pub proof fn variants_same_as_themselves(list: Seq<Variant>)
    ensures
        same_variants(list, list),
    decreases list,
{
    assert forall|i: int| 0 <= i < list.len() implies (#[trigger] list[i]).same(list[i]) by {
        list[i].same_as_itself();
    }
}

/// A copy of a list of variants.
pub fn clone_variants(list: &Vec<Variant>) -> (copy: Vec<Variant>)
    ensures
        same_variants(list@, copy@),
    decreases *list,
{
    let mut copy: Vec<Variant> = Vec::new();
    let mut i: usize = 0;
    while i < list.len()
        invariant
            i <= list@.len(),
            copy@.len() == i,
            forall|j: int| 0 <= j < i ==> (#[trigger] list@[j]).same(copy@[j]),
        decreases list@.len() - i,
    {
        copy.push(list[i].clone());
        i += 1;
    }
    copy
}

/// Both lists hold the same fields in the same order.
pub open spec fn same_struct_fields(list: Seq<StructField>, other: Seq<StructField>) -> bool
    decreases list,
{
    &&& list.len() == other.len()
    &&& forall|i: int| 0 <= i < list.len() ==> (#[trigger] list[i]).same(other[i])
}

/// Every list of fields is the same as itself.
pub proof fn struct_fields_same_as_themselves(list: Seq<StructField>)
    ensures
        same_struct_fields(list, list),
    decreases list,
{
    assert forall|i: int| 0 <= i < list.len() implies (#[trigger] list[i]).same(list[i]) by {
        list[i].same_as_itself();
    }
}

/// A copy of a list of fields.
pub fn clone_struct_fields(list: &Vec<StructField>) -> (copy: Vec<StructField>)
    ensures
        same_struct_fields(list@, copy@),
    decreases *list,
{
    let mut copy: Vec<StructField> = Vec::new();
    let mut i: usize = 0;
    while i < list.len()
        invariant
            i <= list@.len(),
            copy@.len() == i,
            forall|j: int| 0 <= j < i ==> (#[trigger] list@[j]).same(copy@[j]),
        decreases list@.len() - i,
    {
        copy.push(list[i].clone());
        i += 1;
    }
    copy
}

/// Both lists hold the same trait items in the same order.
pub open spec fn same_trait_items(list: Seq<TraitItem>, other: Seq<TraitItem>) -> bool
    decreases list,
{
    &&& list.len() == other.len()
    &&& forall|i: int| 0 <= i < list.len() ==> (#[trigger] list[i]).same(other[i])
}

/// Every list of trait items is the same as itself.
pub proof fn trait_items_same_as_themselves(list: Seq<TraitItem>)
    ensures
        same_trait_items(list, list),
    decreases list,
{
    assert forall|i: int| 0 <= i < list.len() implies (#[trigger] list[i]).same(list[i]) by {
        list[i].same_as_itself();
    }
}

/// A copy of a list of trait items.
pub fn clone_trait_items(list: &Vec<TraitItem>) -> (copy: Vec<TraitItem>)
    ensures
        same_trait_items(list@, copy@),
    decreases *list,
{
    let mut copy: Vec<TraitItem> = Vec::new();
    let mut i: usize = 0;
    while i < list.len()
        invariant
            i <= list@.len(),
            copy@.len() == i,
            forall|j: int| 0 <= j < i ==> (#[trigger] list@[j]).same(copy@[j]),
        decreases list@.len() - i,
    {
        copy.push(list[i].clone());
        i += 1;
    }
    copy
}

/// Both lists hold the same impl items in the same order.
pub open spec fn same_impl_items(list: Seq<ImplItem>, other: Seq<ImplItem>) -> bool
    decreases list,
{
    &&& list.len() == other.len()
    &&& forall|i: int| 0 <= i < list.len() ==> (#[trigger] list[i]).same(other[i])
}

/// Every list of impl items is the same as itself.
pub proof fn impl_items_same_as_themselves(list: Seq<ImplItem>)
    ensures
        same_impl_items(list, list),
    decreases list,
{
    assert forall|i: int| 0 <= i < list.len() implies (#[trigger] list[i]).same(list[i]) by {
        list[i].same_as_itself();
    }
}

/// A copy of a list of impl items.
pub fn clone_impl_items(list: &Vec<ImplItem>) -> (copy: Vec<ImplItem>)
    ensures
        same_impl_items(list@, copy@),
    decreases *list,
{
    let mut copy: Vec<ImplItem> = Vec::new();
    let mut i: usize = 0;
    while i < list.len()
        invariant
            i <= list@.len(),
            copy@.len() == i,
            forall|j: int| 0 <= j < i ==> (#[trigger] list@[j]).same(copy@[j]),
        decreases list@.len() - i,
    {
        copy.push(list[i].clone());
        i += 1;
    }
    copy
}

/// Both lists hold the same nested use trees in the same order.
pub open spec fn same_nested_uses(list: Seq<NestedUse>, other: Seq<NestedUse>) -> bool
    decreases list,
{
    &&& list.len() == other.len()
    &&& forall|i: int| 0 <= i < list.len() ==> (#[trigger] list[i]).same(other[i])
}

/// Every list of nested use trees is the same as itself.
pub proof fn nested_uses_same_as_themselves(list: Seq<NestedUse>)
    ensures
        same_nested_uses(list, list),
    decreases list,
{
    assert forall|i: int| 0 <= i < list.len() implies (#[trigger] list[i]).same(list[i]) by {
        list[i].same_as_itself();
    }
}

/// A copy of a list of nested use trees.
pub fn clone_nested_uses(list: &Vec<NestedUse>) -> (copy: Vec<NestedUse>)
    ensures
        same_nested_uses(list@, copy@),
    decreases *list,
{
    let mut copy: Vec<NestedUse> = Vec::new();
    let mut i: usize = 0;
    while i < list.len()
        invariant
            i <= list@.len(),
            copy@.len() == i,
            forall|j: int| 0 <= j < i ==> (#[trigger] list@[j]).same(copy@[j]),
        decreases list@.len() - i,
    {
        copy.push(list[i].clone());
        i += 1;
    }
    copy
}

} // verus!
