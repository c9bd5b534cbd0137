//! Copies of items.

use vstd::prelude::*;

use crate::ast::item::{
    Crate, EnumDef, ForeignItem, ForeignItemKind, ForeignMod, ImplItem, ImplItemKind, Item,
    ItemKind, Mod, NestedUse, StructField, TraitItem, TraitItemKind, UseTree, UseTreeKind, Variant,
    VariantData,
};

verus! {

/// A copy of the form of a use tree agrees with it in every field.
pub proof fn copied_use_tree_kind_agrees(node: UseTreeKind, copy: UseTreeKind)
    requires
        node.same(copy),
    ensures
        match (node, copy) {
            (
                UseTreeKind::Simple(ident, first_id, second_id),
                UseTreeKind::Simple(ident2, first_id2, second_id2),
            ) => {
                &&& match (ident, ident2) {
                    (Some(x), Some(y)) => x.same(y),
                    (None, None) => true,
                    _ => false,
                }
                &&& first_id == first_id2
                &&& second_id == second_id2
            },
            (UseTreeKind::Nested(trees), UseTreeKind::Nested(trees2)) => {
                &&& trees@.len() == trees2@.len() && (
                    forall|i: int| 0 <= i < trees@.len() ==> (#[trigger] trees@[i]).same(trees2@[i])
                )
            },
            (UseTreeKind::Glob, UseTreeKind::Glob) => true,
            _ => false,
        },
{
}

/// A copy of a nested use tree agrees with it in every field.
pub proof fn copied_nested_use_agrees(node: NestedUse, copy: NestedUse)
    requires
        node.same(copy),
    ensures
        node.tree.same(copy.tree),
        node.id == copy.id,
{
}

/// A copy of a use tree agrees with it in every field.
pub proof fn copied_use_tree_agrees(node: UseTree, copy: UseTree)
    requires
        node.same(copy),
    ensures
        node.prefix.same(copy.prefix),
        node.kind.same(copy.kind),
        node.span == copy.span,
{
}

/// A copy of a field agrees with it in every field.
pub proof fn copied_struct_field_agrees(node: StructField, copy: StructField)
    requires
        node.same(copy),
    ensures
        node.span == copy.span,
        match (node.ident, copy.ident) {
            (Some(x), Some(y)) => x.same(y),
            (None, None) => true,
            _ => false,
        },
        node.vis.node.same(copy.vis.node) && node.vis.span == copy.vis.span,
        node.id == copy.id,
        node.ty.same(*copy.ty),
        node.attrs@.len() == copy.attrs@.len() && (
            forall|i: int| 0 <= i < node.attrs@.len() ==> (#[trigger] node.attrs@[i]).same(
                copy.attrs@[i],
            )
        ),
        node.is_placeholder == copy.is_placeholder,
{
}

/// A copy of the fields of a struct agrees with it in every field.
pub proof fn copied_variant_data_agrees(node: VariantData, copy: VariantData)
    requires
        node.same(copy),
    ensures
        match (node, copy) {
            (VariantData::Struct(fields, flag), VariantData::Struct(fields2, flag2)) => {
                &&& fields@.len() == fields2@.len() && (
                    forall|i: int| 0 <= i < fields@.len() ==> (#[trigger] fields@[i]).same(
                        fields2@[i],
                    )
                )
                &&& flag == flag2
            },
            (VariantData::Tuple(fields, id), VariantData::Tuple(fields2, id2)) => {
                &&& fields@.len() == fields2@.len() && (
                    forall|i: int| 0 <= i < fields@.len() ==> (#[trigger] fields@[i]).same(
                        fields2@[i],
                    )
                )
                &&& id == id2
            },
            (VariantData::Unit(id), VariantData::Unit(id2)) => {
                &&& id == id2
            },
            _ => false,
        },
{
}

/// A copy of a variant agrees with it in every field.
pub proof fn copied_variant_agrees(node: Variant, copy: Variant)
    requires
        node.same(copy),
    ensures
        node.ident.same(copy.ident),
        node.attrs@.len() == copy.attrs@.len() && (
            forall|i: int| 0 <= i < node.attrs@.len() ==> (#[trigger] node.attrs@[i]).same(
                copy.attrs@[i],
            )
        ),
        node.id == copy.id,
        node.data.same(copy.data),
        match (node.disr_expr, copy.disr_expr) {
            (Some(x), Some(y)) => x.same(y),
            (None, None) => true,
            _ => false,
        },
        node.span == copy.span,
        node.is_placeholder == copy.is_placeholder,
{
}

/// A copy of the variants of an enum agrees with it in every field.
pub proof fn copied_enum_def_agrees(node: EnumDef, copy: EnumDef)
    requires
        node.same(copy),
    ensures
        node.variants@.len() == copy.variants@.len() && (
            forall|i: int| 0 <= i < node.variants@.len() ==> (#[trigger] node.variants@[i]).same(
                copy.variants@[i],
            )
        ),
{
}

/// A copy of a module agrees with it in every field.
pub proof fn copied_mod_agrees(node: Mod, copy: Mod)
    requires
        node.same(copy),
    ensures
        node.inner == copy.inner,
        node.items@.len() == copy.items@.len() && (
            forall|i: int| 0 <= i < node.items@.len() ==> (#[trigger] node.items@[i]).same(
                copy.items@[i],
            )
        ),
        node.inline == copy.inline,
{
}

/// A copy of the form of a foreign item agrees with it in every field.
pub proof fn copied_foreign_item_kind_agrees(node: ForeignItemKind, copy: ForeignItemKind)
    requires
        node.same(copy),
    ensures
        match (node, copy) {
            (ForeignItemKind::Fn(decl, generics), ForeignItemKind::Fn(decl2, generics2)) => {
                &&& decl.same(*decl2)
                &&& generics.same(generics2)
            },
            (
                ForeignItemKind::Static(ty, mutability),
                ForeignItemKind::Static(ty2, mutability2),
            ) => {
                &&& ty.same(*ty2)
                &&& mutability == mutability2
            },
            (ForeignItemKind::Ty, ForeignItemKind::Ty) => true,
            (ForeignItemKind::Macro(mac), ForeignItemKind::Macro(mac2)) => {
                &&& mac.same(mac2)
            },
            _ => false,
        },
{
}

/// A copy of a foreign item agrees with it in every field.
pub proof fn copied_foreign_item_agrees(node: ForeignItem, copy: ForeignItem)
    requires
        node.same(copy),
    ensures
        node.ident.same(copy.ident),
        node.attrs@.len() == copy.attrs@.len() && (
            forall|i: int| 0 <= i < node.attrs@.len() ==> (#[trigger] node.attrs@[i]).same(
                copy.attrs@[i],
            )
        ),
        node.kind.same(copy.kind),
        node.id == copy.id,
        node.span == copy.span,
        node.vis.node.same(copy.vis.node) && node.vis.span == copy.vis.span,
{
}

/// A copy of a block of foreign items agrees with it in every field.
pub proof fn copied_foreign_mod_agrees(node: ForeignMod, copy: ForeignMod)
    requires
        node.same(copy),
    ensures
        node.abi == copy.abi,
        node.items@.len() == copy.items@.len() && (
            forall|i: int| 0 <= i < node.items@.len() ==> (#[trigger] node.items@[i]).same(
                copy.items@[i],
            )
        ),
{
}

/// A copy of the form of a trait item agrees with it in every field.
pub proof fn copied_trait_item_kind_agrees(node: TraitItemKind, copy: TraitItemKind)
    requires
        node.same(copy),
    ensures
        match (node, copy) {
            (TraitItemKind::Const(ty, expr), TraitItemKind::Const(ty2, expr2)) => {
                &&& ty.same(*ty2)
                &&& match (expr, expr2) {
                    (Some(x), Some(y)) => x.same(*y),
                    (None, None) => true,
                    _ => false,
                }
            },
            (TraitItemKind::Method(sig, block), TraitItemKind::Method(sig2, block2)) => {
                &&& sig.same(sig2)
                &&& match (block, block2) {
                    (Some(x), Some(y)) => x.same(*y),
                    (None, None) => true,
                    _ => false,
                }
            },
            (TraitItemKind::Type(bounds, ty), TraitItemKind::Type(bounds2, ty2)) => {
                &&& bounds@.len() == bounds2@.len() && (
                    forall|i: int| 0 <= i < bounds@.len() ==> (#[trigger] bounds@[i]).same(
                        bounds2@[i],
                    )
                )
                &&& match (ty, ty2) {
                    (Some(x), Some(y)) => x.same(*y),
                    (None, None) => true,
                    _ => false,
                }
            },
            (TraitItemKind::Macro(mac), TraitItemKind::Macro(mac2)) => {
                &&& mac.same(mac2)
            },
            _ => false,
        },
{
}

/// A copy of a trait item agrees with it in every field.
pub proof fn copied_trait_item_agrees(node: TraitItem, copy: TraitItem)
    requires
        node.same(copy),
    ensures
        node.id == copy.id,
        node.ident.same(copy.ident),
        node.attrs@.len() == copy.attrs@.len() && (
            forall|i: int| 0 <= i < node.attrs@.len() ==> (#[trigger] node.attrs@[i]).same(
                copy.attrs@[i],
            )
        ),
        node.generics.same(copy.generics),
        node.kind.same(copy.kind),
        node.span == copy.span,
        match (node.tokens, copy.tokens) {
            (Some(x), Some(y)) => x@ == y@,
            (None, None) => true,
            _ => false,
        },
{
}

/// A copy of the form of an impl item agrees with it in every field.
pub proof fn copied_impl_item_kind_agrees(node: ImplItemKind, copy: ImplItemKind)
    requires
        node.same(copy),
    ensures
        match (node, copy) {
            (ImplItemKind::Const(ty, expr), ImplItemKind::Const(ty2, expr2)) => {
                &&& ty.same(*ty2)
                &&& expr.same(*expr2)
            },
            (ImplItemKind::Method(sig, block), ImplItemKind::Method(sig2, block2)) => {
                &&& sig.same(sig2)
                &&& block.same(*block2)
            },
            (ImplItemKind::TyAlias(ty), ImplItemKind::TyAlias(ty2)) => {
                &&& ty.same(*ty2)
            },
            (ImplItemKind::OpaqueTy(bounds), ImplItemKind::OpaqueTy(bounds2)) => {
                &&& bounds@.len() == bounds2@.len() && (
                    forall|i: int| 0 <= i < bounds@.len() ==> (#[trigger] bounds@[i]).same(
                        bounds2@[i],
                    )
                )
            },
            (ImplItemKind::Macro(mac), ImplItemKind::Macro(mac2)) => {
                &&& mac.same(mac2)
            },
            _ => false,
        },
{
}

/// A copy of an impl item agrees with it in every field.
pub proof fn copied_impl_item_agrees(node: ImplItem, copy: ImplItem)
    requires
        node.same(copy),
    ensures
        node.id == copy.id,
        node.ident.same(copy.ident),
        node.vis.node.same(copy.vis.node) && node.vis.span == copy.vis.span,
        node.defaultness == copy.defaultness,
        node.attrs@.len() == copy.attrs@.len() && (
            forall|i: int| 0 <= i < node.attrs@.len() ==> (#[trigger] node.attrs@[i]).same(
                copy.attrs@[i],
            )
        ),
        node.generics.same(copy.generics),
        node.kind.same(copy.kind),
        node.span == copy.span,
        match (node.tokens, copy.tokens) {
            (Some(x), Some(y)) => x@ == y@,
            (None, None) => true,
            _ => false,
        },
{
}

/// A copy of the form of an item agrees with it in every field.
pub proof fn copied_item_kind_agrees(node: ItemKind, copy: ItemKind)
    requires
        node.same(copy),
    ensures
        match (node, copy) {
            (ItemKind::ExternCrate(text), ItemKind::ExternCrate(text2)) => {
                &&& match (text, text2) {
                    (Some(x), Some(y)) => x@ == y@,
                    (None, None) => true,
                    _ => false,
                }
            },
            (ItemKind::Use(tree), ItemKind::Use(tree2)) => {
                &&& tree.same(*tree2)
            },
            (ItemKind::Static(ty, mutability, expr), ItemKind::Static(ty2, mutability2, expr2)) => {
                &&& ty.same(*ty2)
                &&& mutability == mutability2
                &&& expr.same(*expr2)
            },
            (ItemKind::Const(ty, expr), ItemKind::Const(ty2, expr2)) => {
                &&& ty.same(*ty2)
                &&& expr.same(*expr2)
            },
            (
                ItemKind::Fn(decl, header, generics, block),
                ItemKind::Fn(decl2, header2, generics2, block2),
            ) => {
                &&& decl.same(*decl2)
                &&& header == header2
                &&& generics.same(generics2)
                &&& block.same(*block2)
            },
            (ItemKind::Mod(module), ItemKind::Mod(module2)) => {
                &&& module.same(module2)
            },
            (ItemKind::ForeignMod(foreign_mod), ItemKind::ForeignMod(foreign_mod2)) => {
                &&& foreign_mod.same(foreign_mod2)
            },
            (ItemKind::GlobalAsm(text), ItemKind::GlobalAsm(text2)) => {
                &&& text@ == text2@
            },
            (ItemKind::TyAlias(ty, generics), ItemKind::TyAlias(ty2, generics2)) => {
                &&& ty.same(*ty2)
                &&& generics.same(generics2)
            },
            (ItemKind::OpaqueTy(bounds, generics), ItemKind::OpaqueTy(bounds2, generics2)) => {
                &&& bounds@.len() == bounds2@.len() && (
                    forall|i: int| 0 <= i < bounds@.len() ==> (#[trigger] bounds@[i]).same(
                        bounds2@[i],
                    )
                )
                &&& generics.same(generics2)
            },
            (ItemKind::Enum(definition, generics), ItemKind::Enum(definition2, generics2)) => {
                &&& definition.same(definition2)
                &&& generics.same(generics2)
            },
            (ItemKind::Struct(data, generics), ItemKind::Struct(data2, generics2)) => {
                &&& data.same(data2)
                &&& generics.same(generics2)
            },
            (ItemKind::Union(data, generics), ItemKind::Union(data2, generics2)) => {
                &&& data.same(data2)
                &&& generics.same(generics2)
            },
            (
                ItemKind::Trait(auto, unsafety, generics, bounds, items),
                ItemKind::Trait(auto2, unsafety2, generics2, bounds2, items2),
            ) => {
                &&& auto == auto2
                &&& unsafety == unsafety2
                &&& generics.same(generics2)
                &&& bounds@.len() == bounds2@.len() && (
                    forall|i: int| 0 <= i < bounds@.len() ==> (#[trigger] bounds@[i]).same(
                        bounds2@[i],
                    )
                )
                &&& items@.len() == items2@.len() && (
                    forall|i: int| 0 <= i < items@.len() ==> (#[trigger] items@[i]).same(items2@[i])
                )
            },
            (ItemKind::TraitAlias(generics, bounds), ItemKind::TraitAlias(generics2, bounds2)) => {
                &&& generics.same(generics2)
                &&& bounds@.len() == bounds2@.len() && (
                    forall|i: int| 0 <= i < bounds@.len() ==> (#[trigger] bounds@[i]).same(
                        bounds2@[i],
                    )
                )
            },
            (
                ItemKind::Impl(unsafety, polarity, defaultness, generics, trait_ref, ty, items),
                ItemKind::Impl(
                    unsafety2,
                    polarity2,
                    defaultness2,
                    generics2,
                    trait_ref2,
                    ty2,
                    items2,
                ),
            ) => {
                &&& unsafety == unsafety2
                &&& polarity == polarity2
                &&& defaultness == defaultness2
                &&& generics.same(generics2)
                &&& match (trait_ref, trait_ref2) {
                    (Some(x), Some(y)) => x.same(y),
                    (None, None) => true,
                    _ => false,
                }
                &&& ty.same(*ty2)
                &&& items@.len() == items2@.len() && (
                    forall|i: int| 0 <= i < items@.len() ==> (#[trigger] items@[i]).same(items2@[i])
                )
            },
            (ItemKind::Mac(mac), ItemKind::Mac(mac2)) => {
                &&& mac.same(mac2)
            },
            (ItemKind::MacroDef(definition), ItemKind::MacroDef(definition2)) => {
                &&& definition.same(definition2)
            },
            _ => false,
        },
{
}

/// A copy of an item agrees with it in every field.
pub proof fn copied_item_agrees(node: Item, copy: Item)
    requires
        node.same(copy),
    ensures
        node.ident.same(copy.ident),
        node.attrs@.len() == copy.attrs@.len() && (
            forall|i: int| 0 <= i < node.attrs@.len() ==> (#[trigger] node.attrs@[i]).same(
                copy.attrs@[i],
            )
        ),
        node.id == copy.id,
        node.kind.same(copy.kind),
        node.vis.node.same(copy.vis.node) && node.vis.span == copy.vis.span,
        node.span == copy.span,
        match (node.tokens, copy.tokens) {
            (Some(x), Some(y)) => x@ == y@,
            (None, None) => true,
            _ => false,
        },
{
}

/// A copy of a crate agrees with it in every field.
pub proof fn copied_crate_agrees(node: Crate, copy: Crate)
    requires
        node.same(copy),
    ensures
        node.module.same(copy.module),
        node.attrs@.len() == copy.attrs@.len() && (
            forall|i: int| 0 <= i < node.attrs@.len() ==> (#[trigger] node.attrs@[i]).same(
                copy.attrs@[i],
            )
        ),
        node.span == copy.span,
{
}

} // verus!
