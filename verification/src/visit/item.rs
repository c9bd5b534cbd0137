//! What is visited in items.

use vstd::prelude::*;

use crate::ast::item::{
    EnumDef, ForeignItem, ForeignItemKind, ForeignMod, ImplItem, ImplItemKind, Item, ItemKind,
    Mod, StructField, TraitItem, TraitItemKind, Variant, VariantData,
};
use crate::visit::{Visited, group_joined, joined, joined_is_associative, lemma_pushed};
use crate::visit::expr::{list_anon_const, list_expr, nodes_in_anon_const, nodes_in_expr};
use crate::visit::func::{list_fn_decl, list_method_sig, nodes_in_fn_decl, nodes_in_method_sig};
use crate::visit::generics::{
    list_bounds, list_generics, list_trait_ref, nodes_in_bounds, nodes_in_generics,
    nodes_in_trait_ref,
};
use crate::visit::stmt::{list_block, nodes_in_block};
use crate::visit::ty::{list_ty, nodes_in_ty};

verus! {

/// What is visited in a field.
pub open spec fn nodes_in_struct_field<'a>(node: StructField) -> Seq<Visited<'a>>
    decreases node,
{
    nodes_in_ty(*node.ty)
}

/// Lists what is visited in a field.
pub(crate) fn list_struct_field<'a>(node: &'a StructField, list: &mut Vec<Visited<'a>>)
    ensures
        final(list)@ == joined(old(list)@, nodes_in_struct_field(*node)),
    decreases *node,
{
    broadcast use group_joined;

    list_ty(&node.ty, list);
}

/// What is visited in the first `count` of a list of fields.
pub open spec fn nodes_in_struct_fields<'a>(list: Seq<StructField>, count: int) -> Seq<Visited<'a>>
    decreases list, count,
{
    if 0 < count <= list.len() {
        joined(nodes_in_struct_fields(list, count - 1), nodes_in_struct_field(list[count - 1]))
    } else {
        seq![]
    }
}

/// Lists what is visited in a list of fields.
pub(crate) fn list_struct_fields<'a>(nodes: &'a Vec<StructField>, list: &mut Vec<Visited<'a>>)
    ensures
        final(list)@ == joined(old(list)@, nodes_in_struct_fields(nodes@, nodes@.len() as int)),
    decreases *nodes,
{
    broadcast use group_joined;

    let mut i: usize = 0;
    while i < nodes.len()
        invariant
            i <= nodes@.len(),
            list@ == joined(old(list)@, nodes_in_struct_fields(nodes@, i as int)),
        decreases nodes@.len() - i,
    {
        list_struct_field(&nodes[i], list);
        i += 1;
        proof {
            joined_is_associative(
                old(list)@,
                nodes_in_struct_fields(nodes@, i - 1),
                nodes_in_struct_field(nodes@[i - 1]),
            );
        }
    }
}

/// What is visited in the fields of a struct.
pub open spec fn nodes_in_variant_data<'a>(node: VariantData) -> Seq<Visited<'a>>
    decreases node,
{
    match node {
        VariantData::Struct(fields, _) => nodes_in_struct_fields(fields@, fields@.len() as int),
        VariantData::Tuple(fields, _) => nodes_in_struct_fields(fields@, fields@.len() as int),
        _ => seq![],
    }
}

/// Lists what is visited in the fields of a struct.
pub(crate) fn list_variant_data<'a>(node: &'a VariantData, list: &mut Vec<Visited<'a>>)
    ensures
        final(list)@ == joined(old(list)@, nodes_in_variant_data(*node)),
    decreases *node,
{
    broadcast use group_joined;

    match node {
        VariantData::Struct(fields, _) => list_struct_fields(fields, list),
        VariantData::Tuple(fields, _) => list_struct_fields(fields, list),
        _ => {},
    }
}

/// What is visited in a variant.
pub open spec fn nodes_in_variant<'a>(node: Variant) -> Seq<Visited<'a>>
    decreases node,
{
    joined(
        nodes_in_variant_data(node.data),
        match node.disr_expr {
            Some(x) => nodes_in_anon_const(x),
            None => seq![],
        },
    )
}

/// Lists what is visited in a variant.
pub(crate) fn list_variant<'a>(node: &'a Variant, list: &mut Vec<Visited<'a>>)
    ensures
        final(list)@ == joined(old(list)@, nodes_in_variant(*node)),
    decreases *node,
{
    broadcast use group_joined;

    list_variant_data(&node.data, list);
    if let Some(x) = &node.disr_expr {
        list_anon_const(x, list);
    }
}

/// What is visited in the first `count` of a list of variants.
pub open spec fn nodes_in_variants<'a>(list: Seq<Variant>, count: int) -> Seq<Visited<'a>>
    decreases list, count,
{
    if 0 < count <= list.len() {
        joined(nodes_in_variants(list, count - 1), nodes_in_variant(list[count - 1]))
    } else {
        seq![]
    }
}

/// Lists what is visited in a list of variants.
pub(crate) fn list_variants<'a>(nodes: &'a Vec<Variant>, list: &mut Vec<Visited<'a>>)
    ensures
        final(list)@ == joined(old(list)@, nodes_in_variants(nodes@, nodes@.len() as int)),
    decreases *nodes,
{
    broadcast use group_joined;

    let mut i: usize = 0;
    while i < nodes.len()
        invariant
            i <= nodes@.len(),
            list@ == joined(old(list)@, nodes_in_variants(nodes@, i as int)),
        decreases nodes@.len() - i,
    {
        list_variant(&nodes[i], list);
        i += 1;
        proof {
            joined_is_associative(
                old(list)@,
                nodes_in_variants(nodes@, i - 1),
                nodes_in_variant(nodes@[i - 1]),
            );
        }
    }
}

/// What is visited in the variants of an enum.
pub open spec fn nodes_in_enum_def<'a>(node: EnumDef) -> Seq<Visited<'a>>
    decreases node,
{
    nodes_in_variants(node.variants@, node.variants@.len() as int)
}

/// Lists what is visited in the variants of an enum.
pub(crate) fn list_enum_def<'a>(node: &'a EnumDef, list: &mut Vec<Visited<'a>>)
    ensures
        final(list)@ == joined(old(list)@, nodes_in_enum_def(*node)),
    decreases *node,
{
    broadcast use group_joined;

    list_variants(&node.variants, list);
}

/// What is visited in a module.
pub open spec fn nodes_in_mod<'a>(node: Mod) -> Seq<Visited<'a>>
    decreases node,
{
    nodes_in_items(node.items@, node.items@.len() as int)
}

/// Lists what is visited in a module.
pub(crate) fn list_mod<'a>(node: &'a Mod, list: &mut Vec<Visited<'a>>)
    ensures
        final(list)@ == joined(old(list)@, nodes_in_mod(*node)),
    decreases *node,
{
    broadcast use group_joined;

    list_items(&node.items, list);
}

/// What is visited in the form of a foreign item.
pub open spec fn nodes_in_foreign_item_kind<'a>(node: ForeignItemKind) -> Seq<Visited<'a>>
    decreases node,
{
    match node {
        ForeignItemKind::Fn(decl, generics) => {
            joined(nodes_in_fn_decl(*decl), nodes_in_generics(generics))
        },
        ForeignItemKind::Static(ty, _) => nodes_in_ty(*ty),
        _ => seq![],
    }
}

/// Lists what is visited in the form of a foreign item.
pub(crate) fn list_foreign_item_kind<'a>(node: &'a ForeignItemKind, list: &mut Vec<Visited<'a>>)
    ensures
        final(list)@ == joined(old(list)@, nodes_in_foreign_item_kind(*node)),
    decreases *node,
{
    broadcast use group_joined;

    match node {
        ForeignItemKind::Fn(decl, generics) => {
            list_fn_decl(decl, list);
            list_generics(generics, list);
        },
        ForeignItemKind::Static(ty, _) => list_ty(ty, list),
        _ => {},
    }
}

/// What is visited in a foreign item.
pub open spec fn nodes_in_foreign_item<'a>(node: ForeignItem) -> Seq<Visited<'a>>
    decreases node,
{
    joined(seq![Visited::ForeignItem(&node)], nodes_in_foreign_item_kind(node.kind))
}

/// Lists what is visited in a foreign item.
pub(crate) fn list_foreign_item<'a>(node: &'a ForeignItem, list: &mut Vec<Visited<'a>>)
    ensures
        final(list)@ == joined(old(list)@, nodes_in_foreign_item(*node)),
    decreases *node,
{
    broadcast use group_joined;

    list.push(Visited::ForeignItem(node));
    proof {
        lemma_pushed(old(list)@, Visited::ForeignItem(node));
    }
    list_foreign_item_kind(&node.kind, list);
}

/// What is visited in the first `count` of a list of foreign items.
pub open spec fn nodes_in_foreign_items<'a>(list: Seq<ForeignItem>, count: int) -> Seq<Visited<'a>>
    decreases list, count,
{
    if 0 < count <= list.len() {
        joined(nodes_in_foreign_items(list, count - 1), nodes_in_foreign_item(list[count - 1]))
    } else {
        seq![]
    }
}

/// Lists what is visited in a list of foreign items.
pub(crate) fn list_foreign_items<'a>(nodes: &'a Vec<ForeignItem>, list: &mut Vec<Visited<'a>>)
    ensures
        final(list)@ == joined(old(list)@, nodes_in_foreign_items(nodes@, nodes@.len() as int)),
    decreases *nodes,
{
    broadcast use group_joined;

    let mut i: usize = 0;
    while i < nodes.len()
        invariant
            i <= nodes@.len(),
            list@ == joined(old(list)@, nodes_in_foreign_items(nodes@, i as int)),
        decreases nodes@.len() - i,
    {
        list_foreign_item(&nodes[i], list);
        i += 1;
        proof {
            joined_is_associative(
                old(list)@,
                nodes_in_foreign_items(nodes@, i - 1),
                nodes_in_foreign_item(nodes@[i - 1]),
            );
        }
    }
}

/// What is visited in a block of foreign items.
pub open spec fn nodes_in_foreign_mod<'a>(node: ForeignMod) -> Seq<Visited<'a>>
    decreases node,
{
    nodes_in_foreign_items(node.items@, node.items@.len() as int)
}

/// Lists what is visited in a block of foreign items.
pub(crate) fn list_foreign_mod<'a>(node: &'a ForeignMod, list: &mut Vec<Visited<'a>>)
    ensures
        final(list)@ == joined(old(list)@, nodes_in_foreign_mod(*node)),
    decreases *node,
{
    broadcast use group_joined;

    list_foreign_items(&node.items, list);
}

/// What is visited in the form of a trait item.
pub open spec fn nodes_in_trait_item_kind<'a>(node: TraitItemKind) -> Seq<Visited<'a>>
    decreases node,
{
    match node {
        TraitItemKind::Const(ty, expr) => {
            joined(
                nodes_in_ty(*ty),
                match expr {
                    Some(x) => nodes_in_expr(*x),
                    None => seq![],
                },
            )
        },
        TraitItemKind::Method(sig, block) => {
            joined(
                nodes_in_method_sig(sig),
                match block {
                    Some(x) => nodes_in_block(*x),
                    None => seq![],
                },
            )
        },
        TraitItemKind::Type(bounds, ty) => {
            joined(
                nodes_in_bounds(bounds@, bounds@.len() as int),
                match ty {
                    Some(x) => nodes_in_ty(*x),
                    None => seq![],
                },
            )
        },
        _ => seq![],
    }
}

/// Lists what is visited in the form of a trait item.
pub(crate) fn list_trait_item_kind<'a>(node: &'a TraitItemKind, list: &mut Vec<Visited<'a>>)
    ensures
        final(list)@ == joined(old(list)@, nodes_in_trait_item_kind(*node)),
    decreases *node,
{
    broadcast use group_joined;

    match node {
        TraitItemKind::Const(ty, expr) => {
            list_ty(ty, list);
            if let Some(x) = expr {
                list_expr(x, list);
            }
        },
        TraitItemKind::Method(sig, block) => {
            list_method_sig(sig, list);
            if let Some(x) = block {
                list_block(x, list);
            }
        },
        TraitItemKind::Type(bounds, ty) => {
            list_bounds(bounds, list);
            if let Some(x) = ty {
                list_ty(x, list);
            }
        },
        _ => {},
    }
}

/// What is visited in a trait item.
pub open spec fn nodes_in_trait_item<'a>(node: TraitItem) -> Seq<Visited<'a>>
    decreases node,
{
    joined(nodes_in_generics(node.generics), nodes_in_trait_item_kind(node.kind))
}

/// Lists what is visited in a trait item.
pub(crate) fn list_trait_item<'a>(node: &'a TraitItem, list: &mut Vec<Visited<'a>>)
    ensures
        final(list)@ == joined(old(list)@, nodes_in_trait_item(*node)),
    decreases *node,
{
    broadcast use group_joined;

    list_generics(&node.generics, list);
    list_trait_item_kind(&node.kind, list);
}

/// What is visited in the first `count` of a list of trait items.
pub open spec fn nodes_in_trait_items<'a>(list: Seq<TraitItem>, count: int) -> Seq<Visited<'a>>
    decreases list, count,
{
    if 0 < count <= list.len() {
        joined(nodes_in_trait_items(list, count - 1), nodes_in_trait_item(list[count - 1]))
    } else {
        seq![]
    }
}

/// Lists what is visited in a list of trait items.
pub(crate) fn list_trait_items<'a>(nodes: &'a Vec<TraitItem>, list: &mut Vec<Visited<'a>>)
    ensures
        final(list)@ == joined(old(list)@, nodes_in_trait_items(nodes@, nodes@.len() as int)),
    decreases *nodes,
{
    broadcast use group_joined;

    let mut i: usize = 0;
    while i < nodes.len()
        invariant
            i <= nodes@.len(),
            list@ == joined(old(list)@, nodes_in_trait_items(nodes@, i as int)),
        decreases nodes@.len() - i,
    {
        list_trait_item(&nodes[i], list);
        i += 1;
        proof {
            joined_is_associative(
                old(list)@,
                nodes_in_trait_items(nodes@, i - 1),
                nodes_in_trait_item(nodes@[i - 1]),
            );
        }
    }
}

/// What is visited in the form of an impl item.
pub open spec fn nodes_in_impl_item_kind<'a>(node: ImplItemKind) -> Seq<Visited<'a>>
    decreases node,
{
    match node {
        ImplItemKind::Const(ty, expr) => joined(nodes_in_ty(*ty), nodes_in_expr(*expr)),
        ImplItemKind::Method(sig, block) => {
            joined(nodes_in_method_sig(sig), nodes_in_block(*block))
        },
        ImplItemKind::TyAlias(ty) => nodes_in_ty(*ty),
        ImplItemKind::OpaqueTy(bounds) => nodes_in_bounds(bounds@, bounds@.len() as int),
        _ => seq![],
    }
}

/// Lists what is visited in the form of an impl item.
pub(crate) fn list_impl_item_kind<'a>(node: &'a ImplItemKind, list: &mut Vec<Visited<'a>>)
    ensures
        final(list)@ == joined(old(list)@, nodes_in_impl_item_kind(*node)),
    decreases *node,
{
    broadcast use group_joined;

    match node {
        ImplItemKind::Const(ty, expr) => {
            list_ty(ty, list);
            list_expr(expr, list);
        },
        ImplItemKind::Method(sig, block) => {
            list_method_sig(sig, list);
            list_block(block, list);
        },
        ImplItemKind::TyAlias(ty) => list_ty(ty, list),
        ImplItemKind::OpaqueTy(bounds) => list_bounds(bounds, list),
        _ => {},
    }
}

/// What is visited in an impl item.
pub open spec fn nodes_in_impl_item<'a>(node: ImplItem) -> Seq<Visited<'a>>
    decreases node,
{
    joined(nodes_in_generics(node.generics), nodes_in_impl_item_kind(node.kind))
}

/// Lists what is visited in an impl item.
pub(crate) fn list_impl_item<'a>(node: &'a ImplItem, list: &mut Vec<Visited<'a>>)
    ensures
        final(list)@ == joined(old(list)@, nodes_in_impl_item(*node)),
    decreases *node,
{
    broadcast use group_joined;

    list_generics(&node.generics, list);
    list_impl_item_kind(&node.kind, list);
}

/// What is visited in the first `count` of a list of impl items.
pub open spec fn nodes_in_impl_items<'a>(list: Seq<ImplItem>, count: int) -> Seq<Visited<'a>>
    decreases list, count,
{
    if 0 < count <= list.len() {
        joined(nodes_in_impl_items(list, count - 1), nodes_in_impl_item(list[count - 1]))
    } else {
        seq![]
    }
}

/// Lists what is visited in a list of impl items.
pub(crate) fn list_impl_items<'a>(nodes: &'a Vec<ImplItem>, list: &mut Vec<Visited<'a>>)
    ensures
        final(list)@ == joined(old(list)@, nodes_in_impl_items(nodes@, nodes@.len() as int)),
    decreases *nodes,
{
    broadcast use group_joined;

    let mut i: usize = 0;
    while i < nodes.len()
        invariant
            i <= nodes@.len(),
            list@ == joined(old(list)@, nodes_in_impl_items(nodes@, i as int)),
        decreases nodes@.len() - i,
    {
        list_impl_item(&nodes[i], list);
        i += 1;
        proof {
            joined_is_associative(
                old(list)@,
                nodes_in_impl_items(nodes@, i - 1),
                nodes_in_impl_item(nodes@[i - 1]),
            );
        }
    }
}

/// What is visited in the form of an item.
pub open spec fn nodes_in_item_kind<'a>(node: ItemKind) -> Seq<Visited<'a>>
    decreases node,
{
    match node {
        ItemKind::Static(ty, _, expr) => joined(nodes_in_ty(*ty), nodes_in_expr(*expr)),
        ItemKind::Const(ty, expr) => joined(nodes_in_ty(*ty), nodes_in_expr(*expr)),
        ItemKind::Fn(decl, _, generics, block) => {
            joined(
                nodes_in_generics(generics),
                joined(nodes_in_fn_decl(*decl), nodes_in_block(*block)),
            )
        },
        ItemKind::Mod(module) => nodes_in_mod(module),
        ItemKind::ForeignMod(foreign_mod) => nodes_in_foreign_mod(foreign_mod),
        ItemKind::TyAlias(ty, generics) => joined(nodes_in_ty(*ty), nodes_in_generics(generics)),
        ItemKind::OpaqueTy(bounds, generics) => {
            joined(nodes_in_bounds(bounds@, bounds@.len() as int), nodes_in_generics(generics))
        },
        ItemKind::Enum(definition, generics) => {
            joined(nodes_in_generics(generics), nodes_in_enum_def(definition))
        },
        ItemKind::Struct(data, generics) => {
            joined(nodes_in_generics(generics), nodes_in_variant_data(data))
        },
        ItemKind::Union(data, generics) => {
            joined(nodes_in_generics(generics), nodes_in_variant_data(data))
        },
        ItemKind::Trait(_, _, generics, bounds, items) => {
            joined(
                nodes_in_generics(generics),
                joined(
                    nodes_in_bounds(bounds@, bounds@.len() as int),
                    nodes_in_trait_items(items@, items@.len() as int),
                ),
            )
        },
        ItemKind::TraitAlias(generics, bounds) => {
            joined(nodes_in_generics(generics), nodes_in_bounds(bounds@, bounds@.len() as int))
        },
        ItemKind::Impl(_, _, _, generics, trait_ref, ty, items) => {
            joined(
                nodes_in_generics(generics),
                joined(
                    match trait_ref {
                        Some(x) => nodes_in_trait_ref(x),
                        None => seq![],
                    },
                    joined(nodes_in_ty(*ty), nodes_in_impl_items(items@, items@.len() as int)),
                ),
            )
        },
        _ => seq![],
    }
}

/// Lists what is visited in the form of an item.
#[verifier::rlimit(20)]
pub(crate) fn list_item_kind<'a>(node: &'a ItemKind, list: &mut Vec<Visited<'a>>)
    ensures
        final(list)@ == joined(old(list)@, nodes_in_item_kind(*node)),
    decreases *node,
{
    broadcast use group_joined;

    match node {
        ItemKind::Static(ty, _, expr) => {
            list_ty(ty, list);
            list_expr(expr, list);
        },
        ItemKind::Const(ty, expr) => {
            list_ty(ty, list);
            list_expr(expr, list);
        },
        ItemKind::Fn(decl, _, generics, block) => {
            list_generics(generics, list);
            list_fn_decl(decl, list);
            list_block(block, list);
        },
        ItemKind::Mod(module) => list_mod(module, list),
        ItemKind::ForeignMod(foreign_mod) => list_foreign_mod(foreign_mod, list),
        ItemKind::TyAlias(ty, generics) => {
            list_ty(ty, list);
            list_generics(generics, list);
        },
        ItemKind::OpaqueTy(bounds, generics) => {
            list_bounds(bounds, list);
            list_generics(generics, list);
        },
        ItemKind::Enum(definition, generics) => {
            list_generics(generics, list);
            list_enum_def(definition, list);
        },
        ItemKind::Struct(data, generics) => {
            list_generics(generics, list);
            list_variant_data(data, list);
        },
        ItemKind::Union(data, generics) => {
            list_generics(generics, list);
            list_variant_data(data, list);
        },
        ItemKind::Trait(_, _, generics, bounds, items) => {
            list_generics(generics, list);
            list_bounds(bounds, list);
            list_trait_items(items, list);
        },
        ItemKind::TraitAlias(generics, bounds) => {
            list_generics(generics, list);
            list_bounds(bounds, list);
        },
        ItemKind::Impl(_, _, _, generics, trait_ref, ty, items) => {
            list_generics(generics, list);
            if let Some(x) = trait_ref {
                list_trait_ref(x, list);
            }
            list_ty(ty, list);
            list_impl_items(items, list);
        },
        _ => {},
    }
}

/// What is visited in an item.
pub open spec fn nodes_in_item<'a>(node: Item) -> Seq<Visited<'a>>
    decreases node,
{
    joined(seq![Visited::Item(&node)], nodes_in_item_kind(node.kind))
}

/// Lists what is visited in an item.
pub(crate) fn list_item<'a>(node: &'a Item, list: &mut Vec<Visited<'a>>)
    ensures
        final(list)@ == joined(old(list)@, nodes_in_item(*node)),
    decreases *node,
{
    broadcast use group_joined;

    list.push(Visited::Item(node));
    proof {
        lemma_pushed(old(list)@, Visited::Item(node));
    }
    list_item_kind(&node.kind, list);
}

/// What is visited in the first `count` of a list of items.
pub open spec fn nodes_in_items<'a>(list: Seq<Item>, count: int) -> Seq<Visited<'a>>
    decreases list, count,
{
    if 0 < count <= list.len() {
        joined(nodes_in_items(list, count - 1), nodes_in_item(list[count - 1]))
    } else {
        seq![]
    }
}

/// Lists what is visited in a list of items.
pub(crate) fn list_items<'a>(nodes: &'a Vec<Item>, list: &mut Vec<Visited<'a>>)
    ensures
        final(list)@ == joined(old(list)@, nodes_in_items(nodes@, nodes@.len() as int)),
    decreases *nodes,
{
    broadcast use group_joined;

    let mut i: usize = 0;
    while i < nodes.len()
        invariant
            i <= nodes@.len(),
            list@ == joined(old(list)@, nodes_in_items(nodes@, i as int)),
        decreases nodes@.len() - i,
    {
        list_item(&nodes[i], list);
        i += 1;
        proof {
            joined_is_associative(
                old(list)@,
                nodes_in_items(nodes@, i - 1),
                nodes_in_item(nodes@[i - 1]),
            );
        }
    }
}

} // verus!
