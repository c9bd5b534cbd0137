//! Parentheses in items.

use vstd::prelude::*;

use crate::ast::item::{
    Crate, EnumDef, ForeignItem, ForeignItemKind, ForeignMod, ImplItem, ImplItemKind, Item,
    ItemKind, Mod, StructField, TraitItem, TraitItemKind, Variant, VariantData,
};
use crate::settled::generics::settled_bounds;

verus! {

impl StructField {
    /// All parentheses in it have the ids of what stands between them.
    pub open spec fn settled(self) -> bool
        decreases self,
    {
        self.ty.settled()
    }
}

/// All parentheses in a list of fields have the ids of what stands between them.
pub open spec fn settled_struct_fields(list: Seq<StructField>) -> bool
    decreases list,
{
    forall|i: int| 0 <= i < list.len() ==> (#[trigger] list[i]).settled()
}

impl VariantData {
    /// All parentheses in it have the ids of what stands between them.
    pub open spec fn settled(self) -> bool
        decreases self,
    {
        match self {
            VariantData::Struct(fields, _) => settled_struct_fields(fields@),
            VariantData::Tuple(fields, _) => settled_struct_fields(fields@),
            _ => true,
        }
    }
}

impl Variant {
    /// All parentheses in it have the ids of what stands between them.
    pub open spec fn settled(self) -> bool
        decreases self,
    {
        &&& self.data.settled()
        &&& (self.disr_expr matches Some(x) ==> x.settled())
    }
}

/// All parentheses in a list of variants have the ids of what stands between them.
pub open spec fn settled_variants(list: Seq<Variant>) -> bool
    decreases list,
{
    forall|i: int| 0 <= i < list.len() ==> (#[trigger] list[i]).settled()
}

impl EnumDef {
    /// All parentheses in it have the ids of what stands between them.
    pub open spec fn settled(self) -> bool
        decreases self,
    {
        settled_variants(self.variants@)
    }
}

impl Mod {
    /// All parentheses in it have the ids of what stands between them.
    pub open spec fn settled(self) -> bool
        decreases self,
    {
        settled_items(self.items@)
    }
}

impl ForeignItemKind {
    /// All parentheses in it have the ids of what stands between them.
    pub open spec fn settled(self) -> bool
        decreases self,
    {
        match self {
            ForeignItemKind::Fn(decl, generics) => {
                &&& decl.settled()
                &&& generics.settled()
            },
            ForeignItemKind::Static(ty, _) => ty.settled(),
            _ => true,
        }
    }
}

impl ForeignItem {
    /// All parentheses in it have the ids of what stands between them.
    pub open spec fn settled(self) -> bool
        decreases self,
    {
        self.kind.settled()
    }
}

/// All parentheses in a list of foreign items have the ids of what stands between them.
pub open spec fn settled_foreign_items(list: Seq<ForeignItem>) -> bool
    decreases list,
{
    forall|i: int| 0 <= i < list.len() ==> (#[trigger] list[i]).settled()
}

impl ForeignMod {
    /// All parentheses in it have the ids of what stands between them.
    pub open spec fn settled(self) -> bool
        decreases self,
    {
        settled_foreign_items(self.items@)
    }
}

impl TraitItemKind {
    /// All parentheses in it have the ids of what stands between them.
    pub open spec fn settled(self) -> bool
        decreases self,
    {
        match self {
            TraitItemKind::Const(ty, expr) => {
                &&& ty.settled()
                &&& (expr matches Some(x) ==> x.settled())
            },
            TraitItemKind::Method(sig, block) => {
                &&& sig.settled()
                &&& (block matches Some(x) ==> x.settled())
            },
            TraitItemKind::Type(bounds, ty) => {
                &&& settled_bounds(bounds@)
                &&& (ty matches Some(x) ==> x.settled())
            },
            _ => true,
        }
    }
}

impl TraitItem {
    /// All parentheses in it have the ids of what stands between them.
    pub open spec fn settled(self) -> bool
        decreases self,
    {
        &&& self.generics.settled()
        &&& self.kind.settled()
    }
}

/// All parentheses in a list of trait items have the ids of what stands between them.
pub open spec fn settled_trait_items(list: Seq<TraitItem>) -> bool
    decreases list,
{
    forall|i: int| 0 <= i < list.len() ==> (#[trigger] list[i]).settled()
}

impl ImplItemKind {
    /// All parentheses in it have the ids of what stands between them.
    pub open spec fn settled(self) -> bool
        decreases self,
    {
        match self {
            ImplItemKind::Const(ty, expr) => {
                &&& ty.settled()
                &&& expr.settled()
            },
            ImplItemKind::Method(sig, block) => {
                &&& sig.settled()
                &&& block.settled()
            },
            ImplItemKind::TyAlias(ty) => ty.settled(),
            ImplItemKind::OpaqueTy(bounds) => settled_bounds(bounds@),
            _ => true,
        }
    }
}

impl ImplItem {
    /// All parentheses in it have the ids of what stands between them.
    pub open spec fn settled(self) -> bool
        decreases self,
    {
        &&& self.generics.settled()
        &&& self.kind.settled()
    }
}

/// All parentheses in a list of impl items have the ids of what stands between them.
pub open spec fn settled_impl_items(list: Seq<ImplItem>) -> bool
    decreases list,
{
    forall|i: int| 0 <= i < list.len() ==> (#[trigger] list[i]).settled()
}

impl ItemKind {
    /// All parentheses in it have the ids of what stands between them.
    pub open spec fn settled(self) -> bool
        decreases self,
    {
        match self {
            ItemKind::Static(ty, _, expr) => {
                &&& ty.settled()
                &&& expr.settled()
            },
            ItemKind::Const(ty, expr) => {
                &&& ty.settled()
                &&& expr.settled()
            },
            ItemKind::Fn(decl, _, generics, block) => {
                &&& decl.settled()
                &&& generics.settled()
                &&& block.settled()
            },
            ItemKind::Mod(module) => module.settled(),
            ItemKind::ForeignMod(foreign_mod) => foreign_mod.settled(),
            ItemKind::TyAlias(ty, generics) => {
                &&& ty.settled()
                &&& generics.settled()
            },
            ItemKind::OpaqueTy(bounds, generics) => {
                &&& settled_bounds(bounds@)
                &&& generics.settled()
            },
            ItemKind::Enum(definition, generics) => {
                &&& definition.settled()
                &&& generics.settled()
            },
            ItemKind::Struct(data, generics) => {
                &&& data.settled()
                &&& generics.settled()
            },
            ItemKind::Union(data, generics) => {
                &&& data.settled()
                &&& generics.settled()
            },
            ItemKind::Trait(_, _, generics, bounds, items) => {
                &&& generics.settled()
                &&& settled_bounds(bounds@)
                &&& settled_trait_items(items@)
            },
            ItemKind::TraitAlias(generics, bounds) => {
                &&& generics.settled()
                &&& settled_bounds(bounds@)
            },
            ItemKind::Impl(_, _, _, generics, trait_ref, ty, items) => {
                &&& generics.settled()
                &&& (trait_ref matches Some(x) ==> x.settled())
                &&& ty.settled()
                &&& settled_impl_items(items@)
            },
            _ => true,
        }
    }
}

impl Item {
    /// All parentheses in it have the ids of what stands between them.
    pub open spec fn settled(self) -> bool
        decreases self,
    {
        self.kind.settled()
    }
}

/// All parentheses in a list of items have the ids of what stands between them.
pub open spec fn settled_items(list: Seq<Item>) -> bool
    decreases list,
{
    forall|i: int| 0 <= i < list.len() ==> (#[trigger] list[i]).settled()
}

impl Crate {
    /// All parentheses in it have the ids of what stands between them.
    pub open spec fn settled(self) -> bool
        decreases self,
    {
        self.module.settled()
    }
}

} // verus!
