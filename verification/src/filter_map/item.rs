//! The visitor on items.

use vstd::prelude::*;

use crate::ast::attr::{Mac, attributes_same_as_themselves};
use crate::ast::expr::Expr;
use crate::ast::item::{
    Crate, EnumDef, ForeignItem, ForeignItemKind, ForeignMod, ImplItem, ImplItemKind, Item,
    ItemKind, Mod, StructField, TraitItem, TraitItemKind, Variant, VariantData, same_foreign_items,
    same_impl_items, same_items, same_struct_fields, same_trait_items, same_variants,
};
use crate::filter_map::{Rules, between};
use crate::settled::item::{
    settled_foreign_items, settled_impl_items, settled_items, settled_struct_fields,
    settled_trait_items, settled_variants,
};

verus! {

impl<
    S,
    F: Fn(&S, &str) -> (S, bool),
    G: Fn(&S, &Expr) -> (S, Expr),
    H: Fn(&S, &Mac) -> S,
> Rules<S, F, G, H> {
    /// A field can be gone through.
    pub open spec fn can_visit_struct_field(self, node: StructField) -> bool
        decreases node,
    {
        self.can_visit_ty(*node.ty)
    }

    /// `after` is `before` with every expression in it visited in order.
    pub open spec fn visited_struct_field(
        self,
        from: S,
        before: StructField,
        to: S,
        after: StructField,
    ) -> bool
        decreases before,
    {
        &&& self.visited_ty(from, *before.ty, to, *after.ty)
        &&& before.span == after.span
        &&& before.ident == after.ident
        &&& before.vis == after.vis
        &&& before.id == after.id
        &&& before.attrs == after.attrs
        &&& before.is_placeholder == after.is_placeholder
    }

    /// Goes through a field.
    pub fn visit_struct_field(&self, state: &mut S, node: &mut StructField)
        requires
            self.can_visit_struct_field(*old(node)),
        ensures
            self.visited_struct_field(*old(state), *old(node), *final(state), *final(node)),
        decreases *old(node),
    {
        self.visit_ty(state, &mut node.ty);
    }

    /// A visit that accepts nothing settles a field, and leaves it as it is where it was settled.
    pub(crate) proof fn quiet_visit_of_struct_field(
        self,
        from: S,
        before: StructField,
        to: S,
        after: StructField,
    )
        requires
            self.accepts_nothing(),
            self.visited_struct_field(from, before, to, after),
        ensures
            after.settled(),
            before.settled() ==> before.same(after),
        decreases before,
    {
        self.quiet_visit_of_ty(from, *before.ty, to, *after.ty);
        if let Some(x) = before.ident {
            x.same_as_itself();
        }
        before.vis.node.same_as_itself();
        attributes_same_as_themselves(before.attrs@);
    }

    /// A list of fields can be gone through.
    pub open spec fn can_visit_struct_fields(self, list: Seq<StructField>) -> bool
        decreases list,
    {
        forall|i: int| 0 <= i < list.len() ==> self.can_visit_struct_field(#[trigger] list[i])
    }

    /// `after` is `before` with every expression in it visited in order.
    pub open spec fn visited_struct_fields(
        self,
        from: S,
        before: Seq<StructField>,
        to: S,
        after: Seq<StructField>,
    ) -> bool
        decreases before,
    {
        &&& before.len() == after.len()
        &&& if before.len() == 0 {
            from == to
        } else {
            exists|mid: S|
                {
                    &&& #[trigger] between(mid)
                    &&& self.visited_struct_fields(from, before.drop_last(), mid, after.drop_last())
                    &&& self.visited_struct_field(mid, before.last(), to, after.last())
                }
        }
    }

    /// Goes through a list of fields.
    pub fn visit_struct_fields(&self, state: &mut S, list: &mut Vec<StructField>)
        requires
            self.can_visit_struct_fields(old(list)@),
        ensures
            self.visited_struct_fields(*old(state), old(list)@, *final(state), final(list)@),
        decreases *old(list),
    {
        let ghost from = *state;
        let mut i: usize = 0;
        while i < list.len()
            invariant
                i <= list@.len(),
                list@.len() == old(list)@.len(),
                self.can_visit_struct_fields(old(list)@),
                self.visited_struct_fields(
                    from,
                    old(list)@.take(i as int),
                    *state,
                    list@.take(i as int),
                ),
                forall|j: int| i <= j < list@.len() ==> list@[j] == old(list)@[j],
            decreases list@.len() - i,
        {
            let ghost done = list@.take(i as int);
            assert(between(*state));
            assert(list@[i as int] == old(list)@[i as int]);
            self.visit_struct_field(state, &mut list[i]);
            i += 1;
            assert(old(list)@.take(i as int).drop_last() =~= old(list)@.take(i - 1));
            assert(list@.take(i as int).drop_last() =~= done);
        }
        assert(old(list)@.take(i as int) =~= old(list)@);
        assert(list@.take(i as int) =~= list@);
    }

    /// A visit that accepts nothing settles a list, and leaves it as it is where it was settled.
    pub(crate) proof fn quiet_visit_of_struct_fields(
        self,
        from: S,
        before: Seq<StructField>,
        to: S,
        after: Seq<StructField>,
    )
        requires
            self.accepts_nothing(),
            self.visited_struct_fields(from, before, to, after),
        ensures
            settled_struct_fields(after),
            settled_struct_fields(before) ==> same_struct_fields(before, after),
        decreases before,
    {
        if before.len() > 0 {
            let mid = choose|mid: S|
                {
                    &&& #[trigger] between(mid)
                    &&& self.visited_struct_fields(from, before.drop_last(), mid, after.drop_last())
                    &&& self.visited_struct_field(mid, before.last(), to, after.last())
                };
            self.quiet_visit_of_struct_fields(from, before.drop_last(), mid, after.drop_last());
            self.quiet_visit_of_struct_field(mid, before.last(), to, after.last());
            assert forall|i: int| 0 <= i < after.len() implies (#[trigger] after[i]).settled() by {
                if i < after.len() - 1 {
                    assert(after[i] == after.drop_last()[i]);
                }
            }
            if settled_struct_fields(before) {
                assert forall|i: int| 0 <= i < before.len() - 1 implies (
                    #[trigger] before.drop_last()[i]
                ).settled() by {
                    assert(before.drop_last()[i] == before[i]);
                }
                assert forall|i: int| 0 <= i < before.len() implies (#[trigger] before[i]).same(
                    after[i],
                ) by {
                    if i < before.len() - 1 {
                        assert(before.drop_last()[i].same(after.drop_last()[i]));
                    }
                }
            }
        }
    }

    /// The fields of a struct can be gone through.
    pub open spec fn can_visit_variant_data(self, node: VariantData) -> bool
        decreases node,
    {
        match node {
            VariantData::Struct(fields, _) => self.can_visit_struct_fields(fields@),
            VariantData::Tuple(fields, _) => self.can_visit_struct_fields(fields@),
            _ => true,
        }
    }

    /// `after` is `before` with every expression in it visited in order.
    pub open spec fn visited_variant_data(
        self,
        from: S,
        before: VariantData,
        to: S,
        after: VariantData,
    ) -> bool
        decreases before,
    {
        match (before, after) {
            (VariantData::Struct(fields, flag), VariantData::Struct(fields2, flag2)) => {
                &&& self.visited_struct_fields(from, fields@, to, fields2@)
                &&& flag == flag2
            },
            (VariantData::Tuple(fields, id), VariantData::Tuple(fields2, id2)) => {
                &&& self.visited_struct_fields(from, fields@, to, fields2@)
                &&& id == id2
            },
            _ => before == after && from == to,
        }
    }

    /// Goes through the fields of a struct.
    pub fn visit_variant_data(&self, state: &mut S, node: &mut VariantData)
        requires
            self.can_visit_variant_data(*old(node)),
        ensures
            self.visited_variant_data(*old(state), *old(node), *final(state), *final(node)),
        decreases *old(node),
    {
        match node {
            VariantData::Struct(fields, _) => {
                self.visit_struct_fields(state, fields);
            },
            VariantData::Tuple(fields, _) => {
                self.visit_struct_fields(state, fields);
            },
            _ => {},
        }
    }

    /// A visit that accepts nothing settles the fields of a struct, and leaves it as it is where it
    /// was settled.
    pub(crate) proof fn quiet_visit_of_variant_data(
        self,
        from: S,
        before: VariantData,
        to: S,
        after: VariantData,
    )
        requires
            self.accepts_nothing(),
            self.visited_variant_data(from, before, to, after),
        ensures
            after.settled(),
            before.settled() ==> before.same(after),
        decreases before,
    {
        match (before, after) {
            (VariantData::Struct(fields, _), VariantData::Struct(fields2, _)) => {
                self.quiet_visit_of_struct_fields(from, fields@, to, fields2@);
            },
            (VariantData::Tuple(fields, _), VariantData::Tuple(fields2, _)) => {
                self.quiet_visit_of_struct_fields(from, fields@, to, fields2@);
            },
            _ => {
                before.same_as_itself();
            },
        }
    }

    /// A variant can be gone through.
    pub open spec fn can_visit_variant(self, node: Variant) -> bool
        decreases node,
    {
        &&& self.can_visit_variant_data(node.data)
        &&& match node.disr_expr {
            Some(x) => self.can_visit_anon_const(x),
            None => true,
        }
    }

    /// `after` is `before` with every expression in it visited in order.
    pub open spec fn visited_variant(self, from: S, before: Variant, to: S, after: Variant) -> bool
        decreases before,
    {
        &&& exists|mid: S|
            {
                &&& #[trigger] between(mid)
                &&& self.visited_variant_data(from, before.data, mid, after.data)
                &&& self.visited_optional_anon_const(mid, before.disr_expr, to, after.disr_expr)
            }
        &&& before.ident == after.ident
        &&& before.attrs == after.attrs
        &&& before.id == after.id
        &&& before.span == after.span
        &&& before.is_placeholder == after.is_placeholder
    }

    /// Goes through a variant.
    pub fn visit_variant(&self, state: &mut S, node: &mut Variant)
        requires
            self.can_visit_variant(*old(node)),
        ensures
            self.visited_variant(*old(state), *old(node), *final(state), *final(node)),
        decreases *old(node),
    {
        self.visit_variant_data(state, &mut node.data);
        assert(between(*state));
        self.visit_optional_anon_const(state, &mut node.disr_expr);
    }

    /// A visit that accepts nothing settles a variant, and leaves it as it is where it was settled.
    pub(crate) proof fn quiet_visit_of_variant(
        self,
        from: S,
        before: Variant,
        to: S,
        after: Variant,
    )
        requires
            self.accepts_nothing(),
            self.visited_variant(from, before, to, after),
        ensures
            after.settled(),
            before.settled() ==> before.same(after),
        decreases before,
    {
        let mid = choose|mid: S|
            {
                &&& #[trigger] between(mid)
                &&& self.visited_variant_data(from, before.data, mid, after.data)
                &&& self.visited_optional_anon_const(mid, before.disr_expr, to, after.disr_expr)
            };
        self.quiet_visit_of_variant_data(from, before.data, mid, after.data);
        self.quiet_visit_of_optional_anon_const(mid, before.disr_expr, to, after.disr_expr);
        before.ident.same_as_itself();
        attributes_same_as_themselves(before.attrs@);
    }

    /// A list of variants can be gone through.
    pub open spec fn can_visit_variants(self, list: Seq<Variant>) -> bool
        decreases list,
    {
        forall|i: int| 0 <= i < list.len() ==> self.can_visit_variant(#[trigger] list[i])
    }

    /// `after` is `before` with every expression in it visited in order.
    pub open spec fn visited_variants(
        self,
        from: S,
        before: Seq<Variant>,
        to: S,
        after: Seq<Variant>,
    ) -> bool
        decreases before,
    {
        &&& before.len() == after.len()
        &&& if before.len() == 0 {
            from == to
        } else {
            exists|mid: S|
                {
                    &&& #[trigger] between(mid)
                    &&& self.visited_variants(from, before.drop_last(), mid, after.drop_last())
                    &&& self.visited_variant(mid, before.last(), to, after.last())
                }
        }
    }

    /// Goes through a list of variants.
    pub fn visit_variants(&self, state: &mut S, list: &mut Vec<Variant>)
        requires
            self.can_visit_variants(old(list)@),
        ensures
            self.visited_variants(*old(state), old(list)@, *final(state), final(list)@),
        decreases *old(list),
    {
        let ghost from = *state;
        let mut i: usize = 0;
        while i < list.len()
            invariant
                i <= list@.len(),
                list@.len() == old(list)@.len(),
                self.can_visit_variants(old(list)@),
                self.visited_variants(
                    from,
                    old(list)@.take(i as int),
                    *state,
                    list@.take(i as int),
                ),
                forall|j: int| i <= j < list@.len() ==> list@[j] == old(list)@[j],
            decreases list@.len() - i,
        {
            let ghost done = list@.take(i as int);
            assert(between(*state));
            assert(list@[i as int] == old(list)@[i as int]);
            self.visit_variant(state, &mut list[i]);
            i += 1;
            assert(old(list)@.take(i as int).drop_last() =~= old(list)@.take(i - 1));
            assert(list@.take(i as int).drop_last() =~= done);
        }
        assert(old(list)@.take(i as int) =~= old(list)@);
        assert(list@.take(i as int) =~= list@);
    }

    /// A visit that accepts nothing settles a list, and leaves it as it is where it was settled.
    pub(crate) proof fn quiet_visit_of_variants(
        self,
        from: S,
        before: Seq<Variant>,
        to: S,
        after: Seq<Variant>,
    )
        requires
            self.accepts_nothing(),
            self.visited_variants(from, before, to, after),
        ensures
            settled_variants(after),
            settled_variants(before) ==> same_variants(before, after),
        decreases before,
    {
        if before.len() > 0 {
            let mid = choose|mid: S|
                {
                    &&& #[trigger] between(mid)
                    &&& self.visited_variants(from, before.drop_last(), mid, after.drop_last())
                    &&& self.visited_variant(mid, before.last(), to, after.last())
                };
            self.quiet_visit_of_variants(from, before.drop_last(), mid, after.drop_last());
            self.quiet_visit_of_variant(mid, before.last(), to, after.last());
            assert forall|i: int| 0 <= i < after.len() implies (#[trigger] after[i]).settled() by {
                if i < after.len() - 1 {
                    assert(after[i] == after.drop_last()[i]);
                }
            }
            if settled_variants(before) {
                assert forall|i: int| 0 <= i < before.len() - 1 implies (
                    #[trigger] before.drop_last()[i]
                ).settled() by {
                    assert(before.drop_last()[i] == before[i]);
                }
                assert forall|i: int| 0 <= i < before.len() implies (#[trigger] before[i]).same(
                    after[i],
                ) by {
                    if i < before.len() - 1 {
                        assert(before.drop_last()[i].same(after.drop_last()[i]));
                    }
                }
            }
        }
    }

    /// The variants of an enum can be gone through.
    pub open spec fn can_visit_enum_def(self, node: EnumDef) -> bool
        decreases node,
    {
        self.can_visit_variants(node.variants@)
    }

    /// `after` is `before` with every expression in it visited in order.
    pub open spec fn visited_enum_def(self, from: S, before: EnumDef, to: S, after: EnumDef) -> bool
        decreases before,
    {
        self.visited_variants(from, before.variants@, to, after.variants@)
    }

    /// Goes through the variants of an enum.
    pub fn visit_enum_def(&self, state: &mut S, node: &mut EnumDef)
        requires
            self.can_visit_enum_def(*old(node)),
        ensures
            self.visited_enum_def(*old(state), *old(node), *final(state), *final(node)),
        decreases *old(node),
    {
        self.visit_variants(state, &mut node.variants);
    }

    /// A visit that accepts nothing settles the variants of an enum, and leaves it as it is where
    /// it was settled.
    pub(crate) proof fn quiet_visit_of_enum_def(
        self,
        from: S,
        before: EnumDef,
        to: S,
        after: EnumDef,
    )
        requires
            self.accepts_nothing(),
            self.visited_enum_def(from, before, to, after),
        ensures
            after.settled(),
            before.settled() ==> before.same(after),
        decreases before,
    {
        self.quiet_visit_of_variants(from, before.variants@, to, after.variants@);
    }

    /// A module can be gone through.
    pub open spec fn can_visit_mod(self, node: Mod) -> bool
        decreases node,
    {
        self.can_visit_items(node.items@)
    }

    /// `after` is `before` with every expression in it visited in order.
    pub open spec fn visited_mod(self, from: S, before: Mod, to: S, after: Mod) -> bool
        decreases before,
    {
        &&& self.visited_items(from, before.items@, to, after.items@)
        &&& before.inner == after.inner
        &&& before.inline == after.inline
    }

    /// Goes through a module.
    pub fn visit_mod(&self, state: &mut S, node: &mut Mod)
        requires
            self.can_visit_mod(*old(node)),
        ensures
            self.visited_mod(*old(state), *old(node), *final(state), *final(node)),
        decreases *old(node),
    {
        self.visit_items(state, &mut node.items);
    }

    /// A visit that accepts nothing settles a module, and leaves it as it is where it was settled.
    pub(crate) proof fn quiet_visit_of_mod(self, from: S, before: Mod, to: S, after: Mod)
        requires
            self.accepts_nothing(),
            self.visited_mod(from, before, to, after),
        ensures
            after.settled(),
            before.settled() ==> before.same(after),
        decreases before,
    {
        self.quiet_visit_of_items(from, before.items@, to, after.items@);
    }

    /// The form of a foreign item can be gone through.
    pub open spec fn can_visit_foreign_item_kind(self, node: ForeignItemKind) -> bool
        decreases node,
    {
        match node {
            ForeignItemKind::Fn(decl, generics) => {
                &&& self.can_visit_fn_decl(*decl)
                &&& self.can_visit_generics(generics)
            },
            ForeignItemKind::Static(ty, _) => self.can_visit_ty(*ty),
            ForeignItemKind::Macro(mac) => self.can_visit_mac(mac),
            _ => true,
        }
    }

    /// `after` is `before` with every expression in it visited in order.
    pub open spec fn visited_foreign_item_kind(
        self,
        from: S,
        before: ForeignItemKind,
        to: S,
        after: ForeignItemKind,
    ) -> bool
        decreases before,
    {
        match (before, after) {
            (ForeignItemKind::Fn(decl, generics), ForeignItemKind::Fn(decl2, generics2)) => {
                exists|mid: S|
                    {
                        &&& #[trigger] between(mid)
                        &&& self.visited_fn_decl(from, *decl, mid, *decl2)
                        &&& self.visited_generics(mid, generics, to, generics2)
                    }
            },
            (
                ForeignItemKind::Static(ty, mutability),
                ForeignItemKind::Static(ty2, mutability2),
            ) => {
                &&& self.visited_ty(from, *ty, to, *ty2)
                &&& mutability == mutability2
            },
            (ForeignItemKind::Macro(mac), ForeignItemKind::Macro(mac2)) => {
                self.visited_mac(from, mac, to, mac2)
            },
            _ => before == after && from == to,
        }
    }

    /// Goes through the form of a foreign item.
    pub fn visit_foreign_item_kind(&self, state: &mut S, node: &mut ForeignItemKind)
        requires
            self.can_visit_foreign_item_kind(*old(node)),
        ensures
            self.visited_foreign_item_kind(*old(state), *old(node), *final(state), *final(node)),
        decreases *old(node),
    {
        match node {
            ForeignItemKind::Fn(decl, generics) => {
                self.visit_fn_decl(state, decl);
                assert(between(*state));
                self.visit_generics(state, generics);
            },
            ForeignItemKind::Static(ty, _) => {
                self.visit_ty(state, ty);
            },
            ForeignItemKind::Macro(mac) => {
                self.visit_mac(state, mac);
            },
            _ => {},
        }
    }

    /// A visit that accepts nothing settles the form of a foreign item, and leaves it as it is
    /// where it was settled.
    pub(crate) proof fn quiet_visit_of_foreign_item_kind(
        self,
        from: S,
        before: ForeignItemKind,
        to: S,
        after: ForeignItemKind,
    )
        requires
            self.accepts_nothing(),
            self.visited_foreign_item_kind(from, before, to, after),
        ensures
            after.settled(),
            before.settled() ==> before.same(after),
        decreases before,
    {
        match (before, after) {
            (ForeignItemKind::Fn(decl, generics), ForeignItemKind::Fn(decl2, generics2)) => {
                let mid = choose|mid: S|
                    {
                        &&& #[trigger] between(mid)
                        &&& self.visited_fn_decl(from, *decl, mid, *decl2)
                        &&& self.visited_generics(mid, generics, to, generics2)
                    };
                self.quiet_visit_of_fn_decl(from, *decl, mid, *decl2);
                self.quiet_visit_of_generics(mid, generics, to, generics2);
            },
            (ForeignItemKind::Static(ty, _), ForeignItemKind::Static(ty2, _)) => {
                self.quiet_visit_of_ty(from, *ty, to, *ty2);
            },
            (ForeignItemKind::Macro(mac), ForeignItemKind::Macro(mac2)) => {
                self.quiet_visit_of_mac(from, mac, to, mac2);
            },
            _ => {
                before.same_as_itself();
            },
        }
    }

    /// A foreign item can be gone through.
    pub open spec fn can_visit_foreign_item(self, node: ForeignItem) -> bool
        decreases node,
    {
        self.can_visit_foreign_item_kind(node.kind)
    }

    /// `after` is `before` with every expression in it visited in order.
    pub open spec fn visited_foreign_item(
        self,
        from: S,
        before: ForeignItem,
        to: S,
        after: ForeignItem,
    ) -> bool
        decreases before,
    {
        &&& self.visited_foreign_item_kind(from, before.kind, to, after.kind)
        &&& before.ident == after.ident
        &&& before.attrs == after.attrs
        &&& before.id == after.id
        &&& before.span == after.span
        &&& before.vis == after.vis
    }

    /// Goes through a foreign item.
    pub fn visit_foreign_item(&self, state: &mut S, node: &mut ForeignItem)
        requires
            self.can_visit_foreign_item(*old(node)),
        ensures
            self.visited_foreign_item(*old(state), *old(node), *final(state), *final(node)),
        decreases *old(node),
    {
        self.visit_foreign_item_kind(state, &mut node.kind);
    }

    /// A visit that accepts nothing settles a foreign item, and leaves it as it is where it was
    /// settled.
    pub(crate) proof fn quiet_visit_of_foreign_item(
        self,
        from: S,
        before: ForeignItem,
        to: S,
        after: ForeignItem,
    )
        requires
            self.accepts_nothing(),
            self.visited_foreign_item(from, before, to, after),
        ensures
            after.settled(),
            before.settled() ==> before.same(after),
        decreases before,
    {
        self.quiet_visit_of_foreign_item_kind(from, before.kind, to, after.kind);
        before.ident.same_as_itself();
        attributes_same_as_themselves(before.attrs@);
        before.vis.node.same_as_itself();
    }

    /// A list of foreign items can be gone through.
    pub open spec fn can_visit_foreign_items(self, list: Seq<ForeignItem>) -> bool
        decreases list,
    {
        forall|i: int| 0 <= i < list.len() ==> self.can_visit_foreign_item(#[trigger] list[i])
    }

    /// `after` is `before` with every expression in it visited in order.
    pub open spec fn visited_foreign_items(
        self,
        from: S,
        before: Seq<ForeignItem>,
        to: S,
        after: Seq<ForeignItem>,
    ) -> bool
        decreases before,
    {
        &&& before.len() == after.len()
        &&& if before.len() == 0 {
            from == to
        } else {
            exists|mid: S|
                {
                    &&& #[trigger] between(mid)
                    &&& self.visited_foreign_items(from, before.drop_last(), mid, after.drop_last())
                    &&& self.visited_foreign_item(mid, before.last(), to, after.last())
                }
        }
    }

    /// Goes through a list of foreign items.
    pub fn visit_foreign_items(&self, state: &mut S, list: &mut Vec<ForeignItem>)
        requires
            self.can_visit_foreign_items(old(list)@),
        ensures
            self.visited_foreign_items(*old(state), old(list)@, *final(state), final(list)@),
        decreases *old(list),
    {
        let ghost from = *state;
        let mut i: usize = 0;
        while i < list.len()
            invariant
                i <= list@.len(),
                list@.len() == old(list)@.len(),
                self.can_visit_foreign_items(old(list)@),
                self.visited_foreign_items(
                    from,
                    old(list)@.take(i as int),
                    *state,
                    list@.take(i as int),
                ),
                forall|j: int| i <= j < list@.len() ==> list@[j] == old(list)@[j],
            decreases list@.len() - i,
        {
            let ghost done = list@.take(i as int);
            assert(between(*state));
            assert(list@[i as int] == old(list)@[i as int]);
            self.visit_foreign_item(state, &mut list[i]);
            i += 1;
            assert(old(list)@.take(i as int).drop_last() =~= old(list)@.take(i - 1));
            assert(list@.take(i as int).drop_last() =~= done);
        }
        assert(old(list)@.take(i as int) =~= old(list)@);
        assert(list@.take(i as int) =~= list@);
    }

    /// A visit that accepts nothing settles a list, and leaves it as it is where it was settled.
    pub(crate) proof fn quiet_visit_of_foreign_items(
        self,
        from: S,
        before: Seq<ForeignItem>,
        to: S,
        after: Seq<ForeignItem>,
    )
        requires
            self.accepts_nothing(),
            self.visited_foreign_items(from, before, to, after),
        ensures
            settled_foreign_items(after),
            settled_foreign_items(before) ==> same_foreign_items(before, after),
        decreases before,
    {
        if before.len() > 0 {
            let mid = choose|mid: S|
                {
                    &&& #[trigger] between(mid)
                    &&& self.visited_foreign_items(from, before.drop_last(), mid, after.drop_last())
                    &&& self.visited_foreign_item(mid, before.last(), to, after.last())
                };
            self.quiet_visit_of_foreign_items(from, before.drop_last(), mid, after.drop_last());
            self.quiet_visit_of_foreign_item(mid, before.last(), to, after.last());
            assert forall|i: int| 0 <= i < after.len() implies (#[trigger] after[i]).settled() by {
                if i < after.len() - 1 {
                    assert(after[i] == after.drop_last()[i]);
                }
            }
            if settled_foreign_items(before) {
                assert forall|i: int| 0 <= i < before.len() - 1 implies (
                    #[trigger] before.drop_last()[i]
                ).settled() by {
                    assert(before.drop_last()[i] == before[i]);
                }
                assert forall|i: int| 0 <= i < before.len() implies (#[trigger] before[i]).same(
                    after[i],
                ) by {
                    if i < before.len() - 1 {
                        assert(before.drop_last()[i].same(after.drop_last()[i]));
                    }
                }
            }
        }
    }

    /// A block of foreign items can be gone through.
    pub open spec fn can_visit_foreign_mod(self, node: ForeignMod) -> bool
        decreases node,
    {
        self.can_visit_foreign_items(node.items@)
    }

    /// `after` is `before` with every expression in it visited in order.
    pub open spec fn visited_foreign_mod(
        self,
        from: S,
        before: ForeignMod,
        to: S,
        after: ForeignMod,
    ) -> bool
        decreases before,
    {
        &&& self.visited_foreign_items(from, before.items@, to, after.items@)
        &&& before.abi == after.abi
    }

    /// Goes through a block of foreign items.
    pub fn visit_foreign_mod(&self, state: &mut S, node: &mut ForeignMod)
        requires
            self.can_visit_foreign_mod(*old(node)),
        ensures
            self.visited_foreign_mod(*old(state), *old(node), *final(state), *final(node)),
        decreases *old(node),
    {
        self.visit_foreign_items(state, &mut node.items);
    }

    /// A visit that accepts nothing settles a block of foreign items, and leaves it as it is where
    /// it was settled.
    pub(crate) proof fn quiet_visit_of_foreign_mod(
        self,
        from: S,
        before: ForeignMod,
        to: S,
        after: ForeignMod,
    )
        requires
            self.accepts_nothing(),
            self.visited_foreign_mod(from, before, to, after),
        ensures
            after.settled(),
            before.settled() ==> before.same(after),
        decreases before,
    {
        self.quiet_visit_of_foreign_items(from, before.items@, to, after.items@);
    }

    /// The form of a trait item can be gone through.
    pub open spec fn can_visit_trait_item_kind(self, node: TraitItemKind) -> bool
        decreases node,
    {
        match node {
            TraitItemKind::Const(ty, expr) => {
                &&& self.can_visit_ty(*ty)
                &&& match expr {
                    Some(x) => self.can_visit_expr(*x),
                    None => true,
                }
            },
            TraitItemKind::Method(sig, block) => {
                &&& self.can_visit_method_sig(sig)
                &&& match block {
                    Some(x) => self.can_visit_block(*x),
                    None => true,
                }
            },
            TraitItemKind::Type(bounds, ty) => {
                &&& self.can_visit_bounds(bounds@)
                &&& match ty {
                    Some(x) => self.can_visit_ty(*x),
                    None => true,
                }
            },
            TraitItemKind::Macro(mac) => self.can_visit_mac(mac),
        }
    }

    /// `after` is `before` with every expression in it visited in order.
    pub open spec fn visited_trait_item_kind(
        self,
        from: S,
        before: TraitItemKind,
        to: S,
        after: TraitItemKind,
    ) -> bool
        decreases before,
    {
        match (before, after) {
            (TraitItemKind::Const(ty, expr), TraitItemKind::Const(ty2, expr2)) => {
                exists|mid: S|
                    {
                        &&& #[trigger] between(mid)
                        &&& self.visited_ty(from, *ty, mid, *ty2)
                        &&& self.visited_optional_expr(mid, expr, to, expr2)
                    }
            },
            (TraitItemKind::Method(sig, block), TraitItemKind::Method(sig2, block2)) => {
                exists|mid: S|
                    {
                        &&& #[trigger] between(mid)
                        &&& self.visited_method_sig(from, sig, mid, sig2)
                        &&& self.visited_optional_block(mid, block, to, block2)
                    }
            },
            (TraitItemKind::Type(bounds, ty), TraitItemKind::Type(bounds2, ty2)) => {
                exists|mid: S|
                    {
                        &&& #[trigger] between(mid)
                        &&& self.visited_bounds(from, bounds@, mid, bounds2@)
                        &&& self.visited_optional_ty(mid, ty, to, ty2)
                    }
            },
            (TraitItemKind::Macro(mac), TraitItemKind::Macro(mac2)) => {
                self.visited_mac(from, mac, to, mac2)
            },
            _ => before == after && from == to,
        }
    }

    /// Goes through the form of a trait item.
    pub fn visit_trait_item_kind(&self, state: &mut S, node: &mut TraitItemKind)
        requires
            self.can_visit_trait_item_kind(*old(node)),
        ensures
            self.visited_trait_item_kind(*old(state), *old(node), *final(state), *final(node)),
        decreases *old(node),
    {
        match node {
            TraitItemKind::Const(ty, expr) => {
                self.visit_ty(state, ty);
                assert(between(*state));
                self.visit_optional_expr(state, expr);
            },
            TraitItemKind::Method(sig, block) => {
                self.visit_method_sig(state, sig);
                assert(between(*state));
                self.visit_optional_block(state, block);
            },
            TraitItemKind::Type(bounds, ty) => {
                self.visit_bounds(state, bounds);
                assert(between(*state));
                self.visit_optional_ty(state, ty);
            },
            TraitItemKind::Macro(mac) => {
                self.visit_mac(state, mac);
            },
        }
    }

    /// A visit that accepts nothing settles the form of a trait item, and leaves it as it is where
    /// it was settled.
    pub(crate) proof fn quiet_visit_of_trait_item_kind(
        self,
        from: S,
        before: TraitItemKind,
        to: S,
        after: TraitItemKind,
    )
        requires
            self.accepts_nothing(),
            self.visited_trait_item_kind(from, before, to, after),
        ensures
            after.settled(),
            before.settled() ==> before.same(after),
        decreases before,
    {
        match (before, after) {
            (TraitItemKind::Const(ty, expr), TraitItemKind::Const(ty2, expr2)) => {
                let mid = choose|mid: S|
                    {
                        &&& #[trigger] between(mid)
                        &&& self.visited_ty(from, *ty, mid, *ty2)
                        &&& self.visited_optional_expr(mid, expr, to, expr2)
                    };
                self.quiet_visit_of_ty(from, *ty, mid, *ty2);
                self.quiet_visit_of_optional_expr(mid, expr, to, expr2);
            },
            (TraitItemKind::Method(sig, block), TraitItemKind::Method(sig2, block2)) => {
                let mid = choose|mid: S|
                    {
                        &&& #[trigger] between(mid)
                        &&& self.visited_method_sig(from, sig, mid, sig2)
                        &&& self.visited_optional_block(mid, block, to, block2)
                    };
                self.quiet_visit_of_method_sig(from, sig, mid, sig2);
                self.quiet_visit_of_optional_block(mid, block, to, block2);
            },
            (TraitItemKind::Type(bounds, ty), TraitItemKind::Type(bounds2, ty2)) => {
                let mid = choose|mid: S|
                    {
                        &&& #[trigger] between(mid)
                        &&& self.visited_bounds(from, bounds@, mid, bounds2@)
                        &&& self.visited_optional_ty(mid, ty, to, ty2)
                    };
                self.quiet_visit_of_bounds(from, bounds@, mid, bounds2@);
                self.quiet_visit_of_optional_ty(mid, ty, to, ty2);
            },
            (TraitItemKind::Macro(mac), TraitItemKind::Macro(mac2)) => {
                self.quiet_visit_of_mac(from, mac, to, mac2);
            },
            _ => {},
        }
    }

    /// A trait item can be gone through.
    pub open spec fn can_visit_trait_item(self, node: TraitItem) -> bool
        decreases node,
    {
        &&& self.can_visit_generics(node.generics)
        &&& self.can_visit_trait_item_kind(node.kind)
    }

    /// `after` is `before` with every expression in it visited in order.
    pub open spec fn visited_trait_item(
        self,
        from: S,
        before: TraitItem,
        to: S,
        after: TraitItem,
    ) -> bool
        decreases before,
    {
        &&& exists|mid: S|
            {
                &&& #[trigger] between(mid)
                &&& self.visited_generics(from, before.generics, mid, after.generics)
                &&& self.visited_trait_item_kind(mid, before.kind, to, after.kind)
            }
        &&& before.id == after.id
        &&& before.ident == after.ident
        &&& before.attrs == after.attrs
        &&& before.span == after.span
        &&& before.tokens == after.tokens
    }

    /// Goes through a trait item.
    pub fn visit_trait_item(&self, state: &mut S, node: &mut TraitItem)
        requires
            self.can_visit_trait_item(*old(node)),
        ensures
            self.visited_trait_item(*old(state), *old(node), *final(state), *final(node)),
        decreases *old(node),
    {
        self.visit_generics(state, &mut node.generics);
        assert(between(*state));
        self.visit_trait_item_kind(state, &mut node.kind);
    }

    /// A visit that accepts nothing settles a trait item, and leaves it as it is where it was
    /// settled.
    pub(crate) proof fn quiet_visit_of_trait_item(
        self,
        from: S,
        before: TraitItem,
        to: S,
        after: TraitItem,
    )
        requires
            self.accepts_nothing(),
            self.visited_trait_item(from, before, to, after),
        ensures
            after.settled(),
            before.settled() ==> before.same(after),
        decreases before,
    {
        let mid = choose|mid: S|
            {
                &&& #[trigger] between(mid)
                &&& self.visited_generics(from, before.generics, mid, after.generics)
                &&& self.visited_trait_item_kind(mid, before.kind, to, after.kind)
            };
        self.quiet_visit_of_generics(from, before.generics, mid, after.generics);
        self.quiet_visit_of_trait_item_kind(mid, before.kind, to, after.kind);
        before.ident.same_as_itself();
        attributes_same_as_themselves(before.attrs@);
    }

    /// A list of trait items can be gone through.
    pub open spec fn can_visit_trait_items(self, list: Seq<TraitItem>) -> bool
        decreases list,
    {
        forall|i: int| 0 <= i < list.len() ==> self.can_visit_trait_item(#[trigger] list[i])
    }

    /// `after` is `before` with every expression in it visited in order.
    pub open spec fn visited_trait_items(
        self,
        from: S,
        before: Seq<TraitItem>,
        to: S,
        after: Seq<TraitItem>,
    ) -> bool
        decreases before,
    {
        &&& before.len() == after.len()
        &&& if before.len() == 0 {
            from == to
        } else {
            exists|mid: S|
                {
                    &&& #[trigger] between(mid)
                    &&& self.visited_trait_items(from, before.drop_last(), mid, after.drop_last())
                    &&& self.visited_trait_item(mid, before.last(), to, after.last())
                }
        }
    }

    /// Goes through a list of trait items.
    pub fn visit_trait_items(&self, state: &mut S, list: &mut Vec<TraitItem>)
        requires
            self.can_visit_trait_items(old(list)@),
        ensures
            self.visited_trait_items(*old(state), old(list)@, *final(state), final(list)@),
        decreases *old(list),
    {
        let ghost from = *state;
        let mut i: usize = 0;
        while i < list.len()
            invariant
                i <= list@.len(),
                list@.len() == old(list)@.len(),
                self.can_visit_trait_items(old(list)@),
                self.visited_trait_items(
                    from,
                    old(list)@.take(i as int),
                    *state,
                    list@.take(i as int),
                ),
                forall|j: int| i <= j < list@.len() ==> list@[j] == old(list)@[j],
            decreases list@.len() - i,
        {
            let ghost done = list@.take(i as int);
            assert(between(*state));
            assert(list@[i as int] == old(list)@[i as int]);
            self.visit_trait_item(state, &mut list[i]);
            i += 1;
            assert(old(list)@.take(i as int).drop_last() =~= old(list)@.take(i - 1));
            assert(list@.take(i as int).drop_last() =~= done);
        }
        assert(old(list)@.take(i as int) =~= old(list)@);
        assert(list@.take(i as int) =~= list@);
    }

    /// A visit that accepts nothing settles a list, and leaves it as it is where it was settled.
    pub(crate) proof fn quiet_visit_of_trait_items(
        self,
        from: S,
        before: Seq<TraitItem>,
        to: S,
        after: Seq<TraitItem>,
    )
        requires
            self.accepts_nothing(),
            self.visited_trait_items(from, before, to, after),
        ensures
            settled_trait_items(after),
            settled_trait_items(before) ==> same_trait_items(before, after),
        decreases before,
    {
        if before.len() > 0 {
            let mid = choose|mid: S|
                {
                    &&& #[trigger] between(mid)
                    &&& self.visited_trait_items(from, before.drop_last(), mid, after.drop_last())
                    &&& self.visited_trait_item(mid, before.last(), to, after.last())
                };
            self.quiet_visit_of_trait_items(from, before.drop_last(), mid, after.drop_last());
            self.quiet_visit_of_trait_item(mid, before.last(), to, after.last());
            assert forall|i: int| 0 <= i < after.len() implies (#[trigger] after[i]).settled() by {
                if i < after.len() - 1 {
                    assert(after[i] == after.drop_last()[i]);
                }
            }
            if settled_trait_items(before) {
                assert forall|i: int| 0 <= i < before.len() - 1 implies (
                    #[trigger] before.drop_last()[i]
                ).settled() by {
                    assert(before.drop_last()[i] == before[i]);
                }
                assert forall|i: int| 0 <= i < before.len() implies (#[trigger] before[i]).same(
                    after[i],
                ) by {
                    if i < before.len() - 1 {
                        assert(before.drop_last()[i].same(after.drop_last()[i]));
                    }
                }
            }
        }
    }

    /// The form of an impl item can be gone through.
    pub open spec fn can_visit_impl_item_kind(self, node: ImplItemKind) -> bool
        decreases node,
    {
        match node {
            ImplItemKind::Const(ty, expr) => {
                &&& self.can_visit_ty(*ty)
                &&& self.can_visit_expr(*expr)
            },
            ImplItemKind::Method(sig, block) => {
                &&& self.can_visit_method_sig(sig)
                &&& self.can_visit_block(*block)
            },
            ImplItemKind::TyAlias(ty) => self.can_visit_ty(*ty),
            ImplItemKind::OpaqueTy(bounds) => self.can_visit_bounds(bounds@),
            ImplItemKind::Macro(mac) => self.can_visit_mac(mac),
        }
    }

    /// `after` is `before` with every expression in it visited in order.
    pub open spec fn visited_impl_item_kind(
        self,
        from: S,
        before: ImplItemKind,
        to: S,
        after: ImplItemKind,
    ) -> bool
        decreases before,
    {
        match (before, after) {
            (ImplItemKind::Const(ty, expr), ImplItemKind::Const(ty2, expr2)) => {
                exists|mid: S|
                    {
                        &&& #[trigger] between(mid)
                        &&& self.visited_ty(from, *ty, mid, *ty2)
                        &&& self.visited_expr(mid, *expr, to, *expr2)
                    }
            },
            (ImplItemKind::Method(sig, block), ImplItemKind::Method(sig2, block2)) => {
                exists|mid: S|
                    {
                        &&& #[trigger] between(mid)
                        &&& self.visited_method_sig(from, sig, mid, sig2)
                        &&& self.visited_block(mid, *block, to, *block2)
                    }
            },
            (ImplItemKind::TyAlias(ty), ImplItemKind::TyAlias(ty2)) => {
                self.visited_ty(from, *ty, to, *ty2)
            },
            (ImplItemKind::OpaqueTy(bounds), ImplItemKind::OpaqueTy(bounds2)) => {
                self.visited_bounds(from, bounds@, to, bounds2@)
            },
            (ImplItemKind::Macro(mac), ImplItemKind::Macro(mac2)) => {
                self.visited_mac(from, mac, to, mac2)
            },
            _ => before == after && from == to,
        }
    }

    /// Goes through the form of an impl item.
    pub fn visit_impl_item_kind(&self, state: &mut S, node: &mut ImplItemKind)
        requires
            self.can_visit_impl_item_kind(*old(node)),
        ensures
            self.visited_impl_item_kind(*old(state), *old(node), *final(state), *final(node)),
        decreases *old(node),
    {
        match node {
            ImplItemKind::Const(ty, expr) => {
                self.visit_ty(state, ty);
                assert(between(*state));
                self.visit_expr(state, expr);
            },
            ImplItemKind::Method(sig, block) => {
                self.visit_method_sig(state, sig);
                assert(between(*state));
                self.visit_block(state, block);
            },
            ImplItemKind::TyAlias(ty) => {
                self.visit_ty(state, ty);
            },
            ImplItemKind::OpaqueTy(bounds) => {
                self.visit_bounds(state, bounds);
            },
            ImplItemKind::Macro(mac) => {
                self.visit_mac(state, mac);
            },
        }
    }

    /// A visit that accepts nothing settles the form of an impl item, and leaves it as it is where
    /// it was settled.
    pub(crate) proof fn quiet_visit_of_impl_item_kind(
        self,
        from: S,
        before: ImplItemKind,
        to: S,
        after: ImplItemKind,
    )
        requires
            self.accepts_nothing(),
            self.visited_impl_item_kind(from, before, to, after),
        ensures
            after.settled(),
            before.settled() ==> before.same(after),
        decreases before,
    {
        match (before, after) {
            (ImplItemKind::Const(ty, expr), ImplItemKind::Const(ty2, expr2)) => {
                let mid = choose|mid: S|
                    {
                        &&& #[trigger] between(mid)
                        &&& self.visited_ty(from, *ty, mid, *ty2)
                        &&& self.visited_expr(mid, *expr, to, *expr2)
                    };
                self.quiet_visit_of_ty(from, *ty, mid, *ty2);
                self.quiet_visit_of_expr(mid, *expr, to, *expr2);
            },
            (ImplItemKind::Method(sig, block), ImplItemKind::Method(sig2, block2)) => {
                let mid = choose|mid: S|
                    {
                        &&& #[trigger] between(mid)
                        &&& self.visited_method_sig(from, sig, mid, sig2)
                        &&& self.visited_block(mid, *block, to, *block2)
                    };
                self.quiet_visit_of_method_sig(from, sig, mid, sig2);
                self.quiet_visit_of_block(mid, *block, to, *block2);
            },
            (ImplItemKind::TyAlias(ty), ImplItemKind::TyAlias(ty2)) => {
                self.quiet_visit_of_ty(from, *ty, to, *ty2);
            },
            (ImplItemKind::OpaqueTy(bounds), ImplItemKind::OpaqueTy(bounds2)) => {
                self.quiet_visit_of_bounds(from, bounds@, to, bounds2@);
            },
            (ImplItemKind::Macro(mac), ImplItemKind::Macro(mac2)) => {
                self.quiet_visit_of_mac(from, mac, to, mac2);
            },
            _ => {},
        }
    }

    /// An impl item can be gone through.
    pub open spec fn can_visit_impl_item(self, node: ImplItem) -> bool
        decreases node,
    {
        &&& self.can_visit_generics(node.generics)
        &&& self.can_visit_impl_item_kind(node.kind)
    }

    /// `after` is `before` with every expression in it visited in order.
    pub open spec fn visited_impl_item(
        self,
        from: S,
        before: ImplItem,
        to: S,
        after: ImplItem,
    ) -> bool
        decreases before,
    {
        &&& exists|mid: S|
            {
                &&& #[trigger] between(mid)
                &&& self.visited_generics(from, before.generics, mid, after.generics)
                &&& self.visited_impl_item_kind(mid, before.kind, to, after.kind)
            }
        &&& before.id == after.id
        &&& before.ident == after.ident
        &&& before.vis == after.vis
        &&& before.defaultness == after.defaultness
        &&& before.attrs == after.attrs
        &&& before.span == after.span
        &&& before.tokens == after.tokens
    }

    /// Goes through an impl item.
    pub fn visit_impl_item(&self, state: &mut S, node: &mut ImplItem)
        requires
            self.can_visit_impl_item(*old(node)),
        ensures
            self.visited_impl_item(*old(state), *old(node), *final(state), *final(node)),
        decreases *old(node),
    {
        self.visit_generics(state, &mut node.generics);
        assert(between(*state));
        self.visit_impl_item_kind(state, &mut node.kind);
    }

    /// A visit that accepts nothing settles an impl item, and leaves it as it is where it was
    /// settled.
    pub(crate) proof fn quiet_visit_of_impl_item(
        self,
        from: S,
        before: ImplItem,
        to: S,
        after: ImplItem,
    )
        requires
            self.accepts_nothing(),
            self.visited_impl_item(from, before, to, after),
        ensures
            after.settled(),
            before.settled() ==> before.same(after),
        decreases before,
    {
        let mid = choose|mid: S|
            {
                &&& #[trigger] between(mid)
                &&& self.visited_generics(from, before.generics, mid, after.generics)
                &&& self.visited_impl_item_kind(mid, before.kind, to, after.kind)
            };
        self.quiet_visit_of_generics(from, before.generics, mid, after.generics);
        self.quiet_visit_of_impl_item_kind(mid, before.kind, to, after.kind);
        before.ident.same_as_itself();
        before.vis.node.same_as_itself();
        attributes_same_as_themselves(before.attrs@);
    }

    /// A list of impl items can be gone through.
    pub open spec fn can_visit_impl_items(self, list: Seq<ImplItem>) -> bool
        decreases list,
    {
        forall|i: int| 0 <= i < list.len() ==> self.can_visit_impl_item(#[trigger] list[i])
    }

    /// `after` is `before` with every expression in it visited in order.
    pub open spec fn visited_impl_items(
        self,
        from: S,
        before: Seq<ImplItem>,
        to: S,
        after: Seq<ImplItem>,
    ) -> bool
        decreases before,
    {
        &&& before.len() == after.len()
        &&& if before.len() == 0 {
            from == to
        } else {
            exists|mid: S|
                {
                    &&& #[trigger] between(mid)
                    &&& self.visited_impl_items(from, before.drop_last(), mid, after.drop_last())
                    &&& self.visited_impl_item(mid, before.last(), to, after.last())
                }
        }
    }

    /// Goes through a list of impl items.
    pub fn visit_impl_items(&self, state: &mut S, list: &mut Vec<ImplItem>)
        requires
            self.can_visit_impl_items(old(list)@),
        ensures
            self.visited_impl_items(*old(state), old(list)@, *final(state), final(list)@),
        decreases *old(list),
    {
        let ghost from = *state;
        let mut i: usize = 0;
        while i < list.len()
            invariant
                i <= list@.len(),
                list@.len() == old(list)@.len(),
                self.can_visit_impl_items(old(list)@),
                self.visited_impl_items(
                    from,
                    old(list)@.take(i as int),
                    *state,
                    list@.take(i as int),
                ),
                forall|j: int| i <= j < list@.len() ==> list@[j] == old(list)@[j],
            decreases list@.len() - i,
        {
            let ghost done = list@.take(i as int);
            assert(between(*state));
            assert(list@[i as int] == old(list)@[i as int]);
            self.visit_impl_item(state, &mut list[i]);
            i += 1;
            assert(old(list)@.take(i as int).drop_last() =~= old(list)@.take(i - 1));
            assert(list@.take(i as int).drop_last() =~= done);
        }
        assert(old(list)@.take(i as int) =~= old(list)@);
        assert(list@.take(i as int) =~= list@);
    }

    /// A visit that accepts nothing settles a list, and leaves it as it is where it was settled.
    pub(crate) proof fn quiet_visit_of_impl_items(
        self,
        from: S,
        before: Seq<ImplItem>,
        to: S,
        after: Seq<ImplItem>,
    )
        requires
            self.accepts_nothing(),
            self.visited_impl_items(from, before, to, after),
        ensures
            settled_impl_items(after),
            settled_impl_items(before) ==> same_impl_items(before, after),
        decreases before,
    {
        if before.len() > 0 {
            let mid = choose|mid: S|
                {
                    &&& #[trigger] between(mid)
                    &&& self.visited_impl_items(from, before.drop_last(), mid, after.drop_last())
                    &&& self.visited_impl_item(mid, before.last(), to, after.last())
                };
            self.quiet_visit_of_impl_items(from, before.drop_last(), mid, after.drop_last());
            self.quiet_visit_of_impl_item(mid, before.last(), to, after.last());
            assert forall|i: int| 0 <= i < after.len() implies (#[trigger] after[i]).settled() by {
                if i < after.len() - 1 {
                    assert(after[i] == after.drop_last()[i]);
                }
            }
            if settled_impl_items(before) {
                assert forall|i: int| 0 <= i < before.len() - 1 implies (
                    #[trigger] before.drop_last()[i]
                ).settled() by {
                    assert(before.drop_last()[i] == before[i]);
                }
                assert forall|i: int| 0 <= i < before.len() implies (#[trigger] before[i]).same(
                    after[i],
                ) by {
                    if i < before.len() - 1 {
                        assert(before.drop_last()[i].same(after.drop_last()[i]));
                    }
                }
            }
        }
    }

    /// The form of an item can be gone through.
    pub open spec fn can_visit_item_kind(self, node: ItemKind) -> bool
        decreases node,
    {
        match node {
            ItemKind::Static(ty, _, expr) => {
                &&& self.can_visit_ty(*ty)
                &&& self.can_visit_expr(*expr)
            },
            ItemKind::Const(ty, expr) => {
                &&& self.can_visit_ty(*ty)
                &&& self.can_visit_expr(*expr)
            },
            ItemKind::Fn(decl, _, generics, block) => {
                &&& self.can_visit_fn_decl(*decl)
                &&& self.can_visit_generics(generics)
                &&& self.can_visit_block(*block)
            },
            ItemKind::Mod(module) => self.can_visit_mod(module),
            ItemKind::ForeignMod(foreign_mod) => self.can_visit_foreign_mod(foreign_mod),
            ItemKind::TyAlias(ty, generics) => {
                &&& self.can_visit_ty(*ty)
                &&& self.can_visit_generics(generics)
            },
            ItemKind::OpaqueTy(bounds, generics) => {
                &&& self.can_visit_bounds(bounds@)
                &&& self.can_visit_generics(generics)
            },
            ItemKind::Enum(definition, generics) => {
                &&& self.can_visit_enum_def(definition)
                &&& self.can_visit_generics(generics)
            },
            ItemKind::Struct(data, generics) => {
                &&& self.can_visit_variant_data(data)
                &&& self.can_visit_generics(generics)
            },
            ItemKind::Union(data, generics) => {
                &&& self.can_visit_variant_data(data)
                &&& self.can_visit_generics(generics)
            },
            ItemKind::Trait(_, _, generics, bounds, items) => {
                &&& self.can_visit_generics(generics)
                &&& self.can_visit_bounds(bounds@)
                &&& self.can_visit_trait_items(items@)
            },
            ItemKind::TraitAlias(generics, bounds) => {
                &&& self.can_visit_generics(generics)
                &&& self.can_visit_bounds(bounds@)
            },
            ItemKind::Impl(_, _, _, generics, trait_ref, ty, items) => {
                &&& self.can_visit_generics(generics)
                &&& match trait_ref {
                    Some(x) => self.can_visit_trait_ref(x),
                    None => true,
                }
                &&& self.can_visit_ty(*ty)
                &&& self.can_visit_impl_items(items@)
            },
            ItemKind::Mac(mac) => self.can_visit_mac(mac),
            _ => true,
        }
    }

    /// `after` is `before` with every expression in it visited in order.
    pub open spec fn visited_item_kind(
        self,
        from: S,
        before: ItemKind,
        to: S,
        after: ItemKind,
    ) -> bool
        decreases before,
    {
        match (before, after) {
            (
                ItemKind::Static(ty, mutability, expr),
                ItemKind::Static(ty2, mutability2, expr2),
            ) => {
                &&& exists|mid: S|
                    {
                        &&& #[trigger] between(mid)
                        &&& self.visited_ty(from, *ty, mid, *ty2)
                        &&& self.visited_expr(mid, *expr, to, *expr2)
                    }
                &&& mutability == mutability2
            },
            (ItemKind::Const(ty, expr), ItemKind::Const(ty2, expr2)) => {
                exists|mid: S|
                    {
                        &&& #[trigger] between(mid)
                        &&& self.visited_ty(from, *ty, mid, *ty2)
                        &&& self.visited_expr(mid, *expr, to, *expr2)
                    }
            },
            (
                ItemKind::Fn(decl, header, generics, block),
                ItemKind::Fn(decl2, header2, generics2, block2),
            ) => {
                &&& exists|first_mid: S, second_mid: S|
                    {
                        &&& #[trigger] between(first_mid)
                        &&& #[trigger] between(second_mid)
                        &&& self.visited_fn_decl(from, *decl, first_mid, *decl2)
                        &&& self.visited_generics(first_mid, generics, second_mid, generics2)
                        &&& self.visited_block(second_mid, *block, to, *block2)
                    }
                &&& header == header2
            },
            (ItemKind::Mod(module), ItemKind::Mod(module2)) => {
                self.visited_mod(from, module, to, module2)
            },
            (ItemKind::ForeignMod(foreign_mod), ItemKind::ForeignMod(foreign_mod2)) => {
                self.visited_foreign_mod(from, foreign_mod, to, foreign_mod2)
            },
            (ItemKind::TyAlias(ty, generics), ItemKind::TyAlias(ty2, generics2)) => {
                exists|mid: S|
                    {
                        &&& #[trigger] between(mid)
                        &&& self.visited_ty(from, *ty, mid, *ty2)
                        &&& self.visited_generics(mid, generics, to, generics2)
                    }
            },
            (ItemKind::OpaqueTy(bounds, generics), ItemKind::OpaqueTy(bounds2, generics2)) => {
                exists|mid: S|
                    {
                        &&& #[trigger] between(mid)
                        &&& self.visited_bounds(from, bounds@, mid, bounds2@)
                        &&& self.visited_generics(mid, generics, to, generics2)
                    }
            },
            (ItemKind::Enum(definition, generics), ItemKind::Enum(definition2, generics2)) => {
                exists|mid: S|
                    {
                        &&& #[trigger] between(mid)
                        &&& self.visited_enum_def(from, definition, mid, definition2)
                        &&& self.visited_generics(mid, generics, to, generics2)
                    }
            },
            (ItemKind::Struct(data, generics), ItemKind::Struct(data2, generics2)) => {
                exists|mid: S|
                    {
                        &&& #[trigger] between(mid)
                        &&& self.visited_variant_data(from, data, mid, data2)
                        &&& self.visited_generics(mid, generics, to, generics2)
                    }
            },
            (ItemKind::Union(data, generics), ItemKind::Union(data2, generics2)) => {
                exists|mid: S|
                    {
                        &&& #[trigger] between(mid)
                        &&& self.visited_variant_data(from, data, mid, data2)
                        &&& self.visited_generics(mid, generics, to, generics2)
                    }
            },
            (
                ItemKind::Trait(auto, unsafety, generics, bounds, items),
                ItemKind::Trait(auto2, unsafety2, generics2, bounds2, items2),
            ) => {
                &&& exists|first_mid: S, second_mid: S|
                    {
                        &&& #[trigger] between(first_mid)
                        &&& #[trigger] between(second_mid)
                        &&& self.visited_generics(from, generics, first_mid, generics2)
                        &&& self.visited_bounds(first_mid, bounds@, second_mid, bounds2@)
                        &&& self.visited_trait_items(second_mid, items@, to, items2@)
                    }
                &&& auto == auto2
                &&& unsafety == unsafety2
            },
            (
                ItemKind::TraitAlias(generics, bounds),
                ItemKind::TraitAlias(generics2, bounds2),
            ) => {
                exists|mid: S|
                    {
                        &&& #[trigger] between(mid)
                        &&& self.visited_generics(from, generics, mid, generics2)
                        &&& self.visited_bounds(mid, bounds@, to, bounds2@)
                    }
            },
            (
                ItemKind::Impl(unsafety, polarity, defaultness, generics, trait_ref, ty, items),
                ItemKind::Impl(
                    unsafety2,
                    polarity2,
                    defaultness2,
                    generics2,
                    trait_ref2,
                    ty2,
                    items2,
                ),
            ) => {
                &&& exists|first_mid: S, second_mid: S, third_mid: S|
                    {
                        &&& #[trigger] between(first_mid)
                        &&& #[trigger] between(second_mid)
                        &&& #[trigger] between(third_mid)
                        &&& self.visited_generics(from, generics, first_mid, generics2)
                        &&& self.visited_optional_trait_ref(
                            first_mid,
                            trait_ref,
                            second_mid,
                            trait_ref2,
                        )
                        &&& self.visited_ty(second_mid, *ty, third_mid, *ty2)
                        &&& self.visited_impl_items(third_mid, items@, to, items2@)
                    }
                &&& unsafety == unsafety2
                &&& polarity == polarity2
                &&& defaultness == defaultness2
            },
            (ItemKind::Mac(mac), ItemKind::Mac(mac2)) => self.visited_mac(from, mac, to, mac2),
            _ => before == after && from == to,
        }
    }

    /// Goes through the form of an item.
    pub fn visit_item_kind(&self, state: &mut S, node: &mut ItemKind)
        requires
            self.can_visit_item_kind(*old(node)),
        ensures
            self.visited_item_kind(*old(state), *old(node), *final(state), *final(node)),
        decreases *old(node),
    {
        match node {
            ItemKind::Static(ty, _, expr) => {
                self.visit_ty(state, ty);
                assert(between(*state));
                self.visit_expr(state, expr);
            },
            ItemKind::Const(ty, expr) => {
                self.visit_ty(state, ty);
                assert(between(*state));
                self.visit_expr(state, expr);
            },
            ItemKind::Fn(decl, _, generics, block) => {
                self.visit_fn_decl(state, decl);
                assert(between(*state));
                self.visit_generics(state, generics);
                assert(between(*state));
                self.visit_block(state, block);
            },
            ItemKind::Mod(module) => {
                self.visit_mod(state, module);
            },
            ItemKind::ForeignMod(foreign_mod) => {
                self.visit_foreign_mod(state, foreign_mod);
            },
            ItemKind::TyAlias(ty, generics) => {
                self.visit_ty(state, ty);
                assert(between(*state));
                self.visit_generics(state, generics);
            },
            ItemKind::OpaqueTy(bounds, generics) => {
                self.visit_bounds(state, bounds);
                assert(between(*state));
                self.visit_generics(state, generics);
            },
            ItemKind::Enum(definition, generics) => {
                self.visit_enum_def(state, definition);
                assert(between(*state));
                self.visit_generics(state, generics);
            },
            ItemKind::Struct(data, generics) => {
                self.visit_variant_data(state, data);
                assert(between(*state));
                self.visit_generics(state, generics);
            },
            ItemKind::Union(data, generics) => {
                self.visit_variant_data(state, data);
                assert(between(*state));
                self.visit_generics(state, generics);
            },
            ItemKind::Trait(_, _, generics, bounds, items) => {
                self.visit_generics(state, generics);
                assert(between(*state));
                self.visit_bounds(state, bounds);
                assert(between(*state));
                self.visit_trait_items(state, items);
            },
            ItemKind::TraitAlias(generics, bounds) => {
                self.visit_generics(state, generics);
                assert(between(*state));
                self.visit_bounds(state, bounds);
            },
            ItemKind::Impl(_, _, _, generics, trait_ref, ty, items) => {
                self.visit_generics(state, generics);
                assert(between(*state));
                self.visit_optional_trait_ref(state, trait_ref);
                assert(between(*state));
                self.visit_ty(state, ty);
                assert(between(*state));
                self.visit_impl_items(state, items);
            },
            ItemKind::Mac(mac) => {
                self.visit_mac(state, mac);
            },
            _ => {},
        }
    }

    /// A visit that accepts nothing settles the form of an item, and leaves it as it is where it
    /// was settled.
    pub(crate) proof fn quiet_visit_of_item_kind(
        self,
        from: S,
        before: ItemKind,
        to: S,
        after: ItemKind,
    )
        requires
            self.accepts_nothing(),
            self.visited_item_kind(from, before, to, after),
        ensures
            after.settled(),
            before.settled() ==> before.same(after),
        decreases before,
    {
        match (before, after) {
            (ItemKind::Static(ty, _, expr), ItemKind::Static(ty2, _, expr2)) => {
                let mid = choose|mid: S|
                    {
                        &&& #[trigger] between(mid)
                        &&& self.visited_ty(from, *ty, mid, *ty2)
                        &&& self.visited_expr(mid, *expr, to, *expr2)
                    };
                self.quiet_visit_of_ty(from, *ty, mid, *ty2);
                self.quiet_visit_of_expr(mid, *expr, to, *expr2);
            },
            (ItemKind::Const(ty, expr), ItemKind::Const(ty2, expr2)) => {
                let mid = choose|mid: S|
                    {
                        &&& #[trigger] between(mid)
                        &&& self.visited_ty(from, *ty, mid, *ty2)
                        &&& self.visited_expr(mid, *expr, to, *expr2)
                    };
                self.quiet_visit_of_ty(from, *ty, mid, *ty2);
                self.quiet_visit_of_expr(mid, *expr, to, *expr2);
            },
            (
                ItemKind::Fn(decl, _, generics, block),
                ItemKind::Fn(decl2, _, generics2, block2),
            ) => {
                let (first_mid, second_mid) = choose|first_mid: S, second_mid: S|
                    {
                        &&& #[trigger] between(first_mid)
                        &&& #[trigger] between(second_mid)
                        &&& self.visited_fn_decl(from, *decl, first_mid, *decl2)
                        &&& self.visited_generics(first_mid, generics, second_mid, generics2)
                        &&& self.visited_block(second_mid, *block, to, *block2)
                    };
                self.quiet_visit_of_fn_decl(from, *decl, first_mid, *decl2);
                self.quiet_visit_of_generics(first_mid, generics, second_mid, generics2);
                self.quiet_visit_of_block(second_mid, *block, to, *block2);
            },
            (ItemKind::Mod(module), ItemKind::Mod(module2)) => {
                self.quiet_visit_of_mod(from, module, to, module2);
            },
            (ItemKind::ForeignMod(foreign_mod), ItemKind::ForeignMod(foreign_mod2)) => {
                self.quiet_visit_of_foreign_mod(from, foreign_mod, to, foreign_mod2);
            },
            (ItemKind::TyAlias(ty, generics), ItemKind::TyAlias(ty2, generics2)) => {
                let mid = choose|mid: S|
                    {
                        &&& #[trigger] between(mid)
                        &&& self.visited_ty(from, *ty, mid, *ty2)
                        &&& self.visited_generics(mid, generics, to, generics2)
                    };
                self.quiet_visit_of_ty(from, *ty, mid, *ty2);
                self.quiet_visit_of_generics(mid, generics, to, generics2);
            },
            (ItemKind::OpaqueTy(bounds, generics), ItemKind::OpaqueTy(bounds2, generics2)) => {
                let mid = choose|mid: S|
                    {
                        &&& #[trigger] between(mid)
                        &&& self.visited_bounds(from, bounds@, mid, bounds2@)
                        &&& self.visited_generics(mid, generics, to, generics2)
                    };
                self.quiet_visit_of_bounds(from, bounds@, mid, bounds2@);
                self.quiet_visit_of_generics(mid, generics, to, generics2);
            },
            (ItemKind::Enum(definition, generics), ItemKind::Enum(definition2, generics2)) => {
                let mid = choose|mid: S|
                    {
                        &&& #[trigger] between(mid)
                        &&& self.visited_enum_def(from, definition, mid, definition2)
                        &&& self.visited_generics(mid, generics, to, generics2)
                    };
                self.quiet_visit_of_enum_def(from, definition, mid, definition2);
                self.quiet_visit_of_generics(mid, generics, to, generics2);
            },
            (ItemKind::Struct(data, generics), ItemKind::Struct(data2, generics2)) => {
                let mid = choose|mid: S|
                    {
                        &&& #[trigger] between(mid)
                        &&& self.visited_variant_data(from, data, mid, data2)
                        &&& self.visited_generics(mid, generics, to, generics2)
                    };
                self.quiet_visit_of_variant_data(from, data, mid, data2);
                self.quiet_visit_of_generics(mid, generics, to, generics2);
            },
            (ItemKind::Union(data, generics), ItemKind::Union(data2, generics2)) => {
                let mid = choose|mid: S|
                    {
                        &&& #[trigger] between(mid)
                        &&& self.visited_variant_data(from, data, mid, data2)
                        &&& self.visited_generics(mid, generics, to, generics2)
                    };
                self.quiet_visit_of_variant_data(from, data, mid, data2);
                self.quiet_visit_of_generics(mid, generics, to, generics2);
            },
            (
                ItemKind::Trait(_, _, generics, bounds, items),
                ItemKind::Trait(_, _, generics2, bounds2, items2),
            ) => {
                let (first_mid, second_mid) = choose|first_mid: S, second_mid: S|
                    {
                        &&& #[trigger] between(first_mid)
                        &&& #[trigger] between(second_mid)
                        &&& self.visited_generics(from, generics, first_mid, generics2)
                        &&& self.visited_bounds(first_mid, bounds@, second_mid, bounds2@)
                        &&& self.visited_trait_items(second_mid, items@, to, items2@)
                    };
                self.quiet_visit_of_generics(from, generics, first_mid, generics2);
                self.quiet_visit_of_bounds(first_mid, bounds@, second_mid, bounds2@);
                self.quiet_visit_of_trait_items(second_mid, items@, to, items2@);
            },
            (
                ItemKind::TraitAlias(generics, bounds),
                ItemKind::TraitAlias(generics2, bounds2),
            ) => {
                let mid = choose|mid: S|
                    {
                        &&& #[trigger] between(mid)
                        &&& self.visited_generics(from, generics, mid, generics2)
                        &&& self.visited_bounds(mid, bounds@, to, bounds2@)
                    };
                self.quiet_visit_of_generics(from, generics, mid, generics2);
                self.quiet_visit_of_bounds(mid, bounds@, to, bounds2@);
            },
            (
                ItemKind::Impl(_, _, _, generics, trait_ref, ty, items),
                ItemKind::Impl(_, _, _, generics2, trait_ref2, ty2, items2),
            ) => {
                let (
                    first_mid,
                    second_mid,
                    third_mid,
                ) = choose|first_mid: S, second_mid: S, third_mid: S|
                    {
                        &&& #[trigger] between(first_mid)
                        &&& #[trigger] between(second_mid)
                        &&& #[trigger] between(third_mid)
                        &&& self.visited_generics(from, generics, first_mid, generics2)
                        &&& self.visited_optional_trait_ref(
                            first_mid,
                            trait_ref,
                            second_mid,
                            trait_ref2,
                        )
                        &&& self.visited_ty(second_mid, *ty, third_mid, *ty2)
                        &&& self.visited_impl_items(third_mid, items@, to, items2@)
                    };
                self.quiet_visit_of_generics(from, generics, first_mid, generics2);
                self.quiet_visit_of_optional_trait_ref(
                    first_mid,
                    trait_ref,
                    second_mid,
                    trait_ref2,
                );
                self.quiet_visit_of_ty(second_mid, *ty, third_mid, *ty2);
                self.quiet_visit_of_impl_items(third_mid, items@, to, items2@);
            },
            (ItemKind::Mac(mac), ItemKind::Mac(mac2)) => {
                self.quiet_visit_of_mac(from, mac, to, mac2);
            },
            _ => {
                before.same_as_itself();
            },
        }
    }

    /// An item can be gone through.
    pub open spec fn can_visit_item(self, node: Item) -> bool
        decreases node,
    {
        self.can_visit_item_kind(node.kind)
    }

    /// `after` is `before` with every expression in it visited in order.
    pub open spec fn visited_item(self, from: S, before: Item, to: S, after: Item) -> bool
        decreases before,
    {
        &&& self.visited_item_kind(from, before.kind, to, after.kind)
        &&& before.ident == after.ident
        &&& before.attrs == after.attrs
        &&& before.id == after.id
        &&& before.vis == after.vis
        &&& before.span == after.span
        &&& before.tokens == after.tokens
    }

    /// Goes through an item.
    pub fn visit_item(&self, state: &mut S, node: &mut Item)
        requires
            self.can_visit_item(*old(node)),
        ensures
            self.visited_item(*old(state), *old(node), *final(state), *final(node)),
        decreases *old(node),
    {
        self.visit_item_kind(state, &mut node.kind);
    }

    /// A visit that accepts nothing settles an item, and leaves it as it is where it was settled.
    pub(crate) proof fn quiet_visit_of_item(self, from: S, before: Item, to: S, after: Item)
        requires
            self.accepts_nothing(),
            self.visited_item(from, before, to, after),
        ensures
            after.settled(),
            before.settled() ==> before.same(after),
        decreases before,
    {
        self.quiet_visit_of_item_kind(from, before.kind, to, after.kind);
        before.ident.same_as_itself();
        attributes_same_as_themselves(before.attrs@);
        before.vis.node.same_as_itself();
    }

    /// A list of items can be gone through.
    pub open spec fn can_visit_items(self, list: Seq<Item>) -> bool
        decreases list,
    {
        forall|i: int| 0 <= i < list.len() ==> self.can_visit_item(#[trigger] list[i])
    }

    /// `after` is `before` with every expression in it visited in order.
    pub open spec fn visited_items(
        self,
        from: S,
        before: Seq<Item>,
        to: S,
        after: Seq<Item>,
    ) -> bool
        decreases before,
    {
        &&& before.len() == after.len()
        &&& if before.len() == 0 {
            from == to
        } else {
            exists|mid: S|
                {
                    &&& #[trigger] between(mid)
                    &&& self.visited_items(from, before.drop_last(), mid, after.drop_last())
                    &&& self.visited_item(mid, before.last(), to, after.last())
                }
        }
    }

    /// Goes through a list of items.
    pub fn visit_items(&self, state: &mut S, list: &mut Vec<Item>)
        requires
            self.can_visit_items(old(list)@),
        ensures
            self.visited_items(*old(state), old(list)@, *final(state), final(list)@),
        decreases *old(list),
    {
        let ghost from = *state;
        let mut i: usize = 0;
        while i < list.len()
            invariant
                i <= list@.len(),
                list@.len() == old(list)@.len(),
                self.can_visit_items(old(list)@),
                self.visited_items(
                    from,
                    old(list)@.take(i as int),
                    *state,
                    list@.take(i as int),
                ),
                forall|j: int| i <= j < list@.len() ==> list@[j] == old(list)@[j],
            decreases list@.len() - i,
        {
            let ghost done = list@.take(i as int);
            assert(between(*state));
            assert(list@[i as int] == old(list)@[i as int]);
            self.visit_item(state, &mut list[i]);
            i += 1;
            assert(old(list)@.take(i as int).drop_last() =~= old(list)@.take(i - 1));
            assert(list@.take(i as int).drop_last() =~= done);
        }
        assert(old(list)@.take(i as int) =~= old(list)@);
        assert(list@.take(i as int) =~= list@);
    }

    /// A visit that accepts nothing settles a list, and leaves it as it is where it was settled.
    pub(crate) proof fn quiet_visit_of_items(
        self,
        from: S,
        before: Seq<Item>,
        to: S,
        after: Seq<Item>,
    )
        requires
            self.accepts_nothing(),
            self.visited_items(from, before, to, after),
        ensures
            settled_items(after),
            settled_items(before) ==> same_items(before, after),
        decreases before,
    {
        if before.len() > 0 {
            let mid = choose|mid: S|
                {
                    &&& #[trigger] between(mid)
                    &&& self.visited_items(from, before.drop_last(), mid, after.drop_last())
                    &&& self.visited_item(mid, before.last(), to, after.last())
                };
            self.quiet_visit_of_items(from, before.drop_last(), mid, after.drop_last());
            self.quiet_visit_of_item(mid, before.last(), to, after.last());
            assert forall|i: int| 0 <= i < after.len() implies (#[trigger] after[i]).settled() by {
                if i < after.len() - 1 {
                    assert(after[i] == after.drop_last()[i]);
                }
            }
            if settled_items(before) {
                assert forall|i: int| 0 <= i < before.len() - 1 implies (
                    #[trigger] before.drop_last()[i]
                ).settled() by {
                    assert(before.drop_last()[i] == before[i]);
                }
                assert forall|i: int| 0 <= i < before.len() implies (#[trigger] before[i]).same(
                    after[i],
                ) by {
                    if i < before.len() - 1 {
                        assert(before.drop_last()[i].same(after.drop_last()[i]));
                    }
                }
            }
        }
    }

    /// A crate can be gone through.
    pub open spec fn can_visit_crate(self, node: Crate) -> bool
        decreases node,
    {
        self.can_visit_mod(node.module)
    }

    /// `after` is `before` with every expression in it visited in order.
    pub open spec fn visited_crate(self, from: S, before: Crate, to: S, after: Crate) -> bool
        decreases before,
    {
        &&& self.visited_mod(from, before.module, to, after.module)
        &&& before.attrs == after.attrs
        &&& before.span == after.span
    }

    /// Goes through a crate.
    pub fn visit_crate(&self, state: &mut S, node: &mut Crate)
        requires
            self.can_visit_crate(*old(node)),
        ensures
            self.visited_crate(*old(state), *old(node), *final(state), *final(node)),
        decreases *old(node),
    {
        self.visit_mod(state, &mut node.module);
    }

    /// A visit that accepts nothing settles a crate, and leaves it as it is where it was settled.
    pub(crate) proof fn quiet_visit_of_crate(self, from: S, before: Crate, to: S, after: Crate)
        requires
            self.accepts_nothing(),
            self.visited_crate(from, before, to, after),
        ensures
            after.settled(),
            before.settled() ==> before.same(after),
        decreases before,
    {
        self.quiet_visit_of_mod(from, before.module, to, after.module);
        attributes_same_as_themselves(before.attrs@);
    }
}

} // verus!
