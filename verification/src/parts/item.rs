//! What items are made of.

use vstd::prelude::*;

use crate::ast::attr::Mac;
use crate::ast::expr::Expr;
use crate::ast::item::{
    Crate, EnumDef, ForeignItem, ForeignItemKind, ForeignMod, ImplItem, ImplItemKind, Item,
    ItemKind, Mod, StructField, TraitItem, TraitItemKind, Variant, VariantData,
};
use crate::filter_map::{Rules, between};
use crate::parts::expr::{optional_anon_const_parts, optional_expr_parts};
use crate::parts::generics::{bounds_parts, nodes_in_bounds_parts, optional_trait_ref_parts};
use crate::parts::stmt::optional_block_parts;
use crate::parts::ty::optional_ty_parts;
use crate::parts::{
    Part, group_contains, nodes_in_joined_parts, nodes_in_one_part, nodes_in_parts, one_if, parts,
};
use crate::visit::item::{
    nodes_in_enum_def, nodes_in_foreign_item, nodes_in_foreign_item_kind, nodes_in_foreign_items,
    nodes_in_foreign_mod, nodes_in_impl_item, nodes_in_impl_item_kind, nodes_in_impl_items,
    nodes_in_item, nodes_in_item_kind, nodes_in_items, nodes_in_mod, nodes_in_struct_field,
    nodes_in_struct_fields, nodes_in_trait_item, nodes_in_trait_item_kind, nodes_in_trait_items,
    nodes_in_variant, nodes_in_variant_data, nodes_in_variants,
};
use crate::visit::{Visited, joined};

verus! {

/// What a field is made of, in the order of the text.
pub open spec fn parts_of_struct_field(node: StructField) -> Seq<Part> {
    seq![Part::Ty(*node.ty)]
}

/// Fields as parts.
pub open spec fn struct_fields_parts(list: Seq<StructField>) -> Seq<Part> {
    list.map_values(|x: StructField| Part::StructField(x))
}

impl<
    S,
    F: Fn(&S, &str) -> (S, bool),
    G: Fn(&S, &Expr) -> (S, Expr),
    H: Fn(&S, &Mac) -> S,
> Rules<S, F, G, H> {
    /// Going through a field is going through what it is made of, part by part.
    pub proof fn goes_through_the_parts_of_struct_field(
        self,
        from: S,
        before: StructField,
        to: S,
        after: StructField,
    )
        requires
            self.visited_struct_field(from, before, to, after),
        ensures
            self.visited_parts(
                from,
                parts_of_struct_field(before),
                to,
                parts_of_struct_field(after),
            ),
    {
        self.single_part(from, Part::Ty(*before.ty), to, Part::Ty(*after.ty));
    }

    /// A visitor whose calls can always be made can go through a field.
    pub(crate) proof fn total_goes_through_struct_field(self, node: StructField)
        requires
            self.is_total(),
        ensures
            self.can_visit_struct_field(node),
        decreases node,
    {
        self.total_goes_through_ty(*node.ty);
    }

    /// Going through a list of fields is going through them one by one.
    pub(crate) proof fn struct_fields_are_parts(
        self,
        from: S,
        before: Seq<StructField>,
        to: S,
        after: Seq<StructField>,
    )
        requires
            self.visited_struct_fields(from, before, to, after),
        ensures
            self.visited_parts(from, struct_fields_parts(before), to, struct_fields_parts(after)),
        decreases before.len(),
    {
        if before.len() > 0 {
            let mid = choose|mid: S|
                {
                    &&& #[trigger] between(mid)
                    &&& self.visited_struct_fields(from, before.drop_last(), mid, after.drop_last())
                    &&& self.visited_struct_field(mid, before.last(), to, after.last())
                };
            self.struct_fields_are_parts(from, before.drop_last(), mid, after.drop_last());
            assert(
                struct_fields_parts(before).drop_last() =~= struct_fields_parts(before.drop_last())
            );
            assert(
                struct_fields_parts(after).drop_last() =~= struct_fields_parts(after.drop_last())
            );
        }
    }
}

/// What is visited in a field is what is visited in what it is made of, part by part.
pub proof fn visits_the_parts_of_struct_field(node: StructField)
    ensures
        nodes_in_struct_field(node) == nodes_in_parts(parts_of_struct_field(node)),
{
    nodes_in_one_part(Part::Ty(*node.ty));
}

/// What is visited in a list of fields is what is visited in them one by one.
pub(crate) proof fn nodes_in_struct_fields_parts(list: Seq<StructField>, count: int)
    requires
        0 <= count <= list.len(),
    ensures
        nodes_in_struct_fields(
            list,
            count,
        ) == nodes_in_parts(struct_fields_parts(list.take(count))),
    decreases count,
{
    if count > 0 {
        nodes_in_struct_fields_parts(list, count - 1);
        assert(
            struct_fields_parts(
                list.take(count),
            ).drop_last() =~= struct_fields_parts(list.take(count - 1))
        );
    }
}

/// Every node that a field holds in a field is a part of it.
pub proof fn fields_of_struct_field_are_parts(node: StructField)
    ensures
        parts(Part::StructField(node)).contains(Part::Ty(*node.ty)),
{
    broadcast use group_contains;

}

/// What the fields of a struct is made of, in the order of the text.
pub open spec fn parts_of_variant_data(node: VariantData) -> Seq<Part> {
    match node {
        VariantData::Struct(fields, _) => struct_fields_parts(fields@),
        VariantData::Tuple(fields, _) => struct_fields_parts(fields@),
        _ => seq![],
    }
}

impl<
    S,
    F: Fn(&S, &str) -> (S, bool),
    G: Fn(&S, &Expr) -> (S, Expr),
    H: Fn(&S, &Mac) -> S,
> Rules<S, F, G, H> {
    /// Going through the fields of a struct is going through what it is made of, part by part.
    pub proof fn goes_through_the_parts_of_variant_data(
        self,
        from: S,
        before: VariantData,
        to: S,
        after: VariantData,
    )
        requires
            self.visited_variant_data(from, before, to, after),
        ensures
            self.visited_parts(
                from,
                parts_of_variant_data(before),
                to,
                parts_of_variant_data(after),
            ),
    {
        match (before, after) {
            (VariantData::Struct(fields, _), VariantData::Struct(fields2, _)) => {
                self.struct_fields_are_parts(from, fields@, to, fields2@);
            },
            (VariantData::Tuple(fields, _), VariantData::Tuple(fields2, _)) => {
                self.struct_fields_are_parts(from, fields@, to, fields2@);
            },
            _ => {},
        }
    }

    /// A visitor whose calls can always be made can go through the fields of a struct.
    pub(crate) proof fn total_goes_through_variant_data(self, node: VariantData)
        requires
            self.is_total(),
        ensures
            self.can_visit_variant_data(node),
        decreases node,
    {
        match node {
            VariantData::Struct(fields, _) => {
                assert forall|i: int| 0 <= i < fields@.len() implies self.can_visit_struct_field(
                    #[trigger] fields@[i],
                ) by {
                    self.total_goes_through_struct_field(fields@[i]);
                }
            },
            VariantData::Tuple(fields, _) => {
                assert forall|i: int| 0 <= i < fields@.len() implies self.can_visit_struct_field(
                    #[trigger] fields@[i],
                ) by {
                    self.total_goes_through_struct_field(fields@[i]);
                }
            },
            _ => {},
        }
    }
}

/// What is visited in the fields of a struct is what is visited in what it is made of, part by
/// part.
pub proof fn visits_the_parts_of_variant_data(node: VariantData)
    ensures
        nodes_in_variant_data(node) == nodes_in_parts(parts_of_variant_data(node)),
{
    match node {
        VariantData::Struct(fields, _) => {
            nodes_in_struct_fields_parts(fields@, fields@.len() as int);
            assert(fields@.take(fields@.len() as int) =~= fields@);
        },
        VariantData::Tuple(fields, _) => {
            nodes_in_struct_fields_parts(fields@, fields@.len() as int);
            assert(fields@.take(fields@.len() as int) =~= fields@);
        },
        _ => {},
    }
}

/// Every node that the fields of a struct holds in a field is a part of it.
pub proof fn fields_of_variant_data_are_parts(node: VariantData)
    ensures
        node matches VariantData::Struct(
            fields,
            _,
        ) ==> (
            forall|i: int| 0 <= i < fields@.len() ==> parts(
                Part::VariantData(node),
            ).contains(Part::StructField(#[trigger] fields@[i]))
        ),
        node matches VariantData::Tuple(
            fields,
            _,
        ) ==> (
            forall|i: int| 0 <= i < fields@.len() ==> parts(
                Part::VariantData(node),
            ).contains(Part::StructField(#[trigger] fields@[i]))
        ),
{
    broadcast use group_contains;

    match node {
        VariantData::Struct(fields, _) => {
            assert forall|i: int| 0 <= i < fields@.len() implies struct_fields_parts(
                fields@,
            ).contains(
                Part::StructField(#[trigger] fields@[i]),
            ) by {
                assert(struct_fields_parts(fields@)[i] == Part::StructField(fields@[i]));
            }
        },
        VariantData::Tuple(fields, _) => {
            assert forall|i: int| 0 <= i < fields@.len() implies struct_fields_parts(
                fields@,
            ).contains(
                Part::StructField(#[trigger] fields@[i]),
            ) by {
                assert(struct_fields_parts(fields@)[i] == Part::StructField(fields@[i]));
            }
        },
        _ => {},
    }
}

/// What a variant is made of, in the order of the text.
pub open spec fn parts_of_variant(node: Variant) -> Seq<Part> {
    seq![Part::VariantData(node.data)] + optional_anon_const_parts(node.disr_expr)
}

/// Variants as parts.
pub open spec fn variants_parts(list: Seq<Variant>) -> Seq<Part> {
    list.map_values(|x: Variant| Part::Variant(x))
}

impl<
    S,
    F: Fn(&S, &str) -> (S, bool),
    G: Fn(&S, &Expr) -> (S, Expr),
    H: Fn(&S, &Mac) -> S,
> Rules<S, F, G, H> {
    /// Going through a variant is going through what it is made of, part by part.
    pub proof fn goes_through_the_parts_of_variant(
        self,
        from: S,
        before: Variant,
        to: S,
        after: Variant,
    )
        requires
            self.visited_variant(from, before, to, after),
        ensures
            self.visited_parts(from, parts_of_variant(before), to, parts_of_variant(after)),
    {
        let mid = choose|mid: S|
            {
                &&& #[trigger] between(mid)
                &&& self.visited_variant_data(from, before.data, mid, after.data)
                &&& self.visited_optional_anon_const(mid, before.disr_expr, to, after.disr_expr)
            };
        self.single_part(from, Part::VariantData(before.data), mid, Part::VariantData(after.data));
        self.optional_anon_const_is_part(mid, before.disr_expr, to, after.disr_expr);
        self.joined_parts(
            from,
            seq![Part::VariantData(before.data)],
            mid,
            seq![Part::VariantData(after.data)],
            optional_anon_const_parts(before.disr_expr),
            to,
            optional_anon_const_parts(after.disr_expr),
        );
    }

    /// A visitor whose calls can always be made can go through a variant.
    pub(crate) proof fn total_goes_through_variant(self, node: Variant)
        requires
            self.is_total(),
        ensures
            self.can_visit_variant(node),
        decreases node,
    {
        self.total_goes_through_variant_data(node.data);
        if let Some(x) = node.disr_expr {
            self.total_goes_through_anon_const(x);
        }
    }

    /// Going through a list of variants is going through them one by one.
    pub(crate) proof fn variants_are_parts(
        self,
        from: S,
        before: Seq<Variant>,
        to: S,
        after: Seq<Variant>,
    )
        requires
            self.visited_variants(from, before, to, after),
        ensures
            self.visited_parts(from, variants_parts(before), to, variants_parts(after)),
        decreases before.len(),
    {
        if before.len() > 0 {
            let mid = choose|mid: S|
                {
                    &&& #[trigger] between(mid)
                    &&& self.visited_variants(from, before.drop_last(), mid, after.drop_last())
                    &&& self.visited_variant(mid, before.last(), to, after.last())
                };
            self.variants_are_parts(from, before.drop_last(), mid, after.drop_last());
            assert(variants_parts(before).drop_last() =~= variants_parts(before.drop_last()));
            assert(variants_parts(after).drop_last() =~= variants_parts(after.drop_last()));
        }
    }
}

/// What is visited in a variant is what is visited in what it is made of, part by part.
pub proof fn visits_the_parts_of_variant(node: Variant)
    ensures
        nodes_in_variant(node) == nodes_in_parts(parts_of_variant(node)),
{
    nodes_in_one_part(Part::VariantData(node.data));
    if let Some(x) = node.disr_expr {
        nodes_in_one_part(Part::AnonConst(x));
    }
    nodes_in_joined_parts(
        seq![Part::VariantData(node.data)],
        optional_anon_const_parts(node.disr_expr),
    );
}

/// What is visited in a list of variants is what is visited in them one by one.
pub(crate) proof fn nodes_in_variants_parts(list: Seq<Variant>, count: int)
    requires
        0 <= count <= list.len(),
    ensures
        nodes_in_variants(list, count) == nodes_in_parts(variants_parts(list.take(count))),
    decreases count,
{
    if count > 0 {
        nodes_in_variants_parts(list, count - 1);
        assert(
            variants_parts(list.take(count)).drop_last() =~= variants_parts(list.take(count - 1))
        );
    }
}

/// Every node that a variant holds in a field is a part of it.
pub proof fn fields_of_variant_are_parts(node: Variant)
    ensures
        parts(Part::Variant(node)).contains(Part::VariantData(node.data)),
        (
            node.disr_expr matches Some(
                x,
            ) ==> parts(Part::Variant(node)).contains(Part::AnonConst(x))
        ),
{
    broadcast use group_contains;

}

/// The parts of a variant stand in the order of the text.
pub proof fn parts_of_variant_stand_in_order(node: Variant)
    ensures
        parts(Part::Variant(node)).len() == one_if(node.disr_expr is Some) + 1,
        parts(Part::Variant(node))[0] == Part::VariantData(node.data),
        (node.disr_expr matches Some(x) ==> parts(Part::Variant(node))[1] == Part::AnonConst(x)),
{
}

/// What the variants of an enum is made of, in the order of the text.
pub open spec fn parts_of_enum_def(node: EnumDef) -> Seq<Part> {
    variants_parts(node.variants@)
}

impl<
    S,
    F: Fn(&S, &str) -> (S, bool),
    G: Fn(&S, &Expr) -> (S, Expr),
    H: Fn(&S, &Mac) -> S,
> Rules<S, F, G, H> {
    /// Going through the variants of an enum is going through what it is made of, part by part.
    pub proof fn goes_through_the_parts_of_enum_def(
        self,
        from: S,
        before: EnumDef,
        to: S,
        after: EnumDef,
    )
        requires
            self.visited_enum_def(from, before, to, after),
        ensures
            self.visited_parts(from, parts_of_enum_def(before), to, parts_of_enum_def(after)),
    {
        self.variants_are_parts(from, before.variants@, to, after.variants@);
    }

    /// A visitor whose calls can always be made can go through the variants of an enum.
    pub(crate) proof fn total_goes_through_enum_def(self, node: EnumDef)
        requires
            self.is_total(),
        ensures
            self.can_visit_enum_def(node),
        decreases node,
    {
        assert forall|i: int| 0 <= i < node.variants@.len() implies self.can_visit_variant(
            #[trigger] node.variants@[i],
        ) by {
            self.total_goes_through_variant(node.variants@[i]);
        }
    }
}

/// What is visited in the variants of an enum is what is visited in what it is made of, part by
/// part.
pub proof fn visits_the_parts_of_enum_def(node: EnumDef)
    ensures
        nodes_in_enum_def(node) == nodes_in_parts(parts_of_enum_def(node)),
{
    nodes_in_variants_parts(node.variants@, node.variants@.len() as int);
    assert(node.variants@.take(node.variants@.len() as int) =~= node.variants@);
}

/// Every node that the variants of an enum holds in a field is a part of it.
pub proof fn fields_of_enum_def_are_parts(node: EnumDef)
    ensures
        (
            forall|i: int| 0 <= i < node.variants@.len() ==> parts(
                Part::EnumDef(node),
            ).contains(Part::Variant(#[trigger] node.variants@[i]))
        ),
{
    broadcast use group_contains;

    assert forall|i: int| 0 <= i < node.variants@.len() implies variants_parts(
        node.variants@,
    ).contains(
        Part::Variant(#[trigger] node.variants@[i]),
    ) by {
        assert(variants_parts(node.variants@)[i] == Part::Variant(node.variants@[i]));
    }
}

/// What a module is made of, in the order of the text.
pub open spec fn parts_of_mod(node: Mod) -> Seq<Part> {
    items_parts(node.items@)
}

impl<
    S,
    F: Fn(&S, &str) -> (S, bool),
    G: Fn(&S, &Expr) -> (S, Expr),
    H: Fn(&S, &Mac) -> S,
> Rules<S, F, G, H> {
    /// Going through a module is going through what it is made of, part by part.
    pub proof fn goes_through_the_parts_of_mod(
        self,
        from: S,
        before: Mod,
        to: S,
        after: Mod,
    )
        requires
            self.visited_mod(from, before, to, after),
        ensures
            self.visited_parts(from, parts_of_mod(before), to, parts_of_mod(after)),
    {
        self.items_are_parts(from, before.items@, to, after.items@);
    }

    /// A visitor whose calls can always be made can go through a module.
    pub(crate) proof fn total_goes_through_mod(self, node: Mod)
        requires
            self.is_total(),
        ensures
            self.can_visit_mod(node),
        decreases node,
    {
        assert forall|i: int| 0 <= i < node.items@.len() implies self.can_visit_item(
            #[trigger] node.items@[i],
        ) by {
            self.total_goes_through_item(node.items@[i]);
        }
    }
}

/// What is visited in a module is what is visited in what it is made of, part by part.
pub proof fn visits_the_parts_of_mod(node: Mod)
    ensures
        nodes_in_mod(node) == nodes_in_parts(parts_of_mod(node)),
{
    nodes_in_items_parts(node.items@, node.items@.len() as int);
    assert(node.items@.take(node.items@.len() as int) =~= node.items@);
}

/// Every node that a module holds in a field is a part of it.
pub proof fn fields_of_mod_are_parts(node: Mod)
    ensures
        (
            forall|i: int| 0 <= i < node.items@.len() ==> parts(
                Part::Mod(node),
            ).contains(Part::Item(#[trigger] node.items@[i]))
        ),
{
    broadcast use group_contains;

    assert forall|i: int| 0 <= i < node.items@.len() implies items_parts(node.items@).contains(
        Part::Item(#[trigger] node.items@[i]),
    ) by {
        assert(items_parts(node.items@)[i] == Part::Item(node.items@[i]));
    }
}

/// What the form of a foreign item is made of, in the order of the text.
pub open spec fn parts_of_foreign_item_kind(node: ForeignItemKind) -> Seq<Part> {
    match node {
        ForeignItemKind::Fn(decl, generics) => {
            seq![Part::FnDecl(*decl)] + seq![Part::Generics(generics)]
        },
        ForeignItemKind::Static(ty, _) => seq![Part::Ty(*ty)],
        ForeignItemKind::Macro(mac) => seq![Part::Mac(mac)],
        _ => seq![],
    }
}

impl<
    S,
    F: Fn(&S, &str) -> (S, bool),
    G: Fn(&S, &Expr) -> (S, Expr),
    H: Fn(&S, &Mac) -> S,
> Rules<S, F, G, H> {
    /// Going through the form of a foreign item is going through what it is made of, part by part.
    pub proof fn goes_through_the_parts_of_foreign_item_kind(
        self,
        from: S,
        before: ForeignItemKind,
        to: S,
        after: ForeignItemKind,
    )
        requires
            self.visited_foreign_item_kind(from, before, to, after),
        ensures
            self.visited_parts(
                from,
                parts_of_foreign_item_kind(before),
                to,
                parts_of_foreign_item_kind(after),
            ),
    {
        match (before, after) {
            (ForeignItemKind::Fn(decl, generics), ForeignItemKind::Fn(decl2, generics2)) => {
                let mid = choose|mid: S|
                    {
                        &&& #[trigger] between(mid)
                        &&& self.visited_fn_decl(from, *decl, mid, *decl2)
                        &&& self.visited_generics(mid, generics, to, generics2)
                    };
                self.single_part(from, Part::FnDecl(*decl), mid, Part::FnDecl(*decl2));
                self.single_part(mid, Part::Generics(generics), to, Part::Generics(generics2));
                self.joined_parts(
                    from,
                    seq![Part::FnDecl(*decl)],
                    mid,
                    seq![Part::FnDecl(*decl2)],
                    seq![Part::Generics(generics)],
                    to,
                    seq![Part::Generics(generics2)],
                );
            },
            (ForeignItemKind::Static(ty, _), ForeignItemKind::Static(ty2, _)) => {
                self.single_part(from, Part::Ty(*ty), to, Part::Ty(*ty2));
            },
            (ForeignItemKind::Macro(mac), ForeignItemKind::Macro(mac2)) => {
                self.single_part(from, Part::Mac(mac), to, Part::Mac(mac2));
            },
            _ => {},
        }
    }

    /// A visitor whose calls can always be made can go through the form of a foreign item.
    pub(crate) proof fn total_goes_through_foreign_item_kind(self, node: ForeignItemKind)
        requires
            self.is_total(),
        ensures
            self.can_visit_foreign_item_kind(node),
        decreases node,
    {
        match node {
            ForeignItemKind::Fn(decl, generics) => {
                self.total_goes_through_fn_decl(*decl);
                self.total_goes_through_generics(generics);
            },
            ForeignItemKind::Static(ty, _) => {
                self.total_goes_through_ty(*ty);
            },
            _ => {},
        }
    }
}

/// What is visited in the form of a foreign item is what is visited in what it is made of, part by
/// part.
pub proof fn visits_the_parts_of_foreign_item_kind(node: ForeignItemKind)
    ensures
        nodes_in_foreign_item_kind(node) == nodes_in_parts(parts_of_foreign_item_kind(node)),
{
    match node {
        ForeignItemKind::Fn(decl, generics) => {
            nodes_in_one_part(Part::FnDecl(*decl));
            nodes_in_one_part(Part::Generics(generics));
            nodes_in_joined_parts(seq![Part::FnDecl(*decl)], seq![Part::Generics(generics)]);
        },
        ForeignItemKind::Static(ty, _) => {
            nodes_in_one_part(Part::Ty(*ty));
        },
        ForeignItemKind::Macro(mac) => {
            nodes_in_one_part(Part::Mac(mac));
        },
        _ => {},
    }
}

/// Every node that the form of a foreign item holds in a field is a part of it.
pub proof fn fields_of_foreign_item_kind_are_parts(node: ForeignItemKind)
    ensures
        node matches ForeignItemKind::Fn(
            decl,
            generics,
        ) ==> parts(
            Part::ForeignItemKind(node),
        ).contains(
            Part::FnDecl(*decl),
        ) && parts(Part::ForeignItemKind(node)).contains(Part::Generics(generics)),
        node matches ForeignItemKind::Static(
            ty,
            _,
        ) ==> parts(Part::ForeignItemKind(node)).contains(Part::Ty(*ty)),
        node matches ForeignItemKind::Macro(
            mac,
        ) ==> parts(Part::ForeignItemKind(node)).contains(Part::Mac(mac)),
{
    broadcast use group_contains;

}

/// The parts of the form of a foreign item stand in the order of the text.
pub proof fn parts_of_foreign_item_kind_stand_in_order(node: ForeignItemKind)
    ensures
        node matches ForeignItemKind::Fn(
            decl,
            generics,
        ) ==> parts(
            Part::ForeignItemKind(node),
        ).len() == 2 && parts(
            Part::ForeignItemKind(node),
        )[0] == Part::FnDecl(
            *decl,
        ) && parts(Part::ForeignItemKind(node))[1] == Part::Generics(generics),
{
}

/// What a foreign item is made of, in the order of the text.
pub open spec fn parts_of_foreign_item(node: ForeignItem) -> Seq<Part> {
    seq![Part::ForeignItemKind(node.kind)]
}

/// Foreign items as parts.
pub open spec fn foreign_items_parts(list: Seq<ForeignItem>) -> Seq<Part> {
    list.map_values(|x: ForeignItem| Part::ForeignItem(x))
}

impl<
    S,
    F: Fn(&S, &str) -> (S, bool),
    G: Fn(&S, &Expr) -> (S, Expr),
    H: Fn(&S, &Mac) -> S,
> Rules<S, F, G, H> {
    /// Going through a foreign item is going through what it is made of, part by part.
    pub proof fn goes_through_the_parts_of_foreign_item(
        self,
        from: S,
        before: ForeignItem,
        to: S,
        after: ForeignItem,
    )
        requires
            self.visited_foreign_item(from, before, to, after),
        ensures
            self.visited_parts(
                from,
                parts_of_foreign_item(before),
                to,
                parts_of_foreign_item(after),
            ),
    {
        self.single_part(
            from,
            Part::ForeignItemKind(before.kind),
            to,
            Part::ForeignItemKind(after.kind),
        );
    }

    /// A visitor whose calls can always be made can go through a foreign item.
    pub(crate) proof fn total_goes_through_foreign_item(self, node: ForeignItem)
        requires
            self.is_total(),
        ensures
            self.can_visit_foreign_item(node),
        decreases node,
    {
        self.total_goes_through_foreign_item_kind(node.kind);
    }

    /// Going through a list of foreign items is going through them one by one.
    pub(crate) proof fn foreign_items_are_parts(
        self,
        from: S,
        before: Seq<ForeignItem>,
        to: S,
        after: Seq<ForeignItem>,
    )
        requires
            self.visited_foreign_items(from, before, to, after),
        ensures
            self.visited_parts(from, foreign_items_parts(before), to, foreign_items_parts(after)),
        decreases before.len(),
    {
        if before.len() > 0 {
            let mid = choose|mid: S|
                {
                    &&& #[trigger] between(mid)
                    &&& self.visited_foreign_items(from, before.drop_last(), mid, after.drop_last())
                    &&& self.visited_foreign_item(mid, before.last(), to, after.last())
                };
            self.foreign_items_are_parts(from, before.drop_last(), mid, after.drop_last());
            assert(
                foreign_items_parts(before).drop_last() =~= foreign_items_parts(before.drop_last())
            );
            assert(
                foreign_items_parts(after).drop_last() =~= foreign_items_parts(after.drop_last())
            );
        }
    }
}

/// What is visited in a foreign item is what is visited in what it is made of, part by part, behind
/// the node itself.
pub proof fn visits_the_parts_of_foreign_item(node: ForeignItem)
    ensures
        nodes_in_foreign_item(
            node,
        ) == joined(seq![Visited::ForeignItem(&node)], nodes_in_parts(parts_of_foreign_item(node))),
{
    nodes_in_one_part(Part::ForeignItemKind(node.kind));
}

/// What is visited in a list of foreign items is what is visited in them one by one.
pub(crate) proof fn nodes_in_foreign_items_parts(list: Seq<ForeignItem>, count: int)
    requires
        0 <= count <= list.len(),
    ensures
        nodes_in_foreign_items(
            list,
            count,
        ) == nodes_in_parts(foreign_items_parts(list.take(count))),
    decreases count,
{
    if count > 0 {
        nodes_in_foreign_items_parts(list, count - 1);
        assert(
            foreign_items_parts(
                list.take(count),
            ).drop_last() =~= foreign_items_parts(list.take(count - 1))
        );
    }
}

/// Every node that a foreign item holds in a field is a part of it.
pub proof fn fields_of_foreign_item_are_parts(node: ForeignItem)
    ensures
        parts(Part::ForeignItem(node)).contains(Part::ForeignItemKind(node.kind)),
{
    broadcast use group_contains;

}

/// What a block of foreign items is made of, in the order of the text.
pub open spec fn parts_of_foreign_mod(node: ForeignMod) -> Seq<Part> {
    foreign_items_parts(node.items@)
}

impl<
    S,
    F: Fn(&S, &str) -> (S, bool),
    G: Fn(&S, &Expr) -> (S, Expr),
    H: Fn(&S, &Mac) -> S,
> Rules<S, F, G, H> {
    /// Going through a block of foreign items is going through what it is made of, part by part.
    pub proof fn goes_through_the_parts_of_foreign_mod(
        self,
        from: S,
        before: ForeignMod,
        to: S,
        after: ForeignMod,
    )
        requires
            self.visited_foreign_mod(from, before, to, after),
        ensures
            self.visited_parts(from, parts_of_foreign_mod(before), to, parts_of_foreign_mod(after)),
    {
        self.foreign_items_are_parts(from, before.items@, to, after.items@);
    }

    /// A visitor whose calls can always be made can go through a block of foreign items.
    pub(crate) proof fn total_goes_through_foreign_mod(self, node: ForeignMod)
        requires
            self.is_total(),
        ensures
            self.can_visit_foreign_mod(node),
        decreases node,
    {
        assert forall|i: int| 0 <= i < node.items@.len() implies self.can_visit_foreign_item(
            #[trigger] node.items@[i],
        ) by {
            self.total_goes_through_foreign_item(node.items@[i]);
        }
    }
}

/// What is visited in a block of foreign items is what is visited in what it is made of, part by
/// part.
pub proof fn visits_the_parts_of_foreign_mod(node: ForeignMod)
    ensures
        nodes_in_foreign_mod(node) == nodes_in_parts(parts_of_foreign_mod(node)),
{
    nodes_in_foreign_items_parts(node.items@, node.items@.len() as int);
    assert(node.items@.take(node.items@.len() as int) =~= node.items@);
}

/// Every node that a block of foreign items holds in a field is a part of it.
pub proof fn fields_of_foreign_mod_are_parts(node: ForeignMod)
    ensures
        (
            forall|i: int| 0 <= i < node.items@.len() ==> parts(
                Part::ForeignMod(node),
            ).contains(Part::ForeignItem(#[trigger] node.items@[i]))
        ),
{
    broadcast use group_contains;

    assert forall|i: int| 0 <= i < node.items@.len() implies foreign_items_parts(
        node.items@,
    ).contains(
        Part::ForeignItem(#[trigger] node.items@[i]),
    ) by {
        assert(foreign_items_parts(node.items@)[i] == Part::ForeignItem(node.items@[i]));
    }
}

/// What the form of a trait item is made of, in the order of the text.
pub open spec fn parts_of_trait_item_kind(node: TraitItemKind) -> Seq<Part> {
    match node {
        TraitItemKind::Const(ty, expr) => seq![Part::Ty(*ty)] + optional_expr_parts(expr),
        TraitItemKind::Method(sig, block) => {
            seq![Part::MethodSig(sig)] + optional_block_parts(block)
        },
        TraitItemKind::Type(bounds, ty) => bounds_parts(bounds@) + optional_ty_parts(ty),
        TraitItemKind::Macro(mac) => seq![Part::Mac(mac)],
    }
}

impl<
    S,
    F: Fn(&S, &str) -> (S, bool),
    G: Fn(&S, &Expr) -> (S, Expr),
    H: Fn(&S, &Mac) -> S,
> Rules<S, F, G, H> {
    /// Going through the form of a trait item is going through what it is made of, part by part.
    pub proof fn goes_through_the_parts_of_trait_item_kind(
        self,
        from: S,
        before: TraitItemKind,
        to: S,
        after: TraitItemKind,
    )
        requires
            self.visited_trait_item_kind(from, before, to, after),
        ensures
            self.visited_parts(
                from,
                parts_of_trait_item_kind(before),
                to,
                parts_of_trait_item_kind(after),
            ),
    {
        match (before, after) {
            (TraitItemKind::Const(ty, expr), TraitItemKind::Const(ty2, expr2)) => {
                let mid = choose|mid: S|
                    {
                        &&& #[trigger] between(mid)
                        &&& self.visited_ty(from, *ty, mid, *ty2)
                        &&& self.visited_optional_expr(mid, expr, to, expr2)
                    };
                self.single_part(from, Part::Ty(*ty), mid, Part::Ty(*ty2));
                self.optional_expr_is_part(mid, expr, to, expr2);
                self.joined_parts(
                    from,
                    seq![Part::Ty(*ty)],
                    mid,
                    seq![Part::Ty(*ty2)],
                    optional_expr_parts(expr),
                    to,
                    optional_expr_parts(expr2),
                );
            },
            (TraitItemKind::Method(sig, block), TraitItemKind::Method(sig2, block2)) => {
                let mid = choose|mid: S|
                    {
                        &&& #[trigger] between(mid)
                        &&& self.visited_method_sig(from, sig, mid, sig2)
                        &&& self.visited_optional_block(mid, block, to, block2)
                    };
                self.single_part(from, Part::MethodSig(sig), mid, Part::MethodSig(sig2));
                self.optional_block_is_part(mid, block, to, block2);
                self.joined_parts(
                    from,
                    seq![Part::MethodSig(sig)],
                    mid,
                    seq![Part::MethodSig(sig2)],
                    optional_block_parts(block),
                    to,
                    optional_block_parts(block2),
                );
            },
            (TraitItemKind::Type(bounds, ty), TraitItemKind::Type(bounds2, ty2)) => {
                let mid = choose|mid: S|
                    {
                        &&& #[trigger] between(mid)
                        &&& self.visited_bounds(from, bounds@, mid, bounds2@)
                        &&& self.visited_optional_ty(mid, ty, to, ty2)
                    };
                self.bounds_are_parts(from, bounds@, mid, bounds2@);
                self.optional_ty_is_part(mid, ty, to, ty2);
                self.joined_parts(
                    from,
                    bounds_parts(bounds@),
                    mid,
                    bounds_parts(bounds2@),
                    optional_ty_parts(ty),
                    to,
                    optional_ty_parts(ty2),
                );
            },
            (TraitItemKind::Macro(mac), TraitItemKind::Macro(mac2)) => {
                self.single_part(from, Part::Mac(mac), to, Part::Mac(mac2));
            },
            _ => {},
        }
    }

    /// A visitor whose calls can always be made can go through the form of a trait item.
    pub(crate) proof fn total_goes_through_trait_item_kind(self, node: TraitItemKind)
        requires
            self.is_total(),
        ensures
            self.can_visit_trait_item_kind(node),
        decreases node,
    {
        match node {
            TraitItemKind::Const(ty, expr) => {
                self.total_goes_through_ty(*ty);
                if let Some(x) = expr {
                    self.total_goes_through_expr(*x);
                }
            },
            TraitItemKind::Method(sig, block) => {
                self.total_goes_through_method_sig(sig);
                if let Some(x) = block {
                    self.total_goes_through_block(*x);
                }
            },
            TraitItemKind::Type(bounds, ty) => {
                assert forall|i: int| 0 <= i < bounds@.len() implies self.can_visit_bound(
                    #[trigger] bounds@[i],
                ) by {
                    self.total_goes_through_bound(bounds@[i]);
                }
                if let Some(x) = ty {
                    self.total_goes_through_ty(*x);
                }
            },
            _ => {},
        }
    }
}

/// What is visited in the form of a trait item is what is visited in what it is made of, part by
/// part.
pub proof fn visits_the_parts_of_trait_item_kind(node: TraitItemKind)
    ensures
        nodes_in_trait_item_kind(node) == nodes_in_parts(parts_of_trait_item_kind(node)),
{
    match node {
        TraitItemKind::Const(ty, expr) => {
            nodes_in_one_part(Part::Ty(*ty));
            if let Some(x) = expr {
                nodes_in_one_part(Part::Expr(*x));
            }
            nodes_in_joined_parts(seq![Part::Ty(*ty)], optional_expr_parts(expr));
        },
        TraitItemKind::Method(sig, block) => {
            nodes_in_one_part(Part::MethodSig(sig));
            if let Some(x) = block {
                nodes_in_one_part(Part::Block(*x));
            }
            nodes_in_joined_parts(seq![Part::MethodSig(sig)], optional_block_parts(block));
        },
        TraitItemKind::Type(bounds, ty) => {
            nodes_in_bounds_parts(bounds@, bounds@.len() as int);
            assert(bounds@.take(bounds@.len() as int) =~= bounds@);
            if let Some(x) = ty {
                nodes_in_one_part(Part::Ty(*x));
            }
            nodes_in_joined_parts(bounds_parts(bounds@), optional_ty_parts(ty));
        },
        TraitItemKind::Macro(mac) => {
            nodes_in_one_part(Part::Mac(mac));
        },
    }
}

/// Every node that the form of a trait item holds in a field is a part of it.
pub proof fn fields_of_trait_item_kind_are_parts(node: TraitItemKind)
    ensures
        node matches TraitItemKind::Const(
            ty,
            expr,
        ) ==> parts(
            Part::TraitItemKind(node),
        ).contains(
            Part::Ty(*ty),
        ) && (expr matches Some(x) ==> parts(Part::TraitItemKind(node)).contains(Part::Expr(*x))),
        node matches TraitItemKind::Method(
            sig,
            block,
        ) ==> parts(
            Part::TraitItemKind(node),
        ).contains(
            Part::MethodSig(sig),
        ) && (block matches Some(x) ==> parts(Part::TraitItemKind(node)).contains(Part::Block(*x))),
        node matches TraitItemKind::Type(
            bounds,
            ty,
        ) ==> (
            forall|i: int| 0 <= i < bounds@.len() ==> parts(
                Part::TraitItemKind(node),
            ).contains(Part::GenericBound(#[trigger] bounds@[i]))
        ) && (ty matches Some(x) ==> parts(Part::TraitItemKind(node)).contains(Part::Ty(*x))),
        node matches TraitItemKind::Macro(
            mac,
        ) ==> parts(Part::TraitItemKind(node)).contains(Part::Mac(mac)),
{
    broadcast use group_contains;

    match node {
        TraitItemKind::Type(bounds, _) => {
            assert forall|i: int| 0 <= i < bounds@.len() implies bounds_parts(bounds@).contains(
                Part::GenericBound(#[trigger] bounds@[i]),
            ) by {
                assert(bounds_parts(bounds@)[i] == Part::GenericBound(bounds@[i]));
            }
        },
        _ => {},
    }
}

/// The parts of the form of a trait item stand in the order of the text.
pub proof fn parts_of_trait_item_kind_stand_in_order(node: TraitItemKind)
    ensures
        node matches TraitItemKind::Const(
            ty,
            expr,
        ) ==> parts(
            Part::TraitItemKind(node),
        ).len() == one_if(
            expr is Some,
        ) + 1 && parts(
            Part::TraitItemKind(node),
        )[0] == Part::Ty(
            *ty,
        ) && (expr matches Some(x) ==> parts(Part::TraitItemKind(node))[1] == Part::Expr(*x)),
        node matches TraitItemKind::Method(
            sig,
            block,
        ) ==> parts(
            Part::TraitItemKind(node),
        ).len() == one_if(
            block is Some,
        ) + 1 && parts(
            Part::TraitItemKind(node),
        )[0] == Part::MethodSig(
            sig,
        ) && (block matches Some(x) ==> parts(Part::TraitItemKind(node))[1] == Part::Block(*x)),
        node matches TraitItemKind::Type(
            bounds,
            ty,
        ) ==> parts(
            Part::TraitItemKind(node),
        ).len() == (
            bounds@.len() as int
        ) + one_if(
            ty is Some,
        ) && (
            forall|i: int| 0 <= i < bounds@.len() ==> parts(
                Part::TraitItemKind(node),
            )[i] == Part::GenericBound(#[trigger] bounds@[i])
        ) && (
            ty matches Some(
                x,
            ) ==> parts(Part::TraitItemKind(node))[(bounds@.len() as int)] == Part::Ty(*x)
        ),
{
}

/// What a trait item is made of, in the order of the text.
pub open spec fn parts_of_trait_item(node: TraitItem) -> Seq<Part> {
    seq![Part::Generics(node.generics)] + seq![Part::TraitItemKind(node.kind)]
}

/// Trait items as parts.
pub open spec fn trait_items_parts(list: Seq<TraitItem>) -> Seq<Part> {
    list.map_values(|x: TraitItem| Part::TraitItem(x))
}

impl<
    S,
    F: Fn(&S, &str) -> (S, bool),
    G: Fn(&S, &Expr) -> (S, Expr),
    H: Fn(&S, &Mac) -> S,
> Rules<S, F, G, H> {
    /// Going through a trait item is going through what it is made of, part by part.
    pub proof fn goes_through_the_parts_of_trait_item(
        self,
        from: S,
        before: TraitItem,
        to: S,
        after: TraitItem,
    )
        requires
            self.visited_trait_item(from, before, to, after),
        ensures
            self.visited_parts(from, parts_of_trait_item(before), to, parts_of_trait_item(after)),
    {
        let mid = choose|mid: S|
            {
                &&& #[trigger] between(mid)
                &&& self.visited_generics(from, before.generics, mid, after.generics)
                &&& self.visited_trait_item_kind(mid, before.kind, to, after.kind)
            };
        self.single_part(
            from,
            Part::Generics(before.generics),
            mid,
            Part::Generics(after.generics),
        );
        self.single_part(
            mid,
            Part::TraitItemKind(before.kind),
            to,
            Part::TraitItemKind(after.kind),
        );
        self.joined_parts(
            from,
            seq![Part::Generics(before.generics)],
            mid,
            seq![Part::Generics(after.generics)],
            seq![Part::TraitItemKind(before.kind)],
            to,
            seq![Part::TraitItemKind(after.kind)],
        );
    }

    /// A visitor whose calls can always be made can go through a trait item.
    pub(crate) proof fn total_goes_through_trait_item(self, node: TraitItem)
        requires
            self.is_total(),
        ensures
            self.can_visit_trait_item(node),
        decreases node,
    {
        self.total_goes_through_generics(node.generics);
        self.total_goes_through_trait_item_kind(node.kind);
    }

    /// Going through a list of trait items is going through them one by one.
    pub(crate) proof fn trait_items_are_parts(
        self,
        from: S,
        before: Seq<TraitItem>,
        to: S,
        after: Seq<TraitItem>,
    )
        requires
            self.visited_trait_items(from, before, to, after),
        ensures
            self.visited_parts(from, trait_items_parts(before), to, trait_items_parts(after)),
        decreases before.len(),
    {
        if before.len() > 0 {
            let mid = choose|mid: S|
                {
                    &&& #[trigger] between(mid)
                    &&& self.visited_trait_items(from, before.drop_last(), mid, after.drop_last())
                    &&& self.visited_trait_item(mid, before.last(), to, after.last())
                };
            self.trait_items_are_parts(from, before.drop_last(), mid, after.drop_last());
            assert(trait_items_parts(before).drop_last() =~= trait_items_parts(before.drop_last()));
            assert(trait_items_parts(after).drop_last() =~= trait_items_parts(after.drop_last()));
        }
    }
}

/// What is visited in a trait item is what is visited in what it is made of, part by part.
pub proof fn visits_the_parts_of_trait_item(node: TraitItem)
    ensures
        nodes_in_trait_item(node) == nodes_in_parts(parts_of_trait_item(node)),
{
    nodes_in_one_part(Part::Generics(node.generics));
    nodes_in_one_part(Part::TraitItemKind(node.kind));
    nodes_in_joined_parts(
        seq![Part::Generics(node.generics)],
        seq![Part::TraitItemKind(node.kind)],
    );
}

/// What is visited in a list of trait items is what is visited in them one by one.
pub(crate) proof fn nodes_in_trait_items_parts(list: Seq<TraitItem>, count: int)
    requires
        0 <= count <= list.len(),
    ensures
        nodes_in_trait_items(list, count) == nodes_in_parts(trait_items_parts(list.take(count))),
    decreases count,
{
    if count > 0 {
        nodes_in_trait_items_parts(list, count - 1);
        assert(
            trait_items_parts(
                list.take(count),
            ).drop_last() =~= trait_items_parts(list.take(count - 1))
        );
    }
}

/// Every node that a trait item holds in a field is a part of it.
pub proof fn fields_of_trait_item_are_parts(node: TraitItem)
    ensures
        parts(Part::TraitItem(node)).contains(Part::Generics(node.generics)),
        parts(Part::TraitItem(node)).contains(Part::TraitItemKind(node.kind)),
{
    broadcast use group_contains;

}

/// The parts of a trait item stand in the order of the text.
pub proof fn parts_of_trait_item_stand_in_order(node: TraitItem)
    ensures
        parts(Part::TraitItem(node)).len() == 2,
        parts(Part::TraitItem(node))[0] == Part::Generics(node.generics),
        parts(Part::TraitItem(node))[1] == Part::TraitItemKind(node.kind),
{
}

/// What the form of an impl item is made of, in the order of the text.
pub open spec fn parts_of_impl_item_kind(node: ImplItemKind) -> Seq<Part> {
    match node {
        ImplItemKind::Const(ty, expr) => seq![Part::Ty(*ty)] + seq![Part::Expr(*expr)],
        ImplItemKind::Method(sig, block) => seq![Part::MethodSig(sig)] + seq![Part::Block(*block)],
        ImplItemKind::TyAlias(ty) => seq![Part::Ty(*ty)],
        ImplItemKind::OpaqueTy(bounds) => bounds_parts(bounds@),
        ImplItemKind::Macro(mac) => seq![Part::Mac(mac)],
    }
}

impl<
    S,
    F: Fn(&S, &str) -> (S, bool),
    G: Fn(&S, &Expr) -> (S, Expr),
    H: Fn(&S, &Mac) -> S,
> Rules<S, F, G, H> {
    /// Going through the form of an impl item is going through what it is made of, part by part.
    pub proof fn goes_through_the_parts_of_impl_item_kind(
        self,
        from: S,
        before: ImplItemKind,
        to: S,
        after: ImplItemKind,
    )
        requires
            self.visited_impl_item_kind(from, before, to, after),
        ensures
            self.visited_parts(
                from,
                parts_of_impl_item_kind(before),
                to,
                parts_of_impl_item_kind(after),
            ),
    {
        match (before, after) {
            (ImplItemKind::Const(ty, expr), ImplItemKind::Const(ty2, expr2)) => {
                let mid = choose|mid: S|
                    {
                        &&& #[trigger] between(mid)
                        &&& self.visited_ty(from, *ty, mid, *ty2)
                        &&& self.visited_expr(mid, *expr, to, *expr2)
                    };
                self.single_part(from, Part::Ty(*ty), mid, Part::Ty(*ty2));
                self.single_part(mid, Part::Expr(*expr), to, Part::Expr(*expr2));
                self.joined_parts(
                    from,
                    seq![Part::Ty(*ty)],
                    mid,
                    seq![Part::Ty(*ty2)],
                    seq![Part::Expr(*expr)],
                    to,
                    seq![Part::Expr(*expr2)],
                );
            },
            (ImplItemKind::Method(sig, block), ImplItemKind::Method(sig2, block2)) => {
                let mid = choose|mid: S|
                    {
                        &&& #[trigger] between(mid)
                        &&& self.visited_method_sig(from, sig, mid, sig2)
                        &&& self.visited_block(mid, *block, to, *block2)
                    };
                self.single_part(from, Part::MethodSig(sig), mid, Part::MethodSig(sig2));
                self.single_part(mid, Part::Block(*block), to, Part::Block(*block2));
                self.joined_parts(
                    from,
                    seq![Part::MethodSig(sig)],
                    mid,
                    seq![Part::MethodSig(sig2)],
                    seq![Part::Block(*block)],
                    to,
                    seq![Part::Block(*block2)],
                );
            },
            (ImplItemKind::TyAlias(ty), ImplItemKind::TyAlias(ty2)) => {
                self.single_part(from, Part::Ty(*ty), to, Part::Ty(*ty2));
            },
            (ImplItemKind::OpaqueTy(bounds), ImplItemKind::OpaqueTy(bounds2)) => {
                self.bounds_are_parts(from, bounds@, to, bounds2@);
            },
            (ImplItemKind::Macro(mac), ImplItemKind::Macro(mac2)) => {
                self.single_part(from, Part::Mac(mac), to, Part::Mac(mac2));
            },
            _ => {},
        }
    }

    /// A visitor whose calls can always be made can go through the form of an impl item.
    pub(crate) proof fn total_goes_through_impl_item_kind(self, node: ImplItemKind)
        requires
            self.is_total(),
        ensures
            self.can_visit_impl_item_kind(node),
        decreases node,
    {
        match node {
            ImplItemKind::Const(ty, expr) => {
                self.total_goes_through_ty(*ty);
                self.total_goes_through_expr(*expr);
            },
            ImplItemKind::Method(sig, block) => {
                self.total_goes_through_method_sig(sig);
                self.total_goes_through_block(*block);
            },
            ImplItemKind::TyAlias(ty) => {
                self.total_goes_through_ty(*ty);
            },
            ImplItemKind::OpaqueTy(bounds) => {
                assert forall|i: int| 0 <= i < bounds@.len() implies self.can_visit_bound(
                    #[trigger] bounds@[i],
                ) by {
                    self.total_goes_through_bound(bounds@[i]);
                }
            },
            _ => {},
        }
    }
}

/// What is visited in the form of an impl item is what is visited in what it is made of, part by
/// part.
pub proof fn visits_the_parts_of_impl_item_kind(node: ImplItemKind)
    ensures
        nodes_in_impl_item_kind(node) == nodes_in_parts(parts_of_impl_item_kind(node)),
{
    match node {
        ImplItemKind::Const(ty, expr) => {
            nodes_in_one_part(Part::Ty(*ty));
            nodes_in_one_part(Part::Expr(*expr));
            nodes_in_joined_parts(seq![Part::Ty(*ty)], seq![Part::Expr(*expr)]);
        },
        ImplItemKind::Method(sig, block) => {
            nodes_in_one_part(Part::MethodSig(sig));
            nodes_in_one_part(Part::Block(*block));
            nodes_in_joined_parts(seq![Part::MethodSig(sig)], seq![Part::Block(*block)]);
        },
        ImplItemKind::TyAlias(ty) => {
            nodes_in_one_part(Part::Ty(*ty));
        },
        ImplItemKind::OpaqueTy(bounds) => {
            nodes_in_bounds_parts(bounds@, bounds@.len() as int);
            assert(bounds@.take(bounds@.len() as int) =~= bounds@);
        },
        ImplItemKind::Macro(mac) => {
            nodes_in_one_part(Part::Mac(mac));
        },
    }
}

/// Every node that the form of an impl item holds in a field is a part of it.
pub proof fn fields_of_impl_item_kind_are_parts(node: ImplItemKind)
    ensures
        node matches ImplItemKind::Const(
            ty,
            expr,
        ) ==> parts(
            Part::ImplItemKind(node),
        ).contains(Part::Ty(*ty)) && parts(Part::ImplItemKind(node)).contains(Part::Expr(*expr)),
        node matches ImplItemKind::Method(
            sig,
            block,
        ) ==> parts(
            Part::ImplItemKind(node),
        ).contains(
            Part::MethodSig(sig),
        ) && parts(Part::ImplItemKind(node)).contains(Part::Block(*block)),
        node matches ImplItemKind::TyAlias(
            ty,
        ) ==> parts(Part::ImplItemKind(node)).contains(Part::Ty(*ty)),
        node matches ImplItemKind::OpaqueTy(
            bounds,
        ) ==> (
            forall|i: int| 0 <= i < bounds@.len() ==> parts(
                Part::ImplItemKind(node),
            ).contains(Part::GenericBound(#[trigger] bounds@[i]))
        ),
        node matches ImplItemKind::Macro(
            mac,
        ) ==> parts(Part::ImplItemKind(node)).contains(Part::Mac(mac)),
{
    broadcast use group_contains;

    match node {
        ImplItemKind::OpaqueTy(bounds) => {
            assert forall|i: int| 0 <= i < bounds@.len() implies bounds_parts(bounds@).contains(
                Part::GenericBound(#[trigger] bounds@[i]),
            ) by {
                assert(bounds_parts(bounds@)[i] == Part::GenericBound(bounds@[i]));
            }
        },
        _ => {},
    }
}

/// The parts of the form of an impl item stand in the order of the text.
pub proof fn parts_of_impl_item_kind_stand_in_order(node: ImplItemKind)
    ensures
        node matches ImplItemKind::Const(
            ty,
            expr,
        ) ==> parts(
            Part::ImplItemKind(node),
        ).len() == 2 && parts(
            Part::ImplItemKind(node),
        )[0] == Part::Ty(*ty) && parts(Part::ImplItemKind(node))[1] == Part::Expr(*expr),
        node matches ImplItemKind::Method(
            sig,
            block,
        ) ==> parts(
            Part::ImplItemKind(node),
        ).len() == 2 && parts(
            Part::ImplItemKind(node),
        )[0] == Part::MethodSig(sig) && parts(Part::ImplItemKind(node))[1] == Part::Block(*block),
{
}

/// What an impl item is made of, in the order of the text.
pub open spec fn parts_of_impl_item(node: ImplItem) -> Seq<Part> {
    seq![Part::Generics(node.generics)] + seq![Part::ImplItemKind(node.kind)]
}

/// Impl items as parts.
pub open spec fn impl_items_parts(list: Seq<ImplItem>) -> Seq<Part> {
    list.map_values(|x: ImplItem| Part::ImplItem(x))
}

impl<
    S,
    F: Fn(&S, &str) -> (S, bool),
    G: Fn(&S, &Expr) -> (S, Expr),
    H: Fn(&S, &Mac) -> S,
> Rules<S, F, G, H> {
    /// Going through an impl item is going through what it is made of, part by part.
    pub proof fn goes_through_the_parts_of_impl_item(
        self,
        from: S,
        before: ImplItem,
        to: S,
        after: ImplItem,
    )
        requires
            self.visited_impl_item(from, before, to, after),
        ensures
            self.visited_parts(from, parts_of_impl_item(before), to, parts_of_impl_item(after)),
    {
        let mid = choose|mid: S|
            {
                &&& #[trigger] between(mid)
                &&& self.visited_generics(from, before.generics, mid, after.generics)
                &&& self.visited_impl_item_kind(mid, before.kind, to, after.kind)
            };
        self.single_part(
            from,
            Part::Generics(before.generics),
            mid,
            Part::Generics(after.generics),
        );
        self.single_part(mid, Part::ImplItemKind(before.kind), to, Part::ImplItemKind(after.kind));
        self.joined_parts(
            from,
            seq![Part::Generics(before.generics)],
            mid,
            seq![Part::Generics(after.generics)],
            seq![Part::ImplItemKind(before.kind)],
            to,
            seq![Part::ImplItemKind(after.kind)],
        );
    }

    /// A visitor whose calls can always be made can go through an impl item.
    pub(crate) proof fn total_goes_through_impl_item(self, node: ImplItem)
        requires
            self.is_total(),
        ensures
            self.can_visit_impl_item(node),
        decreases node,
    {
        self.total_goes_through_generics(node.generics);
        self.total_goes_through_impl_item_kind(node.kind);
    }

    /// Going through a list of impl items is going through them one by one.
    pub(crate) proof fn impl_items_are_parts(
        self,
        from: S,
        before: Seq<ImplItem>,
        to: S,
        after: Seq<ImplItem>,
    )
        requires
            self.visited_impl_items(from, before, to, after),
        ensures
            self.visited_parts(from, impl_items_parts(before), to, impl_items_parts(after)),
        decreases before.len(),
    {
        if before.len() > 0 {
            let mid = choose|mid: S|
                {
                    &&& #[trigger] between(mid)
                    &&& self.visited_impl_items(from, before.drop_last(), mid, after.drop_last())
                    &&& self.visited_impl_item(mid, before.last(), to, after.last())
                };
            self.impl_items_are_parts(from, before.drop_last(), mid, after.drop_last());
            assert(impl_items_parts(before).drop_last() =~= impl_items_parts(before.drop_last()));
            assert(impl_items_parts(after).drop_last() =~= impl_items_parts(after.drop_last()));
        }
    }
}

/// What is visited in an impl item is what is visited in what it is made of, part by part.
pub proof fn visits_the_parts_of_impl_item(node: ImplItem)
    ensures
        nodes_in_impl_item(node) == nodes_in_parts(parts_of_impl_item(node)),
{
    nodes_in_one_part(Part::Generics(node.generics));
    nodes_in_one_part(Part::ImplItemKind(node.kind));
    nodes_in_joined_parts(seq![Part::Generics(node.generics)], seq![Part::ImplItemKind(node.kind)]);
}

/// What is visited in a list of impl items is what is visited in them one by one.
pub(crate) proof fn nodes_in_impl_items_parts(list: Seq<ImplItem>, count: int)
    requires
        0 <= count <= list.len(),
    ensures
        nodes_in_impl_items(list, count) == nodes_in_parts(impl_items_parts(list.take(count))),
    decreases count,
{
    if count > 0 {
        nodes_in_impl_items_parts(list, count - 1);
        assert(
            impl_items_parts(
                list.take(count),
            ).drop_last() =~= impl_items_parts(list.take(count - 1))
        );
    }
}

/// Every node that an impl item holds in a field is a part of it.
pub proof fn fields_of_impl_item_are_parts(node: ImplItem)
    ensures
        parts(Part::ImplItem(node)).contains(Part::Generics(node.generics)),
        parts(Part::ImplItem(node)).contains(Part::ImplItemKind(node.kind)),
{
    broadcast use group_contains;

}

/// The parts of an impl item stand in the order of the text.
pub proof fn parts_of_impl_item_stand_in_order(node: ImplItem)
    ensures
        parts(Part::ImplItem(node)).len() == 2,
        parts(Part::ImplItem(node))[0] == Part::Generics(node.generics),
        parts(Part::ImplItem(node))[1] == Part::ImplItemKind(node.kind),
{
}

/// What the form of an item is made of, in the order of the text.
pub open spec fn parts_of_item_kind(node: ItemKind) -> Seq<Part> {
    match node {
        ItemKind::Static(ty, _, expr) => seq![Part::Ty(*ty)] + seq![Part::Expr(*expr)],
        ItemKind::Const(ty, expr) => seq![Part::Ty(*ty)] + seq![Part::Expr(*expr)],
        ItemKind::Fn(decl, _, generics, block) => {
            seq![Part::FnDecl(*decl)] + (seq![Part::Generics(generics)] + seq![Part::Block(*block)])
        },
        ItemKind::Mod(module) => seq![Part::Mod(module)],
        ItemKind::ForeignMod(foreign_mod) => seq![Part::ForeignMod(foreign_mod)],
        ItemKind::TyAlias(ty, generics) => seq![Part::Ty(*ty)] + seq![Part::Generics(generics)],
        ItemKind::OpaqueTy(bounds, generics) => {
            bounds_parts(bounds@) + seq![Part::Generics(generics)]
        },
        ItemKind::Enum(definition, generics) => {
            seq![Part::EnumDef(definition)] + seq![Part::Generics(generics)]
        },
        ItemKind::Struct(data, generics) => {
            seq![Part::VariantData(data)] + seq![Part::Generics(generics)]
        },
        ItemKind::Union(data, generics) => {
            seq![Part::VariantData(data)] + seq![Part::Generics(generics)]
        },
        ItemKind::Trait(_, _, generics, bounds, items) => {
            seq![Part::Generics(generics)] + (bounds_parts(bounds@) + trait_items_parts(items@))
        },
        ItemKind::TraitAlias(generics, bounds) => {
            seq![Part::Generics(generics)] + bounds_parts(bounds@)
        },
        ItemKind::Impl(_, _, _, generics, trait_ref, ty, items) => {
            seq![Part::Generics(generics)]
                + (
                    optional_trait_ref_parts(trait_ref)
                        + (seq![Part::Ty(*ty)] + impl_items_parts(items@))
                )
        },
        ItemKind::Mac(mac) => seq![Part::Mac(mac)],
        _ => seq![],
    }
}

impl<
    S,
    F: Fn(&S, &str) -> (S, bool),
    G: Fn(&S, &Expr) -> (S, Expr),
    H: Fn(&S, &Mac) -> S,
> Rules<S, F, G, H> {
    /// Going through the form of an item is going through what it is made of, part by part.
    pub proof fn goes_through_the_parts_of_item_kind(
        self,
        from: S,
        before: ItemKind,
        to: S,
        after: ItemKind,
    )
        requires
            self.visited_item_kind(from, before, to, after),
        ensures
            self.visited_parts(from, parts_of_item_kind(before), to, parts_of_item_kind(after)),
    {
        match (before, after) {
            (ItemKind::Static(ty, _, expr), ItemKind::Static(ty2, _, expr2)) => {
                let mid = choose|mid: S|
                    {
                        &&& #[trigger] between(mid)
                        &&& self.visited_ty(from, *ty, mid, *ty2)
                        &&& self.visited_expr(mid, *expr, to, *expr2)
                    };
                self.single_part(from, Part::Ty(*ty), mid, Part::Ty(*ty2));
                self.single_part(mid, Part::Expr(*expr), to, Part::Expr(*expr2));
                self.joined_parts(
                    from,
                    seq![Part::Ty(*ty)],
                    mid,
                    seq![Part::Ty(*ty2)],
                    seq![Part::Expr(*expr)],
                    to,
                    seq![Part::Expr(*expr2)],
                );
            },
            (ItemKind::Const(ty, expr), ItemKind::Const(ty2, expr2)) => {
                let mid = choose|mid: S|
                    {
                        &&& #[trigger] between(mid)
                        &&& self.visited_ty(from, *ty, mid, *ty2)
                        &&& self.visited_expr(mid, *expr, to, *expr2)
                    };
                self.single_part(from, Part::Ty(*ty), mid, Part::Ty(*ty2));
                self.single_part(mid, Part::Expr(*expr), to, Part::Expr(*expr2));
                self.joined_parts(
                    from,
                    seq![Part::Ty(*ty)],
                    mid,
                    seq![Part::Ty(*ty2)],
                    seq![Part::Expr(*expr)],
                    to,
                    seq![Part::Expr(*expr2)],
                );
            },
            (ItemKind::Fn(decl, _, generics, block), ItemKind::Fn(decl2, _, generics2, block2)) => {
                let (first_mid, second_mid) = choose|first_mid: S, second_mid: S|
                    {
                        &&& #[trigger] between(first_mid)
                        &&& #[trigger] between(second_mid)
                        &&& self.visited_fn_decl(from, *decl, first_mid, *decl2)
                        &&& self.visited_generics(first_mid, generics, second_mid, generics2)
                        &&& self.visited_block(second_mid, *block, to, *block2)
                    };
                self.single_part(from, Part::FnDecl(*decl), first_mid, Part::FnDecl(*decl2));
                self.single_part(
                    first_mid,
                    Part::Generics(generics),
                    second_mid,
                    Part::Generics(generics2),
                );
                self.single_part(second_mid, Part::Block(*block), to, Part::Block(*block2));
                self.joined_parts(
                    first_mid,
                    seq![Part::Generics(generics)],
                    second_mid,
                    seq![Part::Generics(generics2)],
                    seq![Part::Block(*block)],
                    to,
                    seq![Part::Block(*block2)],
                );
                self.joined_parts(
                    from,
                    seq![Part::FnDecl(*decl)],
                    first_mid,
                    seq![Part::FnDecl(*decl2)],
                    seq![Part::Generics(generics)] + seq![Part::Block(*block)],
                    to,
                    seq![Part::Generics(generics2)] + seq![Part::Block(*block2)],
                );
            },
            (ItemKind::Mod(module), ItemKind::Mod(module2)) => {
                self.single_part(from, Part::Mod(module), to, Part::Mod(module2));
            },
            (ItemKind::ForeignMod(foreign_mod), ItemKind::ForeignMod(foreign_mod2)) => {
                self.single_part(
                    from,
                    Part::ForeignMod(foreign_mod),
                    to,
                    Part::ForeignMod(foreign_mod2),
                );
            },
            (ItemKind::TyAlias(ty, generics), ItemKind::TyAlias(ty2, generics2)) => {
                let mid = choose|mid: S|
                    {
                        &&& #[trigger] between(mid)
                        &&& self.visited_ty(from, *ty, mid, *ty2)
                        &&& self.visited_generics(mid, generics, to, generics2)
                    };
                self.single_part(from, Part::Ty(*ty), mid, Part::Ty(*ty2));
                self.single_part(mid, Part::Generics(generics), to, Part::Generics(generics2));
                self.joined_parts(
                    from,
                    seq![Part::Ty(*ty)],
                    mid,
                    seq![Part::Ty(*ty2)],
                    seq![Part::Generics(generics)],
                    to,
                    seq![Part::Generics(generics2)],
                );
            },
            (ItemKind::OpaqueTy(bounds, generics), ItemKind::OpaqueTy(bounds2, generics2)) => {
                let mid = choose|mid: S|
                    {
                        &&& #[trigger] between(mid)
                        &&& self.visited_bounds(from, bounds@, mid, bounds2@)
                        &&& self.visited_generics(mid, generics, to, generics2)
                    };
                self.bounds_are_parts(from, bounds@, mid, bounds2@);
                self.single_part(mid, Part::Generics(generics), to, Part::Generics(generics2));
                self.joined_parts(
                    from,
                    bounds_parts(bounds@),
                    mid,
                    bounds_parts(bounds2@),
                    seq![Part::Generics(generics)],
                    to,
                    seq![Part::Generics(generics2)],
                );
            },
            (ItemKind::Enum(definition, generics), ItemKind::Enum(definition2, generics2)) => {
                let mid = choose|mid: S|
                    {
                        &&& #[trigger] between(mid)
                        &&& self.visited_enum_def(from, definition, mid, definition2)
                        &&& self.visited_generics(mid, generics, to, generics2)
                    };
                self.single_part(from, Part::EnumDef(definition), mid, Part::EnumDef(definition2));
                self.single_part(mid, Part::Generics(generics), to, Part::Generics(generics2));
                self.joined_parts(
                    from,
                    seq![Part::EnumDef(definition)],
                    mid,
                    seq![Part::EnumDef(definition2)],
                    seq![Part::Generics(generics)],
                    to,
                    seq![Part::Generics(generics2)],
                );
            },
            (ItemKind::Struct(data, generics), ItemKind::Struct(data2, generics2)) => {
                let mid = choose|mid: S|
                    {
                        &&& #[trigger] between(mid)
                        &&& self.visited_variant_data(from, data, mid, data2)
                        &&& self.visited_generics(mid, generics, to, generics2)
                    };
                self.single_part(from, Part::VariantData(data), mid, Part::VariantData(data2));
                self.single_part(mid, Part::Generics(generics), to, Part::Generics(generics2));
                self.joined_parts(
                    from,
                    seq![Part::VariantData(data)],
                    mid,
                    seq![Part::VariantData(data2)],
                    seq![Part::Generics(generics)],
                    to,
                    seq![Part::Generics(generics2)],
                );
            },
            (ItemKind::Union(data, generics), ItemKind::Union(data2, generics2)) => {
                let mid = choose|mid: S|
                    {
                        &&& #[trigger] between(mid)
                        &&& self.visited_variant_data(from, data, mid, data2)
                        &&& self.visited_generics(mid, generics, to, generics2)
                    };
                self.single_part(from, Part::VariantData(data), mid, Part::VariantData(data2));
                self.single_part(mid, Part::Generics(generics), to, Part::Generics(generics2));
                self.joined_parts(
                    from,
                    seq![Part::VariantData(data)],
                    mid,
                    seq![Part::VariantData(data2)],
                    seq![Part::Generics(generics)],
                    to,
                    seq![Part::Generics(generics2)],
                );
            },
            (
                ItemKind::Trait(_, _, generics, bounds, items),
                ItemKind::Trait(_, _, generics2, bounds2, items2),
            ) => {
                let (first_mid, second_mid) = choose|first_mid: S, second_mid: S|
                    {
                        &&& #[trigger] between(first_mid)
                        &&& #[trigger] between(second_mid)
                        &&& self.visited_generics(from, generics, first_mid, generics2)
                        &&& self.visited_bounds(first_mid, bounds@, second_mid, bounds2@)
                        &&& self.visited_trait_items(second_mid, items@, to, items2@)
                    };
                self.single_part(
                    from,
                    Part::Generics(generics),
                    first_mid,
                    Part::Generics(generics2),
                );
                self.bounds_are_parts(first_mid, bounds@, second_mid, bounds2@);
                self.trait_items_are_parts(second_mid, items@, to, items2@);
                self.joined_parts(
                    first_mid,
                    bounds_parts(bounds@),
                    second_mid,
                    bounds_parts(bounds2@),
                    trait_items_parts(items@),
                    to,
                    trait_items_parts(items2@),
                );
                self.joined_parts(
                    from,
                    seq![Part::Generics(generics)],
                    first_mid,
                    seq![Part::Generics(generics2)],
                    bounds_parts(bounds@) + trait_items_parts(items@),
                    to,
                    bounds_parts(bounds2@) + trait_items_parts(items2@),
                );
            },
            (ItemKind::TraitAlias(generics, bounds), ItemKind::TraitAlias(generics2, bounds2)) => {
                let mid = choose|mid: S|
                    {
                        &&& #[trigger] between(mid)
                        &&& self.visited_generics(from, generics, mid, generics2)
                        &&& self.visited_bounds(mid, bounds@, to, bounds2@)
                    };
                self.single_part(from, Part::Generics(generics), mid, Part::Generics(generics2));
                self.bounds_are_parts(mid, bounds@, to, bounds2@);
                self.joined_parts(
                    from,
                    seq![Part::Generics(generics)],
                    mid,
                    seq![Part::Generics(generics2)],
                    bounds_parts(bounds@),
                    to,
                    bounds_parts(bounds2@),
                );
            },
            (
                ItemKind::Impl(_, _, _, generics, trait_ref, ty, items),
                ItemKind::Impl(_, _, _, generics2, trait_ref2, ty2, items2),
            ) => {
                let (
                    first_mid,
                    second_mid,
                    third_mid,
                ) = choose|first_mid: S, second_mid: S, third_mid: S|
                    {
                        &&& #[trigger] between(first_mid)
                        &&& #[trigger] between(second_mid)
                        &&& #[trigger] between(third_mid)
                        &&& self.visited_generics(from, generics, first_mid, generics2)
                        &&& self.visited_optional_trait_ref(
                            first_mid,
                            trait_ref,
                            second_mid,
                            trait_ref2,
                        )
                        &&& self.visited_ty(second_mid, *ty, third_mid, *ty2)
                        &&& self.visited_impl_items(third_mid, items@, to, items2@)
                    };
                self.single_part(
                    from,
                    Part::Generics(generics),
                    first_mid,
                    Part::Generics(generics2),
                );
                self.optional_trait_ref_is_part(first_mid, trait_ref, second_mid, trait_ref2);
                self.single_part(second_mid, Part::Ty(*ty), third_mid, Part::Ty(*ty2));
                self.impl_items_are_parts(third_mid, items@, to, items2@);
                self.joined_parts(
                    second_mid,
                    seq![Part::Ty(*ty)],
                    third_mid,
                    seq![Part::Ty(*ty2)],
                    impl_items_parts(items@),
                    to,
                    impl_items_parts(items2@),
                );
                self.joined_parts(
                    first_mid,
                    optional_trait_ref_parts(trait_ref),
                    second_mid,
                    optional_trait_ref_parts(trait_ref2),
                    seq![Part::Ty(*ty)] + impl_items_parts(items@),
                    to,
                    seq![Part::Ty(*ty2)] + impl_items_parts(items2@),
                );
                self.joined_parts(
                    from,
                    seq![Part::Generics(generics)],
                    first_mid,
                    seq![Part::Generics(generics2)],
                    optional_trait_ref_parts(trait_ref)
                        + (seq![Part::Ty(*ty)] + impl_items_parts(items@)),
                    to,
                    optional_trait_ref_parts(trait_ref2)
                        + (seq![Part::Ty(*ty2)] + impl_items_parts(items2@)),
                );
            },
            (ItemKind::Mac(mac), ItemKind::Mac(mac2)) => {
                self.single_part(from, Part::Mac(mac), to, Part::Mac(mac2));
            },
            _ => {},
        }
    }

    /// A visitor whose calls can always be made can go through the form of an item.
    pub(crate) proof fn total_goes_through_item_kind(self, node: ItemKind)
        requires
            self.is_total(),
        ensures
            self.can_visit_item_kind(node),
        decreases node,
    {
        match node {
            ItemKind::Static(ty, _, expr) => {
                self.total_goes_through_ty(*ty);
                self.total_goes_through_expr(*expr);
            },
            ItemKind::Const(ty, expr) => {
                self.total_goes_through_ty(*ty);
                self.total_goes_through_expr(*expr);
            },
            ItemKind::Fn(decl, _, generics, block) => {
                self.total_goes_through_fn_decl(*decl);
                self.total_goes_through_generics(generics);
                self.total_goes_through_block(*block);
            },
            ItemKind::Mod(module) => {
                self.total_goes_through_mod(module);
            },
            ItemKind::ForeignMod(foreign_mod) => {
                self.total_goes_through_foreign_mod(foreign_mod);
            },
            ItemKind::TyAlias(ty, generics) => {
                self.total_goes_through_ty(*ty);
                self.total_goes_through_generics(generics);
            },
            ItemKind::OpaqueTy(bounds, generics) => {
                assert forall|i: int| 0 <= i < bounds@.len() implies self.can_visit_bound(
                    #[trigger] bounds@[i],
                ) by {
                    self.total_goes_through_bound(bounds@[i]);
                }
                self.total_goes_through_generics(generics);
            },
            ItemKind::Enum(definition, generics) => {
                self.total_goes_through_enum_def(definition);
                self.total_goes_through_generics(generics);
            },
            ItemKind::Struct(data, generics) => {
                self.total_goes_through_variant_data(data);
                self.total_goes_through_generics(generics);
            },
            ItemKind::Union(data, generics) => {
                self.total_goes_through_variant_data(data);
                self.total_goes_through_generics(generics);
            },
            ItemKind::Trait(_, _, generics, bounds, items) => {
                self.total_goes_through_generics(generics);
                assert forall|i: int| 0 <= i < bounds@.len() implies self.can_visit_bound(
                    #[trigger] bounds@[i],
                ) by {
                    self.total_goes_through_bound(bounds@[i]);
                }
                assert forall|i: int| 0 <= i < items@.len() implies self.can_visit_trait_item(
                    #[trigger] items@[i],
                ) by {
                    self.total_goes_through_trait_item(items@[i]);
                }
            },
            ItemKind::TraitAlias(generics, bounds) => {
                self.total_goes_through_generics(generics);
                assert forall|i: int| 0 <= i < bounds@.len() implies self.can_visit_bound(
                    #[trigger] bounds@[i],
                ) by {
                    self.total_goes_through_bound(bounds@[i]);
                }
            },
            ItemKind::Impl(_, _, _, generics, trait_ref, ty, items) => {
                self.total_goes_through_generics(generics);
                if let Some(x) = trait_ref {
                    self.total_goes_through_trait_ref(x);
                }
                self.total_goes_through_ty(*ty);
                assert forall|i: int| 0 <= i < items@.len() implies self.can_visit_impl_item(
                    #[trigger] items@[i],
                ) by {
                    self.total_goes_through_impl_item(items@[i]);
                }
            },
            _ => {},
        }
    }
}

/// What the form of an item is made of, in the order in which it is visited.
pub open spec fn visit_parts_of_item_kind(node: ItemKind) -> Seq<Part> {
    match node {
        ItemKind::Fn(decl, _, generics, block) => {
            seq![Part::Generics(generics)] + (seq![Part::FnDecl(*decl)] + seq![Part::Block(*block)])
        },
        ItemKind::Enum(definition, generics) => {
            seq![Part::Generics(generics)] + seq![Part::EnumDef(definition)]
        },
        ItemKind::Struct(data, generics) => {
            seq![Part::Generics(generics)] + seq![Part::VariantData(data)]
        },
        ItemKind::Union(data, generics) => {
            seq![Part::Generics(generics)] + seq![Part::VariantData(data)]
        },
        _ => parts_of_item_kind(node),
    }
}

/// What is visited in the form of an item is what is visited in what it is made of, part by part.
#[verifier::rlimit(30)]
pub proof fn visits_the_parts_of_item_kind(node: ItemKind)
    ensures
        nodes_in_item_kind(node) == nodes_in_parts(visit_parts_of_item_kind(node)),
{
    match node {
        ItemKind::Static(ty, _, expr) => {
            nodes_in_one_part(Part::Ty(*ty));
            nodes_in_one_part(Part::Expr(*expr));
            nodes_in_joined_parts(seq![Part::Ty(*ty)], seq![Part::Expr(*expr)]);
        },
        ItemKind::Const(ty, expr) => {
            nodes_in_one_part(Part::Ty(*ty));
            nodes_in_one_part(Part::Expr(*expr));
            nodes_in_joined_parts(seq![Part::Ty(*ty)], seq![Part::Expr(*expr)]);
        },
        ItemKind::Fn(decl, _, generics, block) => {
            nodes_in_one_part(Part::Generics(generics));
            nodes_in_one_part(Part::FnDecl(*decl));
            nodes_in_one_part(Part::Block(*block));
            nodes_in_joined_parts(seq![Part::FnDecl(*decl)], seq![Part::Block(*block)]);
            nodes_in_joined_parts(
                seq![Part::Generics(generics)],
                seq![Part::FnDecl(*decl)] + seq![Part::Block(*block)],
            );
        },
        ItemKind::Mod(module) => {
            nodes_in_one_part(Part::Mod(module));
        },
        ItemKind::ForeignMod(foreign_mod) => {
            nodes_in_one_part(Part::ForeignMod(foreign_mod));
        },
        ItemKind::TyAlias(ty, generics) => {
            nodes_in_one_part(Part::Ty(*ty));
            nodes_in_one_part(Part::Generics(generics));
            nodes_in_joined_parts(seq![Part::Ty(*ty)], seq![Part::Generics(generics)]);
        },
        ItemKind::OpaqueTy(bounds, generics) => {
            nodes_in_bounds_parts(bounds@, bounds@.len() as int);
            assert(bounds@.take(bounds@.len() as int) =~= bounds@);
            nodes_in_one_part(Part::Generics(generics));
            nodes_in_joined_parts(bounds_parts(bounds@), seq![Part::Generics(generics)]);
        },
        ItemKind::Enum(definition, generics) => {
            nodes_in_one_part(Part::Generics(generics));
            nodes_in_one_part(Part::EnumDef(definition));
            nodes_in_joined_parts(seq![Part::Generics(generics)], seq![Part::EnumDef(definition)]);
        },
        ItemKind::Struct(data, generics) => {
            nodes_in_one_part(Part::Generics(generics));
            nodes_in_one_part(Part::VariantData(data));
            nodes_in_joined_parts(seq![Part::Generics(generics)], seq![Part::VariantData(data)]);
        },
        ItemKind::Union(data, generics) => {
            nodes_in_one_part(Part::Generics(generics));
            nodes_in_one_part(Part::VariantData(data));
            nodes_in_joined_parts(seq![Part::Generics(generics)], seq![Part::VariantData(data)]);
        },
        ItemKind::Trait(_, _, generics, bounds, items) => {
            nodes_in_one_part(Part::Generics(generics));
            nodes_in_bounds_parts(bounds@, bounds@.len() as int);
            assert(bounds@.take(bounds@.len() as int) =~= bounds@);
            nodes_in_trait_items_parts(items@, items@.len() as int);
            assert(items@.take(items@.len() as int) =~= items@);
            nodes_in_joined_parts(bounds_parts(bounds@), trait_items_parts(items@));
            nodes_in_joined_parts(
                seq![Part::Generics(generics)],
                bounds_parts(bounds@) + trait_items_parts(items@),
            );
        },
        ItemKind::TraitAlias(generics, bounds) => {
            nodes_in_one_part(Part::Generics(generics));
            nodes_in_bounds_parts(bounds@, bounds@.len() as int);
            assert(bounds@.take(bounds@.len() as int) =~= bounds@);
            nodes_in_joined_parts(seq![Part::Generics(generics)], bounds_parts(bounds@));
        },
        ItemKind::Impl(_, _, _, generics, trait_ref, ty, items) => {
            nodes_in_one_part(Part::Generics(generics));
            if let Some(x) = trait_ref {
                nodes_in_one_part(Part::TraitRef(x));
            }
            nodes_in_one_part(Part::Ty(*ty));
            nodes_in_impl_items_parts(items@, items@.len() as int);
            assert(items@.take(items@.len() as int) =~= items@);
            nodes_in_joined_parts(seq![Part::Ty(*ty)], impl_items_parts(items@));
            nodes_in_joined_parts(
                optional_trait_ref_parts(trait_ref),
                seq![Part::Ty(*ty)] + impl_items_parts(items@),
            );
            nodes_in_joined_parts(
                seq![Part::Generics(generics)],
                optional_trait_ref_parts(trait_ref)
                    + (seq![Part::Ty(*ty)] + impl_items_parts(items@)),
            );
        },
        ItemKind::Mac(mac) => {
            nodes_in_one_part(Part::Mac(mac));
        },
        _ => {},
    }
}

/// Every node that the form of an item holds in a field is a part of it.
pub proof fn fields_of_item_kind_are_parts(node: ItemKind)
    ensures
        node matches ItemKind::Static(
            ty,
            _,
            expr,
        ) ==> parts(
            Part::ItemKind(node),
        ).contains(Part::Ty(*ty)) && parts(Part::ItemKind(node)).contains(Part::Expr(*expr)),
        node matches ItemKind::Const(
            ty,
            expr,
        ) ==> parts(
            Part::ItemKind(node),
        ).contains(Part::Ty(*ty)) && parts(Part::ItemKind(node)).contains(Part::Expr(*expr)),
        node matches ItemKind::Fn(
            decl,
            _,
            generics,
            block,
        ) ==> parts(
            Part::ItemKind(node),
        ).contains(
            Part::FnDecl(*decl),
        ) && parts(
            Part::ItemKind(node),
        ).contains(
            Part::Generics(generics),
        ) && parts(Part::ItemKind(node)).contains(Part::Block(*block)),
        node matches ItemKind::Mod(
            module,
        ) ==> parts(Part::ItemKind(node)).contains(Part::Mod(module)),
        node matches ItemKind::ForeignMod(
            foreign_mod,
        ) ==> parts(Part::ItemKind(node)).contains(Part::ForeignMod(foreign_mod)),
        node matches ItemKind::TyAlias(
            ty,
            generics,
        ) ==> parts(
            Part::ItemKind(node),
        ).contains(Part::Ty(*ty)) && parts(Part::ItemKind(node)).contains(Part::Generics(generics)),
        node matches ItemKind::OpaqueTy(
            bounds,
            generics,
        ) ==> (
            forall|i: int| 0 <= i < bounds@.len() ==> parts(
                Part::ItemKind(node),
            ).contains(Part::GenericBound(#[trigger] bounds@[i]))
        ) && parts(Part::ItemKind(node)).contains(Part::Generics(generics)),
        node matches ItemKind::Enum(
            definition,
            generics,
        ) ==> parts(
            Part::ItemKind(node),
        ).contains(
            Part::EnumDef(definition),
        ) && parts(Part::ItemKind(node)).contains(Part::Generics(generics)),
        node matches ItemKind::Struct(
            data,
            generics,
        ) ==> parts(
            Part::ItemKind(node),
        ).contains(
            Part::VariantData(data),
        ) && parts(Part::ItemKind(node)).contains(Part::Generics(generics)),
        node matches ItemKind::Union(
            data,
            generics,
        ) ==> parts(
            Part::ItemKind(node),
        ).contains(
            Part::VariantData(data),
        ) && parts(Part::ItemKind(node)).contains(Part::Generics(generics)),
        node matches ItemKind::Trait(
            _,
            _,
            generics,
            bounds,
            items,
        ) ==> parts(
            Part::ItemKind(node),
        ).contains(
            Part::Generics(generics),
        ) && (
            forall|i: int| 0 <= i < bounds@.len() ==> parts(
                Part::ItemKind(node),
            ).contains(Part::GenericBound(#[trigger] bounds@[i]))
        ) && (
            forall|i: int| 0 <= i < items@.len() ==> parts(
                Part::ItemKind(node),
            ).contains(Part::TraitItem(#[trigger] items@[i]))
        ),
        node matches ItemKind::TraitAlias(
            generics,
            bounds,
        ) ==> parts(
            Part::ItemKind(node),
        ).contains(
            Part::Generics(generics),
        ) && (
            forall|i: int| 0 <= i < bounds@.len() ==> parts(
                Part::ItemKind(node),
            ).contains(Part::GenericBound(#[trigger] bounds@[i]))
        ),
        node matches ItemKind::Impl(
            _,
            _,
            _,
            generics,
            trait_ref,
            ty,
            items,
        ) ==> parts(
            Part::ItemKind(node),
        ).contains(
            Part::Generics(generics),
        ) && (
            trait_ref matches Some(x) ==> parts(Part::ItemKind(node)).contains(Part::TraitRef(x))
        ) && parts(
            Part::ItemKind(node),
        ).contains(
            Part::Ty(*ty),
        ) && (
            forall|i: int| 0 <= i < items@.len() ==> parts(
                Part::ItemKind(node),
            ).contains(Part::ImplItem(#[trigger] items@[i]))
        ),
        node matches ItemKind::Mac(mac) ==> parts(Part::ItemKind(node)).contains(Part::Mac(mac)),
{
    broadcast use group_contains;

    match node {
        ItemKind::OpaqueTy(bounds, _) => {
            assert forall|i: int| 0 <= i < bounds@.len() implies bounds_parts(bounds@).contains(
                Part::GenericBound(#[trigger] bounds@[i]),
            ) by {
                assert(bounds_parts(bounds@)[i] == Part::GenericBound(bounds@[i]));
            }
        },
        ItemKind::Trait(_, _, _, bounds, items) => {
            assert forall|i: int| 0 <= i < bounds@.len() implies bounds_parts(bounds@).contains(
                Part::GenericBound(#[trigger] bounds@[i]),
            ) by {
                assert(bounds_parts(bounds@)[i] == Part::GenericBound(bounds@[i]));
            }
            assert forall|i: int| 0 <= i < items@.len() implies trait_items_parts(items@).contains(
                Part::TraitItem(#[trigger] items@[i]),
            ) by {
                assert(trait_items_parts(items@)[i] == Part::TraitItem(items@[i]));
            }
        },
        ItemKind::TraitAlias(_, bounds) => {
            assert forall|i: int| 0 <= i < bounds@.len() implies bounds_parts(bounds@).contains(
                Part::GenericBound(#[trigger] bounds@[i]),
            ) by {
                assert(bounds_parts(bounds@)[i] == Part::GenericBound(bounds@[i]));
            }
        },
        ItemKind::Impl(_, _, _, _, _, _, items) => {
            assert forall|i: int| 0 <= i < items@.len() implies impl_items_parts(items@).contains(
                Part::ImplItem(#[trigger] items@[i]),
            ) by {
                assert(impl_items_parts(items@)[i] == Part::ImplItem(items@[i]));
            }
        },
        _ => {},
    }
}

/// The parts of the form of an item stand in the order of the text.
pub proof fn parts_of_item_kind_stand_in_order(node: ItemKind)
    ensures
        node matches ItemKind::Static(
            ty,
            _,
            expr,
        ) ==> parts(
            Part::ItemKind(node),
        ).len() == 2 && parts(
            Part::ItemKind(node),
        )[0] == Part::Ty(*ty) && parts(Part::ItemKind(node))[1] == Part::Expr(*expr),
        node matches ItemKind::Const(
            ty,
            expr,
        ) ==> parts(
            Part::ItemKind(node),
        ).len() == 2 && parts(
            Part::ItemKind(node),
        )[0] == Part::Ty(*ty) && parts(Part::ItemKind(node))[1] == Part::Expr(*expr),
        node matches ItemKind::Fn(
            decl,
            _,
            generics,
            block,
        ) ==> parts(
            Part::ItemKind(node),
        ).len() == 3 && parts(
            Part::ItemKind(node),
        )[0] == Part::FnDecl(
            *decl,
        ) && parts(
            Part::ItemKind(node),
        )[1] == Part::Generics(generics) && parts(Part::ItemKind(node))[2] == Part::Block(*block),
        node matches ItemKind::TyAlias(
            ty,
            generics,
        ) ==> parts(
            Part::ItemKind(node),
        ).len() == 2 && parts(
            Part::ItemKind(node),
        )[0] == Part::Ty(*ty) && parts(Part::ItemKind(node))[1] == Part::Generics(generics),
        node matches ItemKind::OpaqueTy(
            bounds,
            generics,
        ) ==> parts(
            Part::ItemKind(node),
        ).len() == (
            bounds@.len() as int
        ) + 1 && (
            forall|i: int| 0 <= i < bounds@.len() ==> parts(
                Part::ItemKind(node),
            )[i] == Part::GenericBound(#[trigger] bounds@[i])
        ) && parts(Part::ItemKind(node))[(bounds@.len() as int)] == Part::Generics(generics),
        node matches ItemKind::Enum(
            definition,
            generics,
        ) ==> parts(
            Part::ItemKind(node),
        ).len() == 2 && parts(
            Part::ItemKind(node),
        )[0] == Part::EnumDef(
            definition,
        ) && parts(Part::ItemKind(node))[1] == Part::Generics(generics),
        node matches ItemKind::Struct(
            data,
            generics,
        ) ==> parts(
            Part::ItemKind(node),
        ).len() == 2 && parts(
            Part::ItemKind(node),
        )[0] == Part::VariantData(
            data,
        ) && parts(Part::ItemKind(node))[1] == Part::Generics(generics),
        node matches ItemKind::Union(
            data,
            generics,
        ) ==> parts(
            Part::ItemKind(node),
        ).len() == 2 && parts(
            Part::ItemKind(node),
        )[0] == Part::VariantData(
            data,
        ) && parts(Part::ItemKind(node))[1] == Part::Generics(generics),
        node matches ItemKind::Trait(
            _,
            _,
            generics,
            bounds,
            items,
        ) ==> parts(
            Part::ItemKind(node),
        ).len() == (
            bounds@.len() as int
        ) + (
            items@.len() as int
        ) + 1 && parts(
            Part::ItemKind(node),
        )[0] == Part::Generics(
            generics,
        ) && (
            forall|i: int| 0 <= i < bounds@.len() ==> parts(
                Part::ItemKind(node),
            )[1 + i] == Part::GenericBound(#[trigger] bounds@[i])
        ) && (
            forall|i: int| 0 <= i < items@.len() ==> parts(
                Part::ItemKind(node),
            )[(bounds@.len() as int) + 1 + i] == Part::TraitItem(#[trigger] items@[i])
        ),
        node matches ItemKind::TraitAlias(
            generics,
            bounds,
        ) ==> parts(
            Part::ItemKind(node),
        ).len() == (
            bounds@.len() as int
        ) + 1 && parts(
            Part::ItemKind(node),
        )[0] == Part::Generics(
            generics,
        ) && (
            forall|i: int| 0 <= i < bounds@.len() ==> parts(
                Part::ItemKind(node),
            )[1 + i] == Part::GenericBound(#[trigger] bounds@[i])
        ),
        node matches ItemKind::Impl(
            _,
            _,
            _,
            generics,
            trait_ref,
            ty,
            items,
        ) ==> parts(
            Part::ItemKind(node),
        ).len() == one_if(
            trait_ref is Some,
        ) + (
            items@.len() as int
        ) + 2 && parts(
            Part::ItemKind(node),
        )[0] == Part::Generics(
            generics,
        ) && (
            trait_ref matches Some(x) ==> parts(Part::ItemKind(node))[1] == Part::TraitRef(x)
        ) && parts(
            Part::ItemKind(node),
        )[one_if(
            trait_ref is Some,
        ) + 1] == Part::Ty(
            *ty,
        ) && (
            forall|i: int| 0 <= i < items@.len() ==> parts(
                Part::ItemKind(node),
            )[one_if(trait_ref is Some) + 2 + i] == Part::ImplItem(#[trigger] items@[i])
        ),
{
}

/// What an item is made of, in the order of the text.
pub open spec fn parts_of_item(node: Item) -> Seq<Part> {
    seq![Part::ItemKind(node.kind)]
}

/// Items as parts.
pub open spec fn items_parts(list: Seq<Item>) -> Seq<Part> {
    list.map_values(|x: Item| Part::Item(x))
}

impl<
    S,
    F: Fn(&S, &str) -> (S, bool),
    G: Fn(&S, &Expr) -> (S, Expr),
    H: Fn(&S, &Mac) -> S,
> Rules<S, F, G, H> {
    /// Going through an item is going through what it is made of, part by part.
    pub proof fn goes_through_the_parts_of_item(
        self,
        from: S,
        before: Item,
        to: S,
        after: Item,
    )
        requires
            self.visited_item(from, before, to, after),
        ensures
            self.visited_parts(from, parts_of_item(before), to, parts_of_item(after)),
    {
        self.single_part(from, Part::ItemKind(before.kind), to, Part::ItemKind(after.kind));
    }

    /// A visitor whose calls can always be made can go through an item.
    pub(crate) proof fn total_goes_through_item(self, node: Item)
        requires
            self.is_total(),
        ensures
            self.can_visit_item(node),
        decreases node,
    {
        self.total_goes_through_item_kind(node.kind);
    }

    /// Going through a list of items is going through them one by one.
    pub(crate) proof fn items_are_parts(
        self,
        from: S,
        before: Seq<Item>,
        to: S,
        after: Seq<Item>,
    )
        requires
            self.visited_items(from, before, to, after),
        ensures
            self.visited_parts(from, items_parts(before), to, items_parts(after)),
        decreases before.len(),
    {
        if before.len() > 0 {
            let mid = choose|mid: S|
                {
                    &&& #[trigger] between(mid)
                    &&& self.visited_items(from, before.drop_last(), mid, after.drop_last())
                    &&& self.visited_item(mid, before.last(), to, after.last())
                };
            self.items_are_parts(from, before.drop_last(), mid, after.drop_last());
            assert(items_parts(before).drop_last() =~= items_parts(before.drop_last()));
            assert(items_parts(after).drop_last() =~= items_parts(after.drop_last()));
        }
    }
}

/// What is visited in an item is what is visited in what it is made of, part by part, behind the
/// node itself.
pub proof fn visits_the_parts_of_item(node: Item)
    ensures
        nodes_in_item(
            node,
        ) == joined(seq![Visited::Item(&node)], nodes_in_parts(parts_of_item(node))),
{
    nodes_in_one_part(Part::ItemKind(node.kind));
}

/// What is visited in a list of items is what is visited in them one by one.
pub(crate) proof fn nodes_in_items_parts(list: Seq<Item>, count: int)
    requires
        0 <= count <= list.len(),
    ensures
        nodes_in_items(list, count) == nodes_in_parts(items_parts(list.take(count))),
    decreases count,
{
    if count > 0 {
        nodes_in_items_parts(list, count - 1);
        assert(items_parts(list.take(count)).drop_last() =~= items_parts(list.take(count - 1)));
    }
}

/// Every node that an item holds in a field is a part of it.
pub proof fn fields_of_item_are_parts(node: Item)
    ensures
        parts(Part::Item(node)).contains(Part::ItemKind(node.kind)),
{
    broadcast use group_contains;

}

/// What a crate is made of, in the order of the text.
pub open spec fn parts_of_crate(node: Crate) -> Seq<Part> {
    seq![Part::Mod(node.module)]
}

impl<
    S,
    F: Fn(&S, &str) -> (S, bool),
    G: Fn(&S, &Expr) -> (S, Expr),
    H: Fn(&S, &Mac) -> S,
> Rules<S, F, G, H> {
    /// Going through a crate is going through what it is made of, part by part.
    pub proof fn goes_through_the_parts_of_crate(
        self,
        from: S,
        before: Crate,
        to: S,
        after: Crate,
    )
        requires
            self.visited_crate(from, before, to, after),
        ensures
            self.visited_parts(from, parts_of_crate(before), to, parts_of_crate(after)),
    {
        self.single_part(from, Part::Mod(before.module), to, Part::Mod(after.module));
    }

    /// A visitor whose calls can always be made can go through a crate.
    pub(crate) proof fn total_goes_through_crate(self, node: Crate)
        requires
            self.is_total(),
        ensures
            self.can_visit_crate(node),
        decreases node,
    {
        self.total_goes_through_mod(node.module);
    }
}

/// Every node that a crate holds in a field is a part of it.
pub proof fn fields_of_crate_are_parts(node: Crate)
    ensures
        parts(Part::Crate(node)).contains(Part::Mod(node.module)),
{
    broadcast use group_contains;

}

} // verus!
