//! Items.

use vstd::prelude::*;

use crate::ast::attr::Attribute;
use crate::ast::flags::AttrStyle;
use crate::ast::func::Param;
use crate::ast::generics::{GenericBound, GenericParam, GenericParamKind};
use crate::ast::ident::{
    AttrId, Ident, SimplePath, dummy_id, dummy_node_id, fresh_ident,
};
use crate::ast::item::{
    ForeignItem, ForeignItemKind, Item, ItemKind, Mod, NestedUse, StructField, UseTree,
    UseTreeKind, VariantData,
};
use crate::ast::path::Path;
use crate::ast::span::{dummy_sp, dummy_span};
use crate::ast::ty::Ty;
use crate::error::Error;
use crate::lists::refs;
use crate::text::{lifetime_name, lifetime_text, same_text};

verus! {

/// The fields of a struct, a union or an enum variant, in order.
pub open spec fn fields_of(data: VariantData) -> Seq<StructField> {
    match data {
        VariantData::Struct(fields, _) => fields@,
        VariantData::Tuple(fields, _) => fields@,
        VariantData::Unit(_) => seq![],
    }
}

impl VariantData {
    /// The fields of a struct, a union or an enum variant.
    pub fn fields(&self) -> (fields: Vec<&StructField>)
        ensures
            fields@.unref() == fields_of(*self),
    {
        match self {
            VariantData::Struct(fields, _) => refs(fields),
            VariantData::Tuple(fields, _) => refs(fields),
            VariantData::Unit(_) => {
                let none: Vec<&StructField> = Vec::new();
                assert(none@.unref() =~= seq![]);
                none
            },
        }
    }
}

/// The fields that a script sees of an item: those of a struct.
pub open spec fn item_fields(kind: ItemKind) -> Option<Seq<StructField>> {
    match kind {
        ItemKind::Struct(data, _) => Some(fields_of(data)),
        _ => None,
    }
}

/// The parameters that a script sees of an item: those of a function.
pub open spec fn item_args(kind: ItemKind) -> Option<Seq<Param>> {
    match kind {
        ItemKind::Fn(decl, ..) => Some(decl.inputs@),
        _ => None,
    }
}

/// The generic parameters of a function or a struct, the items to which a lifetime can be
/// added.
pub open spec fn lifetime_params(kind: ItemKind) -> Option<Seq<GenericParam>> {
    match kind {
        ItemKind::Struct(_, generics) => Some(generics.params@),
        ItemKind::Fn(_, _, generics, _) => Some(generics.params@),
        _ => None,
    }
}

/// `param` is the lifetime parameter that a script calls by `name`.
pub open spec fn is_lifetime_param(param: GenericParam, name: Seq<char>) -> bool {
    &&& param.id == dummy_id()
    &&& param.ident.name@ == lifetime_text(name)
    &&& param.ident.span == dummy_span()
    &&& param.attrs@ == Seq::<Attribute>::empty()
    &&& param.bounds@ == Seq::<GenericBound>::empty()
    &&& param.kind is Lifetime
    &&& !param.is_placeholder
}

/// One of the parameters is the lifetime that a script calls by `name`.
pub open spec fn has_lifetime(params: Seq<GenericParam>, name: Seq<char>) -> bool {
    exists|i: int|
        0 <= i < params.len() && names_lifetime(#[trigger] params[i], name)
}

/// The parameter is a lifetime of this name, written in the root syntax context.
pub open spec fn names_lifetime(param: GenericParam, name: Seq<char>) -> bool {
    &&& param.kind is Lifetime
    &&& param.ident.name@ == lifetime_text(name)
    &&& param.ident.span.ctxt == dummy_span().ctxt
}

/// The two forms agree in all but the list of their generic parameters.
pub open spec fn same_but_params(kind: ItemKind, other: ItemKind) -> bool {
    match (kind, other) {
        (ItemKind::Struct(data, generics), ItemKind::Struct(data2, generics2)) => {
            &&& data == data2
            &&& generics.where_clause == generics2.where_clause
            &&& generics.span == generics2.span
        },
        (
            ItemKind::Fn(decl, header, generics, body),
            ItemKind::Fn(decl2, header2, generics2, body2),
        ) => {
            &&& decl == decl2
            &&& header == header2
            &&& generics.where_clause == generics2.where_clause
            &&& generics.span == generics2.span
            &&& body == body2
        },
        _ => kind == other,
    }
}

/// `after` is `before` with the lifetime parameter `name` added behind the others, where it
/// can have one and has none of that name yet.
pub open spec fn lifetime_added(before: ItemKind, name: Seq<char>, after: ItemKind) -> bool {
    match lifetime_params(before) {
        Some(params) => if has_lifetime(params, name) {
            after == before
        } else {
            &&& same_but_params(before, after)
            &&& lifetime_params(after) matches Some(longer)
            &&& longer.len() == params.len() + 1
            &&& longer.drop_last() == params
            &&& is_lifetime_param(longer.last(), name)
        },
        None => after == before,
    }
}

/// Adds a lifetime parameter to the end of a list that has none of that name.
fn add_lifetime_param(params: &mut Vec<GenericParam>, lt_name: &str)
    ensures
        has_lifetime(old(params)@, lt_name@) ==> *final(params) == *old(params),
        !has_lifetime(old(params)@, lt_name@) ==> {
            &&& final(params)@.len() == old(params)@.len() + 1
            &&& final(params)@.drop_last() == old(params)@
            &&& is_lifetime_param(final(params)@.last(), lt_name@)
        },
{
    let generic_param = GenericParam {
        id: dummy_node_id(),
        ident: Ident::from_str(lifetime_name(lt_name)),
        attrs: Vec::new(),
        bounds: Vec::new(),
        kind: GenericParamKind::Lifetime,
        is_placeholder: false,
    };
    let mut i: usize = 0;
    while i < params.len()
        invariant
            i <= params@.len(),
            *params == *old(params),
            is_lifetime_param(generic_param, lt_name@),
            forall|j: int| 0 <= j < i ==> !names_lifetime(#[trigger] params@[j], lt_name@),
        decreases params@.len() - i,
    {
        if let GenericParamKind::Lifetime = params[i].kind {
            if params[i].ident.is(&generic_param.ident) {
                assert(names_lifetime(params@[i as int], lt_name@));
                return;
            }
        }
        i += 1;
    }
    params.push(generic_param);
    assert(params@.drop_last() =~= old(params)@);
}

/// Adds a lifetime parameter to a function or a struct that has none of that name. Other items
/// stay as they are.
pub fn add_item_lifetime(item_kind: &mut ItemKind, lt_name: &str)
    ensures
        lifetime_added(*old(item_kind), lt_name@, *final(item_kind)),
{
    match item_kind {
        ItemKind::Struct(_, generics) => add_lifetime_param(&mut generics.params, lt_name),
        ItemKind::Fn(_, _, generics, _) => add_lifetime_param(&mut generics.params, lt_name),
        _ => {},
    }
}

/// The ids of the parameters, in order.
pub open spec fn param_ids(params: Seq<Param>) -> Seq<u32> {
    params.map_values(|param: Param| param.id.0)
}

/// The ids of the fields, in order.
pub open spec fn field_ids(fields: Seq<StructField>) -> Seq<u32> {
    fields.map_values(|field: StructField| field.id.0)
}

impl ItemKind {
    /// Adds a lifetime parameter to a function or a struct that has none of that name.
    pub fn add_lifetime(&mut self, lt_name: &str)
        ensures
            lifetime_added(*old(self), lt_name@, *final(self)),
    {
        add_item_lifetime(self, lt_name);
    }

    /// The ids of the fields of a struct.
    pub fn get_field_ids(&self) -> (result: Option<Vec<u32>>)
        ensures
            match item_fields(*self) {
                Some(fields) => result is Some && result->0@ == field_ids(fields),
                None => result is None,
            },
    {
        if let ItemKind::Struct(data, _) = self {
            let fields: Vec<&StructField> = data.fields();
            let mut ids: Vec<u32> = Vec::new();
            let mut i: usize = 0;
            while i < fields.len()
                invariant
                    i <= fields@.len(),
                    fields@.unref() == fields_of(*data),
                    ids@ == field_ids(fields_of(*data).take(i as int)),
                decreases fields@.len() - i,
            {
                assert(*fields@[i as int] == fields@.unref()[i as int]);
                ids.push(fields[i].id.as_u32());
                i += 1;
                assert(ids@ =~= field_ids(fields_of(*data).take(i as int)));
            }
            assert(fields_of(*data).take(i as int) =~= fields_of(*data));
            return Some(ids);
        }
        None
    }

    /// The ids of the parameters of a function.
    pub fn get_arg_ids(&self) -> (result: Option<Vec<u32>>)
        ensures
            match item_args(*self) {
                Some(params) => result is Some && result->0@ == param_ids(params),
                None => result is None,
            },
    {
        if let ItemKind::Fn(decl, _, _, _) = self {
            let mut ids: Vec<u32> = Vec::new();
            let mut i: usize = 0;
            while i < decl.inputs.len()
                invariant
                    i <= decl.inputs@.len(),
                    ids@ == param_ids(decl.inputs@.take(i as int)),
                decreases decl.inputs@.len() - i,
            {
                ids.push(decl.inputs[i].id.as_u32());
                i += 1;
                assert(ids@ =~= param_ids(decl.inputs@.take(i as int)));
            }
            assert(decl.inputs@.take(i as int) =~= decl.inputs@);
            return Some(ids);
        }
        None
    }
}

/// The attribute is called by this one name.
pub open spec fn has_name(attr: Attribute, name: Seq<char>) -> bool {
    attr.path.segments@.len() == 1 && attr.path.segments@[0].name@ == name
}

/// `attr` is `#[derive(Clone)]`, as a script makes it.
pub open spec fn is_clone_derive(attr: Attribute) -> bool {
    &&& attr.path.span == dummy_span()
    &&& attr.path.segments@.len() == 1
    &&& attr.path.segments@[0].name@ == "derive"@
    &&& attr.path.segments@[0].span == dummy_span()
    &&& attr.tokens@ == "(Clone)"@
    &&& attr.id == AttrId(0)
    &&& attr.style == AttrStyle::Outer
    &&& !attr.is_sugared_doc
    &&& attr.span == dummy_span()
}

/// `index` is the position of the first attribute of this name.
pub open spec fn is_first_named(attrs: Seq<Attribute>, name: Seq<char>, index: int) -> bool {
    &&& 0 <= index < attrs.len()
    &&& has_name(attrs[index], name)
    &&& forall|i: int| 0 <= i < index ==> !has_name(#[trigger] attrs[i], name)
}

/// `after` is `before` without the first attribute that marks a derived copy, and with
/// `#[derive(Clone)]` behind the others.
pub open spec fn copy_derive_removed(before: Seq<Attribute>, after: Seq<Attribute>) -> bool {
    let marker = "rustc_copy_clone_marker"@;
    &&& after.len() > 0
    &&& is_clone_derive(after.last())
    &&& (forall|i: int| 0 <= i < before.len() ==> !has_name(#[trigger] before[i], marker))
        ==> after.drop_last() == before
    &&& forall|i: int| #[trigger]
        is_first_named(before, marker, i) ==> after.drop_last() == before.remove(i)
}

impl Attribute {
    /// The name of an attribute whose name is a single word.
    pub fn ident(&self) -> (result: Option<&Ident>)
        ensures
            if self.path.segments@.len() == 1 {
                result == Some(&self.path.segments@[0])
            } else {
                result is None
            },
    {
        if self.path.segments.len() == 1 {
            Some(&self.path.segments[0])
        } else {
            None
        }
    }

    /// Whether the attribute is called by this one name.
    pub fn check_name(&self, name: &str) -> (result: bool)
        ensures
            result == has_name(*self, name@),
    {
        match self.ident() {
            Some(ident) => same_text(ident.name.as_str(), name),
            None => false,
        }
    }
}

/// `#[derive(Clone)]`.
fn clone_derive() -> (attr: Attribute)
    ensures
        is_clone_derive(attr),
{
    Attribute {
        path: SimplePath {
            span: dummy_sp(),
            segments: vec![Ident::from_str("derive".to_owned())],
        },
        tokens: "(Clone)".to_owned(),
        id: AttrId(0),
        style: AttrStyle::Outer,
        is_sugared_doc: false,
        span: dummy_sp(),
    }
}

impl Item {
    /// Renames the item.
    pub fn set_ident(&mut self, ident: String)
        ensures
            *final(self) == (Item { ident: fresh_ident(ident), ..*old(self) }),
    {
        self.ident = Ident::from_str(ident);
    }

    /// The name of the item's visibility.
    pub fn get_vis(&self) -> (name: &'static str)
        ensures
            name == self.vis.node.ast_name(),
    {
        self.vis.node.ast_name()
    }

    /// The tree of a `use` item.
    pub fn get_node(&self) -> (result: Result<&UseTree, Error>)
        ensures
            match self.kind {
                ItemKind::Use(tree) => result == Ok::<&UseTree, Error>(&tree),
                _ => result == Err::<&UseTree, Error>(Error::ItemNode),
            },
    {
        match &self.kind {
            ItemKind::Use(tree) => Ok(tree),
            _ => Err(Error::ItemNode),
        }
    }

    /// The fields of a struct.
    pub fn get_fields(&self) -> (result: Option<Vec<&StructField>>)
        ensures
            match item_fields(self.kind) {
                Some(fields) => result is Some && result->0@.unref() == fields,
                None => result is None,
            },
    {
        if let ItemKind::Struct(data, _) = &self.kind {
            return Some(data.fields());
        }
        None
    }

    /// The ids of the parameters of a function.
    pub fn get_arg_ids(&self) -> (result: Option<Vec<u32>>)
        ensures
            match item_args(self.kind) {
                Some(params) => result is Some && result->0@ == param_ids(params),
                None => result is None,
            },
    {
        self.kind.get_arg_ids()
    }

    /// The parameters of a function.
    pub fn get_args(&self) -> (result: Option<Vec<&Param>>)
        ensures
            match item_args(self.kind) {
                Some(params) => result is Some && result->0@.unref() == params,
                None => result is None,
            },
    {
        if let ItemKind::Fn(decl, _, _, _) = &self.kind {
            return Some(refs(&decl.inputs));
        }
        None
    }

    /// Replaces the parameters of a function. Other items stay as they are.
    pub fn set_args(&mut self, args: Vec<Param>)
        ensures
            match old(self).kind {
                ItemKind::Fn(decl, header, generics, body) => {
                    &&& *final(self) == (Item { kind: final(self).kind, ..*old(self) })
                    &&& final(self).kind matches ItemKind::Fn(decl2, header2, generics2, body2)
                    &&& decl2.inputs == args
                    &&& decl2.output == decl.output
                    &&& header2 == header
                    &&& generics2 == generics
                    &&& body2 == body
                },
                _ => *final(self) == *old(self),
            },
            old(self).kind is Fn ==> item_args(final(self).kind) == Some(args@),
    {
        if let ItemKind::Fn(decl, _, _, _) = &mut self.kind {
            decl.inputs = args;
        }
    }

    /// Adds a lifetime parameter to a function or a struct that has none of that name.
    pub fn add_lifetime(&mut self, lt_name: &str)
        ensures
            *final(self) == (Item { kind: final(self).kind, ..*old(self) }),
            lifetime_added(old(self).kind, lt_name@, final(self).kind),
    {
        add_item_lifetime(&mut self.kind, lt_name);
    }

    /// The path of the trait that an `impl` implements.
    pub fn get_trait_ref(&self) -> (result: Option<&Path>)
        ensures
            match self.kind {
                ItemKind::Impl(_, _, _, _, Some(trait_ref), ..) => result == Some(
                    &trait_ref.path,
                ),
                _ => result is None,
            },
    {
        if let ItemKind::Impl(_, _, _, _, opt_trait_ref, _, _) = &self.kind {
            if let Some(trait_ref) = opt_trait_ref {
                return Some(&trait_ref.path);
            }
        }
        None
    }

    /// Takes the mark of a derived copy off the item and derives `Clone` alone.
    pub fn remove_copy_derive(&mut self)
        ensures
            *final(self) == (Item { attrs: final(self).attrs, ..*old(self) }),
            copy_derive_removed(old(self).attrs@, final(self).attrs@),
    {
        let ghost before = self.attrs@;
        let ghost marker = "rustc_copy_clone_marker"@;
        let mut i: usize = 0;
        while i < self.attrs.len() && !self.attrs[i].check_name("rustc_copy_clone_marker")
            invariant
                i <= self.attrs@.len(),
                *self == *old(self),
                marker == "rustc_copy_clone_marker"@,
                forall|j: int| 0 <= j < i ==> !has_name(#[trigger] self.attrs@[j], marker),
            decreases self.attrs@.len() - i,
        {
            i += 1;
        }
        if i < self.attrs.len() {
            self.attrs.remove(i);
        }
        self.attrs.push(clone_derive());
        proof {
            assert forall|k: int| #[trigger] is_first_named(before, marker, k) implies k == i by {
                if k < i {
                    assert(!has_name(before[k], marker));
                }
                if i < k {
                    assert(!has_name(before[i as int], marker));
                }
            }
            if i < before.len() {
                assert(self.attrs@.drop_last() =~= before.remove(i as int));
                assert(has_name(before[i as int], marker));
            } else {
                assert(self.attrs@.drop_last() =~= before);
            }
        }
    }
}

impl ForeignItem {
    /// Renames the item.
    pub fn set_ident(&mut self, ident: String)
        ensures
            *final(self) == (ForeignItem { ident: fresh_ident(ident), ..*old(self) }),
    {
        self.ident = Ident::from_str(ident);
    }

    /// The parameters of a foreign function.
    pub fn get_args(&self) -> (result: Option<Vec<&Param>>)
        ensures
            match self.kind {
                ForeignItemKind::Fn(decl, _) => result is Some && result->0@.unref()
                    == decl.inputs@,
                _ => result is None,
            },
    {
        if let ForeignItemKind::Fn(decl, _) = &self.kind {
            return Some(refs(&decl.inputs));
        }
        None
    }
}

impl StructField {
    /// Replaces the type of the field.
    pub fn set_ty(&mut self, ty: Ty)
        ensures
            *final(self) == (StructField { ty: Box::new(ty), ..*old(self) }),
    {
        self.ty = Box::new(ty);
    }

    /// The attributes of the field.
    pub fn get_attrs(&self) -> (attrs: Vec<&Attribute>)
        ensures
            attrs@.unref() == self.attrs@,
    {
        refs(&self.attrs)
    }
}

impl Mod {
    /// How many items stand in the module.
    pub fn num_items(&self) -> (count: usize)
        ensures
            count == self.items@.len(),
    {
        self.items.len()
    }

    /// Puts an item into the module before the one at `index`, or behind the last one.
    pub fn insert_item(&mut self, index: usize, item: Item)
        requires
            index <= old(self).items@.len(),
        ensures
            *final(self) == (Mod { items: final(self).items, ..*old(self) }),
            final(self).items@ == old(self).items@.insert(index as int, item),
    {
        self.items.insert(index, item);
    }

    /// Takes all items out of the module.
    pub fn drain_items(&mut self) -> (items: Vec<Item>)
        ensures
            items@ == old(self).items@,
            *final(self) == (Mod { items: final(self).items, ..*old(self) }),
            final(self).items@ == Seq::<Item>::empty(),
    {
        let mut items: Vec<Item> = Vec::new();
        items.append(&mut self.items);
        assert(items@ =~= old(self).items@);
        items
    }
}

impl UseTree {
    /// The name under which a plain import is imported, where it is renamed.
    pub fn get_rename(&self) -> (result: Option<&str>)
        ensures
            match self.kind {
                UseTreeKind::Simple(Some(rename), _, _) => result is Some && result->0@
                    == rename.name@,
                _ => result is None,
            },
    {
        match &self.kind {
            UseTreeKind::Simple(Some(rename), _, _) => Some(rename.name.as_str()),
            _ => None,
        }
    }

    /// The trees between the braces, each with its id.
    pub fn get_nested(&self) -> (result: Option<Vec<&NestedUse>>)
        ensures
            match self.kind {
                UseTreeKind::Nested(trees) => result is Some && result->0@.unref() == trees@,
                _ => result is None,
            },
    {
        match &self.kind {
            UseTreeKind::Nested(trees) => Some(refs(trees)),
            _ => None,
        }
    }
}

} // verus!
