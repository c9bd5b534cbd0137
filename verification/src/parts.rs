//! What the nodes of a tree are made of, whatever goes through them.

use vstd::prelude::*;

use crate::ast::attr::Mac;
use crate::ast::expr::{
    AnonConst, Arm, Expr, ExprKind, Field, InlineAsm, InlineAsmInput, InlineAsmOutput,
};
use crate::ast::func::{FnDecl, FunctionRetTy, MethodSig, Param};
use crate::ast::generics::{
    GenericBound, GenericParam, GenericParamKind, Generics, PolyTraitRef, TraitRef,
    WhereBoundPredicate, WhereClause, WhereEqPredicate, WherePredicate, WhereRegionPredicate,
};
use crate::ast::item::{
    Crate, EnumDef, ForeignItem, ForeignItemKind, ForeignMod, ImplItem, ImplItemKind, Item,
    ItemKind, Mod, StructField, TraitItem, TraitItemKind, Variant, VariantData,
};
use crate::ast::pat::{FieldPat, Pat, PatKind};
use crate::ast::path::{
    AngleBracketedArgs, AssocTyConstraint, AssocTyConstraintKind, GenericArg, GenericArgs,
    ParenthesizedArgs, Path, PathSegment, QSelf,
};
use crate::ast::stmt::{Block, Local, MacStmt, Stmt, StmtKind};
use crate::ast::ty::{BareFnTy, MutTy, Ty, TyKind};
use crate::filter_map::{Rules, between};
use crate::parts::expr::{
    parts_of_anon_const, parts_of_arm, parts_of_asm_input, parts_of_asm_output, parts_of_expr,
    parts_of_expr_kind, parts_of_field, parts_of_inline_assembly, visit_parts_of_inline_assembly,
    visits_the_parts_of_anon_const, visits_the_parts_of_arm, visits_the_parts_of_asm_input,
    visits_the_parts_of_asm_output, visits_the_parts_of_expr, visits_the_parts_of_expr_kind,
    visits_the_parts_of_field, visits_the_parts_of_inline_assembly,
};
use crate::parts::func::{
    parts_of_fn_decl, parts_of_method_sig, parts_of_param, parts_of_return_ty,
    visits_the_parts_of_fn_decl, visits_the_parts_of_method_sig, visits_the_parts_of_param,
    visits_the_parts_of_return_ty,
};
use crate::parts::generics::{
    parts_of_bound, parts_of_bound_predicate, parts_of_eq_predicate, parts_of_generic_param,
    parts_of_generic_param_kind, parts_of_generics, parts_of_poly_trait_ref, parts_of_predicate,
    parts_of_region_predicate, parts_of_trait_ref, parts_of_where_clause,
    visit_parts_of_bound_predicate, visits_the_parts_of_bound, visits_the_parts_of_bound_predicate,
    visits_the_parts_of_eq_predicate, visits_the_parts_of_generic_param,
    visits_the_parts_of_generic_param_kind, visits_the_parts_of_generics,
    visits_the_parts_of_poly_trait_ref, visits_the_parts_of_predicate,
    visits_the_parts_of_region_predicate, visits_the_parts_of_trait_ref,
    visits_the_parts_of_where_clause,
};
use crate::parts::item::{
    parts_of_crate, parts_of_enum_def, parts_of_foreign_item, parts_of_foreign_item_kind,
    parts_of_foreign_mod, parts_of_impl_item, parts_of_impl_item_kind, parts_of_item,
    parts_of_item_kind, parts_of_mod, parts_of_struct_field, parts_of_trait_item,
    parts_of_trait_item_kind, parts_of_variant, parts_of_variant_data, visit_parts_of_item_kind,
    visits_the_parts_of_enum_def, visits_the_parts_of_foreign_item,
    visits_the_parts_of_foreign_item_kind, visits_the_parts_of_foreign_mod,
    visits_the_parts_of_impl_item, visits_the_parts_of_impl_item_kind, visits_the_parts_of_item,
    visits_the_parts_of_item_kind, visits_the_parts_of_mod, visits_the_parts_of_struct_field,
    visits_the_parts_of_trait_item, visits_the_parts_of_trait_item_kind,
    visits_the_parts_of_variant, visits_the_parts_of_variant_data,
};
use crate::parts::pat::{
    parts_of_field_pat, parts_of_pat, parts_of_pat_kind, visits_the_parts_of_field_pat,
    visits_the_parts_of_pat, visits_the_parts_of_pat_kind,
};
use crate::parts::path::{
    parts_of_angle_bracketed_args, parts_of_constraint, parts_of_constraint_kind,
    parts_of_generic_arg, parts_of_generic_args, parts_of_parenthesized_args, parts_of_path,
    parts_of_q_self, parts_of_segment, visits_the_parts_of_angle_bracketed_args,
    visits_the_parts_of_constraint, visits_the_parts_of_constraint_kind,
    visits_the_parts_of_generic_arg, visits_the_parts_of_generic_args,
    visits_the_parts_of_parenthesized_args, visits_the_parts_of_path, visits_the_parts_of_q_self,
    visits_the_parts_of_segment,
};
use crate::parts::stmt::{
    parts_of_block, parts_of_local, parts_of_mac_stmt, parts_of_stmt, parts_of_stmt_kind,
    visits_the_parts_of_block, visits_the_parts_of_local, visits_the_parts_of_stmt,
    visits_the_parts_of_stmt_kind,
};
use crate::parts::ty::{
    parts_of_bare_fn, parts_of_mut_ty, parts_of_ty, parts_of_ty_kind, visits_the_parts_of_bare_fn,
    visits_the_parts_of_mut_ty, visits_the_parts_of_ty, visits_the_parts_of_ty_kind,
};
use crate::visit::expr::{
    nodes_in_anon_const, nodes_in_arm, nodes_in_asm_input, nodes_in_asm_output, nodes_in_expr,
    nodes_in_expr_kind, nodes_in_field, nodes_in_inline_assembly,
};
use crate::visit::func::{nodes_in_fn_decl, nodes_in_method_sig, nodes_in_param, nodes_in_return_ty};
use crate::visit::generics::{
    nodes_in_bound, nodes_in_bound_predicate, nodes_in_eq_predicate, nodes_in_generic_param,
    nodes_in_generic_param_kind, nodes_in_generics, nodes_in_poly_trait_ref, nodes_in_predicate,
    nodes_in_region_predicate, nodes_in_trait_ref, nodes_in_where_clause,
};
use crate::visit::item::{
    nodes_in_enum_def, nodes_in_foreign_item, nodes_in_foreign_item_kind, nodes_in_foreign_mod,
    nodes_in_impl_item, nodes_in_impl_item_kind, nodes_in_item, nodes_in_item_kind, nodes_in_mod,
    nodes_in_struct_field, nodes_in_trait_item, nodes_in_trait_item_kind, nodes_in_variant,
    nodes_in_variant_data,
};
use crate::visit::pat::{nodes_in_field_pat, nodes_in_pat, nodes_in_pat_kind};
use crate::visit::path::{
    nodes_in_angle_bracketed_args, nodes_in_constraint, nodes_in_constraint_kind,
    nodes_in_generic_arg, nodes_in_generic_args, nodes_in_parenthesized_args, nodes_in_path,
    nodes_in_q_self, nodes_in_segment,
};
use crate::visit::stmt::{nodes_in_block, nodes_in_local, nodes_in_stmt, nodes_in_stmt_kind};
use crate::visit::ty::{nodes_in_bare_fn, nodes_in_mut_ty, nodes_in_ty, nodes_in_ty_kind};
use crate::visit::{Visited, foreign_items_of, group_joined, items_of, joined, stmts_of};

pub mod expr;
pub mod func;
pub mod generics;
pub mod item;
pub mod pat;
pub mod path;
pub mod stmt;
pub mod ty;

verus! {

/// A node of the tree of any kind.
pub enum Part {
    Path(Path),
    PathSegment(PathSegment),
    GenericArgs(GenericArgs),
    GenericArg(GenericArg),
    AngleBracketedArgs(AngleBracketedArgs),
    ParenthesizedArgs(ParenthesizedArgs),
    AssocTyConstraint(AssocTyConstraint),
    AssocTyConstraintKind(AssocTyConstraintKind),
    QSelf(QSelf),
    GenericBound(GenericBound),
    TraitRef(TraitRef),
    PolyTraitRef(PolyTraitRef),
    GenericParamKind(GenericParamKind),
    GenericParam(GenericParam),
    WhereBoundPredicate(WhereBoundPredicate),
    WhereRegionPredicate(WhereRegionPredicate),
    WhereEqPredicate(WhereEqPredicate),
    WherePredicate(WherePredicate),
    WhereClause(WhereClause),
    Generics(Generics),
    MutTy(MutTy),
    BareFnTy(BareFnTy),
    TyKind(TyKind),
    Ty(Ty),
    FieldPat(FieldPat),
    PatKind(PatKind),
    Pat(Pat),
    AnonConst(AnonConst),
    Arm(Arm),
    Field(Field),
    InlineAsmOutput(InlineAsmOutput),
    InlineAsmInput(InlineAsmInput),
    InlineAsm(InlineAsm),
    ExprKind(ExprKind),
    Expr(Expr),
    Block(Block),
    Local(Local),
    MacStmt(MacStmt),
    StmtKind(StmtKind),
    Stmt(Stmt),
    Param(Param),
    FunctionRetTy(FunctionRetTy),
    FnDecl(FnDecl),
    MethodSig(MethodSig),
    StructField(StructField),
    VariantData(VariantData),
    Variant(Variant),
    EnumDef(EnumDef),
    Mod(Mod),
    ForeignItemKind(ForeignItemKind),
    ForeignItem(ForeignItem),
    ForeignMod(ForeignMod),
    TraitItemKind(TraitItemKind),
    TraitItem(TraitItem),
    ImplItemKind(ImplItemKind),
    ImplItem(ImplItem),
    ItemKind(ItemKind),
    Item(Item),
    Crate(Crate),
    Mac(Mac),
}

/// What a node is made of, in the order of the text. A macro call is made of nothing that is known.
pub open spec fn parts(part: Part) -> Seq<Part> {
    match part {
        Part::Path(x) => parts_of_path(x),
        Part::PathSegment(x) => parts_of_segment(x),
        Part::GenericArgs(x) => parts_of_generic_args(x),
        Part::GenericArg(x) => parts_of_generic_arg(x),
        Part::AngleBracketedArgs(x) => parts_of_angle_bracketed_args(x),
        Part::ParenthesizedArgs(x) => parts_of_parenthesized_args(x),
        Part::AssocTyConstraint(x) => parts_of_constraint(x),
        Part::AssocTyConstraintKind(x) => parts_of_constraint_kind(x),
        Part::QSelf(x) => parts_of_q_self(x),
        Part::GenericBound(x) => parts_of_bound(x),
        Part::TraitRef(x) => parts_of_trait_ref(x),
        Part::PolyTraitRef(x) => parts_of_poly_trait_ref(x),
        Part::GenericParamKind(x) => parts_of_generic_param_kind(x),
        Part::GenericParam(x) => parts_of_generic_param(x),
        Part::WhereBoundPredicate(x) => parts_of_bound_predicate(x),
        Part::WhereRegionPredicate(x) => parts_of_region_predicate(x),
        Part::WhereEqPredicate(x) => parts_of_eq_predicate(x),
        Part::WherePredicate(x) => parts_of_predicate(x),
        Part::WhereClause(x) => parts_of_where_clause(x),
        Part::Generics(x) => parts_of_generics(x),
        Part::MutTy(x) => parts_of_mut_ty(x),
        Part::BareFnTy(x) => parts_of_bare_fn(x),
        Part::TyKind(x) => parts_of_ty_kind(x),
        Part::Ty(x) => parts_of_ty(x),
        Part::FieldPat(x) => parts_of_field_pat(x),
        Part::PatKind(x) => parts_of_pat_kind(x),
        Part::Pat(x) => parts_of_pat(x),
        Part::AnonConst(x) => parts_of_anon_const(x),
        Part::Arm(x) => parts_of_arm(x),
        Part::Field(x) => parts_of_field(x),
        Part::InlineAsmOutput(x) => parts_of_asm_output(x),
        Part::InlineAsmInput(x) => parts_of_asm_input(x),
        Part::InlineAsm(x) => parts_of_inline_assembly(x),
        Part::ExprKind(x) => parts_of_expr_kind(x),
        Part::Expr(x) => parts_of_expr(x),
        Part::Block(x) => parts_of_block(x),
        Part::Local(x) => parts_of_local(x),
        Part::MacStmt(x) => parts_of_mac_stmt(x),
        Part::StmtKind(x) => parts_of_stmt_kind(x),
        Part::Stmt(x) => parts_of_stmt(x),
        Part::Param(x) => parts_of_param(x),
        Part::FunctionRetTy(x) => parts_of_return_ty(x),
        Part::FnDecl(x) => parts_of_fn_decl(x),
        Part::MethodSig(x) => parts_of_method_sig(x),
        Part::StructField(x) => parts_of_struct_field(x),
        Part::VariantData(x) => parts_of_variant_data(x),
        Part::Variant(x) => parts_of_variant(x),
        Part::EnumDef(x) => parts_of_enum_def(x),
        Part::Mod(x) => parts_of_mod(x),
        Part::ForeignItemKind(x) => parts_of_foreign_item_kind(x),
        Part::ForeignItem(x) => parts_of_foreign_item(x),
        Part::ForeignMod(x) => parts_of_foreign_mod(x),
        Part::TraitItemKind(x) => parts_of_trait_item_kind(x),
        Part::TraitItem(x) => parts_of_trait_item(x),
        Part::ImplItemKind(x) => parts_of_impl_item_kind(x),
        Part::ImplItem(x) => parts_of_impl_item(x),
        Part::ItemKind(x) => parts_of_item_kind(x),
        Part::Item(x) => parts_of_item(x),
        Part::Crate(x) => parts_of_crate(x),
        Part::Mac(_) => seq![],
    }
}

/// What is visited in a node.
pub open spec fn nodes_of<'a>(part: Part) -> Seq<Visited<'a>> {
    match part {
        Part::Path(x) => nodes_in_path(x),
        Part::PathSegment(x) => nodes_in_segment(x),
        Part::GenericArgs(x) => nodes_in_generic_args(x),
        Part::GenericArg(x) => nodes_in_generic_arg(x),
        Part::AngleBracketedArgs(x) => nodes_in_angle_bracketed_args(x),
        Part::ParenthesizedArgs(x) => nodes_in_parenthesized_args(x),
        Part::AssocTyConstraint(x) => nodes_in_constraint(x),
        Part::AssocTyConstraintKind(x) => nodes_in_constraint_kind(x),
        Part::QSelf(x) => nodes_in_q_self(x),
        Part::GenericBound(x) => nodes_in_bound(x),
        Part::TraitRef(x) => nodes_in_trait_ref(x),
        Part::PolyTraitRef(x) => nodes_in_poly_trait_ref(x),
        Part::GenericParamKind(x) => nodes_in_generic_param_kind(x),
        Part::GenericParam(x) => nodes_in_generic_param(x),
        Part::WhereBoundPredicate(x) => nodes_in_bound_predicate(x),
        Part::WhereRegionPredicate(x) => nodes_in_region_predicate(x),
        Part::WhereEqPredicate(x) => nodes_in_eq_predicate(x),
        Part::WherePredicate(x) => nodes_in_predicate(x),
        Part::WhereClause(x) => nodes_in_where_clause(x),
        Part::Generics(x) => nodes_in_generics(x),
        Part::MutTy(x) => nodes_in_mut_ty(x),
        Part::BareFnTy(x) => nodes_in_bare_fn(x),
        Part::TyKind(x) => nodes_in_ty_kind(x),
        Part::Ty(x) => nodes_in_ty(x),
        Part::FieldPat(x) => nodes_in_field_pat(x),
        Part::PatKind(x) => nodes_in_pat_kind(x),
        Part::Pat(x) => nodes_in_pat(x),
        Part::AnonConst(x) => nodes_in_anon_const(x),
        Part::Arm(x) => nodes_in_arm(x),
        Part::Field(x) => nodes_in_field(x),
        Part::InlineAsmOutput(x) => nodes_in_asm_output(x),
        Part::InlineAsmInput(x) => nodes_in_asm_input(x),
        Part::InlineAsm(x) => nodes_in_inline_assembly(x),
        Part::ExprKind(x) => nodes_in_expr_kind(x),
        Part::Expr(x) => nodes_in_expr(x),
        Part::Block(x) => nodes_in_block(x),
        Part::Local(x) => nodes_in_local(x),
        Part::StmtKind(x) => nodes_in_stmt_kind(x),
        Part::Stmt(x) => nodes_in_stmt(x),
        Part::Param(x) => nodes_in_param(x),
        Part::FunctionRetTy(x) => nodes_in_return_ty(x),
        Part::FnDecl(x) => nodes_in_fn_decl(x),
        Part::MethodSig(x) => nodes_in_method_sig(x),
        Part::StructField(x) => nodes_in_struct_field(x),
        Part::VariantData(x) => nodes_in_variant_data(x),
        Part::Variant(x) => nodes_in_variant(x),
        Part::EnumDef(x) => nodes_in_enum_def(x),
        Part::Mod(x) => nodes_in_mod(x),
        Part::ForeignItemKind(x) => nodes_in_foreign_item_kind(x),
        Part::ForeignItem(x) => nodes_in_foreign_item(x),
        Part::ForeignMod(x) => nodes_in_foreign_mod(x),
        Part::TraitItemKind(x) => nodes_in_trait_item_kind(x),
        Part::TraitItem(x) => nodes_in_trait_item(x),
        Part::ImplItemKind(x) => nodes_in_impl_item_kind(x),
        Part::ImplItem(x) => nodes_in_impl_item(x),
        Part::ItemKind(x) => nodes_in_item_kind(x),
        Part::Item(x) => nodes_in_item(x),
        Part::Crate(x) => nodes_in_mod(x.module),
        Part::MacStmt(_) => seq![],
        Part::Mac(_) => seq![],
    }
}

/// What is visited in nodes, one after the other.
pub open spec fn nodes_in_parts<'a>(list: Seq<Part>) -> Seq<Visited<'a>>
    decreases list.len(),
{
    if list.len() == 0 {
        seq![]
    } else {
        joined(nodes_in_parts(list.drop_last()), nodes_of(list.last()))
    }
}

/// What is visited in a list of one node is what is visited in that node.
pub(crate) proof fn nodes_in_one_part(part: Part)
    ensures
        nodes_in_parts(seq![part]) == nodes_of(part),
{
    broadcast use group_joined;

    assert(seq![part].drop_last() =~= seq![]);
    assert(nodes_in_parts(seq![part].drop_last()) == Seq::<Visited<'_>>::empty());
    assert(seq![part].last() == part);
}

/// What is visited in one list behind another is what is visited in both.
pub(crate) proof fn nodes_in_joined_parts(first: Seq<Part>, second: Seq<Part>)
    ensures
        nodes_in_parts(first + second) == joined(nodes_in_parts(first), nodes_in_parts(second)),
    decreases second.len(),
{
    broadcast use group_joined;

    if second.len() == 0 {
        assert(first + second =~= first);
    } else {
        nodes_in_joined_parts(first, second.drop_last());
        assert((first + second).drop_last() =~= first + second.drop_last());
        assert((first + second).last() == second.last());
    }
}

/// What is in one list behind another is in one of them.
pub broadcast proof fn joined_contains(first: Seq<Part>, second: Seq<Part>, part: Part)
    ensures
        #[trigger] (first + second).contains(part) == (first.contains(part) || second.contains(
            part,
        )),
{
    let all = first + second;
    if first.contains(part) {
        let i = choose|i: int| 0 <= i < first.len() && first[i] == part;
        assert(all[i] == part);
    }
    if second.contains(part) {
        let i = choose|i: int| 0 <= i < second.len() && second[i] == part;
        assert(all[first.len() + i] == part);
    }
    if all.contains(part) {
        let i = choose|i: int| 0 <= i < all.len() && all[i] == part;
        if i < first.len() {
            assert(first[i] == part);
        } else {
            assert(second[i - first.len()] == part);
        }
    }
}

/// What is in a list of one node is that node.
pub broadcast proof fn single_contains(only: Part, part: Part)
    ensures
        #[trigger] seq![only].contains(part) == (only == part),
{
    assert(seq![only][0] == only);
}

pub broadcast group group_contains {
    joined_contains,
    single_contains,
}

/// One where something is there, and nothing where it is not.
pub open spec fn one_if(there: bool) -> int {
    if there {
        1
    } else {
        0
    }
}

/// What a node is made of, in the order in which statements and items are visited in it.
pub open spec fn visit_order(part: Part) -> Seq<Part> {
    match part {
        Part::ItemKind(x) => visit_parts_of_item_kind(x),
        Part::WhereBoundPredicate(x) => visit_parts_of_bound_predicate(x),
        Part::InlineAsm(x) => visit_parts_of_inline_assembly(x),
        _ => parts(part),
    }
}

/// The node itself, where it is a statement, an item or a foreign item.
pub open spec fn visited_itself<'a>(part: Part) -> Seq<Visited<'a>> {
    match part {
        Part::Stmt(x) => seq![Visited::Stmt(&x)],
        Part::Item(x) => seq![Visited::Item(&x)],
        Part::ForeignItem(x) => seq![Visited::ForeignItem(&x)],
        _ => seq![],
    }
}

/// What is visited in a node is the node itself and then what is visited in what it is made of,
/// part by part.
pub proof fn visits_part_by_part(part: Part)
    ensures
        nodes_of(part) == joined(visited_itself(part), nodes_in_parts(visit_order(part))),
{
    broadcast use group_joined;

    match part {
        Part::Path(x) => visits_the_parts_of_path(x),
        Part::PathSegment(x) => visits_the_parts_of_segment(x),
        Part::GenericArgs(x) => visits_the_parts_of_generic_args(x),
        Part::GenericArg(x) => visits_the_parts_of_generic_arg(x),
        Part::AngleBracketedArgs(x) => visits_the_parts_of_angle_bracketed_args(x),
        Part::ParenthesizedArgs(x) => visits_the_parts_of_parenthesized_args(x),
        Part::AssocTyConstraint(x) => visits_the_parts_of_constraint(x),
        Part::AssocTyConstraintKind(x) => visits_the_parts_of_constraint_kind(x),
        Part::QSelf(x) => visits_the_parts_of_q_self(x),
        Part::GenericBound(x) => visits_the_parts_of_bound(x),
        Part::TraitRef(x) => visits_the_parts_of_trait_ref(x),
        Part::PolyTraitRef(x) => visits_the_parts_of_poly_trait_ref(x),
        Part::GenericParamKind(x) => visits_the_parts_of_generic_param_kind(x),
        Part::GenericParam(x) => visits_the_parts_of_generic_param(x),
        Part::WhereBoundPredicate(x) => visits_the_parts_of_bound_predicate(x),
        Part::WhereRegionPredicate(x) => visits_the_parts_of_region_predicate(x),
        Part::WhereEqPredicate(x) => visits_the_parts_of_eq_predicate(x),
        Part::WherePredicate(x) => visits_the_parts_of_predicate(x),
        Part::WhereClause(x) => visits_the_parts_of_where_clause(x),
        Part::Generics(x) => visits_the_parts_of_generics(x),
        Part::MutTy(x) => visits_the_parts_of_mut_ty(x),
        Part::BareFnTy(x) => visits_the_parts_of_bare_fn(x),
        Part::TyKind(x) => visits_the_parts_of_ty_kind(x),
        Part::Ty(x) => visits_the_parts_of_ty(x),
        Part::FieldPat(x) => visits_the_parts_of_field_pat(x),
        Part::PatKind(x) => visits_the_parts_of_pat_kind(x),
        Part::Pat(x) => visits_the_parts_of_pat(x),
        Part::AnonConst(x) => visits_the_parts_of_anon_const(x),
        Part::Arm(x) => visits_the_parts_of_arm(x),
        Part::Field(x) => visits_the_parts_of_field(x),
        Part::InlineAsmOutput(x) => visits_the_parts_of_asm_output(x),
        Part::InlineAsmInput(x) => visits_the_parts_of_asm_input(x),
        Part::InlineAsm(x) => visits_the_parts_of_inline_assembly(x),
        Part::ExprKind(x) => visits_the_parts_of_expr_kind(x),
        Part::Expr(x) => visits_the_parts_of_expr(x),
        Part::Block(x) => visits_the_parts_of_block(x),
        Part::Local(x) => visits_the_parts_of_local(x),
        Part::StmtKind(x) => visits_the_parts_of_stmt_kind(x),
        Part::Stmt(x) => visits_the_parts_of_stmt(x),
        Part::Param(x) => visits_the_parts_of_param(x),
        Part::FunctionRetTy(x) => visits_the_parts_of_return_ty(x),
        Part::FnDecl(x) => visits_the_parts_of_fn_decl(x),
        Part::MethodSig(x) => visits_the_parts_of_method_sig(x),
        Part::StructField(x) => visits_the_parts_of_struct_field(x),
        Part::VariantData(x) => visits_the_parts_of_variant_data(x),
        Part::Variant(x) => visits_the_parts_of_variant(x),
        Part::EnumDef(x) => visits_the_parts_of_enum_def(x),
        Part::Mod(x) => visits_the_parts_of_mod(x),
        Part::ForeignItemKind(x) => visits_the_parts_of_foreign_item_kind(x),
        Part::ForeignItem(x) => visits_the_parts_of_foreign_item(x),
        Part::ForeignMod(x) => visits_the_parts_of_foreign_mod(x),
        Part::TraitItemKind(x) => visits_the_parts_of_trait_item_kind(x),
        Part::TraitItem(x) => visits_the_parts_of_trait_item(x),
        Part::ImplItemKind(x) => visits_the_parts_of_impl_item_kind(x),
        Part::ImplItem(x) => visits_the_parts_of_impl_item(x),
        Part::ItemKind(x) => visits_the_parts_of_item_kind(x),
        Part::Item(x) => visits_the_parts_of_item(x),
        Part::Crate(x) => nodes_in_one_part(Part::Mod(x.module)),
        Part::MacStmt(x) => nodes_in_one_part(Part::Mac(x.mac)),
        Part::Mac(_) => {},
    }
}

/// Every part of a node is visited once its turn comes, and nothing else is.
pub proof fn visit_order_has_the_parts(part: Part)
    ensures
        visit_order(part).len() == parts(part).len(),
        forall|x: Part| #[trigger] visit_order(part).contains(x) <==> parts(part).contains(x),
{
    broadcast use group_contains;

}

/// Where the order of the visit is not that of the text: the generic parameters of a function come
/// before its signature, those of a type before its fields or variants, and the type of a bound
/// predicate before all else of it.
pub proof fn generic_parameters_are_visited_first(kind: ItemKind, predicate: WhereBoundPredicate)
    ensures
        kind matches ItemKind::Fn(decl, _, generics, body) ==> visit_order(Part::ItemKind(kind))
            == seq![Part::Generics(generics), Part::FnDecl(*decl), Part::Block(*body)],
        kind matches ItemKind::Enum(definition, generics) ==> visit_order(Part::ItemKind(kind))
            == seq![Part::Generics(generics), Part::EnumDef(definition)],
        kind matches ItemKind::Struct(data, generics) ==> visit_order(Part::ItemKind(kind))
            == seq![Part::Generics(generics), Part::VariantData(data)],
        kind matches ItemKind::Union(data, generics) ==> visit_order(Part::ItemKind(kind))
            == seq![Part::Generics(generics), Part::VariantData(data)],
        !(kind is Fn) && !(kind is Enum) && !(kind is Struct) && !(kind is Union) ==> visit_order(
            Part::ItemKind(kind),
        ) == parts(Part::ItemKind(kind)),
        visit_order(Part::WhereBoundPredicate(predicate))[0] == Part::Ty(*predicate.bounded_ty),
{
    let order = visit_order(Part::ItemKind(kind));
    match kind {
        ItemKind::Fn(decl, _, generics, body) => {
            assert(order =~= seq![
                Part::Generics(generics),
                Part::FnDecl(*decl),
                Part::Block(*body),
            ]);
        },
        ItemKind::Enum(definition, generics) => {
            assert(order =~= seq![Part::Generics(generics), Part::EnumDef(definition)]);
        },
        ItemKind::Struct(data, generics) => {
            assert(order =~= seq![Part::Generics(generics), Part::VariantData(data)]);
        },
        ItemKind::Union(data, generics) => {
            assert(order =~= seq![Part::Generics(generics), Part::VariantData(data)]);
        },
        _ => {},
    }
}

/// What is visited in a part is visited in the whole.
proof fn lemma_nodes_in_list<'a>(list: Seq<Part>, index: int, node: Visited<'a>)
    requires
        0 <= index < list.len(),
        nodes_of(list[index]).contains(node),
    ensures
        nodes_in_parts(list).contains(node),
    decreases list.len(),
{
    reveal(joined);
    let earlier = nodes_in_parts(list.drop_last());
    let last = nodes_of(list.last());
    if index == list.len() - 1 {
        let k = choose|k: int| 0 <= k < last.len() && last[k] == node;
        assert((earlier + last)[earlier.len() + k] == node);
    } else {
        lemma_nodes_in_list(list.drop_last(), index, node);
        let k = choose|k: int| 0 <= k < earlier.len() && earlier[k] == node;
        assert((earlier + last)[k] == node);
    }
}

/// The path leads from a node to one inside it. It holds the positions of parts, the topmost one
/// last.
pub open spec fn is_spot(part: Part, path: Seq<int>) -> bool
    decreases path.len(),
{
    path.len() > 0 ==> {
        &&& 0 <= path.last() < parts(part).len()
        &&& is_spot(parts(part)[path.last()], path.drop_last())
    }
}

/// The node to which a path leads.
pub open spec fn spot(part: Part, path: Seq<int>) -> Part
    decreases path.len(),
{
    if path.len() == 0 {
        part
    } else {
        spot(parts(part)[path.last()], path.drop_last())
    }
}

/// Every part of a node is at a spot of it, and so is whatever is at a spot of a part.
pub proof fn spots_are_reached_step_by_step(part: Part, index: int, path: Seq<int>)
    requires
        0 <= index < parts(part).len(),
    ensures
        is_spot(part, seq![]),
        spot(part, seq![]) == part,
        is_spot(part, path.push(index)) <==> is_spot(parts(part)[index], path),
        spot(part, path.push(index)) == spot(parts(part)[index], path),
{
    assert(path.push(index).drop_last() =~= path);
    assert(path.push(index).last() == index);
}

/// What is visited at some spot of a node is visited in the node.
pub proof fn visited_at_a_spot_is_visited<'a>(part: Part, path: Seq<int>, node: Visited<'a>)
    requires
        is_spot(part, path),
        nodes_of(spot(part, path)).contains(node),
    ensures
        nodes_of(part).contains(node),
    decreases path.len(),
{
    if path.len() > 0 {
        let inner = parts(part)[path.last()];
        visited_at_a_spot_is_visited(inner, path.drop_last(), node);
        visit_order_has_the_parts(part);
        assert(parts(part).contains(inner));
        assert(visit_order(part).contains(inner));
        let k = choose|k: int| 0 <= k < visit_order(part).len() && visit_order(part)[k] == inner;
        lemma_nodes_in_list(visit_order(part), k, node);
        visits_part_by_part(part);
        reveal(joined);
        let own = visited_itself(part);
        let rest = nodes_in_parts(visit_order(part));
        let m = choose|m: int| 0 <= m < rest.len() && rest[m] == node;
        assert((own + rest)[own.len() + m] == node);
    }
}

/// What is visited in a part of a node is visited in the node.
pub proof fn visits_at_a_part<'a>(whole: Part, part: Part, node: Visited<'a>)
    requires
        parts(whole).contains(part),
        nodes_of(part).contains(node),
    ensures
        nodes_of(whole).contains(node),
{
    let index = choose|i: int| 0 <= i < parts(whole).len() && parts(whole)[i] == part;
    let path = seq![index];
    assert(path.drop_last() =~= seq![]);
    assert(path.last() == index);
    assert(is_spot(part, path.drop_last()));
    assert(spot(part, path.drop_last()) == part);
    visited_at_a_spot_is_visited(whole, path, node);
}

/// A statement, item or foreign item is visited in itself.
proof fn lemma_visits_itself<'a>(part: Part, node: Visited<'a>)
    requires
        visited_itself(part) == seq![node],
    ensures
        nodes_of(part).contains(node),
{
    visits_part_by_part(part);
    reveal(joined);
    let rest = nodes_in_parts(visit_order(part));
    assert((seq![node] + rest)[0] == node);
}

/// Every statement that stands anywhere in an item is visited: in the blocks of functions, of
/// `if`, of loops, of closures, and wherever else a block can stand.
pub proof fn every_statement_is_visited(item: Item, path: Seq<int>, stmt: Stmt)
    requires
        is_spot(Part::Item(item), path),
        spot(Part::Item(item), path) == Part::Stmt(stmt),
    ensures
        stmts_of(nodes_in_item(item)).contains(stmt),
{
    lemma_visits_itself(Part::Stmt(stmt), Visited::Stmt(&stmt));
    visited_at_a_spot_is_visited(Part::Item(item), path, Visited::Stmt(&stmt));
    listed_statements(nodes_in_item(item), stmt);
}

/// Every item that stands anywhere in an item is visited.
pub proof fn every_item_is_visited(item: Item, path: Seq<int>, inner: Item)
    requires
        is_spot(Part::Item(item), path),
        spot(Part::Item(item), path) == Part::Item(inner),
    ensures
        items_of(nodes_in_item(item)).contains(inner),
{
    lemma_visits_itself(Part::Item(inner), Visited::Item(&inner));
    visited_at_a_spot_is_visited(Part::Item(item), path, Visited::Item(&inner));
    listed_items(nodes_in_item(item), inner);
}

/// Every foreign item that stands anywhere in an item is visited.
pub proof fn every_foreign_item_is_visited(item: Item, path: Seq<int>, inner: ForeignItem)
    requires
        is_spot(Part::Item(item), path),
        spot(Part::Item(item), path) == Part::ForeignItem(inner),
    ensures
        foreign_items_of(nodes_in_item(item)).contains(inner),
{
    lemma_visits_itself(Part::ForeignItem(inner), Visited::ForeignItem(&inner));
    visited_at_a_spot_is_visited(Part::Item(item), path, Visited::ForeignItem(&inner));
    listed_foreign_items(nodes_in_item(item), inner);
}

/// The statements of a list of visited nodes are those that are in it.
pub proof fn listed_statements(list: Seq<Visited<'_>>, node: Stmt)
    ensures
        stmts_of(list).contains(node) <==> list.contains(Visited::Stmt(&node)),
    decreases list.len(),
{
    if list.len() > 0 {
        let earlier = list.drop_last();
        listed_statements(earlier, node);
        let found = stmts_of(earlier);
        let wanted = Visited::Stmt(&node);
        assert(list =~= earlier.push(list.last()));
        if earlier.contains(wanted) {
            let i = choose|i: int| 0 <= i < earlier.len() && earlier[i] == wanted;
            assert(list[i] == wanted);
            let k = choose|k: int| 0 <= k < found.len() && found[k] == node;
            assert(stmts_of(list)[k] == node);
        }
        if list.last() == wanted {
            assert(list[list.len() - 1] == wanted);
            assert(stmts_of(list)[found.len() as int] == node);
        }
        if stmts_of(list).contains(node) && list.last() != wanted {
            let k = choose|k: int| 0 <= k < stmts_of(list).len() && stmts_of(list)[k] == node;
            if k < found.len() {
                assert(found[k] == node);
            }
        }
        if list.contains(wanted) && list.last() != wanted {
            let i = choose|i: int| 0 <= i < list.len() && list[i] == wanted;
            assert(earlier[i] == wanted);
        }
    }
}

/// The items of a list of visited nodes are those that are in it.
pub proof fn listed_items(list: Seq<Visited<'_>>, node: Item)
    ensures
        items_of(list).contains(node) <==> list.contains(Visited::Item(&node)),
    decreases list.len(),
{
    if list.len() > 0 {
        let earlier = list.drop_last();
        listed_items(earlier, node);
        let found = items_of(earlier);
        let wanted = Visited::Item(&node);
        assert(list =~= earlier.push(list.last()));
        if earlier.contains(wanted) {
            let i = choose|i: int| 0 <= i < earlier.len() && earlier[i] == wanted;
            assert(list[i] == wanted);
            let k = choose|k: int| 0 <= k < found.len() && found[k] == node;
            assert(items_of(list)[k] == node);
        }
        if list.last() == wanted {
            assert(list[list.len() - 1] == wanted);
            assert(items_of(list)[found.len() as int] == node);
        }
        if items_of(list).contains(node) && list.last() != wanted {
            let k = choose|k: int| 0 <= k < items_of(list).len() && items_of(list)[k] == node;
            if k < found.len() {
                assert(found[k] == node);
            }
        }
        if list.contains(wanted) && list.last() != wanted {
            let i = choose|i: int| 0 <= i < list.len() && list[i] == wanted;
            assert(earlier[i] == wanted);
        }
    }
}

/// The foreign items of a list of visited nodes are those that are in it.
pub proof fn listed_foreign_items(list: Seq<Visited<'_>>, node: ForeignItem)
    ensures
        foreign_items_of(list).contains(node) <==> list.contains(Visited::ForeignItem(&node)),
    decreases list.len(),
{
    if list.len() > 0 {
        let earlier = list.drop_last();
        listed_foreign_items(earlier, node);
        let found = foreign_items_of(earlier);
        let wanted = Visited::ForeignItem(&node);
        assert(list =~= earlier.push(list.last()));
        if earlier.contains(wanted) {
            let i = choose|i: int| 0 <= i < earlier.len() && earlier[i] == wanted;
            assert(list[i] == wanted);
            let k = choose|k: int| 0 <= k < found.len() && found[k] == node;
            assert(foreign_items_of(list)[k] == node);
        }
        if list.last() == wanted {
            assert(list[list.len() - 1] == wanted);
            assert(foreign_items_of(list)[found.len() as int] == node);
        }
        if foreign_items_of(list).contains(node) && list.last() != wanted {
            let k = choose|k: int| 0 <= k < foreign_items_of(
                list,
            ).len() && foreign_items_of(list)[k] == node;
            if k < found.len() {
                assert(found[k] == node);
            }
        }
        if list.contains(wanted) && list.last() != wanted {
            let i = choose|i: int| 0 <= i < list.len() && list[i] == wanted;
            assert(earlier[i] == wanted);
        }
    }
}

impl<
    S,
    F: Fn(&S, &str) -> (S, bool),
    G: Fn(&S, &Expr) -> (S, Expr),
    H: Fn(&S, &Mac) -> S,
> Rules<S, F, G, H> {
    /// `after` is what the visitor makes of `before`.
    pub open spec fn visited_part(self, from: S, before: Part, to: S, after: Part) -> bool {
        match (before, after) {
            (Part::Path(x), Part::Path(y)) => self.visited_path(from, x, to, y),
            (Part::PathSegment(x), Part::PathSegment(y)) => self.visited_segment(from, x, to, y),
            (Part::GenericArgs(x), Part::GenericArgs(y)) => {
                self.visited_generic_args(from, x, to, y)
            },
            (Part::GenericArg(x), Part::GenericArg(y)) => self.visited_generic_arg(from, x, to, y),
            (Part::AngleBracketedArgs(x), Part::AngleBracketedArgs(y)) => {
                self.visited_angle_bracketed_args(from, x, to, y)
            },
            (Part::ParenthesizedArgs(x), Part::ParenthesizedArgs(y)) => {
                self.visited_parenthesized_args(from, x, to, y)
            },
            (Part::AssocTyConstraint(x), Part::AssocTyConstraint(y)) => {
                self.visited_constraint(from, x, to, y)
            },
            (Part::AssocTyConstraintKind(x), Part::AssocTyConstraintKind(y)) => {
                self.visited_constraint_kind(from, x, to, y)
            },
            (Part::QSelf(x), Part::QSelf(y)) => self.visited_q_self(from, x, to, y),
            (Part::GenericBound(x), Part::GenericBound(y)) => self.visited_bound(from, x, to, y),
            (Part::TraitRef(x), Part::TraitRef(y)) => self.visited_trait_ref(from, x, to, y),
            (Part::PolyTraitRef(x), Part::PolyTraitRef(y)) => {
                self.visited_poly_trait_ref(from, x, to, y)
            },
            (Part::GenericParamKind(x), Part::GenericParamKind(y)) => {
                self.visited_generic_param_kind(from, x, to, y)
            },
            (Part::GenericParam(x), Part::GenericParam(y)) => {
                self.visited_generic_param(from, x, to, y)
            },
            (Part::WhereBoundPredicate(x), Part::WhereBoundPredicate(y)) => {
                self.visited_bound_predicate(from, x, to, y)
            },
            (Part::WhereRegionPredicate(x), Part::WhereRegionPredicate(y)) => {
                self.visited_region_predicate(from, x, to, y)
            },
            (Part::WhereEqPredicate(x), Part::WhereEqPredicate(y)) => {
                self.visited_eq_predicate(from, x, to, y)
            },
            (Part::WherePredicate(x), Part::WherePredicate(y)) => {
                self.visited_predicate(from, x, to, y)
            },
            (Part::WhereClause(x), Part::WhereClause(y)) => {
                self.visited_where_clause(from, x, to, y)
            },
            (Part::Generics(x), Part::Generics(y)) => self.visited_generics(from, x, to, y),
            (Part::MutTy(x), Part::MutTy(y)) => self.visited_mut_ty(from, x, to, y),
            (Part::BareFnTy(x), Part::BareFnTy(y)) => self.visited_bare_fn(from, x, to, y),
            (Part::TyKind(x), Part::TyKind(y)) => self.visited_ty_kind(from, x, to, y),
            (Part::Ty(x), Part::Ty(y)) => self.visited_ty(from, x, to, y),
            (Part::FieldPat(x), Part::FieldPat(y)) => self.visited_field_pat(from, x, to, y),
            (Part::PatKind(x), Part::PatKind(y)) => self.visited_pat_kind(from, x, to, y),
            (Part::Pat(x), Part::Pat(y)) => self.visited_pat(from, x, to, y),
            (Part::AnonConst(x), Part::AnonConst(y)) => self.visited_anon_const(from, x, to, y),
            (Part::Arm(x), Part::Arm(y)) => self.visited_arm(from, x, to, y),
            (Part::Field(x), Part::Field(y)) => self.visited_field(from, x, to, y),
            (Part::InlineAsmOutput(x), Part::InlineAsmOutput(y)) => {
                self.visited_asm_output(from, x, to, y)
            },
            (Part::InlineAsmInput(x), Part::InlineAsmInput(y)) => {
                self.visited_asm_input(from, x, to, y)
            },
            (Part::InlineAsm(x), Part::InlineAsm(y)) => {
                self.visited_inline_assembly(from, x, to, y)
            },
            (Part::ExprKind(x), Part::ExprKind(y)) => self.visited_expr_kind(from, x, to, y),
            (Part::Expr(x), Part::Expr(y)) => self.visited_expr(from, x, to, y),
            (Part::Block(x), Part::Block(y)) => self.visited_block(from, x, to, y),
            (Part::Local(x), Part::Local(y)) => self.visited_local(from, x, to, y),
            (Part::MacStmt(x), Part::MacStmt(y)) => self.visited_mac_stmt(from, x, to, y),
            (Part::StmtKind(x), Part::StmtKind(y)) => self.visited_stmt_kind(from, x, to, y),
            (Part::Stmt(x), Part::Stmt(y)) => self.visited_stmt(from, x, to, y),
            (Part::Param(x), Part::Param(y)) => self.visited_param(from, x, to, y),
            (Part::FunctionRetTy(x), Part::FunctionRetTy(y)) => {
                self.visited_return_ty(from, x, to, y)
            },
            (Part::FnDecl(x), Part::FnDecl(y)) => self.visited_fn_decl(from, x, to, y),
            (Part::MethodSig(x), Part::MethodSig(y)) => self.visited_method_sig(from, x, to, y),
            (Part::StructField(x), Part::StructField(y)) => {
                self.visited_struct_field(from, x, to, y)
            },
            (Part::VariantData(x), Part::VariantData(y)) => {
                self.visited_variant_data(from, x, to, y)
            },
            (Part::Variant(x), Part::Variant(y)) => self.visited_variant(from, x, to, y),
            (Part::EnumDef(x), Part::EnumDef(y)) => self.visited_enum_def(from, x, to, y),
            (Part::Mod(x), Part::Mod(y)) => self.visited_mod(from, x, to, y),
            (Part::ForeignItemKind(x), Part::ForeignItemKind(y)) => {
                self.visited_foreign_item_kind(from, x, to, y)
            },
            (Part::ForeignItem(x), Part::ForeignItem(y)) => {
                self.visited_foreign_item(from, x, to, y)
            },
            (Part::ForeignMod(x), Part::ForeignMod(y)) => self.visited_foreign_mod(from, x, to, y),
            (Part::TraitItemKind(x), Part::TraitItemKind(y)) => {
                self.visited_trait_item_kind(from, x, to, y)
            },
            (Part::TraitItem(x), Part::TraitItem(y)) => self.visited_trait_item(from, x, to, y),
            (Part::ImplItemKind(x), Part::ImplItemKind(y)) => {
                self.visited_impl_item_kind(from, x, to, y)
            },
            (Part::ImplItem(x), Part::ImplItem(y)) => self.visited_impl_item(from, x, to, y),
            (Part::ItemKind(x), Part::ItemKind(y)) => self.visited_item_kind(from, x, to, y),
            (Part::Item(x), Part::Item(y)) => self.visited_item(from, x, to, y),
            (Part::Crate(x), Part::Crate(y)) => self.visited_crate(from, x, to, y),
            (Part::Mac(x), Part::Mac(y)) => self.visited_mac(from, x, to, y),
            _ => false,
        }
    }

    /// `after` is what the visitor makes of `before`, node by node from the first to the last.
    pub open spec fn visited_parts(
        self,
        from: S,
        before: Seq<Part>,
        to: S,
        after: Seq<Part>,
    ) -> bool
        decreases before.len(),
    {
        &&& before.len() == after.len()
        &&& if before.len() == 0 {
            from == to
        } else {
            exists|mid: S|
                {
                    &&& #[trigger] between(mid)
                    &&& self.visited_parts(from, before.drop_last(), mid, after.drop_last())
                    &&& self.visited_part(mid, before.last(), to, after.last())
                }
        }
    }

    /// Visiting one node is visiting the list of it.
    pub(crate) proof fn single_part(self, from: S, before: Part, to: S, after: Part)
        requires
            self.visited_part(from, before, to, after),
        ensures
            self.visited_parts(from, seq![before], to, seq![after]),
    {
        assert(between(from));
        assert(seq![before].drop_last() =~= seq![]);
        assert(seq![after].drop_last() =~= seq![]);
        assert(self.visited_parts(from, seq![before].drop_last(), from, seq![after].drop_last()));
    }

    /// Visiting one list and then another is visiting the two as one.
    pub(crate) proof fn joined_parts(
        self,
        from: S,
        first: Seq<Part>,
        mid: S,
        first_after: Seq<Part>,
        second: Seq<Part>,
        to: S,
        second_after: Seq<Part>,
    )
        requires
            self.visited_parts(from, first, mid, first_after),
            self.visited_parts(mid, second, to, second_after),
        ensures
            self.visited_parts(from, first + second, to, first_after + second_after),
        decreases second.len(),
    {
        if second.len() == 0 {
            assert(first + second =~= first);
            assert(first_after + second_after =~= first_after);
        } else {
            let state = choose|state: S|
                {
                    &&& #[trigger] between(state)
                    &&& self.visited_parts(mid, second.drop_last(), state, second_after.drop_last())
                    &&& self.visited_part(state, second.last(), to, second_after.last())
                };
            self.joined_parts(
                from,
                first,
                mid,
                first_after,
                second.drop_last(),
                state,
                second_after.drop_last(),
            );
            assert((first + second).drop_last() =~= first + second.drop_last());
            assert((first_after + second_after).drop_last() =~= first_after
                + second_after.drop_last());
        }
    }

    /// The three can be called on anything, whatever the state.
    pub open spec fn is_total(self) -> bool {
        &&& forall|name: &str| #[trigger] self.can_ask(name)
        &&& forall|node: Expr| #[trigger] self.can_map(node)
        &&& forall|node: Mac| #[trigger] self.can_visit_mac(node)
    }

    /// The node can be gone through; an expression can be visited.
    pub open spec fn can_visit_part(self, part: Part) -> bool {
        match part {
            Part::Path(x) => self.can_visit_path(x),
            Part::PathSegment(x) => self.can_visit_segment(x),
            Part::GenericArgs(x) => self.can_visit_generic_args(x),
            Part::GenericArg(x) => self.can_visit_generic_arg(x),
            Part::AngleBracketedArgs(x) => self.can_visit_angle_bracketed_args(x),
            Part::ParenthesizedArgs(x) => self.can_visit_parenthesized_args(x),
            Part::AssocTyConstraint(x) => self.can_visit_constraint(x),
            Part::AssocTyConstraintKind(x) => self.can_visit_constraint_kind(x),
            Part::QSelf(x) => self.can_visit_q_self(x),
            Part::GenericBound(x) => self.can_visit_bound(x),
            Part::TraitRef(x) => self.can_visit_trait_ref(x),
            Part::PolyTraitRef(x) => self.can_visit_poly_trait_ref(x),
            Part::GenericParamKind(x) => self.can_visit_generic_param_kind(x),
            Part::GenericParam(x) => self.can_visit_generic_param(x),
            Part::WhereBoundPredicate(x) => self.can_visit_bound_predicate(x),
            Part::WhereRegionPredicate(x) => self.can_visit_region_predicate(x),
            Part::WhereEqPredicate(x) => self.can_visit_eq_predicate(x),
            Part::WherePredicate(x) => self.can_visit_predicate(x),
            Part::WhereClause(x) => self.can_visit_where_clause(x),
            Part::Generics(x) => self.can_visit_generics(x),
            Part::MutTy(x) => self.can_visit_mut_ty(x),
            Part::BareFnTy(x) => self.can_visit_bare_fn(x),
            Part::TyKind(x) => self.can_visit_ty_kind(x),
            Part::Ty(x) => self.can_visit_ty(x),
            Part::FieldPat(x) => self.can_visit_field_pat(x),
            Part::PatKind(x) => self.can_visit_pat_kind(x),
            Part::Pat(x) => self.can_visit_pat(x),
            Part::AnonConst(x) => self.can_visit_anon_const(x),
            Part::Arm(x) => self.can_visit_arm(x),
            Part::Field(x) => self.can_visit_field(x),
            Part::InlineAsmOutput(x) => self.can_visit_asm_output(x),
            Part::InlineAsmInput(x) => self.can_visit_asm_input(x),
            Part::InlineAsm(x) => self.can_visit_inline_assembly(x),
            Part::ExprKind(x) => self.can_visit_expr_kind(x),
            Part::Expr(x) => self.can_visit_expr(x),
            Part::Block(x) => self.can_visit_block(x),
            Part::Local(x) => self.can_visit_local(x),
            Part::MacStmt(x) => self.can_visit_mac_stmt(x),
            Part::StmtKind(x) => self.can_visit_stmt_kind(x),
            Part::Stmt(x) => self.can_visit_stmt(x),
            Part::Param(x) => self.can_visit_param(x),
            Part::FunctionRetTy(x) => self.can_visit_return_ty(x),
            Part::FnDecl(x) => self.can_visit_fn_decl(x),
            Part::MethodSig(x) => self.can_visit_method_sig(x),
            Part::StructField(x) => self.can_visit_struct_field(x),
            Part::VariantData(x) => self.can_visit_variant_data(x),
            Part::Variant(x) => self.can_visit_variant(x),
            Part::EnumDef(x) => self.can_visit_enum_def(x),
            Part::Mod(x) => self.can_visit_mod(x),
            Part::ForeignItemKind(x) => self.can_visit_foreign_item_kind(x),
            Part::ForeignItem(x) => self.can_visit_foreign_item(x),
            Part::ForeignMod(x) => self.can_visit_foreign_mod(x),
            Part::TraitItemKind(x) => self.can_visit_trait_item_kind(x),
            Part::TraitItem(x) => self.can_visit_trait_item(x),
            Part::ImplItemKind(x) => self.can_visit_impl_item_kind(x),
            Part::ImplItem(x) => self.can_visit_impl_item(x),
            Part::ItemKind(x) => self.can_visit_item_kind(x),
            Part::Item(x) => self.can_visit_item(x),
            Part::Crate(x) => self.can_visit_crate(x),
            Part::Mac(x) => self.can_visit_mac(x),
        }
    }

    /// A visitor whose calls can always be made can go through every node.
    pub proof fn total_visitor_goes_anywhere(self, part: Part)
        requires
            self.is_total(),
        ensures
            self.can_visit_part(part),
    {
        match part {
            Part::Path(x) => self.total_goes_through_path(x),
            Part::PathSegment(x) => self.total_goes_through_segment(x),
            Part::GenericArgs(x) => self.total_goes_through_generic_args(x),
            Part::GenericArg(x) => self.total_goes_through_generic_arg(x),
            Part::AngleBracketedArgs(x) => self.total_goes_through_angle_bracketed_args(x),
            Part::ParenthesizedArgs(x) => self.total_goes_through_parenthesized_args(x),
            Part::AssocTyConstraint(x) => self.total_goes_through_constraint(x),
            Part::AssocTyConstraintKind(x) => self.total_goes_through_constraint_kind(x),
            Part::QSelf(x) => self.total_goes_through_q_self(x),
            Part::GenericBound(x) => self.total_goes_through_bound(x),
            Part::TraitRef(x) => self.total_goes_through_trait_ref(x),
            Part::PolyTraitRef(x) => self.total_goes_through_poly_trait_ref(x),
            Part::GenericParamKind(x) => self.total_goes_through_generic_param_kind(x),
            Part::GenericParam(x) => self.total_goes_through_generic_param(x),
            Part::WhereBoundPredicate(x) => self.total_goes_through_bound_predicate(x),
            Part::WhereRegionPredicate(x) => self.total_goes_through_region_predicate(x),
            Part::WhereEqPredicate(x) => self.total_goes_through_eq_predicate(x),
            Part::WherePredicate(x) => self.total_goes_through_predicate(x),
            Part::WhereClause(x) => self.total_goes_through_where_clause(x),
            Part::Generics(x) => self.total_goes_through_generics(x),
            Part::MutTy(x) => self.total_goes_through_mut_ty(x),
            Part::BareFnTy(x) => self.total_goes_through_bare_fn(x),
            Part::TyKind(x) => self.total_goes_through_ty_kind(x),
            Part::Ty(x) => self.total_goes_through_ty(x),
            Part::FieldPat(x) => self.total_goes_through_field_pat(x),
            Part::PatKind(x) => self.total_goes_through_pat_kind(x),
            Part::Pat(x) => self.total_goes_through_pat(x),
            Part::AnonConst(x) => self.total_goes_through_anon_const(x),
            Part::Arm(x) => self.total_goes_through_arm(x),
            Part::Field(x) => self.total_goes_through_field(x),
            Part::InlineAsmOutput(x) => self.total_goes_through_asm_output(x),
            Part::InlineAsmInput(x) => self.total_goes_through_asm_input(x),
            Part::InlineAsm(x) => self.total_goes_through_inline_assembly(x),
            Part::ExprKind(x) => self.total_goes_through_expr_kind(x),
            Part::Expr(x) => self.total_goes_through_expr(x),
            Part::Block(x) => self.total_goes_through_block(x),
            Part::Local(x) => self.total_goes_through_local(x),
            Part::MacStmt(x) => self.total_goes_through_mac_stmt(x),
            Part::StmtKind(x) => self.total_goes_through_stmt_kind(x),
            Part::Stmt(x) => self.total_goes_through_stmt(x),
            Part::Param(x) => self.total_goes_through_param(x),
            Part::FunctionRetTy(x) => self.total_goes_through_return_ty(x),
            Part::FnDecl(x) => self.total_goes_through_fn_decl(x),
            Part::MethodSig(x) => self.total_goes_through_method_sig(x),
            Part::StructField(x) => self.total_goes_through_struct_field(x),
            Part::VariantData(x) => self.total_goes_through_variant_data(x),
            Part::Variant(x) => self.total_goes_through_variant(x),
            Part::EnumDef(x) => self.total_goes_through_enum_def(x),
            Part::Mod(x) => self.total_goes_through_mod(x),
            Part::ForeignItemKind(x) => self.total_goes_through_foreign_item_kind(x),
            Part::ForeignItem(x) => self.total_goes_through_foreign_item(x),
            Part::ForeignMod(x) => self.total_goes_through_foreign_mod(x),
            Part::TraitItemKind(x) => self.total_goes_through_trait_item_kind(x),
            Part::TraitItem(x) => self.total_goes_through_trait_item(x),
            Part::ImplItemKind(x) => self.total_goes_through_impl_item_kind(x),
            Part::ImplItem(x) => self.total_goes_through_impl_item(x),
            Part::ItemKind(x) => self.total_goes_through_item_kind(x),
            Part::Item(x) => self.total_goes_through_item(x),
            Part::Crate(x) => self.total_goes_through_crate(x),
            Part::Mac(x) => {
                assert(self.can_visit_mac(x));
            },
        }
    }

    /// Visiting a node that is no expression is visiting all that it is made of, in the order of
    /// the text.
    pub proof fn visit_goes_through_the_parts(self, from: S, before: Part, to: S, after: Part)
        requires
            self.visited_part(from, before, to, after),
            !(before is Expr),
            !(before is Mac),
        ensures
            self.visited_parts(from, parts(before), to, parts(after)),
    {
        match (before, after) {
            (Part::Path(x), Part::Path(y)) => self.goes_through_the_parts_of_path(from, x, to, y),
            (Part::PathSegment(x), Part::PathSegment(y)) => {
                self.goes_through_the_parts_of_segment(from, x, to, y)
            },
            (Part::GenericArgs(x), Part::GenericArgs(y)) => {
                self.goes_through_the_parts_of_generic_args(from, x, to, y)
            },
            (Part::GenericArg(x), Part::GenericArg(y)) => {
                self.goes_through_the_parts_of_generic_arg(from, x, to, y)
            },
            (Part::AngleBracketedArgs(x), Part::AngleBracketedArgs(y)) => {
                self.goes_through_the_parts_of_angle_bracketed_args(from, x, to, y)
            },
            (Part::ParenthesizedArgs(x), Part::ParenthesizedArgs(y)) => {
                self.goes_through_the_parts_of_parenthesized_args(from, x, to, y)
            },
            (Part::AssocTyConstraint(x), Part::AssocTyConstraint(y)) => {
                self.goes_through_the_parts_of_constraint(from, x, to, y)
            },
            (Part::AssocTyConstraintKind(x), Part::AssocTyConstraintKind(y)) => {
                self.goes_through_the_parts_of_constraint_kind(from, x, to, y)
            },
            (Part::QSelf(x), Part::QSelf(y)) => {
                self.goes_through_the_parts_of_q_self(from, x, to, y)
            },
            (Part::GenericBound(x), Part::GenericBound(y)) => {
                self.goes_through_the_parts_of_bound(from, x, to, y)
            },
            (Part::TraitRef(x), Part::TraitRef(y)) => {
                self.goes_through_the_parts_of_trait_ref(from, x, to, y)
            },
            (Part::PolyTraitRef(x), Part::PolyTraitRef(y)) => {
                self.goes_through_the_parts_of_poly_trait_ref(from, x, to, y)
            },
            (Part::GenericParamKind(x), Part::GenericParamKind(y)) => {
                self.goes_through_the_parts_of_generic_param_kind(from, x, to, y)
            },
            (Part::GenericParam(x), Part::GenericParam(y)) => {
                self.goes_through_the_parts_of_generic_param(from, x, to, y)
            },
            (Part::WhereBoundPredicate(x), Part::WhereBoundPredicate(y)) => {
                self.goes_through_the_parts_of_bound_predicate(from, x, to, y)
            },
            (Part::WhereRegionPredicate(x), Part::WhereRegionPredicate(y)) => {
                self.goes_through_the_parts_of_region_predicate(from, x, to, y)
            },
            (Part::WhereEqPredicate(x), Part::WhereEqPredicate(y)) => {
                self.goes_through_the_parts_of_eq_predicate(from, x, to, y)
            },
            (Part::WherePredicate(x), Part::WherePredicate(y)) => {
                self.goes_through_the_parts_of_predicate(from, x, to, y)
            },
            (Part::WhereClause(x), Part::WhereClause(y)) => {
                self.goes_through_the_parts_of_where_clause(from, x, to, y)
            },
            (Part::Generics(x), Part::Generics(y)) => {
                self.goes_through_the_parts_of_generics(from, x, to, y)
            },
            (Part::MutTy(x), Part::MutTy(y)) => {
                self.goes_through_the_parts_of_mut_ty(from, x, to, y)
            },
            (Part::BareFnTy(x), Part::BareFnTy(y)) => {
                self.goes_through_the_parts_of_bare_fn(from, x, to, y)
            },
            (Part::TyKind(x), Part::TyKind(y)) => {
                self.goes_through_the_parts_of_ty_kind(from, x, to, y)
            },
            (Part::Ty(x), Part::Ty(y)) => self.goes_through_the_parts_of_ty(from, x, to, y),
            (Part::FieldPat(x), Part::FieldPat(y)) => {
                self.goes_through_the_parts_of_field_pat(from, x, to, y)
            },
            (Part::PatKind(x), Part::PatKind(y)) => {
                self.goes_through_the_parts_of_pat_kind(from, x, to, y)
            },
            (Part::Pat(x), Part::Pat(y)) => self.goes_through_the_parts_of_pat(from, x, to, y),
            (Part::AnonConst(x), Part::AnonConst(y)) => {
                self.goes_through_the_parts_of_anon_const(from, x, to, y)
            },
            (Part::Arm(x), Part::Arm(y)) => self.goes_through_the_parts_of_arm(from, x, to, y),
            (Part::Field(x), Part::Field(y)) => {
                self.goes_through_the_parts_of_field(from, x, to, y)
            },
            (Part::InlineAsmOutput(x), Part::InlineAsmOutput(y)) => {
                self.goes_through_the_parts_of_asm_output(from, x, to, y)
            },
            (Part::InlineAsmInput(x), Part::InlineAsmInput(y)) => {
                self.goes_through_the_parts_of_asm_input(from, x, to, y)
            },
            (Part::InlineAsm(x), Part::InlineAsm(y)) => {
                self.goes_through_the_parts_of_inline_assembly(from, x, to, y)
            },
            (Part::ExprKind(x), Part::ExprKind(y)) => {
                self.goes_through_the_parts_of_expr_kind(from, x, to, y)
            },
            (Part::Block(x), Part::Block(y)) => {
                self.goes_through_the_parts_of_block(from, x, to, y)
            },
            (Part::Local(x), Part::Local(y)) => {
                self.goes_through_the_parts_of_local(from, x, to, y)
            },
            (Part::MacStmt(x), Part::MacStmt(y)) => {
                self.goes_through_the_parts_of_mac_stmt(from, x, to, y)
            },
            (Part::StmtKind(x), Part::StmtKind(y)) => {
                self.goes_through_the_parts_of_stmt_kind(from, x, to, y)
            },
            (Part::Stmt(x), Part::Stmt(y)) => self.goes_through_the_parts_of_stmt(from, x, to, y),
            (Part::Param(x), Part::Param(y)) => {
                self.goes_through_the_parts_of_param(from, x, to, y)
            },
            (Part::FunctionRetTy(x), Part::FunctionRetTy(y)) => {
                self.goes_through_the_parts_of_return_ty(from, x, to, y)
            },
            (Part::FnDecl(x), Part::FnDecl(y)) => {
                self.goes_through_the_parts_of_fn_decl(from, x, to, y)
            },
            (Part::MethodSig(x), Part::MethodSig(y)) => {
                self.goes_through_the_parts_of_method_sig(from, x, to, y)
            },
            (Part::StructField(x), Part::StructField(y)) => {
                self.goes_through_the_parts_of_struct_field(from, x, to, y)
            },
            (Part::VariantData(x), Part::VariantData(y)) => {
                self.goes_through_the_parts_of_variant_data(from, x, to, y)
            },
            (Part::Variant(x), Part::Variant(y)) => {
                self.goes_through_the_parts_of_variant(from, x, to, y)
            },
            (Part::EnumDef(x), Part::EnumDef(y)) => {
                self.goes_through_the_parts_of_enum_def(from, x, to, y)
            },
            (Part::Mod(x), Part::Mod(y)) => self.goes_through_the_parts_of_mod(from, x, to, y),
            (Part::ForeignItemKind(x), Part::ForeignItemKind(y)) => {
                self.goes_through_the_parts_of_foreign_item_kind(from, x, to, y)
            },
            (Part::ForeignItem(x), Part::ForeignItem(y)) => {
                self.goes_through_the_parts_of_foreign_item(from, x, to, y)
            },
            (Part::ForeignMod(x), Part::ForeignMod(y)) => {
                self.goes_through_the_parts_of_foreign_mod(from, x, to, y)
            },
            (Part::TraitItemKind(x), Part::TraitItemKind(y)) => {
                self.goes_through_the_parts_of_trait_item_kind(from, x, to, y)
            },
            (Part::TraitItem(x), Part::TraitItem(y)) => {
                self.goes_through_the_parts_of_trait_item(from, x, to, y)
            },
            (Part::ImplItemKind(x), Part::ImplItemKind(y)) => {
                self.goes_through_the_parts_of_impl_item_kind(from, x, to, y)
            },
            (Part::ImplItem(x), Part::ImplItem(y)) => {
                self.goes_through_the_parts_of_impl_item(from, x, to, y)
            },
            (Part::ItemKind(x), Part::ItemKind(y)) => {
                self.goes_through_the_parts_of_item_kind(from, x, to, y)
            },
            (Part::Item(x), Part::Item(y)) => self.goes_through_the_parts_of_item(from, x, to, y),
            (Part::Crate(x), Part::Crate(y)) => {
                self.goes_through_the_parts_of_crate(from, x, to, y)
            },
            _ => {},
        }
    }

    /// Where the filter is sure to reject an expression, everything that it is made of is visited,
    /// in the order of the text and from the state that the filter left.
    pub proof fn rejected_expression_is_gone_through(
        self,
        from: S,
        before: Expr,
        to: S,
        after: Expr,
    )
        requires
            self.visited_expr(from, before, to, after),
            !self.may_answer(before.kind.ast_name(), true),
        ensures
            exists|mid: S|
                {
                    &&& #[trigger] self.asked(from, before.kind.ast_name(), mid, false)
                    &&& self.visited_parts(
                        mid,
                        parts(Part::Expr(before)),
                        to,
                        parts(Part::Expr(after)),
                    )
                },
    {
        let name = before.kind.ast_name();
        let mid = choose|mid: S|
            {
                &&& #[trigger] self.asked(from, name, mid, false)
                &&& self.walked_expr(mid, before, to, after)
            };
        self.goes_through_the_parts_of_expr(mid, before, to, after);
    }

    /// In a list that was visited, each node was visited.
    pub proof fn each_part_is_visited(
        self,
        from: S,
        before: Seq<Part>,
        to: S,
        after: Seq<Part>,
        index: int,
    )
        requires
            self.visited_parts(from, before, to, after),
            0 <= index < before.len(),
        ensures
            after.len() == before.len(),
            exists|start: S, end: S| #[trigger]
                self.visited_part(start, before[index], end, after[index]),
        decreases before.len(),
    {
        let mid = choose|mid: S|
            {
                &&& #[trigger] between(mid)
                &&& self.visited_parts(from, before.drop_last(), mid, after.drop_last())
                &&& self.visited_part(mid, before.last(), to, after.last())
            };
        if index < before.len() - 1 {
            self.each_part_is_visited(from, before.drop_last(), mid, after.drop_last(), index);
            assert(before.drop_last()[index] == before[index]);
            assert(after.drop_last()[index] == after[index]);
        }
    }

    /// The filter is sure to reject every expression on the way, the last one left out.
    pub open spec fn is_open_way(self, part: Part, path: Seq<int>) -> bool
        decreases path.len(),
    {
        path.len() > 0 ==> {
            &&& part matches Part::Expr(expr) ==> !self.may_answer(expr.kind.ast_name(), true)
            &&& self.is_open_way(parts(part)[path.last()], path.drop_last())
        }
    }

    /// A way is open where the filter is sure to reject the expressions on it.
    pub proof fn ways_are_opened_step_by_step(self, part: Part, index: int, path: Seq<int>)
        ensures
            self.is_open_way(part, seq![]),
            self.is_open_way(part, path.push(index)) <==> self.is_open_way(
                parts(part)[index],
                path,
            ) && (part matches Part::Expr(expr) ==> !self.may_answer(expr.kind.ast_name(), true)),
    {
        assert(path.push(index).drop_last() =~= path);
        assert(path.push(index).last() == index);
    }

    /// What was visited and not replaced was gone through part by part.
    proof fn lemma_one_step(self, from: S, before: Part, to: S, after: Part)
        requires
            self.visited_part(from, before, to, after),
            before matches Part::Expr(expr) ==> !self.may_answer(expr.kind.ast_name(), true),
        ensures
            exists|mid: S|
                {
                    &&& #[trigger] between(mid)
                    &&& self.visited_parts(mid, parts(before), to, parts(after))
                },
    {
        if let (Part::Expr(x), Part::Expr(y)) = (before, after) {
            self.rejected_expression_is_gone_through(from, x, to, y);
            let mid = choose|mid: S|
                {
                    &&& #[trigger] self.asked(from, x.kind.ast_name(), mid, false)
                    &&& self.visited_parts(mid, parts(before), to, parts(after))
                };
            assert(between(mid));
        } else if before is Mac {
            assert(between(to));
            assert(self.visited_parts(to, parts(before), to, parts(after)));
        } else {
            self.visit_goes_through_the_parts(from, before, to, after);
            assert(between(from));
        }
    }

    /// Whatever stands in a node behind rejected expressions alone is visited, and stays at its
    /// spot.
    pub proof fn reachable_nodes_are_visited(
        self,
        from: S,
        before: Part,
        to: S,
        after: Part,
        path: Seq<int>,
    )
        requires
            self.visited_part(from, before, to, after),
            is_spot(before, path),
            self.is_open_way(before, path),
        ensures
            is_spot(after, path),
            exists|start: S, end: S| #[trigger]
                self.visited_part(start, spot(before, path), end, spot(after, path)),
        decreases path.len(),
    {
        if path.len() > 0 {
            self.lemma_one_step(from, before, to, after);
            let mid = choose|mid: S|
                {
                    &&& #[trigger] between(mid)
                    &&& self.visited_parts(mid, parts(before), to, parts(after))
                };
            let index = path.last();
            self.each_part_is_visited(mid, parts(before), to, parts(after), index);
            let (start, end) = choose|start: S, end: S| #[trigger]
                self.visited_part(start, parts(before)[index], end, parts(after)[index]);
            self.reachable_nodes_are_visited(
                start,
                parts(before)[index],
                end,
                parts(after)[index],
                path.drop_last(),
            );
        }
    }

    /// No expression that the filter is sure to accept is left as it was where it stands behind
    /// rejected expressions alone: the map was called on it, and what the map gave is at its spot.
    pub proof fn no_accepted_expression_is_left(
        self,
        from: S,
        before: Part,
        to: S,
        after: Part,
        path: Seq<int>,
        expr: Expr,
    )
        requires
            self.visited_part(from, before, to, after),
            is_spot(before, path),
            self.is_open_way(before, path),
            spot(before, path) == Part::Expr(expr),
            !self.may_answer(expr.kind.ast_name(), false),
        ensures
            is_spot(after, path),
            exists|start: S, mid: S, end: S, replacement: Expr|
                {
                    &&& #[trigger] self.asked(start, expr.kind.ast_name(), mid, true)
                    &&& #[trigger] self.mapped(mid, expr, end, replacement)
                    &&& spot(after, path) == Part::Expr(replacement)
                },
    {
        self.reachable_nodes_are_visited(from, before, to, after, path);
        let (start, end) = choose|start: S, end: S| #[trigger]
            self.visited_part(start, spot(before, path), end, spot(after, path));
        let replacement = spot(after, path)->Expr_0;
        self.accepted_is_mapped(start, expr, end, replacement);
    }

    /// No macro call is passed over where it stands behind rejected expressions alone, and it
    /// stays as it is.
    pub proof fn no_macro_call_is_passed_over(
        self,
        from: S,
        before: Part,
        to: S,
        after: Part,
        path: Seq<int>,
        mac: Mac,
    )
        requires
            self.visited_part(from, before, to, after),
            is_spot(before, path),
            self.is_open_way(before, path),
            spot(before, path) == Part::Mac(mac),
        ensures
            is_spot(after, path),
            spot(after, path) == Part::Mac(mac),
            exists|start: S, end: S| #[trigger] call_ensures(self.mac, (&start, &mac), end),
    {
        self.reachable_nodes_are_visited(from, before, to, after, path);
        let (start, end) = choose|start: S, end: S| #[trigger]
            self.visited_part(start, spot(before, path), end, spot(after, path));
        assert(call_ensures(self.mac, (&start, &mac), end));
    }
}

} // verus!
