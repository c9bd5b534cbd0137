//! What holds between the requests of scripts: what one writes, another reads.

use vstd::prelude::*;

use crate::ast::attr::Attribute;
use crate::ast::expr::{Expr, ExprKind};
use crate::ast::flags::{
    BindingMode, BlockCheckMode, FloatTy, IntTy, LitIntType, Mutability, TokenLitKind, UintTy,
    UnsafeSource,
};
use crate::ast::func::{FnDecl, FunctionRetTy, Param};
use crate::ast::generics::GenericParam;
use crate::ast::ident::{Ident, Lifetime, dummy_id, fresh_ident};
use crate::ast::item::{ItemKind, StructField, VariantData};
use crate::ast::lit::{Lit, LitKind};
use crate::ast::pat::PatKind;
use crate::ast::path::{GenericArg, GenericArgs, Path, PathSegment};
use crate::ast::span::dummy_span;
use crate::ast::stmt::{Local, Stmt, StmtKind};
use crate::ast::ty::{Ty, TyKind};
use crate::error::Error;
use crate::nodes::expr::{
    ascribed_ty, binary_operator, boxed, is_bool_lit, is_closure_decl, operands, operands_needed,
    operands_replaced, scripted_block, scripted_label, ty_replaced, unary_operator,
};
use crate::nodes::item::{
    copy_derive_removed, field_ids, fields_of, has_lifetime, has_name, is_clone_derive,
    is_first_named, is_lifetime_param, item_args, item_fields, lifetime_added, lifetime_params,
    names_lifetime,
    param_ids, same_but_params,
};
use crate::nodes::lit::{float_suffix, int_suffix, suffix_replaced, suffix_stripped};
use crate::nodes::path::{any_generic_args, is_angled_args, is_ident_path, plain_segment};
use crate::nodes::stmt::{StmtNode, stmt_node};
use crate::nodes::ty::{
    inner_tys, inner_tys_replaced, is_lifetime, path_lifetime_added, pointee, ptr_root, scripted_ty,
    with_ptr_root,
};
use crate::text::decimal_text;

verus! {

/// The operands that a script sets are the ones that it gets, as many as the expression takes.
/// This holds of all expressions whose operands can be both set and read, but for method calls,
/// which keep theirs.
pub proof fn operands_are_read_back(before: ExprKind, exprs: Seq<Expr>, after: ExprKind)
    requires
        operands_needed(before) is Some,
        exprs.len() >= operands_needed(before)->0,
        operands_replaced(before, exprs, after),
        !(before is MethodCall),
        !(before is AddrOf),
    ensures
        operands(after) == (if before is Call {
            exprs
        } else {
            exprs.take(operands_needed(before)->0 as int)
        }),
{
    let seen = if before is Call {
        exprs
    } else {
        exprs.take(operands_needed(before)->0 as int)
    };
    assert(operands(after) =~= seen);
}

/// Setting the operands again undoes what was set before.
pub proof fn last_operands_win(
    before: ExprKind,
    first: Seq<Expr>,
    between: ExprKind,
    second: Seq<Expr>,
    after: ExprKind,
)
    requires
        operands_replaced(before, first, between),
        operands_replaced(between, second, after),
    ensures
        operands_replaced(before, second, after),
{
}

/// Putting back the operands that an expression has changes nothing that a script can see.
pub proof fn own_operands_change_nothing(before: ExprKind, after: ExprKind)
    requires
        operands_needed(before) is Some,
        !(before is AddrOf),
        operands_replaced(before, operands(before), after),
    ensures
        operands(after) == operands(before),
        !(before is Call) ==> after == before,
{
    assert(operands(after) =~= operands(before));
}

/// The type that a script sets is the one that it gets, and the operands stay.
pub proof fn type_is_read_back(before: ExprKind, ty: Ty, after: ExprKind)
    requires
        ty_replaced(before, ty, after),
    ensures
        ascribed_ty(after) == Some(ty),
        operands(after) == operands(before),
{
}

/// An expression that a script builds has the operands that it was built of.
pub proof fn built_operands(kind: ExprKind)
    ensures
        kind matches ExprKind::Binary(_, lhs, rhs) ==> operands(kind) == seq![*lhs, *rhs],
        kind matches ExprKind::Unary(_, expr) ==> operands(kind) == seq![*expr],
        kind matches ExprKind::Cast(expr, ty) ==> operands(kind) == seq![*expr] && ascribed_ty(
            kind,
        ) == Some(*ty),
        kind matches ExprKind::Field(expr, _) ==> operands(kind) == seq![*expr],
        kind matches ExprKind::MethodCall(_, exprs) ==> operands(kind) == exprs@,
{
}

/// A call that a script builds of a list has that list as its operands.
pub proof fn built_call_operands(kind: ExprKind, exprs: Seq<Expr>)
    requires
        exprs.len() > 0,
        kind matches ExprKind::Call(func, params) && *func == exprs[0] && params@ == exprs.skip(1),
    ensures
        operands(kind) == exprs,
{
    assert(operands(kind) =~= exprs);
}

/// A function or a struct to which a lifetime was added has it.
pub proof fn added_lifetime_is_there(before: ItemKind, name: Seq<char>, after: ItemKind)
    requires
        lifetime_params(before) is Some,
        lifetime_added(before, name, after),
    ensures
        lifetime_params(after) matches Some(params) && has_lifetime(params, name),
{
    if !has_lifetime(lifetime_params(before)->0, name) {
        let params = lifetime_params(after)->0;
        assert(names_lifetime(params[params.len() - 1], name));
    }
}

/// Adding a lifetime for the second time changes nothing.
pub proof fn adding_lifetime_is_idempotent(
    before: ItemKind,
    name: Seq<char>,
    between: ItemKind,
    after: ItemKind,
)
    requires
        lifetime_added(before, name, between),
        lifetime_added(between, name, after),
    ensures
        after == between,
{
    if lifetime_params(before) is Some {
        added_lifetime_is_there(before, name, between);
    }
}

/// The parameters that an item had keep their places when a lifetime is added.
pub proof fn adding_lifetime_keeps_parameters(
    before: ItemKind,
    name: Seq<char>,
    after: ItemKind,
    index: int,
)
    requires
        lifetime_added(before, name, after),
        lifetime_params(before) matches Some(params) && 0 <= index < params.len(),
    ensures
        same_but_params(before, after),
        lifetime_params(after) matches Some(params) && index < params.len() && params[index]
            == lifetime_params(before)->0[index],
{
    if !has_lifetime(lifetime_params(before)->0, name) {
        assert(lifetime_params(after)->0[index] == lifetime_params(after)->0.drop_last()[index]);
    }
}

/// No two of the lifetimes among the parameters have the same identifier.
pub open spec fn distinct_lifetimes(params: Seq<GenericParam>) -> bool {
    forall|i: int, j: int|
        0 <= i < j < params.len() && (#[trigger] params[i]).kind is Lifetime && (
        #[trigger] params[j]).kind is Lifetime ==> !params[i].ident.matches_ident(
            params[j].ident,
        )
}

/// Adding a lifetime never makes two of one identifier.
pub proof fn adding_lifetime_keeps_them_distinct(
    before: ItemKind,
    name: Seq<char>,
    after: ItemKind,
)
    requires
        lifetime_added(before, name, after),
        lifetime_params(before) matches Some(params) && distinct_lifetimes(params),
    ensures
        lifetime_params(after) matches Some(params) && distinct_lifetimes(params),
{
    let old_params = lifetime_params(before)->0;
    if !has_lifetime(old_params, name) {
        let params = lifetime_params(after)->0;
        assert forall|i: int, j: int|
            0 <= i < j < params.len() && (#[trigger] params[i]).kind is Lifetime && (
            #[trigger] params[j]).kind is Lifetime implies !params[i].ident.matches_ident(
            params[j].ident,
        ) by {
            assert(params[i] == params.drop_last()[i]);
            if j < old_params.len() {
                assert(params[j] == params.drop_last()[j]);
            } else if params[i].ident.matches_ident(params[j].ident) {
                assert(names_lifetime(old_params[i], name));
            }
        }
    }
}

/// The item always comes out with `#[derive(Clone)]` as its last attribute, and with one
/// attribute more than it had, or with as many where one marked a derived copy.
pub proof fn copy_derive_count(before: Seq<Attribute>, after: Seq<Attribute>)
    requires
        copy_derive_removed(before, after),
    ensures
        is_clone_derive(after.last()),
        after.len() == before.len() + 1 || after.len() == before.len(),
        after.len() == before.len() <==> exists|i: int|
            0 <= i < before.len() && has_name(
                #[trigger] before[i],
                "rustc_copy_clone_marker"@,
            ),
{
    let marker = "rustc_copy_clone_marker"@;
    if exists|i: int| 0 <= i < before.len() && has_name(#[trigger] before[i], marker) {
        let i = choose|i: int| 0 <= i < before.len() && has_name(#[trigger] before[i], marker);
        lemma_first_named_exists(before, marker, i);
        let first = choose|k: int| is_first_named(before, marker, k);
        assert(after.drop_last() == before.remove(first));
    } else {
        assert(after.drop_last() == before);
    }
    assert(after.drop_last().len() == after.len() - 1);
}

/// Where some attribute has the name, one of them is the first.
proof fn lemma_first_named_exists(attrs: Seq<Attribute>, name: Seq<char>, index: int)
    requires
        0 <= index < attrs.len(),
        has_name(attrs[index], name),
    ensures
        exists|i: int| is_first_named(attrs, name, i),
    decreases index,
{
    if forall|i: int| 0 <= i < index ==> !has_name(#[trigger] attrs[i], name) {
        assert(is_first_named(attrs, name, index));
    } else {
        let i = choose|i: int| 0 <= i < index && has_name(#[trigger] attrs[i], name);
        lemma_first_named_exists(attrs, name, i);
    }
}

/// The types that a script sets are the ones that it gets: all of them for a tuple, the first
/// for a slice or an array.
pub proof fn inner_types_are_read_back(before: TyKind, tys: Seq<Ty>, after: TyKind)
    requires
        before is Tup || tys.len() > 0,
        inner_tys_replaced(before, tys, after),
    ensures
        inner_tys(after) == Some(
            if before is Tup {
                tys
            } else {
                tys.take(1)
            },
        ),
{
    if !(before is Tup) {
        assert(inner_tys(after)->0 =~= tys.take(1));
    }
}

/// What was wrapped in a slice is what the slice holds.
pub proof fn wrapped_type_is_inside(before: Ty, after: Ty)
    requires
        after == (Ty { kind: TyKind::Slice(Box::new(scripted_ty(before.kind))), ..before }),
    ensures
        inner_tys(after.kind) == Some(seq![scripted_ty(before.kind)]),
        inner_tys(after.kind)->0[0].kind == before.kind,
{
}

/// A chain of pointers whose end was replaced leads to where the replacement leads.
pub proof fn replaced_root_is_reached(ty: Ty, root: Ty)
    ensures
        ptr_root(with_ptr_root(ty, root)) == ptr_root(root),
    decreases ty,
{
    match ty.kind {
        TyKind::Ptr(mut_ty) => replaced_root_is_reached(*mut_ty.ty, root),
        TyKind::Rptr(_, mut_ty) => replaced_root_is_reached(*mut_ty.ty, root),
        _ => {},
    }
}

/// Replacing the end of a chain of pointers by itself changes nothing.
pub proof fn own_root_changes_nothing(ty: Ty)
    ensures
        with_ptr_root(ty, ptr_root(ty)) == ty,
    decreases ty,
{
    match ty.kind {
        TyKind::Ptr(mut_ty) => own_root_changes_nothing(*mut_ty.ty),
        TyKind::Rptr(_, mut_ty) => own_root_changes_nothing(*mut_ty.ty),
        _ => {},
    }
}

/// Replacing the end of a chain of pointers twice is replacing it once, by the first
/// replacement with its own end replaced.
pub proof fn roots_replaced_in_turn(ty: Ty, first: Ty, second: Ty)
    ensures
        with_ptr_root(with_ptr_root(ty, first), second) == with_ptr_root(
            ty,
            with_ptr_root(first, second),
        ),
    decreases ty,
{
    match ty.kind {
        TyKind::Ptr(mut_ty) => roots_replaced_in_turn(*mut_ty.ty, first, second),
        TyKind::Rptr(_, mut_ty) => roots_replaced_in_turn(*mut_ty.ty, first, second),
        _ => {},
    }
}

/// The end of a chain of pointers is no pointer.
pub proof fn root_is_no_pointer(ty: Ty)
    ensures
        !(ptr_root(ty).kind is Ptr),
        !(ptr_root(ty).kind is Rptr),
    decreases ty,
{
    match ty.kind {
        TyKind::Ptr(mut_ty) => root_is_no_pointer(*mut_ty.ty),
        TyKind::Rptr(_, mut_ty) => root_is_no_pointer(*mut_ty.ty),
        _ => {},
    }
}

/// The names that a script sets are the ones that it gets, and a path of plain names can be set
/// again.
pub proof fn segments_are_read_back(names: Seq<String>, segments: Seq<PathSegment>)
    requires
        segments == names.map_values(|name: String| plain_segment(name)),
    ensures
        segments.map_values(|segment: PathSegment| segment.ident) == names.map_values(
            |name: String| fresh_ident(name),
        ),
        !any_generic_args(segments),
{
    assert(segments.map_values(|segment: PathSegment| segment.ident) =~= names.map_values(
        |name: String| fresh_ident(name),
    ));
}

/// A path to which a lifetime was added keeps the names of its segments.
pub proof fn path_lifetime_keeps_names(before: Path, name: Seq<char>, after: Path)
    requires
        before.segments@.len() > 0,
        path_lifetime_added(before, name, after),
    ensures
        after.segments@.map_values(|segment: PathSegment| segment.ident)
            == before.segments@.map_values(|segment: PathSegment| segment.ident),
        any_generic_args(after.segments@),
{
    assert forall|i: int|
        0 <= i < before.segments@.len() implies (#[trigger] after.segments@[i]).ident
        == before.segments@[i].ident by {
        if i < before.segments@.len() - 1 {
            assert(after.segments@[i] == after.segments@.drop_last()[i]);
            assert(before.segments@[i] == before.segments@.drop_last()[i]);
        }
    }
    assert(after.segments@.map_values(|segment: PathSegment| segment.ident)
        =~= before.segments@.map_values(|segment: PathSegment| segment.ident));
    assert(after.segments@[after.segments@.len() - 1].args is Some);
}

/// Stripping the suffix of an integer literal is replacing it by the empty one.
pub proof fn stripping_is_replacing_by_nothing(
    before: Lit,
    stripped: Lit,
    replaced: Lit,
    result: Result<(), Error>,
)
    requires
        before.kind is Int,
        suffix_stripped(before, stripped),
        suffix_replaced(before, ""@, replaced, result),
    ensures
        stripped == replaced,
        result is Ok,
{
}

/// An integer literal stands for the same number whatever suffix of an integer type it gets.
pub proof fn replacing_suffix_keeps_value(
    before: Lit,
    suffix: Seq<char>,
    after: Lit,
    result: Result<(), Error>,
)
    requires
        suffix_replaced(before, suffix, after, result),
    ensures
        before.kind matches LitKind::Int(value, _) && after.kind is Int ==> after.kind->Int_0
            == before.kind->Int_0,
        result is Err ==> after == before,
        after.span == before.span,
{
}

/// Of two suffixes given in turn to an integer literal the second one stays, where the first is
/// not one of a floating-point type.
pub proof fn last_suffix_wins(
    before: Lit,
    first: Seq<char>,
    between: Lit,
    first_result: Result<(), Error>,
    second: Seq<char>,
    after: Lit,
    result: Result<(), Error>,
)
    requires
        suffix_replaced(before, first, between, first_result),
        between.kind is Int,
        suffix_replaced(between, second, after, result),
        result is Ok,
    ensures
        suffix_replaced(before, second, after, result),
{
}

/// An integer literal that has become a floating-point literal gets no other suffix.
pub proof fn float_suffix_is_final(
    before: Lit,
    suffix: Seq<char>,
    between: Lit,
    first_result: Result<(), Error>,
    second: Seq<char>,
    after: Lit,
    result: Result<(), Error>,
)
    requires
        suffix_replaced(before, suffix, between, first_result),
        between.kind is Float,
        suffix_replaced(between, second, after, result),
    ensures
        result == Err::<(), Error>(Error::NotAnInteger),
        after == between,
{
}

/// A statement made of an expression, with or without a semicolon, is made of that expression.
pub proof fn statement_is_made_of_its_expression(expr: Expr)
    ensures
        stmt_node(StmtKind::Semi(Box::new(expr))) == Some(StmtNode::Expr(&expr)),
        stmt_node(StmtKind::Expr(Box::new(expr))) == Some(StmtNode::Expr(&expr)),
{
}

/// A statement made of a `let` is made of that `let`.
pub proof fn statement_is_made_of_its_local(local: Local)
    ensures
        stmt_node(StmtKind::Local(Box::new(local))) == Some(StmtNode::Local(&local)),
{
}

/// Stripping a suffix twice is stripping it once.
pub proof fn stripping_is_idempotent(before: Lit, between: Lit, after: Lit)
    requires
        suffix_stripped(before, between),
        suffix_stripped(between, after),
    ensures
        after == between,
{
}

/// The operands that a script sees, form by form: those of an assignment or a binary operation from
/// left to right, the callee before the arguments, and none of any other form.
pub proof fn operands_stand_in_order(kind: ExprKind)
    ensures
        kind matches ExprKind::Cast(e, _) ==> operands(kind).len() == 1 && operands(kind)[0] == *e,
        kind matches ExprKind::Field(e, _) ==> operands(kind).len() == 1 && operands(kind)[0]
            == *e,
        kind matches ExprKind::Unary(_, e) ==> operands(kind).len() == 1 && operands(kind)[0]
            == *e,
        kind matches ExprKind::MethodCall(_, es) ==> operands(kind) == es@,
        kind matches ExprKind::Assign(l, r) ==> operands(kind).len() == 2 && operands(kind)[0]
            == *l && operands(kind)[1] == *r,
        kind matches ExprKind::AssignOp(_, l, r) ==> operands(kind).len() == 2 && operands(
            kind,
        )[0] == *l && operands(kind)[1] == *r,
        kind matches ExprKind::Binary(_, l, r) ==> operands(kind).len() == 2 && operands(kind)[0]
            == *l && operands(kind)[1] == *r,
        kind matches ExprKind::Call(f, es) ==> operands(kind).len() == es@.len() + 1 && operands(
            kind,
        )[0] == *f && operands(kind).skip(1) == es@,
        operands(kind).len() > 0 ==> kind is Cast || kind is Field || kind is Unary
            || kind is MethodCall || kind is Assign || kind is AssignOp || kind is Binary
            || kind is Call,
{
    if let ExprKind::Call(_, es) = kind {
        assert(operands(kind).skip(1) =~= es@);
    }
}

/// Operands that are set land in their places: the first on the left, the second on the right, the
/// callee before the arguments. The operator, the field, the type and the mutability stay, and so
/// does a method call as a whole.
pub proof fn operands_land_in_their_places(before: ExprKind, exprs: Seq<Expr>, after: ExprKind)
    requires
        operands_replaced(before, exprs, after),
    ensures
        before matches ExprKind::Field(_, name) ==> (after matches ExprKind::Field(e, name2) && *e
            == exprs[0] && name2 == name),
        before matches ExprKind::Unary(op, _) ==> (after matches ExprKind::Unary(op2, e) && *e
            == exprs[0] && op2 == op),
        before matches ExprKind::Cast(_, ty) ==> (after matches ExprKind::Cast(e, ty2) && *e
            == exprs[0] && ty2 == ty),
        before matches ExprKind::AddrOf(m, _) ==> (after matches ExprKind::AddrOf(m2, e) && *e
            == exprs[0] && m2 == m),
        before is MethodCall ==> after == before,
        before is Call ==> (after matches ExprKind::Call(f, es) && *f == exprs[0] && es@
            == exprs.skip(1)),
        before is Assign ==> (after matches ExprKind::Assign(l, r) && *l == exprs[0] && *r
            == exprs[1]),
        before matches ExprKind::AssignOp(op, _, _) ==> (after matches ExprKind::AssignOp(
            op2,
            l,
            r,
        ) && op2 == op && *l == exprs[0] && *r == exprs[1]),
        before matches ExprKind::Binary(op, _, _) ==> (after matches ExprKind::Binary(op2, l, r)
            && op2 == op && *l == exprs[0] && *r == exprs[1]),
{
}

/// Operands can be set of exactly these forms, and as many have to be given as the form has places
/// for.
pub proof fn operands_that_can_be_set(kind: ExprKind)
    ensures
        operands_needed(kind) is Some <==> kind is Field || kind is Unary || kind is Cast
            || kind is AddrOf || kind is MethodCall || kind is Call || kind is Assign
            || kind is AssignOp || kind is Binary,
        kind is Field || kind is Unary || kind is Cast || kind is AddrOf || kind is Call
            ==> operands_needed(kind) == Some(1nat),
        kind is Assign || kind is AssignOp || kind is Binary ==> operands_needed(kind) == Some(
            2nat,
        ),
        kind is MethodCall ==> operands_needed(kind) == Some(0nat),
        !(kind is AddrOf || kind is MethodCall) && operands_needed(kind) is Some
            ==> operands_needed(kind)->0 <= operands(kind).len(),
{
}

/// The type of a cast or an ascription is the one behind its operand, and setting it leaves the
/// operand alone.
pub proof fn set_type_leaves_the_operand(before: ExprKind, ty: Ty, after: ExprKind)
    requires
        ty_replaced(before, ty, after),
    ensures
        before matches ExprKind::Cast(e, _) ==> (after matches ExprKind::Cast(e2, ty2) && e2 == e
            && *ty2 == ty),
        before matches ExprKind::Type(e, _) ==> (after matches ExprKind::Type(e2, ty2) && e2 == e
            && *ty2 == ty),
        before is Cast || before is Type,
{
}

/// The type that a script sees of an expression is that of a cast or an ascription.
pub proof fn type_is_behind_the_operand(kind: ExprKind)
    ensures
        kind matches ExprKind::Cast(_, ty) ==> ascribed_ty(kind) == Some(*ty),
        kind matches ExprKind::Type(_, ty) ==> ascribed_ty(kind) == Some(*ty),
        ascribed_ty(kind) is Some ==> kind is Cast || kind is Type,
{
}

/// An operator that is made under a name has that name.
pub proof fn made_operator_has_the_name(name: Seq<char>)
    ensures
        binary_operator(name) matches Some(op) ==> op.ast_name()@ == name,
        unary_operator(name) matches Some(op) ==> op.ast_name()@ == name,
        binary_operator(name) is Some <==> name == "Add"@ || name == "Div"@,
        unary_operator(name) is Some <==> name == "Deref"@,
{
}

/// The parameters of a closure that is built are plain names that are bound by value, in the order
/// in which they were given, with types to be inferred; the closure says nothing of its result.
pub proof fn closure_parameters_are_plain_names(decl: FnDecl, names: Seq<String>, index: int)
    requires
        is_closure_decl(decl, names),
    ensures
        decl.inputs@.len() == names.len(),
        decl.output == FunctionRetTy::Default(dummy_span()),
        0 <= index < names.len() ==> {
            let param = decl.inputs@[index];
            &&& param.pat.kind matches PatKind::Ident(mode, ident, inner)
            &&& mode == BindingMode::ByValue(Mutability::Immutable)
            &&& ident.name == names[index]
            &&& ident.span == dummy_span()
            &&& inner is None
            &&& param.ty.kind is Infer
            &&& param.id == dummy_id()
            &&& param.pat.id == dummy_id()
            &&& param.ty.id == dummy_id()
            &&& param.span == dummy_span()
            &&& param.pat.span == dummy_span()
            &&& param.ty.span == dummy_span()
            &&& param.attrs@.len() == 0
            &&& param.is_placeholder
        },
{
}

/// The literal of a truth value stands for it and is written as the word for it.
pub proof fn truth_value_is_written_as_its_word(lit: Lit, value: bool)
    requires
        is_bool_lit(lit, value),
    ensures
        lit.kind == LitKind::Bool(value),
        value ==> lit.token.symbol@ == "true"@,
        !value ==> lit.token.symbol@ == "false"@,
        lit.token.kind == TokenLitKind::Bool,
        lit.token.suffix is None,
        lit.span == dummy_span(),
{
}

/// A block that is built holds the statements that it was given, and is unsafe unless it was said
/// to be safe.
pub proof fn built_block_holds_its_statements(stmts: Vec<Stmt>, is_safe: bool)
    ensures
        scripted_block(stmts, is_safe).stmts == stmts,
        scripted_block(stmts, is_safe).rules == BlockCheckMode::Default <==> is_safe,
        !is_safe ==> scripted_block(stmts, is_safe).rules == BlockCheckMode::Unsafe(
            UnsafeSource::UserProvided,
        ),
        scripted_block(stmts, is_safe).id == dummy_id(),
        scripted_block(stmts, is_safe).span == dummy_span(),
{
}

/// A label that is built has the name that it was given, and there is one only where one was.
pub proof fn built_label_has_the_name(label: Option<String>)
    ensures
        scripted_label(label) is Some <==> label is Some,
        label is Some ==> scripted_label(label)->0.ident.name == label->0,
        label is Some ==> scripted_label(label)->0.ident.span == dummy_span(),
{
}

/// An end of a range that is given is there, and one that is left out is not.
pub proof fn given_operand_is_there(expr: Option<Expr>)
    ensures
        boxed(expr) is Some <==> expr is Some,
        expr is Some ==> *boxed(expr)->0 == expr->0,
{
}

/// The fields of a struct are all its fields, in order; a unit struct has none.
pub proof fn fields_stand_in_order(data: VariantData)
    ensures
        data matches VariantData::Struct(fields, _) ==> fields_of(data) == fields@,
        data matches VariantData::Tuple(fields, _) ==> fields_of(data) == fields@,
        data is Unit ==> fields_of(data).len() == 0,
{
}

/// A script sees fields of structs alone, and parameters of functions alone; lifetimes can be added
/// to both and to nothing else.
pub proof fn what_items_show(kind: ItemKind)
    ensures
        kind matches ItemKind::Struct(data, generics) ==> item_fields(kind) == Some(
            fields_of(data),
        ) && lifetime_params(kind) == Some(generics.params@),
        item_fields(kind) is Some ==> kind is Struct,
        kind matches ItemKind::Fn(decl, _, generics, _) ==> item_args(kind) == Some(decl.inputs@)
            && lifetime_params(kind) == Some(generics.params@),
        item_args(kind) is Some ==> kind is Fn,
        lifetime_params(kind) is Some ==> kind is Fn || kind is Struct,
{
}

/// Adding a lifetime leaves everything of an item but the list of its parameters.
pub proof fn adding_lifetime_leaves_the_rest(before: ItemKind, name: Seq<char>, after: ItemKind)
    requires
        lifetime_added(before, name, after),
    ensures
        before matches ItemKind::Struct(data, generics) ==> (after matches ItemKind::Struct(
            data2,
            generics2,
        ) && data2 == data && generics2.where_clause == generics.where_clause && generics2.span
            == generics.span),
        before matches ItemKind::Fn(decl, header, generics, body) ==> (after matches ItemKind::Fn(
            decl2,
            header2,
            generics2,
            body2,
        ) && decl2 == decl && header2 == header && body2 == body && generics2.where_clause
            == generics.where_clause && generics2.span == generics.span),
        !(before is Struct) && !(before is Fn) ==> after == before,
{
}

/// A lifetime that is added has the name behind an apostrophe, no bounds and no attributes.
pub proof fn added_lifetime_is_bare(before: ItemKind, name: Seq<char>, after: ItemKind)
    requires
        lifetime_added(before, name, after),
        after != before,
    ensures
        lifetime_params(after) matches Some(params) && params.len() > 0 && {
            let added = params.last();
            &&& added.kind is Lifetime
            &&& added.ident.name@ == seq!['\''] + name
            &&& added.ident.span == dummy_span()
            &&& added.id == dummy_id()
            &&& added.attrs@.len() == 0
            &&& added.bounds@.len() == 0
            &&& !added.is_placeholder
        },
{
}

/// The ids of parameters and fields are listed one by one in their order.
pub proof fn ids_are_listed_in_order(params: Seq<Param>, fields: Seq<StructField>, index: int)
    ensures
        param_ids(params).len() == params.len(),
        field_ids(fields).len() == fields.len(),
        0 <= index < params.len() ==> param_ids(params)[index] == params[index].id.0,
        0 <= index < fields.len() ==> field_ids(fields)[index] == fields[index].id.0,
{
}

/// Only an attribute that marks a derived copy is taken off: the others stay, in their order, and
/// no other one comes but `#[derive(Clone)]`.
pub proof fn other_attributes_stay(before: Seq<Attribute>, after: Seq<Attribute>, index: int)
    requires
        copy_derive_removed(before, after),
        0 <= index < before.len(),
        !has_name(before[index], "rustc_copy_clone_marker"@),
    ensures
        exists|i: int| index - 1 <= i <= index && 0 <= i < after.len() - 1 && after[i]
            == before[index],
        after.last().path.segments@.len() == 1,
        after.last().path.segments@[0].name@ == "derive"@,
        after.last().tokens@ == "(Clone)"@,
{
    let marker = "rustc_copy_clone_marker"@;
    if exists|i: int| 0 <= i < before.len() && has_name(#[trigger] before[i], marker) {
        let some = choose|i: int| 0 <= i < before.len() && has_name(#[trigger] before[i], marker);
        lemma_first_named_exists(before, marker, some);
        let first = choose|k: int| is_first_named(before, marker, k);
        let kept = before.remove(first);
        assert(after.drop_last() == kept);
        assert(after.drop_last().len() == after.len() - 1);
        if index < first {
            assert(kept[index] == before[index]);
            assert(after.drop_last()[index] == after[index]);
        } else {
            assert(kept[index - 1] == before[index]);
            assert(after.drop_last()[index - 1] == after[index - 1]);
        }
    } else {
        assert(after.drop_last() == before);
        assert(after.drop_last()[index] == after[index]);
    }
}

/// An attribute has a name where it is called by one word, and by that word.
pub proof fn attribute_is_named_by_one_word(attr: Attribute, name: Seq<char>)
    ensures
        has_name(attr, name) ==> attr.path.segments@.len() == 1 && attr.path.segments@[0].name@
            == name,
        attr.path.segments@.len() == 1 ==> has_name(attr, attr.path.segments@[0].name@),
{
}

/// A lifetime that is added to a type is the last of the generic arguments of its last segment; the
/// other arguments, the constraints and the other segments stay. Arguments between round brackets
/// stay as they are.
pub proof fn type_lifetime_is_added_last(before: Path, name: Seq<char>, after: Path)
    requires
        before.segments@.len() > 0,
        path_lifetime_added(before, name, after),
    ensures
        after.span == before.span,
        after.segments@.len() == before.segments@.len(),
        forall|i: int|
            0 <= i < before.segments@.len() - 1 ==> after.segments@[i] == before.segments@[i],
        after.segments@.last().ident == before.segments@.last().ident,
        after.segments@.last().id == before.segments@.last().id,
        match (before.segments@.last().args, after.segments@.last().args) {
            (None, Some(args)) => *args matches GenericArgs::AngleBracketed(angled)
                && angled.args@.len() == 1 && (angled.args@[0] matches GenericArg::Lifetime(
                lifetime,
            ) && lifetime.ident.name@ == seq!['\''] + name && lifetime.ident.span == dummy_span()
                && lifetime.id == dummy_id()) && angled.constraints@.len() == 0 && angled.span
                == dummy_span(),
            (Some(args), Some(args2)) => match (*args, *args2) {
                (GenericArgs::AngleBracketed(angled), GenericArgs::AngleBracketed(angled2)) => {
                    &&& angled2.args@.len() == angled.args@.len() + 1
                    &&& angled2.args@.drop_last() == angled.args@
                    &&& angled2.args@.last() matches GenericArg::Lifetime(lifetime)
                    &&& lifetime.ident.name@ == seq!['\''] + name
                    &&& lifetime.ident.span == dummy_span()
                    &&& lifetime.id == dummy_id()
                    &&& angled2.constraints == angled.constraints
                    &&& angled2.span == angled.span
                },
                (GenericArgs::Parenthesized(_), GenericArgs::Parenthesized(_)) => args2 == args,
                _ => false,
            },
            _ => false,
        },
{
    assert forall|i: int| 0 <= i < before.segments@.len() - 1 implies after.segments@[i]
        == before.segments@[i] by {
        assert(after.segments@[i] == after.segments@.drop_last()[i]);
        assert(before.segments@[i] == before.segments@.drop_last()[i]);
    }
}

/// Which types a script sees inside a type: the element of a slice or an array, the elements of a
/// tuple; and what stands behind a pointer or a reference.
pub proof fn what_types_show(kind: TyKind)
    ensures
        kind matches TyKind::Slice(ty) ==> inner_tys(kind) == Some(seq![*ty]),
        kind matches TyKind::Array(ty, _) ==> inner_tys(kind) == Some(seq![*ty]),
        kind matches TyKind::Tup(tys) ==> inner_tys(kind) == Some(tys@),
        inner_tys(kind) is Some ==> kind is Slice || kind is Array || kind is Tup,
        kind matches TyKind::Ptr(mut_ty) ==> pointee(kind) == Some(mut_ty),
        kind matches TyKind::Rptr(_, mut_ty) ==> pointee(kind) == Some(mut_ty),
        pointee(kind) is Some ==> kind is Ptr || kind is Rptr,
{
}

/// Types that are set land in their places, and the length of an array stays.
pub proof fn types_land_in_their_places(before: TyKind, tys: Seq<Ty>, after: TyKind)
    requires
        inner_tys_replaced(before, tys, after),
    ensures
        before is Slice ==> (after matches TyKind::Slice(ty) && *ty == tys[0]),
        before matches TyKind::Array(_, length) ==> (after matches TyKind::Array(ty, length2)
            && *ty == tys[0] && length2 == length),
        before is Tup ==> (after matches TyKind::Tup(elements) && elements@ == tys),
        before is Slice || before is Array || before is Tup,
{
}

/// What a chain of pointers leads to is found behind every pointer and reference, and replacing it
/// keeps each pointer as it is.
pub proof fn pointers_are_passed_through(ty: Ty, root: Ty)
    ensures
        ty.kind matches TyKind::Ptr(mut_ty) ==> ptr_root(ty) == ptr_root(*mut_ty.ty) && (
        with_ptr_root(ty, root).kind matches TyKind::Ptr(after) && *after.ty == with_ptr_root(
            *mut_ty.ty,
            root,
        ) && after.mutbl == mut_ty.mutbl),
        ty.kind matches TyKind::Rptr(lifetime, mut_ty) ==> ptr_root(ty) == ptr_root(*mut_ty.ty)
            && (with_ptr_root(ty, root).kind matches TyKind::Rptr(lifetime2, after) && *after.ty
            == with_ptr_root(*mut_ty.ty, root) && after.mutbl == mut_ty.mutbl && lifetime2
            == lifetime),
        ty.kind is Ptr || ty.kind is Rptr ==> with_ptr_root(ty, root).id == ty.id && with_ptr_root(
            ty,
            root,
        ).span == ty.span,
        !(ty.kind is Ptr) && !(ty.kind is Rptr) ==> ptr_root(ty) == ty && with_ptr_root(ty, root)
            == root,
{
}

/// A path has generic arguments where some segment has, and types that are set are those arguments
/// in order.
pub proof fn set_arguments_are_there(
    segments: Seq<PathSegment>,
    index: int,
    args: GenericArgs,
    tys: Seq<Ty>,
    position: int,
)
    requires
        0 <= index < segments.len(),
        segments[index].args == Some(Box::new(args)),
        is_angled_args(args, tys),
    ensures
        any_generic_args(segments),
        args matches GenericArgs::AngleBracketed(angled) && angled.args@.len() == tys.len()
            && angled.constraints@.len() == 0 && angled.span == dummy_span() && (0 <= position
            < tys.len() ==> angled.args@[position] == GenericArg::Type(Box::new(tys[position]))),
{
    assert(segments[index].args is Some);
}

/// The node that a statement is made of, form by form.
pub proof fn statements_are_made_of_one_node(kind: StmtKind)
    ensures
        kind matches StmtKind::Expr(e) ==> stmt_node(kind) == Some(StmtNode::Expr(&*e)),
        kind matches StmtKind::Semi(e) ==> stmt_node(kind) == Some(StmtNode::Expr(&*e)),
        kind matches StmtKind::Local(l) ==> stmt_node(kind) == Some(StmtNode::Local(&*l)),
        kind matches StmtKind::Item(i) ==> stmt_node(kind) == Some(StmtNode::Item(&*i)),
        stmt_node(kind) is None <==> kind is Mac,
{
}

/// The suffix that an integer literal gets is the one that was asked for, and its type is that of
/// the suffix: signed for those that start with `i`, unsigned for those that start with `u`.
pub proof fn suffix_says_the_type(
    before: Lit,
    suffix: Seq<char>,
    after: Lit,
    result: Result<(), Error>,
)
    requires
        before.kind is Int,
        suffix_replaced(before, suffix, after, result),
        result is Ok,
    ensures
        suffix == ""@ ==> after.token.suffix is None,
        suffix != ""@ ==> (after.token.suffix matches Some(text) && text@ == suffix),
        after.kind matches LitKind::Int(_, LitIntType::Signed(_)) ==> suffix.len() > 0
            && suffix[0] == 'i',
        after.kind matches LitKind::Int(_, LitIntType::Unsigned(_)) ==> suffix.len() > 0
            && suffix[0] == 'u',
        after.kind matches LitKind::Int(_, LitIntType::Unsuffixed) ==> suffix == ""@,
        after.kind is Int ==> after.token.symbol == before.token.symbol && after.token.kind
            == before.token.kind,
        after.kind matches LitKind::Float(digits, _) ==> suffix.len() == 3 && suffix[0] == 'f'
            && digits@ == decimal_text(before.kind->Int_0 as nat) && after.token.symbol@
            == digits@ && after.token.kind == TokenLitKind::Float,
        after.kind is Int || after.kind is Float,
{
    reveal_strlit("f32");
    reveal_strlit("f64");
    reveal_strlit("usize");
    reveal_strlit("u8");
    reveal_strlit("u16");
    reveal_strlit("u32");
    reveal_strlit("u64");
    reveal_strlit("u128");
    reveal_strlit("isize");
    reveal_strlit("i8");
    reveal_strlit("i16");
    reveal_strlit("i32");
    reveal_strlit("i64");
    reveal_strlit("i128");
}

/// Stripping takes the suffix off and leaves what the literal was written as and, but for the type
/// of an integer, what it stands for.
pub proof fn stripping_leaves_the_rest(before: Lit, after: Lit)
    requires
        suffix_stripped(before, after),
    ensures
        after.token.suffix is None,
        after.token.kind == before.token.kind,
        after.token.symbol == before.token.symbol,
        after.span == before.span,
        before.kind matches LitKind::Int(value, _) ==> after.kind == LitKind::Int(
            value,
            LitIntType::Unsuffixed,
        ),
        !(before.kind is Int) ==> after.kind == before.kind,
{
}

/// A suffix stands for the type of its name and for no other.
pub proof fn suffixes_are_the_names_of_types(suffix: Seq<char>)
    ensures
        int_suffix(suffix) == Some(LitIntType::Unsigned(UintTy::Usize)) <==> suffix == "usize"@,
        int_suffix(suffix) == Some(LitIntType::Unsigned(UintTy::U8)) <==> suffix == "u8"@,
        int_suffix(suffix) == Some(LitIntType::Unsigned(UintTy::U16)) <==> suffix == "u16"@,
        int_suffix(suffix) == Some(LitIntType::Unsigned(UintTy::U32)) <==> suffix == "u32"@,
        int_suffix(suffix) == Some(LitIntType::Unsigned(UintTy::U64)) <==> suffix == "u64"@,
        int_suffix(suffix) == Some(LitIntType::Unsigned(UintTy::U128)) <==> suffix == "u128"@,
        int_suffix(suffix) == Some(LitIntType::Signed(IntTy::Isize)) <==> suffix == "isize"@,
        int_suffix(suffix) == Some(LitIntType::Signed(IntTy::I8)) <==> suffix == "i8"@,
        int_suffix(suffix) == Some(LitIntType::Signed(IntTy::I16)) <==> suffix == "i16"@,
        int_suffix(suffix) == Some(LitIntType::Signed(IntTy::I32)) <==> suffix == "i32"@,
        int_suffix(suffix) == Some(LitIntType::Signed(IntTy::I64)) <==> suffix == "i64"@,
        int_suffix(suffix) == Some(LitIntType::Signed(IntTy::I128)) <==> suffix == "i128"@,
        float_suffix(suffix) == Some(FloatTy::F32) <==> suffix == "f32"@,
        float_suffix(suffix) == Some(FloatTy::F64) <==> suffix == "f64"@,
        int_suffix(suffix) != Some(LitIntType::Unsuffixed),
{
    reveal_strlit("usize");
    reveal_strlit("u8");
    reveal_strlit("u16");
    reveal_strlit("u32");
    reveal_strlit("u64");
    reveal_strlit("u128");
    reveal_strlit("isize");
    reveal_strlit("i8");
    reveal_strlit("i16");
    reveal_strlit("i32");
    reveal_strlit("i64");
    reveal_strlit("i128");
    reveal_strlit("f32");
    reveal_strlit("f64");
    assert("usize"@.len() == 5);
    assert("u8"@.len() == 2);
    assert("u16"@.len() == 3);
    assert("u32"@.len() == 3);
    assert("u64"@.len() == 3);
    assert("u128"@.len() == 4);
    assert("isize"@.len() == 5);
    assert("i8"@.len() == 2);
    assert("i16"@.len() == 3);
    assert("i32"@.len() == 3);
    assert("i64"@.len() == 3);
    assert("i128"@.len() == 4);
    assert("f32"@.len() == 3);
    assert("f64"@.len() == 3);
    assert("f32"@[0] == 'f');
    assert("f32"@[1] == '3');
    assert("f64"@[0] == 'f');
    assert("f64"@[1] == '6');
    assert("i128"@[0] == 'i');
    assert("i16"@[0] == 'i');
    assert("i16"@[1] == '1');
    assert("i32"@[0] == 'i');
    assert("i32"@[1] == '3');
    assert("i64"@[0] == 'i');
    assert("i64"@[1] == '6');
    assert("i8"@[0] == 'i');
    assert("isize"@[0] == 'i');
    assert("u128"@[0] == 'u');
    assert("u16"@[0] == 'u');
    assert("u16"@[1] == '1');
    assert("u32"@[0] == 'u');
    assert("u32"@[1] == '3');
    assert("u64"@[0] == 'u');
    assert("u64"@[1] == '6');
    assert("u8"@[0] == 'u');
    assert("usize"@[0] == 'u');
}

/// What `replace_suffix` makes of an integer literal is decided by its suffix alone: an integer
/// literal of the type of the suffix, or a floating-point literal of that type; and it refuses a
/// suffix that is the name of no such type.
pub proof fn suffix_decides(before: Lit, suffix: Seq<char>, after: Lit, result: Result<(), Error>)
    requires
        before.kind is Int,
        suffix_replaced(before, suffix, after, result),
        suffix != ""@,
    ensures
        result is Ok <==> int_suffix(suffix) is Some || float_suffix(suffix) is Some,
        float_suffix(suffix) is Some ==> (after.kind matches LitKind::Float(_, ty) && ty
            == float_suffix(suffix)->0),
        float_suffix(suffix) is None && int_suffix(suffix) is Some ==> after.kind == LitKind::Int(
            before.kind->Int_0,
            int_suffix(suffix)->0,
        ),
        result is Err ==> (result matches Err(Error::Suffix(text)) && text@ == suffix),
{
}

/// A path that is built of one name has that name and no generic arguments.
pub proof fn built_path_has_one_name(path: Path, name: String)
    requires
        is_ident_path(path, name),
    ensures
        path.segments@.len() == 1,
        path.segments@[0].ident.name == name,
        path.segments@[0].ident.span == dummy_span(),
        path.segments@[0].id == dummy_id(),
        !any_generic_args(path.segments@),
        path.span == dummy_span(),
{
}

/// A lifetime that is built has the name behind an apostrophe.
pub proof fn built_lifetime_has_the_name(lifetime: Lifetime, name: Seq<char>)
    requires
        is_lifetime(lifetime, name),
    ensures
        lifetime.ident.name@ == seq!['\''] + name,
        lifetime.ident.span == dummy_span(),
        lifetime.id == dummy_id(),
{
}

/// A parameter is the lifetime of a name where it is a lifetime at all and its identifier means
/// what an identifier built of that name means: the same text in the same context.
pub proof fn lifetimes_are_told_by_identifier(
    param: GenericParam,
    name: Seq<char>,
    built: GenericParam,
)
    requires
        is_lifetime_param(built, name),
    ensures
        names_lifetime(param, name) <==> param.kind is Lifetime && param.ident.matches_ident(
            built.ident,
        ),
        param.ident.matches_ident(built.ident) <==> param.ident.name@ == seq!['\''] + name
            && param.ident.span.ctxt == 0,
        built.kind is Lifetime,
        names_lifetime(built, name),
{
}

/// Two identifiers mean the same where text and context are the same.
pub proof fn identifiers_are_text_in_context(ident: Ident, other: Ident)
    ensures
        ident.matches_ident(other) <==> ident.name@ == other.name@ && ident.span.ctxt
            == other.span.ctxt,
        ident.matches_ident(other) == other.matches_ident(ident),
        ident.matches_ident(ident),
{
}

} // verus!
