//! The names under which scripts know the forms of the nodes.

use vstd::prelude::*;

use crate::ast::expr::ExprKind;
use crate::ast::flags::{Abi, BinOpKind, UnOp};
use crate::ast::lit::LitKind;
use crate::ast::ty::TyKind;
use crate::ast::vis::VisibilityKind;
use crate::nodes::func::FnKind;

verus! {

impl UnOp {
    /// The name of the operator.
    #[verifier::allow_in_spec]
    pub fn ast_name(&self) -> &'static str
        returns
            (match self {
                UnOp::Deref => "Deref",
                UnOp::Not => "Not",
                UnOp::Neg => "Neg",
            }),
    {
        match self {
            UnOp::Deref => "Deref",
            UnOp::Not => "Not",
            UnOp::Neg => "Neg",
        }
    }
}

impl BinOpKind {
    /// The name of the operator.
    #[verifier::allow_in_spec]
    pub fn ast_name(&self) -> &'static str
        returns
            (match self {
                BinOpKind::Add => "Add",
                BinOpKind::Sub => "Sub",
                BinOpKind::Mul => "Mul",
                BinOpKind::Div => "Div",
                BinOpKind::Rem => "Rem",
                BinOpKind::And => "And",
                BinOpKind::Or => "Or",
                BinOpKind::BitXor => "BitXor",
                BinOpKind::BitAnd => "BitAnd",
                BinOpKind::BitOr => "BitOr",
                BinOpKind::Shl => "Shl",
                BinOpKind::Shr => "Shr",
                BinOpKind::Eq => "Eq",
                BinOpKind::Lt => "Lt",
                BinOpKind::Le => "Le",
                BinOpKind::Ne => "Ne",
                BinOpKind::Ge => "Ge",
                BinOpKind::Gt => "Gt",
            }),
    {
        match self {
            BinOpKind::Add => "Add",
            BinOpKind::Sub => "Sub",
            BinOpKind::Mul => "Mul",
            BinOpKind::Div => "Div",
            BinOpKind::Rem => "Rem",
            BinOpKind::And => "And",
            BinOpKind::Or => "Or",
            BinOpKind::BitXor => "BitXor",
            BinOpKind::BitAnd => "BitAnd",
            BinOpKind::BitOr => "BitOr",
            BinOpKind::Shl => "Shl",
            BinOpKind::Shr => "Shr",
            BinOpKind::Eq => "Eq",
            BinOpKind::Lt => "Lt",
            BinOpKind::Le => "Le",
            BinOpKind::Ne => "Ne",
            BinOpKind::Ge => "Ge",
            BinOpKind::Gt => "Gt",
        }
    }
}

impl VisibilityKind {
    /// The name of the qualifier.
    #[verifier::allow_in_spec]
    pub fn ast_name(&self) -> &'static str
        returns
            (match self {
                VisibilityKind::Public => "Public",
                VisibilityKind::Crate(..) => "Crate",
                VisibilityKind::Restricted { .. } => "Restricted",
                VisibilityKind::Inherited => "Inherited",
            }),
    {
        match self {
            VisibilityKind::Public => "Public",
            VisibilityKind::Crate(..) => "Crate",
            VisibilityKind::Restricted { .. } => "Restricted",
            VisibilityKind::Inherited => "Inherited",
        }
    }
}

impl LitKind {
    /// The name of the form of literal.
    #[verifier::allow_in_spec]
    pub fn ast_name(&self) -> &'static str
        returns
            (match self {
                LitKind::Str(..) => "Str",
                LitKind::ByteStr(..) => "ByteStr",
                LitKind::Byte(..) => "Byte",
                LitKind::Char(..) => "Char",
                LitKind::Int(..) => "Int",
                LitKind::Float(..) => "Float",
                LitKind::FloatUnsuffixed(..) => "FloatUnsuffixed",
                LitKind::Bool(..) => "Bool",
                LitKind::Invalid(..) => "Err",
            }),
    {
        match self {
            LitKind::Str(..) => "Str",
            LitKind::ByteStr(..) => "ByteStr",
            LitKind::Byte(..) => "Byte",
            LitKind::Char(..) => "Char",
            LitKind::Int(..) => "Int",
            LitKind::Float(..) => "Float",
            LitKind::FloatUnsuffixed(..) => "FloatUnsuffixed",
            LitKind::Bool(..) => "Bool",
            LitKind::Invalid(..) => "Err",
        }
    }
}

impl TyKind {
    /// The name of the form of type.
    #[verifier::allow_in_spec]
    pub fn ast_name(&self) -> &'static str
        returns
            (match self {
                TyKind::Slice(..) => "Slice",
                TyKind::Array(..) => "Array",
                TyKind::Ptr(..) => "Ptr",
                TyKind::Rptr(..) => "Rptr",
                TyKind::BareFn(..) => "BareFn",
                TyKind::Never => "Never",
                TyKind::Tup(..) => "Tup",
                TyKind::Path(..) => "Path",
                TyKind::TraitObject(..) => "TraitObject",
                TyKind::ImplTrait(..) => "ImplTrait",
                TyKind::Paren(..) => "Paren",
                TyKind::Typeof(..) => "Typeof",
                TyKind::Infer => "Infer",
                TyKind::ImplicitSelf => "ImplicitSelf",
                TyKind::Mac(..) => "Mac",
                TyKind::Invalid => "Err",
                TyKind::CVarArgs => "CVarArgs",
            }),
    {
        match self {
            TyKind::Slice(..) => "Slice",
            TyKind::Array(..) => "Array",
            TyKind::Ptr(..) => "Ptr",
            TyKind::Rptr(..) => "Rptr",
            TyKind::BareFn(..) => "BareFn",
            TyKind::Never => "Never",
            TyKind::Tup(..) => "Tup",
            TyKind::Path(..) => "Path",
            TyKind::TraitObject(..) => "TraitObject",
            TyKind::ImplTrait(..) => "ImplTrait",
            TyKind::Paren(..) => "Paren",
            TyKind::Typeof(..) => "Typeof",
            TyKind::Infer => "Infer",
            TyKind::ImplicitSelf => "ImplicitSelf",
            TyKind::Mac(..) => "Mac",
            TyKind::Invalid => "Err",
            TyKind::CVarArgs => "CVarArgs",
        }
    }
}

impl FnKind {
    /// The name of the kind of function.
    #[verifier::allow_in_spec]
    pub fn ast_name(&self) -> &'static str
        returns
            (match self {
                FnKind::Normal => "Normal",
                FnKind::ImplMethod => "ImplMethod",
                FnKind::TraitMethod => "TraitMethod",
                FnKind::Foreign => "Foreign",
            }),
    {
        match self {
            FnKind::Normal => "Normal",
            FnKind::ImplMethod => "ImplMethod",
            FnKind::TraitMethod => "TraitMethod",
            FnKind::Foreign => "Foreign",
        }
    }
}

impl Abi {
    /// The name of the calling convention.
    #[verifier::allow_in_spec]
    pub fn name(&self) -> &'static str
        returns
            (match self {
                Abi::Cdecl => "cdecl",
                Abi::Stdcall => "stdcall",
                Abi::Fastcall => "fastcall",
                Abi::Vectorcall => "vectorcall",
                Abi::Thiscall => "thiscall",
                Abi::Aapcs => "aapcs",
                Abi::Win64 => "win64",
                Abi::SysV64 => "sysv64",
                Abi::PtxKernel => "ptx-kernel",
                Abi::Msp430Interrupt => "msp430-interrupt",
                Abi::X86Interrupt => "x86-interrupt",
                Abi::AmdGpuKernel => "amdgpu-kernel",
                Abi::Rust => "Rust",
                Abi::C => "C",
                Abi::System => "system",
                Abi::RustIntrinsic => "rust-intrinsic",
                Abi::RustCall => "rust-call",
                Abi::PlatformIntrinsic => "platform-intrinsic",
                Abi::Unadjusted => "unadjusted",
            }),
    {
        match self {
            Abi::Cdecl => "cdecl",
            Abi::Stdcall => "stdcall",
            Abi::Fastcall => "fastcall",
            Abi::Vectorcall => "vectorcall",
            Abi::Thiscall => "thiscall",
            Abi::Aapcs => "aapcs",
            Abi::Win64 => "win64",
            Abi::SysV64 => "sysv64",
            Abi::PtxKernel => "ptx-kernel",
            Abi::Msp430Interrupt => "msp430-interrupt",
            Abi::X86Interrupt => "x86-interrupt",
            Abi::AmdGpuKernel => "amdgpu-kernel",
            Abi::Rust => "Rust",
            Abi::C => "C",
            Abi::System => "system",
            Abi::RustIntrinsic => "rust-intrinsic",
            Abi::RustCall => "rust-call",
            Abi::PlatformIntrinsic => "platform-intrinsic",
            Abi::Unadjusted => "unadjusted",
        }
    }
}

impl ExprKind {
    /// The name of the form of expression.
    #[verifier::allow_in_spec]
    pub fn ast_name(&self) -> &'static str
        returns
            (match self {
                ExprKind::Box(..) => "Box",
                ExprKind::Array(..) => "Array",
                ExprKind::Call(..) => "Call",
                ExprKind::MethodCall(..) => "MethodCall",
                ExprKind::Tup(..) => "Tup",
                ExprKind::Binary(..) => "Binary",
                ExprKind::Unary(..) => "Unary",
                ExprKind::Lit(..) => "Lit",
                ExprKind::Cast(..) => "Cast",
                ExprKind::Type(..) => "Type",
                ExprKind::Let(..) => "Let",
                ExprKind::If(..) => "If",
                ExprKind::While(..) => "While",
                ExprKind::ForLoop(..) => "ForLoop",
                ExprKind::Loop(..) => "Loop",
                ExprKind::Match(..) => "Match",
                ExprKind::Closure(..) => "Closure",
                ExprKind::Block(..) => "Block",
                ExprKind::Async(..) => "Async",
                ExprKind::Await(..) => "Await",
                ExprKind::TryBlock(..) => "TryBlock",
                ExprKind::Assign(..) => "Assign",
                ExprKind::AssignOp(..) => "AssignOp",
                ExprKind::Field(..) => "Field",
                ExprKind::Index(..) => "Index",
                ExprKind::Range(..) => "Range",
                ExprKind::Path(..) => "Path",
                ExprKind::AddrOf(..) => "AddrOf",
                ExprKind::Break(..) => "Break",
                ExprKind::Continue(..) => "Continue",
                ExprKind::Ret(..) => "Ret",
                ExprKind::InlineAsm(..) => "InlineAsm",
                ExprKind::Mac(..) => "Mac",
                ExprKind::Struct(..) => "Struct",
                ExprKind::Repeat(..) => "Repeat",
                ExprKind::Paren(..) => "Paren",
                ExprKind::Try(..) => "Try",
                ExprKind::Yield(..) => "Yield",
                ExprKind::Invalid => "Err",
            }),
    {
        match self {
            ExprKind::Box(..) => "Box",
            ExprKind::Array(..) => "Array",
            ExprKind::Call(..) => "Call",
            ExprKind::MethodCall(..) => "MethodCall",
            ExprKind::Tup(..) => "Tup",
            ExprKind::Binary(..) => "Binary",
            ExprKind::Unary(..) => "Unary",
            ExprKind::Lit(..) => "Lit",
            ExprKind::Cast(..) => "Cast",
            ExprKind::Type(..) => "Type",
            ExprKind::Let(..) => "Let",
            ExprKind::If(..) => "If",
            ExprKind::While(..) => "While",
            ExprKind::ForLoop(..) => "ForLoop",
            ExprKind::Loop(..) => "Loop",
            ExprKind::Match(..) => "Match",
            ExprKind::Closure(..) => "Closure",
            ExprKind::Block(..) => "Block",
            ExprKind::Async(..) => "Async",
            ExprKind::Await(..) => "Await",
            ExprKind::TryBlock(..) => "TryBlock",
            ExprKind::Assign(..) => "Assign",
            ExprKind::AssignOp(..) => "AssignOp",
            ExprKind::Field(..) => "Field",
            ExprKind::Index(..) => "Index",
            ExprKind::Range(..) => "Range",
            ExprKind::Path(..) => "Path",
            ExprKind::AddrOf(..) => "AddrOf",
            ExprKind::Break(..) => "Break",
            ExprKind::Continue(..) => "Continue",
            ExprKind::Ret(..) => "Ret",
            ExprKind::InlineAsm(..) => "InlineAsm",
            ExprKind::Mac(..) => "Mac",
            ExprKind::Struct(..) => "Struct",
            ExprKind::Repeat(..) => "Repeat",
            ExprKind::Paren(..) => "Paren",
            ExprKind::Try(..) => "Try",
            ExprKind::Yield(..) => "Yield",
            ExprKind::Invalid => "Err",
        }
    }
}

/// A form is known by its name: each name is that of one form.
pub proof fn un_op_is_known_by_its_name(x: UnOp)
    ensures
        x is Deref <==> x.ast_name()@ == "Deref"@,
        x is Not <==> x.ast_name()@ == "Not"@,
        x is Neg <==> x.ast_name()@ == "Neg"@,
{
    reveal_strlit("Deref");
    reveal_strlit("Not");
    reveal_strlit("Neg");
    assert("Deref"@.len() == 5);
    assert("Not"@.len() == 3);
    assert("Neg"@.len() == 3);
    assert("Neg"@[1] == 'e');
    assert("Not"@[1] == 'o');
}

/// A form is known by its name: each name is that of one form.
pub proof fn bin_op_kind_is_known_by_its_name(x: BinOpKind)
    ensures
        x is Add <==> x.ast_name()@ == "Add"@,
        x is Sub <==> x.ast_name()@ == "Sub"@,
        x is Mul <==> x.ast_name()@ == "Mul"@,
        x is Div <==> x.ast_name()@ == "Div"@,
        x is Rem <==> x.ast_name()@ == "Rem"@,
        x is And <==> x.ast_name()@ == "And"@,
        x is Or <==> x.ast_name()@ == "Or"@,
        x is BitXor <==> x.ast_name()@ == "BitXor"@,
        x is BitAnd <==> x.ast_name()@ == "BitAnd"@,
        x is BitOr <==> x.ast_name()@ == "BitOr"@,
        x is Shl <==> x.ast_name()@ == "Shl"@,
        x is Shr <==> x.ast_name()@ == "Shr"@,
        x is Eq <==> x.ast_name()@ == "Eq"@,
        x is Lt <==> x.ast_name()@ == "Lt"@,
        x is Le <==> x.ast_name()@ == "Le"@,
        x is Ne <==> x.ast_name()@ == "Ne"@,
        x is Ge <==> x.ast_name()@ == "Ge"@,
        x is Gt <==> x.ast_name()@ == "Gt"@,
{
    reveal_strlit("Add");
    reveal_strlit("Sub");
    reveal_strlit("Mul");
    reveal_strlit("Div");
    reveal_strlit("Rem");
    reveal_strlit("And");
    reveal_strlit("Or");
    reveal_strlit("BitXor");
    reveal_strlit("BitAnd");
    reveal_strlit("BitOr");
    reveal_strlit("Shl");
    reveal_strlit("Shr");
    reveal_strlit("Eq");
    reveal_strlit("Lt");
    reveal_strlit("Le");
    reveal_strlit("Ne");
    reveal_strlit("Ge");
    reveal_strlit("Gt");
    assert("Add"@.len() == 3);
    assert("Sub"@.len() == 3);
    assert("Mul"@.len() == 3);
    assert("Div"@.len() == 3);
    assert("Rem"@.len() == 3);
    assert("And"@.len() == 3);
    assert("Or"@.len() == 2);
    assert("BitXor"@.len() == 6);
    assert("BitAnd"@.len() == 6);
    assert("BitOr"@.len() == 5);
    assert("Shl"@.len() == 3);
    assert("Shr"@.len() == 3);
    assert("Eq"@.len() == 2);
    assert("Lt"@.len() == 2);
    assert("Le"@.len() == 2);
    assert("Ne"@.len() == 2);
    assert("Ge"@.len() == 2);
    assert("Gt"@.len() == 2);
    assert("Add"@[0] == 'A');
    assert("Add"@[1] == 'd');
    assert("And"@[0] == 'A');
    assert("And"@[1] == 'n');
    assert("BitAnd"@[3] == 'A');
    assert("BitXor"@[3] == 'X');
    assert("Div"@[0] == 'D');
    assert("Eq"@[0] == 'E');
    assert("Ge"@[0] == 'G');
    assert("Ge"@[1] == 'e');
    assert("Gt"@[0] == 'G');
    assert("Gt"@[1] == 't');
    assert("Le"@[0] == 'L');
    assert("Le"@[1] == 'e');
    assert("Lt"@[0] == 'L');
    assert("Lt"@[1] == 't');
    assert("Mul"@[0] == 'M');
    assert("Ne"@[0] == 'N');
    assert("Or"@[0] == 'O');
    assert("Rem"@[0] == 'R');
    assert("Shl"@[0] == 'S');
    assert("Shl"@[1] == 'h');
    assert("Shl"@[2] == 'l');
    assert("Shr"@[0] == 'S');
    assert("Shr"@[1] == 'h');
    assert("Shr"@[2] == 'r');
    assert("Sub"@[0] == 'S');
    assert("Sub"@[1] == 'u');
}

/// A form is known by its name: each name is that of one form.
pub proof fn visibility_kind_is_known_by_its_name(x: VisibilityKind)
    ensures
        x is Public <==> x.ast_name()@ == "Public"@,
        x is Crate <==> x.ast_name()@ == "Crate"@,
        x is Restricted <==> x.ast_name()@ == "Restricted"@,
        x is Inherited <==> x.ast_name()@ == "Inherited"@,
{
    reveal_strlit("Public");
    reveal_strlit("Crate");
    reveal_strlit("Restricted");
    reveal_strlit("Inherited");
    assert("Public"@.len() == 6);
    assert("Crate"@.len() == 5);
    assert("Restricted"@.len() == 10);
    assert("Inherited"@.len() == 9);
}

/// A form is known by its name: each name is that of one form.
pub proof fn lit_kind_is_known_by_its_name(x: LitKind)
    ensures
        x is Str <==> x.ast_name()@ == "Str"@,
        x is ByteStr <==> x.ast_name()@ == "ByteStr"@,
        x is Byte <==> x.ast_name()@ == "Byte"@,
        x is Char <==> x.ast_name()@ == "Char"@,
        x is Int <==> x.ast_name()@ == "Int"@,
        x is Float <==> x.ast_name()@ == "Float"@,
        x is FloatUnsuffixed <==> x.ast_name()@ == "FloatUnsuffixed"@,
        x is Bool <==> x.ast_name()@ == "Bool"@,
        x is Invalid <==> x.ast_name()@ == "Err"@,
{
    reveal_strlit("Str");
    reveal_strlit("ByteStr");
    reveal_strlit("Byte");
    reveal_strlit("Char");
    reveal_strlit("Int");
    reveal_strlit("Float");
    reveal_strlit("FloatUnsuffixed");
    reveal_strlit("Bool");
    reveal_strlit("Err");
    assert("Str"@.len() == 3);
    assert("ByteStr"@.len() == 7);
    assert("Byte"@.len() == 4);
    assert("Char"@.len() == 4);
    assert("Int"@.len() == 3);
    assert("Float"@.len() == 5);
    assert("FloatUnsuffixed"@.len() == 15);
    assert("Bool"@.len() == 4);
    assert("Err"@.len() == 3);
    assert("Bool"@[0] == 'B');
    assert("Bool"@[1] == 'o');
    assert("Byte"@[0] == 'B');
    assert("Byte"@[1] == 'y');
    assert("Char"@[0] == 'C');
    assert("Err"@[0] == 'E');
    assert("Int"@[0] == 'I');
    assert("Str"@[0] == 'S');
}

/// A form is known by its name: each name is that of one form.
pub proof fn ty_kind_is_known_by_its_name(x: TyKind)
    ensures
        x is Slice <==> x.ast_name()@ == "Slice"@,
        x is Array <==> x.ast_name()@ == "Array"@,
        x is Ptr <==> x.ast_name()@ == "Ptr"@,
        x is Rptr <==> x.ast_name()@ == "Rptr"@,
        x is BareFn <==> x.ast_name()@ == "BareFn"@,
        x is Never <==> x.ast_name()@ == "Never"@,
        x is Tup <==> x.ast_name()@ == "Tup"@,
        x is Path <==> x.ast_name()@ == "Path"@,
        x is TraitObject <==> x.ast_name()@ == "TraitObject"@,
        x is ImplTrait <==> x.ast_name()@ == "ImplTrait"@,
        x is Paren <==> x.ast_name()@ == "Paren"@,
        x is Typeof <==> x.ast_name()@ == "Typeof"@,
        x is Infer <==> x.ast_name()@ == "Infer"@,
        x is ImplicitSelf <==> x.ast_name()@ == "ImplicitSelf"@,
        x is Mac <==> x.ast_name()@ == "Mac"@,
        x is Invalid <==> x.ast_name()@ == "Err"@,
        x is CVarArgs <==> x.ast_name()@ == "CVarArgs"@,
{
    reveal_strlit("Slice");
    reveal_strlit("Array");
    reveal_strlit("Ptr");
    reveal_strlit("Rptr");
    reveal_strlit("BareFn");
    reveal_strlit("Never");
    reveal_strlit("Tup");
    reveal_strlit("Path");
    reveal_strlit("TraitObject");
    reveal_strlit("ImplTrait");
    reveal_strlit("Paren");
    reveal_strlit("Typeof");
    reveal_strlit("Infer");
    reveal_strlit("ImplicitSelf");
    reveal_strlit("Mac");
    reveal_strlit("Err");
    reveal_strlit("CVarArgs");
    assert("Slice"@.len() == 5);
    assert("Array"@.len() == 5);
    assert("Ptr"@.len() == 3);
    assert("Rptr"@.len() == 4);
    assert("BareFn"@.len() == 6);
    assert("Never"@.len() == 5);
    assert("Tup"@.len() == 3);
    assert("Path"@.len() == 4);
    assert("TraitObject"@.len() == 11);
    assert("ImplTrait"@.len() == 9);
    assert("Paren"@.len() == 5);
    assert("Typeof"@.len() == 6);
    assert("Infer"@.len() == 5);
    assert("ImplicitSelf"@.len() == 12);
    assert("Mac"@.len() == 3);
    assert("Err"@.len() == 3);
    assert("CVarArgs"@.len() == 8);
    assert("Array"@[0] == 'A');
    assert("BareFn"@[0] == 'B');
    assert("Err"@[0] == 'E');
    assert("Infer"@[0] == 'I');
    assert("Mac"@[0] == 'M');
    assert("Never"@[0] == 'N');
    assert("Paren"@[0] == 'P');
    assert("Path"@[0] == 'P');
    assert("Ptr"@[0] == 'P');
    assert("Rptr"@[0] == 'R');
    assert("Slice"@[0] == 'S');
    assert("Tup"@[0] == 'T');
    assert("Typeof"@[0] == 'T');
}

/// A form is known by its name: each name is that of one form.
pub proof fn fn_kind_is_known_by_its_name(x: FnKind)
    ensures
        x is Normal <==> x.ast_name()@ == "Normal"@,
        x is ImplMethod <==> x.ast_name()@ == "ImplMethod"@,
        x is TraitMethod <==> x.ast_name()@ == "TraitMethod"@,
        x is Foreign <==> x.ast_name()@ == "Foreign"@,
{
    reveal_strlit("Normal");
    reveal_strlit("ImplMethod");
    reveal_strlit("TraitMethod");
    reveal_strlit("Foreign");
    assert("Normal"@.len() == 6);
    assert("ImplMethod"@.len() == 10);
    assert("TraitMethod"@.len() == 11);
    assert("Foreign"@.len() == 7);
}

/// A form is known by its name: each name is that of one form.
pub proof fn abi_is_known_by_its_name(x: Abi)
    ensures
        x is Cdecl <==> x.name()@ == "cdecl"@,
        x is Stdcall <==> x.name()@ == "stdcall"@,
        x is Fastcall <==> x.name()@ == "fastcall"@,
        x is Vectorcall <==> x.name()@ == "vectorcall"@,
        x is Thiscall <==> x.name()@ == "thiscall"@,
        x is Aapcs <==> x.name()@ == "aapcs"@,
        x is Win64 <==> x.name()@ == "win64"@,
        x is SysV64 <==> x.name()@ == "sysv64"@,
        x is PtxKernel <==> x.name()@ == "ptx-kernel"@,
        x is Msp430Interrupt <==> x.name()@ == "msp430-interrupt"@,
        x is X86Interrupt <==> x.name()@ == "x86-interrupt"@,
        x is AmdGpuKernel <==> x.name()@ == "amdgpu-kernel"@,
        x is Rust <==> x.name()@ == "Rust"@,
        x is C <==> x.name()@ == "C"@,
        x is System <==> x.name()@ == "system"@,
        x is RustIntrinsic <==> x.name()@ == "rust-intrinsic"@,
        x is RustCall <==> x.name()@ == "rust-call"@,
        x is PlatformIntrinsic <==> x.name()@ == "platform-intrinsic"@,
        x is Unadjusted <==> x.name()@ == "unadjusted"@,
{
    reveal_strlit("cdecl");
    reveal_strlit("stdcall");
    reveal_strlit("fastcall");
    reveal_strlit("vectorcall");
    reveal_strlit("thiscall");
    reveal_strlit("aapcs");
    reveal_strlit("win64");
    reveal_strlit("sysv64");
    reveal_strlit("ptx-kernel");
    reveal_strlit("msp430-interrupt");
    reveal_strlit("x86-interrupt");
    reveal_strlit("amdgpu-kernel");
    reveal_strlit("Rust");
    reveal_strlit("C");
    reveal_strlit("system");
    reveal_strlit("rust-intrinsic");
    reveal_strlit("rust-call");
    reveal_strlit("platform-intrinsic");
    reveal_strlit("unadjusted");
    assert("cdecl"@.len() == 5);
    assert("stdcall"@.len() == 7);
    assert("fastcall"@.len() == 8);
    assert("vectorcall"@.len() == 10);
    assert("thiscall"@.len() == 8);
    assert("aapcs"@.len() == 5);
    assert("win64"@.len() == 5);
    assert("sysv64"@.len() == 6);
    assert("ptx-kernel"@.len() == 10);
    assert("msp430-interrupt"@.len() == 16);
    assert("x86-interrupt"@.len() == 13);
    assert("amdgpu-kernel"@.len() == 13);
    assert("Rust"@.len() == 4);
    assert("C"@.len() == 1);
    assert("system"@.len() == 6);
    assert("rust-intrinsic"@.len() == 14);
    assert("rust-call"@.len() == 9);
    assert("platform-intrinsic"@.len() == 18);
    assert("unadjusted"@.len() == 10);
    assert("aapcs"@[0] == 'a');
    assert("amdgpu-kernel"@[0] == 'a');
    assert("cdecl"@[0] == 'c');
    assert("fastcall"@[0] == 'f');
    assert("ptx-kernel"@[0] == 'p');
    assert("system"@[3] == 't');
    assert("sysv64"@[3] == 'v');
    assert("thiscall"@[0] == 't');
    assert("unadjusted"@[0] == 'u');
    assert("vectorcall"@[0] == 'v');
    assert("win64"@[0] == 'w');
    assert("x86-interrupt"@[0] == 'x');
}

/// A form is known by its name: each name is that of one form.
pub proof fn expr_kind_is_known_by_its_name(x: ExprKind)
    ensures
        x is Box <==> x.ast_name()@ == "Box"@,
        x is Array <==> x.ast_name()@ == "Array"@,
        x is Call <==> x.ast_name()@ == "Call"@,
        x is MethodCall <==> x.ast_name()@ == "MethodCall"@,
        x is Tup <==> x.ast_name()@ == "Tup"@,
        x is Binary <==> x.ast_name()@ == "Binary"@,
        x is Unary <==> x.ast_name()@ == "Unary"@,
        x is Lit <==> x.ast_name()@ == "Lit"@,
        x is Cast <==> x.ast_name()@ == "Cast"@,
        x is Type <==> x.ast_name()@ == "Type"@,
        x is Let <==> x.ast_name()@ == "Let"@,
        x is If <==> x.ast_name()@ == "If"@,
        x is While <==> x.ast_name()@ == "While"@,
        x is ForLoop <==> x.ast_name()@ == "ForLoop"@,
        x is Loop <==> x.ast_name()@ == "Loop"@,
        x is Match <==> x.ast_name()@ == "Match"@,
        x is Closure <==> x.ast_name()@ == "Closure"@,
        x is Block <==> x.ast_name()@ == "Block"@,
        x is Async <==> x.ast_name()@ == "Async"@,
        x is Await <==> x.ast_name()@ == "Await"@,
        x is TryBlock <==> x.ast_name()@ == "TryBlock"@,
        x is Assign <==> x.ast_name()@ == "Assign"@,
        x is AssignOp <==> x.ast_name()@ == "AssignOp"@,
        x is Field <==> x.ast_name()@ == "Field"@,
        x is Index <==> x.ast_name()@ == "Index"@,
        x is Range <==> x.ast_name()@ == "Range"@,
        x is Path <==> x.ast_name()@ == "Path"@,
        x is AddrOf <==> x.ast_name()@ == "AddrOf"@,
        x is Break <==> x.ast_name()@ == "Break"@,
        x is Continue <==> x.ast_name()@ == "Continue"@,
        x is Ret <==> x.ast_name()@ == "Ret"@,
        x is InlineAsm <==> x.ast_name()@ == "InlineAsm"@,
        x is Mac <==> x.ast_name()@ == "Mac"@,
        x is Struct <==> x.ast_name()@ == "Struct"@,
        x is Repeat <==> x.ast_name()@ == "Repeat"@,
        x is Paren <==> x.ast_name()@ == "Paren"@,
        x is Try <==> x.ast_name()@ == "Try"@,
        x is Yield <==> x.ast_name()@ == "Yield"@,
        x is Invalid <==> x.ast_name()@ == "Err"@,
{
    reveal_strlit("Box");
    reveal_strlit("Array");
    reveal_strlit("Call");
    reveal_strlit("MethodCall");
    reveal_strlit("Tup");
    reveal_strlit("Binary");
    reveal_strlit("Unary");
    reveal_strlit("Lit");
    reveal_strlit("Cast");
    reveal_strlit("Type");
    reveal_strlit("Let");
    reveal_strlit("If");
    reveal_strlit("While");
    reveal_strlit("ForLoop");
    reveal_strlit("Loop");
    reveal_strlit("Match");
    reveal_strlit("Closure");
    reveal_strlit("Block");
    reveal_strlit("Async");
    reveal_strlit("Await");
    reveal_strlit("TryBlock");
    reveal_strlit("Assign");
    reveal_strlit("AssignOp");
    reveal_strlit("Field");
    reveal_strlit("Index");
    reveal_strlit("Range");
    reveal_strlit("Path");
    reveal_strlit("AddrOf");
    reveal_strlit("Break");
    reveal_strlit("Continue");
    reveal_strlit("Ret");
    reveal_strlit("InlineAsm");
    reveal_strlit("Mac");
    reveal_strlit("Struct");
    reveal_strlit("Repeat");
    reveal_strlit("Paren");
    reveal_strlit("Try");
    reveal_strlit("Yield");
    reveal_strlit("Err");
    assert("Box"@.len() == 3);
    assert("Array"@.len() == 5);
    assert("Call"@.len() == 4);
    assert("MethodCall"@.len() == 10);
    assert("Tup"@.len() == 3);
    assert("Binary"@.len() == 6);
    assert("Unary"@.len() == 5);
    assert("Lit"@.len() == 3);
    assert("Cast"@.len() == 4);
    assert("Type"@.len() == 4);
    assert("Let"@.len() == 3);
    assert("If"@.len() == 2);
    assert("While"@.len() == 5);
    assert("ForLoop"@.len() == 7);
    assert("Loop"@.len() == 4);
    assert("Match"@.len() == 5);
    assert("Closure"@.len() == 7);
    assert("Block"@.len() == 5);
    assert("Async"@.len() == 5);
    assert("Await"@.len() == 5);
    assert("TryBlock"@.len() == 8);
    assert("Assign"@.len() == 6);
    assert("AssignOp"@.len() == 8);
    assert("Field"@.len() == 5);
    assert("Index"@.len() == 5);
    assert("Range"@.len() == 5);
    assert("Path"@.len() == 4);
    assert("AddrOf"@.len() == 6);
    assert("Break"@.len() == 5);
    assert("Continue"@.len() == 8);
    assert("Ret"@.len() == 3);
    assert("InlineAsm"@.len() == 9);
    assert("Mac"@.len() == 3);
    assert("Struct"@.len() == 6);
    assert("Repeat"@.len() == 6);
    assert("Paren"@.len() == 5);
    assert("Try"@.len() == 3);
    assert("Yield"@.len() == 5);
    assert("Err"@.len() == 3);
    assert("AddrOf"@[0] == 'A');
    assert("AddrOf"@[1] == 'd');
    assert("Array"@[0] == 'A');
    assert("Array"@[1] == 'r');
    assert("Assign"@[0] == 'A');
    assert("Assign"@[1] == 's');
    assert("AssignOp"@[0] == 'A');
    assert("Async"@[0] == 'A');
    assert("Async"@[1] == 's');
    assert("Await"@[0] == 'A');
    assert("Await"@[1] == 'w');
    assert("Binary"@[0] == 'B');
    assert("Block"@[0] == 'B');
    assert("Block"@[1] == 'l');
    assert("Box"@[0] == 'B');
    assert("Break"@[0] == 'B');
    assert("Break"@[1] == 'r');
    assert("Call"@[0] == 'C');
    assert("Call"@[2] == 'l');
    assert("Cast"@[0] == 'C');
    assert("Cast"@[2] == 's');
    assert("Closure"@[0] == 'C');
    assert("Continue"@[0] == 'C');
    assert("Err"@[0] == 'E');
    assert("Field"@[0] == 'F');
    assert("ForLoop"@[0] == 'F');
    assert("Index"@[0] == 'I');
    assert("Let"@[0] == 'L');
    assert("Let"@[1] == 'e');
    assert("Lit"@[0] == 'L');
    assert("Lit"@[1] == 'i');
    assert("Loop"@[0] == 'L');
    assert("Mac"@[0] == 'M');
    assert("Match"@[0] == 'M');
    assert("Paren"@[0] == 'P');
    assert("Path"@[0] == 'P');
    assert("Range"@[0] == 'R');
    assert("Repeat"@[0] == 'R');
    assert("Ret"@[0] == 'R');
    assert("Struct"@[0] == 'S');
    assert("Try"@[0] == 'T');
    assert("Try"@[1] == 'r');
    assert("TryBlock"@[0] == 'T');
    assert("Tup"@[0] == 'T');
    assert("Tup"@[1] == 'u');
    assert("Type"@[0] == 'T');
    assert("Unary"@[0] == 'U');
    assert("While"@[0] == 'W');
    assert("Yield"@[0] == 'Y');
}

} // verus!
