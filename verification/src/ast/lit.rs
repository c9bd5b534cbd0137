//! Literals.

use vstd::prelude::*;

use crate::ast::flags::{FloatTy, LitIntType, StrStyle, TokenLitKind};
use crate::ast::span::Span;
use crate::ast::text::{clone_bytes, same_bytes};

verus! {

/// A literal as it was written.
#[derive(Debug, PartialEq)]
pub struct TokenLit {
    pub kind: TokenLitKind,
    pub symbol: String,
    pub suffix: Option<String>,
}

impl TokenLit {
    /// Both values hold the same contents.
    pub open spec fn same(self, other: TokenLit) -> bool
        decreases self,
    {
        &&& self.kind == other.kind
        &&& self.symbol@ == other.symbol@
        &&& match (self.suffix, other.suffix) {
            (Some(x), Some(y)) => x@ == y@,
            (None, None) => true,
            _ => false,
        }
    }

    /// Every value holds the same contents as itself.
    pub proof fn same_as_itself(self)
        ensures
            self.same(self),
        decreases self,
    {
    }
}

impl Clone for TokenLit {
    fn clone(&self) -> (copy: TokenLit)
        ensures
            self.same(copy),
        decreases *self,
    {
        TokenLit {
            kind: self.kind,
            symbol: self.symbol.clone(),
            suffix: match &self.suffix {
                Some(x) => Some(x.clone()),
                None => None,
            },
        }
    }
}

/// What a literal stands for.
#[derive(Debug, PartialEq)]
pub enum LitKind {
    Str(String, StrStyle),
    ByteStr(Vec<u8>),
    Byte(u8),
    Char(char),
    Int(u128, LitIntType),
    Float(String, FloatTy),
    FloatUnsuffixed(String),
    Bool(bool),
    /// A literal that could not be read.
    Invalid(String),
}

impl LitKind {
    /// Both values hold the same contents.
    pub open spec fn same(self, other: LitKind) -> bool
        decreases self,
    {
        match (self, other) {
            (LitKind::Str(text, style), LitKind::Str(text2, style2)) => {
                &&& text@ == text2@
                &&& style == style2
            },
            (LitKind::ByteStr(bytes), LitKind::ByteStr(bytes2)) => same_bytes(bytes@, bytes2@),
            (LitKind::Byte(byte), LitKind::Byte(byte2)) => byte == byte2,
            (LitKind::Char(ch), LitKind::Char(ch2)) => ch == ch2,
            (LitKind::Int(value, int_ty), LitKind::Int(value2, int_ty2)) => {
                &&& value == value2
                &&& int_ty == int_ty2
            },
            (LitKind::Float(text, float_ty), LitKind::Float(text2, float_ty2)) => {
                &&& text@ == text2@
                &&& float_ty == float_ty2
            },
            (LitKind::FloatUnsuffixed(text), LitKind::FloatUnsuffixed(text2)) => {
                &&& text@ == text2@
            },
            (LitKind::Bool(flag), LitKind::Bool(flag2)) => flag == flag2,
            (LitKind::Invalid(text), LitKind::Invalid(text2)) => text@ == text2@,
            _ => false,
        }
    }

    /// Every value holds the same contents as itself.
    pub proof fn same_as_itself(self)
        ensures
            self.same(self),
        decreases self,
    {
    }
}

impl Clone for LitKind {
    fn clone(&self) -> (copy: LitKind)
        ensures
            self.same(copy),
        decreases *self,
    {
        match self {
            LitKind::Str(text, style) => LitKind::Str(text.clone(), *style),
            LitKind::ByteStr(bytes) => LitKind::ByteStr(clone_bytes(bytes)),
            LitKind::Byte(byte) => LitKind::Byte(*byte),
            LitKind::Char(ch) => LitKind::Char(*ch),
            LitKind::Int(value, int_ty) => LitKind::Int(*value, *int_ty),
            LitKind::Float(text, float_ty) => LitKind::Float(text.clone(), *float_ty),
            LitKind::FloatUnsuffixed(text) => LitKind::FloatUnsuffixed(text.clone()),
            LitKind::Bool(flag) => LitKind::Bool(*flag),
            LitKind::Invalid(text) => LitKind::Invalid(text.clone()),
        }
    }
}

/// A literal: how it was written and what it stands for.
#[derive(Debug, PartialEq)]
pub struct Lit {
    pub token: TokenLit,
    pub kind: LitKind,
    pub span: Span,
}

impl Lit {
    /// Both values hold the same contents.
    pub open spec fn same(self, other: Lit) -> bool
        decreases self,
    {
        &&& self.token.same(other.token)
        &&& self.kind.same(other.kind)
        &&& self.span == other.span
    }

    /// Every value holds the same contents as itself.
    pub proof fn same_as_itself(self)
        ensures
            self.same(self),
        decreases self,
    {
        self.token.same_as_itself();
        self.kind.same_as_itself();
    }
}

impl Clone for Lit {
    fn clone(&self) -> (copy: Lit)
        ensures
            self.same(copy),
        decreases *self,
    {
        Lit {
            token: self.token.clone(),
            kind: self.kind.clone(),
            span: self.span,
        }
    }
}

} // verus!
