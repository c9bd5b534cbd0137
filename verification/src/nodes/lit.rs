//! Literals.

use vstd::prelude::*;

use crate::ast::flags::{FloatTy, IntTy, LitIntType, TokenLitKind, UintTy};
use crate::ast::lit::{Lit, LitKind, TokenLit};
use crate::error::Error;
use crate::lua::{LuaNode, LuaValue, ToLuaExt, is_text};
use crate::text::{decimal, decimal_text, same_text};

verus! {

/// The floating-point type that this suffix stands for.
pub open spec fn float_suffix(suffix: Seq<char>) -> Option<FloatTy> {
    if suffix == "f32"@ {
        Some(FloatTy::F32)
    } else if suffix == "f64"@ {
        Some(FloatTy::F64)
    } else {
        None
    }
}

/// The integer type that this suffix stands for.
pub open spec fn int_suffix(suffix: Seq<char>) -> Option<LitIntType> {
    if suffix == "usize"@ {
        Some(LitIntType::Unsigned(UintTy::Usize))
    } else if suffix == "u8"@ {
        Some(LitIntType::Unsigned(UintTy::U8))
    } else if suffix == "u16"@ {
        Some(LitIntType::Unsigned(UintTy::U16))
    } else if suffix == "u32"@ {
        Some(LitIntType::Unsigned(UintTy::U32))
    } else if suffix == "u64"@ {
        Some(LitIntType::Unsigned(UintTy::U64))
    } else if suffix == "u128"@ {
        Some(LitIntType::Unsigned(UintTy::U128))
    } else if suffix == "isize"@ {
        Some(LitIntType::Signed(IntTy::Isize))
    } else if suffix == "i8"@ {
        Some(LitIntType::Signed(IntTy::I8))
    } else if suffix == "i16"@ {
        Some(LitIntType::Signed(IntTy::I16))
    } else if suffix == "i32"@ {
        Some(LitIntType::Signed(IntTy::I32))
    } else if suffix == "i64"@ {
        Some(LitIntType::Signed(IntTy::I64))
    } else if suffix == "i128"@ {
        Some(LitIntType::Signed(IntTy::I128))
    } else {
        None
    }
}

/// The floating-point type that this suffix stands for.
pub fn parse_float_suffix(suffix: &str) -> (result: Option<FloatTy>)
    ensures
        result == float_suffix(suffix@),
{
    if same_text(suffix, "f32") {
        Some(FloatTy::F32)
    } else if same_text(suffix, "f64") {
        Some(FloatTy::F64)
    } else {
        None
    }
}

/// The integer type that this suffix stands for.
pub fn parse_int_suffix(suffix: &str) -> (result: Option<LitIntType>)
    ensures
        result == int_suffix(suffix@),
{
    if same_text(suffix, "usize") {
        Some(LitIntType::Unsigned(UintTy::Usize))
    } else if same_text(suffix, "u8") {
        Some(LitIntType::Unsigned(UintTy::U8))
    } else if same_text(suffix, "u16") {
        Some(LitIntType::Unsigned(UintTy::U16))
    } else if same_text(suffix, "u32") {
        Some(LitIntType::Unsigned(UintTy::U32))
    } else if same_text(suffix, "u64") {
        Some(LitIntType::Unsigned(UintTy::U64))
    } else if same_text(suffix, "u128") {
        Some(LitIntType::Unsigned(UintTy::U128))
    } else if same_text(suffix, "isize") {
        Some(LitIntType::Signed(IntTy::Isize))
    } else if same_text(suffix, "i8") {
        Some(LitIntType::Signed(IntTy::I8))
    } else if same_text(suffix, "i16") {
        Some(LitIntType::Signed(IntTy::I16))
    } else if same_text(suffix, "i32") {
        Some(LitIntType::Signed(IntTy::I32))
    } else if same_text(suffix, "i64") {
        Some(LitIntType::Signed(IntTy::I64))
    } else if same_text(suffix, "i128") {
        Some(LitIntType::Signed(IntTy::I128))
    } else {
        None
    }
}

/// The token is written with this suffix.
pub open spec fn has_suffix(token: TokenLit, suffix: Seq<char>) -> bool {
    token.suffix matches Some(text) && text@ == suffix
}

/// `after` is the literal `before` of the integer `value` without a suffix.
pub open spec fn unsuffixed_int(before: Lit, value: u128, after: Lit) -> bool {
    after == (Lit {
        token: TokenLit { suffix: None, ..before.token },
        kind: LitKind::Int(value, LitIntType::Unsuffixed),
        span: before.span,
    })
}

/// `after` is the literal `before` of the integer `value` with the suffix of an integer type.
pub open spec fn suffixed_int(
    before: Lit,
    value: u128,
    suffix: Seq<char>,
    ty: LitIntType,
    after: Lit,
) -> bool {
    &&& after.token == (TokenLit { suffix: after.token.suffix, ..before.token })
    &&& has_suffix(after.token, suffix)
    &&& after.kind == LitKind::Int(value, ty)
    &&& after.span == before.span
}

/// `after` is the floating-point literal written with the digits of the integer `value` and the
/// suffix of a floating-point type.
pub open spec fn suffixed_float(
    before: Lit,
    value: u128,
    suffix: Seq<char>,
    ty: FloatTy,
    after: Lit,
) -> bool {
    &&& after.token.kind == TokenLitKind::Float
    &&& after.token.symbol@ == decimal_text(value as nat)
    &&& has_suffix(after.token, suffix)
    &&& after.kind matches LitKind::Float(symbol, float_ty)
    &&& symbol@ == decimal_text(value as nat)
    &&& float_ty == ty
    &&& after.span == before.span
}

/// What comes of asking for another suffix: `after` is the literal that `before` has become,
/// and `result` says whether the request was met.
pub open spec fn suffix_replaced(
    before: Lit,
    suffix: Seq<char>,
    after: Lit,
    result: Result<(), Error>,
) -> bool {
    match before.kind {
        LitKind::Int(value, _) => if suffix == ""@ {
            &&& result == Ok::<(), Error>(())
            &&& unsuffixed_int(before, value, after)
        } else if float_suffix(suffix) is Some {
            &&& result == Ok::<(), Error>(())
            &&& suffixed_float(
                before,
                value,
                suffix,
                float_suffix(suffix)->0,
                after,
            )
        } else if int_suffix(suffix) is Some {
            &&& result == Ok::<(), Error>(())
            &&& suffixed_int(
                before,
                value,
                suffix,
                int_suffix(suffix)->0,
                after,
            )
        } else {
            &&& result matches Err(Error::Suffix(text)) && text@ == suffix
            &&& after == before
        },
        _ => {
            &&& result == Err::<(), Error>(Error::NotAnInteger)
            &&& after == before
        },
    }
}

/// `after` is `before` without a suffix.
pub open spec fn suffix_stripped(before: Lit, after: Lit) -> bool {
    match before.kind {
        LitKind::Int(value, _) => unsuffixed_int(before, value, after),
        _ => after == (Lit { token: TokenLit { suffix: None, ..before.token }, ..before }),
    }
}

impl Lit {
    /// The name of the literal's form.
    pub fn get_kind(&self) -> (name: &'static str)
        ensures
            name == self.kind.ast_name(),
    {
        self.kind.ast_name()
    }

    /// The value of a string, an integer, a truth value or a character.
    pub fn get_value(&self) -> (result: Result<LuaValue<LuaNode>, Error>)
        ensures
            match self.kind {
                LitKind::Str(text, _) => result matches Ok(value) && is_text(value, text@),
                LitKind::Int(number, _) => {
                    result == Ok::<LuaValue<LuaNode>, Error>(LuaValue::Integer(number))
                },
                LitKind::Bool(truth) => result == Ok::<LuaValue<LuaNode>, Error>(
                    LuaValue::Boolean(truth),
                ),
                LitKind::Char(ch) => result matches Ok(value) && is_text(value, seq![ch]),
                _ => result == Err::<LuaValue<LuaNode>, Error>(Error::LitValue),
            },
    {
        match &self.kind {
            LitKind::Str(text, _) => Ok(text.clone().to_lua_ext()),
            LitKind::Int(number, _) => Ok((*number).to_lua_ext()),
            LitKind::Bool(truth) => Ok((*truth).to_lua_ext()),
            LitKind::Char(ch) => Ok((*ch).to_lua_ext()),
            _ => Err(Error::LitValue),
        }
    }

    /// Gives an integer literal another suffix, or takes its suffix off. With the suffix of a
    /// floating-point type it becomes a floating-point literal.
    pub fn replace_suffix(&mut self, suffix: &str) -> (result: Result<(), Error>)
        ensures
            suffix_replaced(*old(self), suffix@, *final(self), result),
    {
        let number: u128 = match &self.kind {
            LitKind::Int(number, _) => *number,
            _ => return Err(Error::NotAnInteger),
        };
        if same_text(suffix, "") {
            self.kind = LitKind::Int(number, LitIntType::Unsuffixed);
            self.token.suffix = None;
            return Ok(());
        }
        if let Some(float_ty) = parse_float_suffix(suffix) {
            let digits: String = decimal(number);
            self.kind = LitKind::Float(digits.clone(), float_ty);
            self.token = TokenLit {
                kind: TokenLitKind::Float,
                symbol: digits,
                suffix: Some(suffix.to_owned()),
            };
            return Ok(());
        }
        if let Some(int_ty) = parse_int_suffix(suffix) {
            self.kind = LitKind::Int(number, int_ty);
            self.token.suffix = Some(suffix.to_owned());
            return Ok(());
        }
        Err(Error::Suffix(suffix.to_owned()))
    }

    /// Takes the suffix off. The type of an integer literal is then open; that of a
    /// floating-point literal stays.
    pub fn strip_suffix(&mut self)
        ensures
            suffix_stripped(*old(self), *final(self)),
    {
        if let LitKind::Int(_, ty) = &mut self.kind {
            *ty = LitIntType::Unsuffixed;
        }
        self.token.suffix = None;
    }
}

} // verus!
