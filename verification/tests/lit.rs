//! Literals under the requests of scripts.

use lua_ast_node::ast::flags::{FloatTy, IntTy, LitIntType, StrStyle, TokenLitKind, UintTy};
use lua_ast_node::ast::lit::{Lit, LitKind, TokenLit};
use lua_ast_node::ast::span::Span;
use lua_ast_node::error::Error;
use lua_ast_node::lua::LuaValue;
use lua_ast_node::text::{decimal, lifetime_name};

const HERE: Span = Span { lo: 3, hi: 9, ctxt: 0 };

fn number(value: u128, suffix: Option<&str>, ty: LitIntType) -> Lit {
    Lit {
        token: TokenLit {
            kind: TokenLitKind::Integer,
            symbol: format!("{:#x}", value),
            suffix: suffix.map(|s| s.to_owned()),
        },
        kind: LitKind::Int(value, ty),
        span: HERE,
    }
}

fn other(kind: LitKind) -> Lit {
    Lit {
        token: TokenLit {
            kind: TokenLitKind::Str,
            symbol: "s".to_owned(),
            suffix: Some("q".to_owned()),
        },
        kind,
        span: HERE,
    }
}

#[test]
fn literal_forms_are_named() {
    assert_eq!(number(1, None, LitIntType::Unsuffixed).get_kind(), "Int");
    assert_eq!(other(LitKind::FloatUnsuffixed("1.0".to_owned())).get_kind(), "FloatUnsuffixed");
    assert_eq!(other(LitKind::Invalid("x".to_owned())).get_kind(), "Err");
}

#[test]
fn values_are_handed_over() {
    let big = u128::MAX;
    assert_eq!(
        number(big, None, LitIntType::Unsuffixed).get_value(),
        Ok(LuaValue::Integer(big))
    );
    assert_eq!(other(LitKind::Bool(true)).get_value(), Ok(LuaValue::Boolean(true)));
    assert_eq!(other(LitKind::Char('\u{e9}')).get_value(), Ok(LuaValue::Str("\u{e9}".to_owned())));
    assert_eq!(
        other(LitKind::Str("text".to_owned(), StrStyle::Cooked)).get_value(),
        Ok(LuaValue::Str("text".to_owned()))
    );
}

#[test]
fn other_values_are_not_handed_over() {
    assert_eq!(other(LitKind::Byte(3)).get_value(), Err(Error::LitValue));
    assert_eq!(other(LitKind::ByteStr(vec![3])).get_value(), Err(Error::LitValue));
    assert_eq!(
        other(LitKind::Float("1.5".to_owned(), FloatTy::F64)).get_value(),
        Err(Error::LitValue)
    );
}

#[test]
fn integer_suffixes_are_replaced() {
    let cases = [
        ("usize", LitIntType::Unsigned(UintTy::Usize)),
        ("u8", LitIntType::Unsigned(UintTy::U8)),
        ("u16", LitIntType::Unsigned(UintTy::U16)),
        ("u32", LitIntType::Unsigned(UintTy::U32)),
        ("u64", LitIntType::Unsigned(UintTy::U64)),
        ("u128", LitIntType::Unsigned(UintTy::U128)),
        ("isize", LitIntType::Signed(IntTy::Isize)),
        ("i8", LitIntType::Signed(IntTy::I8)),
        ("i16", LitIntType::Signed(IntTy::I16)),
        ("i32", LitIntType::Signed(IntTy::I32)),
        ("i64", LitIntType::Signed(IntTy::I64)),
        ("i128", LitIntType::Signed(IntTy::I128)),
    ];
    for (suffix, ty) in cases {
        let mut lit = number(300, Some("u32"), LitIntType::Unsigned(UintTy::U32));
        assert_eq!(lit.replace_suffix(suffix), Ok(()));
        assert_eq!(lit, number(300, Some(suffix), ty));
    }
}

#[test]
fn empty_suffix_takes_the_suffix_off() {
    let mut lit = number(300, Some("u32"), LitIntType::Unsigned(UintTy::U32));
    assert_eq!(lit.replace_suffix(""), Ok(()));
    assert_eq!(lit, number(300, None, LitIntType::Unsuffixed));
    let mut stripped = number(300, Some("u32"), LitIntType::Unsigned(UintTy::U32));
    stripped.strip_suffix();
    assert_eq!(stripped, lit);
}

#[test]
fn float_suffix_makes_a_float() {
    for (suffix, ty) in [("f32", FloatTy::F32), ("f64", FloatTy::F64)] {
        let mut lit = number(255, None, LitIntType::Unsuffixed);
        assert_eq!(lit.replace_suffix(suffix), Ok(()));
        assert_eq!(
            lit,
            Lit {
                token: TokenLit {
                    kind: TokenLitKind::Float,
                    symbol: "255".to_owned(),
                    suffix: Some(suffix.to_owned()),
                },
                kind: LitKind::Float("255".to_owned(), ty),
                span: HERE,
            }
        );
        assert_eq!(lit.replace_suffix("u8"), Err(Error::NotAnInteger));
    }
}

#[test]
fn unknown_suffix_is_refused() {
    let mut lit = number(300, Some("u32"), LitIntType::Unsigned(UintTy::U32));
    assert_eq!(lit.replace_suffix("u24"), Err(Error::Suffix("u24".to_owned())));
    assert_eq!(lit, number(300, Some("u32"), LitIntType::Unsigned(UintTy::U32)));
}

#[test]
fn only_integers_get_another_suffix() {
    let mut lit = other(LitKind::Bool(true));
    assert_eq!(lit.replace_suffix(""), Err(Error::NotAnInteger));
    assert_eq!(lit, other(LitKind::Bool(true)));
}

#[test]
fn stripping_leaves_the_type_of_a_float() {
    let mut lit = other(LitKind::Float("1".to_owned(), FloatTy::F32));
    lit.strip_suffix();
    assert_eq!(lit.kind, LitKind::Float("1".to_owned(), FloatTy::F32));
    assert_eq!(lit.token.suffix, None);
}

#[test]
fn numbers_are_written_in_decimal() {
    for n in [0u128, 7, 10, 99, 100, 1234567890, u64::MAX as u128 + 1, u128::MAX] {
        assert_eq!(decimal(n), n.to_string());
    }
}

#[test]
fn lifetimes_start_with_an_apostrophe() {
    assert_eq!(lifetime_name("a"), "'a");
    assert_eq!(lifetime_name(""), "'");
}
