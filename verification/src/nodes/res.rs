//! What names are resolved to.

use vstd::prelude::*;
use vstd::string::StringExecFns;

use crate::text::{
    decimal, decimal_text, decimal_text_is_digits, decimal_text_is_injective, is_digit,
};

verus! {

/// The namespaces that names live in.
#[derive(Debug, Clone, Copy, PartialEq, Eq, Structural)]
pub enum Namespace {
    TypeNS,
    ValueNS,
    MacroNS,
}

impl Namespace {
    /// The namespace in a word.
    #[verifier::allow_in_spec]
    pub fn descr(&self) -> &'static str
        returns
            (match self {
                Namespace::TypeNS => "type",
                Namespace::ValueNS => "value",
                Namespace::MacroNS => "macro",
            }),
    {
        match self {
            Namespace::TypeNS => "type",
            Namespace::ValueNS => "value",
            Namespace::MacroNS => "macro",
        }
    }
}

/// What a name was resolved to, as far as scripts can see it.
#[derive(Debug, Clone, Copy, PartialEq, Eq)]
pub struct Res {
    /// The namespace of the definition, where the name was resolved to one.
    pub namespace: Option<Namespace>,
}

impl Res {
    /// The namespace of the definition, in a word.
    pub fn get_namespace(&self) -> (result: Option<&'static str>)
        ensures
            match self.namespace {
                Some(namespace) => result == Some(namespace.descr()),
                None => result is None,
            },
    {
        match &self.namespace {
            Some(namespace) => Some(namespace.descr()),
            None => None,
        }
    }
}

/// The id that a node has behind name resolution: the item that it stands in, and its number
/// there.
#[derive(Debug, Clone, Copy, PartialEq, Eq, Structural)]
pub struct LuaHirId {
    pub owner: u32,
    pub local_id: u32,
}

/// The text by which scripts print such an id.
pub open spec fn hir_id_text(id: LuaHirId) -> Seq<char> {
    "HirId { owner: "@ + decimal_text(id.owner as nat) + ", local_id: "@ + decimal_text(
        id.local_id as nat,
    ) + " }"@
}

impl LuaHirId {
    /// Whether both ids are of the same node.
    pub fn same_id(&self, other: &LuaHirId) -> (equal: bool)
        ensures
            equal == (*self == *other),
    {
        *self == *other
    }

    /// The text by which scripts print the id.
    pub fn text(&self) -> (text: String)
        ensures
            text@ == hir_id_text(*self),
    {
        let mut text = "HirId { owner: ".to_owned();
        text.append(decimal(self.owner as u128).as_str());
        text.append(", local_id: ");
        text.append(decimal(self.local_id as u128).as_str());
        text.append(" }");
        text
    }
}

/// Two texts that start with decimal numbers, each followed by something else, are equal only if
/// the numbers are and what follows them.
proof fn lemma_number_then_rest(
    number: nat,
    rest: Seq<char>,
    other: nat,
    other_rest: Seq<char>,
)
    requires
        rest.len() > 0,
        other_rest.len() > 0,
        !is_digit(rest[0]),
        !is_digit(other_rest[0]),
        decimal_text(number) + rest == decimal_text(other) + other_rest,
    ensures
        number == other,
        rest == other_rest,
{
    let digits = decimal_text(number);
    let other_digits = decimal_text(other);
    let text = digits + rest;
    decimal_text_is_digits(number);
    decimal_text_is_digits(other);
    if digits.len() < other_digits.len() {
        assert(text[digits.len() as int] == rest[0]);
        assert((other_digits + other_rest)[digits.len() as int]
            == other_digits[digits.len() as int]);
    }
    if other_digits.len() < digits.len() {
        assert((other_digits + other_rest)[other_digits.len() as int] == other_rest[0]);
        assert(text[other_digits.len() as int] == digits[other_digits.len() as int]);
    }
    assert(text.take(digits.len() as int) =~= digits);
    assert((other_digits + other_rest).take(digits.len() as int) =~= other_digits);
    assert(text.skip(digits.len() as int) =~= rest);
    assert((other_digits + other_rest).skip(digits.len() as int) =~= other_rest);
    decimal_text_is_injective(number, other);
}

/// Two ids are printed by the same text exactly where they are of the same node.
pub proof fn ids_are_told_apart_by_their_texts(id: LuaHirId, other: LuaHirId)
    ensures
        hir_id_text(id) == hir_id_text(other) <==> id == other,
{
    if hir_id_text(id) == hir_id_text(other) {
        let head = "HirId { owner: "@;
        let middle = ", local_id: "@;
        let tail = " }"@;
        reveal_strlit("HirId { owner: ");
        reveal_strlit(", local_id: ");
        reveal_strlit(" }");
        let owner = decimal_text(id.owner as nat);
        let other_owner = decimal_text(other.owner as nat);
        let local = decimal_text(id.local_id as nat) + tail;
        let other_local = decimal_text(other.local_id as nat) + tail;
        let after_head = owner + (middle + local);
        let other_after_head = other_owner + (middle + other_local);
        assert(hir_id_text(id) =~= head + after_head);
        assert(hir_id_text(other) =~= head + other_after_head);
        assert((head + after_head).skip(head.len() as int) =~= after_head);
        assert((head + other_after_head).skip(head.len() as int) =~= other_after_head);
        lemma_number_then_rest(
            id.owner as nat,
            middle + local,
            other.owner as nat,
            middle + other_local,
        );
        assert((middle + local).skip(middle.len() as int) =~= local);
        assert((middle + other_local).skip(middle.len() as int) =~= other_local);
        lemma_number_then_rest(id.local_id as nat, tail, other.local_id as nat, tail);
    }
}

} // verus!
