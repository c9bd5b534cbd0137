//! Small pieces of text.

use vstd::prelude::*;
use vstd::string::StringExecFns;

verus! {

/// Whether the two texts are equal.
pub fn same_text(text: &str, other: &str) -> (equal: bool)
    ensures
        equal == (text@ == other@),
{
    text.to_owned() == other.to_owned()
}

/// The name of the lifetime that a script calls by `name`: an apostrophe goes before it.
pub open spec fn lifetime_text(name: Seq<char>) -> Seq<char> {
    seq!['\''] + name
}

/// The name of the lifetime that a script calls by `name`.
pub fn lifetime_name(name: &str) -> (text: String)
    ensures
        text@ == lifetime_text(name@),
{
    let mut text = String::new();
    text.append("'");
    text.append(name);
    proof {
        reveal_strlit("'");
    }
    assert(text@ =~= lifetime_text(name@));
    text
}

/// The character of a decimal digit.
pub open spec fn digit_char(digit: int) -> char {
    (digit + 48) as char
}

/// The decimal digits of a number, without leading zeros.
pub open spec fn decimal_text(number: nat) -> Seq<char>
    decreases number,
{
    if number < 10 {
        seq![digit_char(number as int)]
    } else {
        decimal_text(number / 10).push(digit_char((number % 10) as int))
    }
}

/// The text of a decimal digit.
fn digit_text(digit: u8) -> (text: &'static str)
    requires
        digit < 10,
    ensures
        text@ == seq![digit_char(digit as int)],
{
    proof {
        reveal_strlit("0");
        reveal_strlit("1");
        reveal_strlit("2");
        reveal_strlit("3");
        reveal_strlit("4");
        reveal_strlit("5");
        reveal_strlit("6");
        reveal_strlit("7");
        reveal_strlit("8");
        reveal_strlit("9");
    }
    let text: &'static str = match digit {
        0 => "0",
        1 => "1",
        2 => "2",
        3 => "3",
        4 => "4",
        5 => "5",
        6 => "6",
        7 => "7",
        8 => "8",
        _ => "9",
    };
    assert(text@ =~= seq![digit_char(digit as int)]);
    text
}

/// The decimal digits of a number.
pub fn decimal(number: u128) -> (text: String)
    ensures
        text@ == decimal_text(number as nat),
    decreases number,
{
    let mut text: String = if number < 10 {
        String::new()
    } else {
        decimal(number / 10)
    };
    text.append(digit_text((number % 10) as u8));
    assert(text@ =~= decimal_text(number as nat));
    text
}

/// The number that decimal digits stand for.
pub open spec fn decimal_value(text: Seq<char>) -> int
    decreases text.len(),
{
    if text.len() == 0 {
        0
    } else {
        10 * decimal_value(text.drop_last()) + (text.last() as int - 48)
    }
}

/// The decimal digits of a number stand for that number.
pub proof fn decimal_text_is_read_back(number: nat)
    ensures
        decimal_value(decimal_text(number)) == number,
    decreases number,
{
    let digit = (number % 10) as int;
    assert(digit_char(digit) as int == digit + 48);
    if number < 10 {
        let text = decimal_text(number);
        assert(text.drop_last() =~= seq![]);
        assert(decimal_value(text.drop_last()) == 0);
    } else {
        decimal_text_is_read_back(number / 10);
        assert(decimal_text(number).drop_last() =~= decimal_text(number / 10));
    }
}

/// The character is a decimal digit.
pub open spec fn is_digit(ch: char) -> bool {
    48 <= ch as int <= 57
}

/// A number is written with decimal digits, at least one.
pub proof fn decimal_text_is_digits(number: nat)
    ensures
        decimal_text(number).len() > 0,
        forall|i: int|
            0 <= i < decimal_text(number).len() ==> is_digit(#[trigger] decimal_text(number)[i]),
    decreases number,
{
    assert(digit_char((number % 10) as int) as int == number % 10 + 48);
    if number >= 10 {
        decimal_text_is_digits(number / 10);
        assert forall|i: int| 0 <= i < decimal_text(number).len() implies is_digit(
            #[trigger] decimal_text(number)[i],
        ) by {
            if i < decimal_text(number / 10).len() {
                assert(decimal_text(number)[i] == decimal_text(number / 10)[i]);
            }
        }
    }
}

/// Different numbers are written differently.
pub proof fn decimal_text_is_injective(number: nat, other: nat)
    requires
        decimal_text(number) == decimal_text(other),
    ensures
        number == other,
{
    decimal_text_is_read_back(number);
    decimal_text_is_read_back(other);
}

/// The text of a truth value.
pub open spec fn bool_text(value: bool) -> Seq<char> {
    if value {
        "true"@
    } else {
        "false"@
    }
}

/// The text of a truth value.
pub fn bool_name(value: bool) -> (text: String)
    ensures
        text@ == bool_text(value),
{
    if value {
        "true".to_owned()
    } else {
        "false".to_owned()
    }
}

/// The text made of one character.
///
/// This is `to_string` of `char`, which gives the character and nothing else.
#[verifier::external_body]
pub(crate) fn char_name(value: char) -> (text: String)
    ensures
        text@ == seq![value],
{
    value.to_string()
}

} // verus!
