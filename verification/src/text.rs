//! Numbers and bytes as text.

use vstd::prelude::*;
use vstd::string::*;
use vstd::utf8::{decode_utf8, valid_utf8};

verus! {

/// A digit, in lower case where it is a letter.
pub open spec fn digit(value: nat) -> char {
    if value < 10 {
        ('0' as u32 + value) as char
    } else {
        ('a' as u32 + value - 10) as char
    }
}

/// A number written in a base, without leading zeros.
pub open spec fn digits(value: nat, base: nat) -> Seq<char>
    decreases value,
{
    if value < base || base < 2 {
        seq![digit(value)]
    } else {
        proof {
            assert(value / base < value) by (nonlinear_arith)
                requires
                    value >= base,
                    base >= 2,
            ;
        }
        digits(value / base, base).push(digit(value % base))
    }
}

/// `format!("{}")` of an unsigned integer writes it in decimal.
#[verifier::external_body]
pub(crate) fn decimal(value: u64) -> (text: String)
    ensures
        text@ == digits(value as nat, 10),
{
    format!("{}", value)
}

/// `format!("{:x}")` of an unsigned integer writes it in lower-case
/// hexadecimal.
#[verifier::external_body]
pub(crate) fn hexadecimal(value: u64) -> (text: String)
    ensures
        text@ == digits(value as nat, 16),
{
    format!("{:x}", value)
}

/// `String::from_utf8` accepts exactly the bytes that are valid UTF-8.
#[verifier::external_body]
pub(crate) fn string_from_utf8(bytes: Vec<u8>) -> (text: Option<String>)
    ensures
        match text {
            Some(text) => valid_utf8(bytes@) && text@ == decode_utf8(bytes@),
            None => !valid_utf8(bytes@),
        },
{
    String::from_utf8(bytes).ok()
}

/// One text behind another.
pub fn concat2(first: &str, second: &str) -> (text: String)
    ensures
        text@ == first@ + second@,
{
    first.to_string().concat(second)
}

/// One text behind another, and a third behind both.
pub fn concat3(first: &str, second: &str, third: &str) -> (text: String)
    ensures
        text@ == first@ + second@ + third@,
{
    first.to_string().concat(second).concat(third)
}

/// The number that digits stand for.
pub open spec fn number(text: Seq<char>, base: nat) -> nat
    decreases text.len(),
{
    if text.len() == 0 {
        0
    } else {
        number(text.drop_last(), base) * base + digit_value(text.last())
    }
}

/// The number that a digit stands for.
pub open spec fn digit_value(c: char) -> nat {
    if c as u32 >= 'a' as u32 {
        (c as u32 - 'a' as u32 + 10) as nat
    } else {
        (c as u32 - '0' as u32) as nat
    }
}

/// The digits of a number stand for it, and the first of them is no zero unless
/// it is the only one.
pub proof fn digits_stand_for_their_number(value: nat, base: nat)
    requires
        2 <= base <= 16,
    ensures
        number(digits(value, base), base) == value,
        digits(value, base).len() > 0,
        value > 0 ==> digits(value, base)[0] != '0',
    decreases value,
{
    let text = digits(value, base);
    if value < base {
        assert(text =~= seq![digit(value)]);
        reveal_with_fuel(number, 2);
        assert(text.drop_last().len() == 0);
        assert(digit_value(digit(value)) == value);
    } else {
        assert(0 < value / base < value) by (nonlinear_arith)
            requires
                value >= base,
                base >= 2,
        ;
        assert(value / base * base + value % base == value) by (nonlinear_arith)
            requires
                base >= 2,
        ;
        assert(value % base < base) by (nonlinear_arith)
            requires
                base >= 2,
        ;
        digits_stand_for_their_number(value / base, base);
        assert(text.drop_last() =~= digits(value / base, base));
        assert(text.last() == digit(value % base));
        assert(digit_value(digit(value % base)) == value % base);
        assert(text[0] == digits(value / base, base)[0]);
    }
}

} // verus!
