//! Numerals and other text that the machine shows.

use vstd::prelude::*;
use vstd::string::StringExecFns;
use crate::alu::{magnitude, magnitude_of, signed};

verus! {

/// `String::push` appends one character.
pub assume_specification[ String::push ](text: &mut String, ch: char)
    ensures
        final(text)@ == old(text)@.push(ch),
;

/// The character of a digit below 16, letters in lower case.
pub open spec fn digit_char(digit: nat) -> char {
    if digit < 10 {
        (48 + digit) as u8 as char
    } else {
        (87 + digit) as u8 as char
    }
}

/// The numeral of `value` in base `base`, without leading zeros.
pub open spec fn numeral(value: nat, base: nat) -> Seq<char>
    recommends
        2 <= base <= 16,
    decreases value,
{
    if base < 2 || value < base {
        seq![digit_char(value)]
    } else {
        proof {
            vstd::arithmetic::div_mod::lemma_div_decreases(value as int, base as int);
        }
        numeral(value / base, base).push(digit_char(value % base))
    }
}

/// The decimal numeral of a signed value, with a minus sign where it is
/// negative.
pub open spec fn signed_numeral(value: int) -> Seq<char> {
    if value < 0 {
        seq!['-'] + numeral(magnitude(value) as nat, 10)
    } else {
        numeral(value as nat, 10)
    }
}

/// The text that shows each byte as the character with that code.
pub open spec fn latin1(bytes: Seq<u8>) -> Seq<char> {
    Seq::new(bytes.len(), |i: int| bytes[i] as char)
}

/// The character of a digit below 16.
pub fn digit_of(digit: u32) -> (ch: char)
    requires
        digit < 16,
    ensures
        ch == digit_char(digit as nat),
{
    if digit < 10 {
        (48 + digit) as u8 as char
    } else {
        (87 + digit) as u8 as char
    }
}

/// Appends the numeral of `value` in base `base` to `text`.
pub fn push_numeral(text: &mut String, value: u32, base: u32)
    requires
        2 <= base <= 16,
    ensures
        final(text)@ == old(text)@ + numeral(value as nat, base as nat),
{
    let mut digits: Vec<char> = Vec::new();
    let mut rest: u32 = value;
    while rest >= base
        invariant
            2 <= base <= 16,
            numeral(value as nat, base as nat) == numeral(rest as nat, base as nat) + digits@.reverse(),
        decreases rest,
    {
        let ghost before = digits@;
        digits.push(digit_of(rest % base));
        proof {
            assert(digits@.reverse() =~= seq![digit_char((rest % base) as nat)] + before.reverse());
            assert(numeral(rest as nat, base as nat) == numeral((rest / base) as nat, base as nat).push(
                digit_char((rest % base) as nat),
            ));
            assert(numeral(rest as nat, base as nat) + before.reverse() =~= numeral(
                (rest / base) as nat,
                base as nat,
            ) + digits@.reverse());
        }
        rest = rest / base;
    }
    text.push(digit_of(rest));
    let ghost start = old(text)@.push(digit_char(rest as nat));
    let mut index: usize = digits.len();
    while index > 0
        invariant
            index <= digits@.len(),
            text@ == start + digits@.reverse().take(digits@.len() - index),
        decreases index,
    {
        index = index - 1;
        text.push(digits[index]);
        proof {
            let reversed = digits@.reverse();
            let taken = digits@.len() - index;
            assert(reversed.take(taken) =~= reversed.take(taken - 1).push(digits@[index as int]));
            assert(start + reversed.take(taken) =~= (start + reversed.take(taken - 1)).push(
                digits@[index as int],
            ));
        }
    }
    proof {
        assert(digits@.reverse().take(digits@.len() as int) =~= digits@.reverse());
        assert(numeral(rest as nat, base as nat) == seq![digit_char(rest as nat)]);
        assert(old(text)@ + numeral(value as nat, base as nat) =~= start + digits@.reverse());
    }
}

/// The decimal numeral of a register value read as a signed number.
pub fn signed_decimal(value: u32) -> (text: String)
    ensures
        text@ == signed_numeral(signed(value)),
{
    let mut text = String::new();
    if value >= 0x8000_0000 {
        text.push('-');
        assert(text@ =~= seq!['-']);
    }
    push_numeral(&mut text, magnitude_of(value), 10);
    assert(value < 0x8000_0000 ==> text@ =~= numeral(signed(value) as nat, 10));
    text
}

/// The decimal numeral of a register value.
pub fn unsigned_decimal(value: u32) -> (text: String)
    ensures
        text@ == numeral(value as nat, 10),
{
    let mut text = String::new();
    push_numeral(&mut text, value, 10);
    assert(text@ =~= numeral(value as nat, 10));
    text
}

/// The hexadecimal numeral of a register value, in lower case.
pub fn hexadecimal(value: u32) -> (text: String)
    ensures
        text@ == numeral(value as nat, 16),
{
    let mut text = String::new();
    push_numeral(&mut text, value, 16);
    assert(text@ =~= numeral(value as nat, 16));
    text
}

/// The binary numeral of a register value.
pub fn binary(value: u32) -> (text: String)
    ensures
        text@ == numeral(value as nat, 2),
{
    let mut text = String::new();
    push_numeral(&mut text, value, 2);
    assert(text@ =~= numeral(value as nat, 2));
    text
}

/// The text that shows each byte of `bytes` as the character with that code.
pub fn text_of_bytes(bytes: &Vec<u8>) -> (text: String)
    ensures
        text@ == latin1(bytes@),
{
    let mut text = String::new();
    let mut index: usize = 0;
    while index < bytes.len()
        invariant
            index <= bytes@.len(),
            text@ == latin1(bytes@.take(index as int)),
        decreases bytes@.len() - index,
    {
        text.push(bytes[index] as char);
        index = index + 1;
        assert(text@ =~= latin1(bytes@.take(index as int)));
    }
    assert(bytes@.take(index as int) =~= bytes@);
    text
}

/// The text of a single character.
pub fn text_of_char(ch: char) -> (text: String)
    ensures
        text@ == seq![ch],
{
    let mut text = String::new();
    text.push(ch);
    assert(text@ =~= seq![ch]);
    text
}

/// Appends the numeral of `value` in base 16 to `text`, with leading zeros up
/// to `width` digits.
pub fn push_hex_padded(text: &mut String, value: u64, width: usize)
    ensures
        final(text)@ == old(text)@ + padded_hex(value as nat, width as nat),
{
    let mut digits: Vec<char> = Vec::new();
    let mut rest: u64 = value;
    while rest >= 16
        invariant
            numeral(value as nat, 16) == numeral(rest as nat, 16) + digits@.reverse(),
        decreases rest,
    {
        let ghost before = digits@;
        digits.push(digit_of((rest % 16) as u32));
        proof {
            assert(digits@.reverse() =~= seq![digit_char((rest % 16) as nat)] + before.reverse());
            assert(numeral(rest as nat, 16) == numeral((rest / 16) as nat, 16).push(
                digit_char((rest % 16) as nat),
            ));
            assert(numeral(rest as nat, 16) + before.reverse() =~= numeral((rest / 16) as nat, 16)
                + digits@.reverse());
        }
        rest = rest / 16;
    }
    digits.push(digit_of(rest as u32));
    proof {
        assert(numeral(rest as nat, 16) == seq![digit_char(rest as nat)]);
        assert(digits@.reverse() =~= numeral(value as nat, 16));
    }
    let mut zeros: usize = digits.len();
    let ghost start = old(text)@;
    while zeros < width
        invariant
            digits@.len() <= zeros,
            zeros <= width || zeros == digits@.len(),
            text@ == start + Seq::new((zeros - digits@.len()) as nat, |i: int| '0'),
        decreases width - zeros,
    {
        text.push('0');
        zeros = zeros + 1;
        assert(text@ =~= start + Seq::new((zeros - digits@.len()) as nat, |i: int| '0'));
    }
    let ghost padded = text@;
    let mut index: usize = digits.len();
    while index > 0
        invariant
            index <= digits@.len(),
            text@ == padded + digits@.reverse().take(digits@.len() - index),
        decreases index,
    {
        index = index - 1;
        text.push(digits[index]);
        proof {
            let reversed = digits@.reverse();
            let taken = digits@.len() - index;
            assert(reversed.take(taken) =~= reversed.take(taken - 1).push(digits@[index as int]));
            assert(padded + reversed.take(taken) =~= (padded + reversed.take(taken - 1)).push(
                digits@[index as int],
            ));
        }
    }
    proof {
        assert(digits@.reverse().take(digits@.len() as int) =~= digits@.reverse());
        assert(text@ =~= old(text)@ + padded_hex(value as nat, width as nat));
    }
}

/// The hexadecimal numeral of `value`, with leading zeros up to `width` digits.
pub open spec fn padded_hex(value: nat, width: nat) -> Seq<char> {
    let digits = numeral(value, 16);
    if digits.len() < width {
        Seq::new((width - digits.len()) as nat, |i: int| '0') + digits
    } else {
        digits
    }
}

} // verus!
