//! How numbers are written out: in decimal without padding, and in
//! hexadecimal at a fixed width.

use vstd::arithmetic::div_mod::lemma_mod_breakdown;
use vstd::arithmetic::power::{lemma_pow_positive, pow};
use vstd::prelude::*;
use vstd::string::StringExecFns;

verus! {

/// The digits in order of their value, lower case for those above nine.
pub open spec fn digit_chars() -> Seq<char> {
    seq!['0', '1', '2', '3', '4', '5', '6', '7', '8', '9', 'a', 'b', 'c', 'd', 'e', 'f']
}

/// The character that stands for a digit below sixteen.
pub open spec fn digit_char(digit: nat) -> char
    recommends
        digit < 16,
{
    digit_chars()[digit as int]
}

/// A number in decimal, most significant digit first, with no leading zero
/// but for zero itself.
pub open spec fn decimal(n: nat) -> Seq<char>
    decreases n,
{
    if n < 10 {
        seq![digit_char(n)]
    } else {
        decimal(n / 10).push(digit_char(n % 10))
    }
}

/// The lowest `width` hexadecimal digits of a number, most significant
/// first, zeros included.
pub open spec fn hex(n: nat, width: nat) -> Seq<char>
    decreases width,
{
    if width == 0 {
        Seq::empty()
    } else {
        hex(n / 16, (width - 1) as nat).push(digit_char(n % 16))
    }
}

/// The value of a digit's character.
pub open spec fn digit_value(c: char) -> nat {
    if '0' <= c <= '9' {
        (c as int - '0' as int) as nat
    } else {
        (c as int - 'a' as int + 10) as nat
    }
}

/// The number that digits denote in a base, most significant digit first.
pub open spec fn digits_value(digits: Seq<char>, base: nat) -> nat
    decreases digits.len(),
{
    if digits.len() == 0 {
        0
    } else {
        digits_value(digits.drop_last(), base) * base + digit_value(digits.last())
    }
}

/// Each digit's character has the digit's value.
pub proof fn lemma_digit_value(digit: nat)
    requires
        digit < 16,
    ensures
        digit_value(digit_char(digit)) == digit,
{
}

/// A number's decimal digits denote the number, and start with a zero only
/// where the number is zero.
pub proof fn lemma_decimal_denotes(n: nat)
    ensures
        decimal(n).len() >= 1,
        digits_value(decimal(n), 10) == n,
        n > 0 ==> decimal(n)[0] != '0',
    decreases n,
{
    reveal_with_fuel(digits_value, 2);
    if n < 10 {
        lemma_digit_value(n);
        assert(decimal(n).drop_last() =~= Seq::<char>::empty());
    } else {
        lemma_decimal_denotes(n / 10);
        lemma_digit_value(n % 10);
        assert(decimal(n).drop_last() =~= decimal(n / 10));
    }
}

/// Hexadecimal digits at a width are that many, and denote the number up to
/// a multiple of sixteen to the power of the width.
pub proof fn lemma_hex_denotes(n: nat, width: nat)
    ensures
        hex(n, width).len() == width,
        digits_value(hex(n, width), 16) == n % (pow(16, width) as nat),
    decreases width,
{
    if width == 0 {
        reveal(pow);
    } else {
        let rest = (width - 1) as nat;
        lemma_hex_denotes(n / 16, rest);
        lemma_digit_value(n % 16);
        assert(hex(n, width).drop_last() =~= hex(n / 16, rest));
        let p = pow(16, rest);
        lemma_pow_positive(16, rest);
        assert(pow(16, width) == 16 * p) by {
            reveal(pow);
        }
        // n % (16 * p) == 16 * ((n / 16) % p) + n % 16
        lemma_mod_breakdown(n as int, 16, p);
        assert(16 * p == p * 16) by (nonlinear_arith);
        assert(16 * ((n as int / 16) % p) == ((n as int / 16) % p) * 16) by (nonlinear_arith);
    }
}

/// A digit below sixteen as text of one character.
fn digit_str(digit: u8) -> (text: &'static str)
    requires
        digit < 16,
    ensures
        text@ == seq![digit_char(digit as nat)],
{
    proof {
        reveal_strlit("0");
        reveal_strlit("1");
        reveal_strlit("2");
        reveal_strlit("3");
        reveal_strlit("4");
        reveal_strlit("5");
        reveal_strlit("6");
        reveal_strlit("7");
        reveal_strlit("8");
        reveal_strlit("9");
        reveal_strlit("a");
        reveal_strlit("b");
        reveal_strlit("c");
        reveal_strlit("d");
        reveal_strlit("e");
        reveal_strlit("f");
    }
    let text = match digit {
        0 => "0",
        1 => "1",
        2 => "2",
        3 => "3",
        4 => "4",
        5 => "5",
        6 => "6",
        7 => "7",
        8 => "8",
        9 => "9",
        10 => "a",
        11 => "b",
        12 => "c",
        13 => "d",
        14 => "e",
        _ => "f",
    };
    assert(text@ =~= seq![digit_char(digit as nat)]);
    text
}

/// Appends a number in decimal.
pub fn push_decimal(n: usize, out: &mut String)
    ensures
        final(out)@ == old(out)@ + decimal(n as nat),
    decreases n,
{
    if n >= 10 {
        push_decimal(n / 10, out);
    }
    out.append(digit_str((n % 10) as u8));
    assert(out@ =~= old(out)@ + decimal(n as nat));
}

/// Appends the lowest `width` hexadecimal digits of a number.
pub fn push_hex(n: u64, width: usize, out: &mut String)
    ensures
        final(out)@ == old(out)@ + hex(n as nat, width as nat),
    decreases width,
{
    if width > 0 {
        push_hex(n / 16, width - 1, out);
        out.append(digit_str((n % 16) as u8));
    }
    assert(out@ =~= old(out)@ + hex(n as nat, width as nat));
}

} // verus!
