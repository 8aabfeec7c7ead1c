//! Zero-padded hexadecimal rendering of machine words.
use vstd::prelude::*;

verus! {

/// The character that spells one hexadecimal digit, lower case.
pub open spec fn hex_digit(nibble: nat) -> char
    recommends
        nibble < 16,
{
    "0123456789abcdef"@[nibble as int]
}

/// The hexadecimal digits of `value`, most significant first, padded with
/// zeros on the left to at least `min_digits` digits. A value that needs more
/// digits gets them: no digit is ever dropped.
pub open spec fn hex(value: nat, min_digits: nat) -> Seq<char>
    decreases value, min_digits,
{
    if value < 16 && min_digits <= 1 {
        seq![hex_digit(value)]
    } else {
        let rest: nat = if min_digits == 0 {
            0
        } else {
            (min_digits - 1) as nat
        };
        hex(value / 16, rest).push(hex_digit(value % 16))
    }
}

/// The number of values that `digits` hexadecimal digits can spell: sixteen to
/// the power of `digits`.
pub open spec fn capacity(digits: nat) -> nat
    decreases digits,
{
    if digits == 0 {
        1
    } else {
        16 * capacity((digits - 1) as nat)
    }
}

/// A word written as a hexadecimal literal: `0x`, then its padded digits.
pub open spec fn hex_literal(value: nat, min_digits: nat) -> Seq<char> {
    "0x"@ + hex(value, min_digits)
}

/// A value that `digits` digits can spell is rendered with exactly that many.
pub proof fn lemma_hex_len(value: nat, digits: nat)
    requires
        1 <= digits,
        value < capacity(digits),
    ensures
        hex(value, digits).len() == digits,
    decreases digits,
{
    if digits == 1 {
        reveal_with_fuel(capacity, 2);
    } else {
        lemma_hex_len(value / 16, (digits - 1) as nat);
    }
}

/// The text of one hexadecimal digit.
fn digit_text(nibble: u64) -> (text: &'static str)
    requires
        nibble < 16,
    ensures
        text@ == seq![hex_digit(nibble as nat)],
{
    let digits = "0123456789abcdef";
    proof {
        reveal_strlit("0123456789abcdef");
    }
    let index: usize = nibble as usize;
    let text = digits.substring_ascii(index, index + 1);
    assert(text@ =~= seq![hex_digit(nibble as nat)]);
    text
}

/// Appends the digits of `value` to `out`, padded with zeros to at least
/// `min_digits` digits.
pub fn push_hex(out: &mut String, value: u64, min_digits: usize)
    ensures
        final(out)@ == old(out)@ + hex(value as nat, min_digits as nat),
    decreases value, min_digits,
{
    if value < 16 && min_digits <= 1 {
        out.append(digit_text(value));
    } else {
        let rest: usize = if min_digits == 0 {
            0
        } else {
            min_digits - 1
        };
        push_hex(out, value / 16, rest);
        out.append(digit_text(value % 16));
        assert(out@ =~= old(out)@ + hex(value as nat, min_digits as nat));
    }
}

/// Renders `value` as a hexadecimal literal: `0x`, then the digits of the
/// value, padded with zeros to at least `min_digits` digits.
pub fn to_hex(value: u64, min_digits: usize) -> (text: String)
    ensures
        text@ == hex_literal(value as nat, min_digits as nat),
{
    let mut text = String::from_str("0x");
    push_hex(&mut text, value, min_digits);
    text
}

} // verus!
