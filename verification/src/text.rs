//! Numbers and bytes as text: decimal and hexadecimal digits.

use vstd::prelude::*;
use crate::domain::DebugMode;

verus! {

/// The text of one decimal digit.
pub open spec fn digit_text(d: nat) -> Seq<char>
    recommends
        d < 10,
{
    if d == 0 {
        "0"@
    } else if d == 1 {
        "1"@
    } else if d == 2 {
        "2"@
    } else if d == 3 {
        "3"@
    } else if d == 4 {
        "4"@
    } else if d == 5 {
        "5"@
    } else if d == 6 {
        "6"@
    } else if d == 7 {
        "7"@
    } else if d == 8 {
        "8"@
    } else {
        "9"@
    }
}

/// A number in decimal, without leading zeros.
pub open spec fn decimal(n: nat) -> Seq<char>
    decreases n,
{
    if n < 10 {
        digit_text(n)
    } else {
        decimal(n / 10) + digit_text(n % 10)
    }
}

fn digit_str(d: usize) -> (text: &'static str)
    requires
        d < 10,
    ensures
        text@ == digit_text(d as nat),
{
    if d == 0 {
        "0"
    } else if d == 1 {
        "1"
    } else if d == 2 {
        "2"
    } else if d == 3 {
        "3"
    } else if d == 4 {
        "4"
    } else if d == 5 {
        "5"
    } else if d == 6 {
        "6"
    } else if d == 7 {
        "7"
    } else if d == 8 {
        "8"
    } else {
        "9"
    }
}

/// Appends `n` in decimal to `text`.
pub fn append_decimal(text: &mut String, n: usize)
    ensures
        final(text)@ == old(text)@ + decimal(n as nat),
    decreases n,
{
    if n < 10 {
        text.append(digit_str(n));
    } else {
        append_decimal(text, n / 10);
        text.append(digit_str(n % 10));
        assert(text@ =~= old(text)@ + decimal(n as nat));
    }
}

proof fn digit_texts(d: nat)
    requires
        d < 10,
    ensures
        digit_text(d).len() == 1,
        digit_text(d)[0] as int == '0' as int + d,
{
    reveal_strlit("0");
    reveal_strlit("1");
    reveal_strlit("2");
    reveal_strlit("3");
    reveal_strlit("4");
    reveal_strlit("5");
    reveal_strlit("6");
    reveal_strlit("7");
    reveal_strlit("8");
    reveal_strlit("9");
}

proof fn decimal_ends_in_digit(n: nat)
    ensures
        decimal(n).len() >= 1,
        n >= 10 ==> decimal(n).len() >= 2,
        decimal(n).last() == digit_text(n % 10)[0],
        n >= 10 ==> decimal(n).drop_last() == decimal(n / 10),
    decreases n,
{
    digit_texts(n % 10);
    if n >= 10 {
        decimal_ends_in_digit(n / 10);
        assert(decimal(n).drop_last() =~= decimal(n / 10));
    }
}

/// Two numbers with the same decimal text are the same number.
pub proof fn decimal_tells_numbers_apart(a: nat, b: nat)
    requires
        decimal(a) == decimal(b),
    ensures
        a == b,
    decreases a,
{
    decimal_ends_in_digit(a);
    decimal_ends_in_digit(b);
    digit_texts(a % 10);
    digit_texts(b % 10);
    assert(a % 10 == b % 10);
    if a >= 10 && b >= 10 {
        decimal_tells_numbers_apart(a / 10, b / 10);
    }
}

/// The text of one hexadecimal digit, in capitals.
pub open spec fn hex_digit_text(d: nat) -> Seq<char>
    recommends
        d < 16,
{
    if d < 10 {
        digit_text(d)
    } else if d == 10 {
        "A"@
    } else if d == 11 {
        "B"@
    } else if d == 12 {
        "C"@
    } else if d == 13 {
        "D"@
    } else if d == 14 {
        "E"@
    } else {
        "F"@
    }
}

/// A byte as two hexadecimal digits.
pub open spec fn hex(b: u8) -> Seq<char> {
    hex_digit_text((b / 16) as nat) + hex_digit_text((b % 16) as nat)
}

/// A byte as the debug mode shows it: a decimal number, or two hexadecimal
/// digits.
pub open spec fn shown(b: u8, mode: DebugMode) -> Seq<char> {
    match mode {
        DebugMode::Dec => decimal(b as nat),
        DebugMode::Hex => hex(b),
    }
}

/// Bytes as the debug mode shows them: one after the other, a space
/// between each two.
pub open spec fn rendered(bytes: Seq<u8>, mode: DebugMode) -> Seq<char>
    decreases bytes.len(),
{
    if bytes.len() == 0 {
        Seq::empty()
    } else if bytes.len() == 1 {
        shown(bytes[0], mode)
    } else {
        rendered(bytes.drop_last(), mode) + " "@ + shown(bytes.last(), mode)
    }
}

fn hex_digit_str(d: u8) -> (text: &'static str)
    requires
        d < 16,
    ensures
        text@ == hex_digit_text(d as nat),
{
    if d < 10 {
        digit_str(d as usize)
    } else if d == 10 {
        "A"
    } else if d == 11 {
        "B"
    } else if d == 12 {
        "C"
    } else if d == 13 {
        "D"
    } else if d == 14 {
        "E"
    } else {
        "F"
    }
}

fn append_shown(text: &mut String, b: u8, mode: DebugMode)
    ensures
        final(text)@ == old(text)@ + shown(b, mode),
{
    match mode {
        DebugMode::Dec => {
            append_decimal(text, b as usize);
        },
        DebugMode::Hex => {
            text.append(hex_digit_str(b / 16));
            text.append(hex_digit_str(b % 16));
            assert(text@ =~= old(text)@ + hex(b));
        },
    }
}

/// Renders `bytes` for diagnostics: each byte as `mode` shows it, a space
/// between each two.
pub fn render(bytes: &[u8], mode: DebugMode) -> (text: String)
    ensures
        text@ == rendered(bytes@, mode),
{
    let mut text = String::new();
    let mut i: usize = 0;
    while i < bytes.len()
        invariant
            i <= bytes.len(),
            text@ == rendered(bytes@.subrange(0, i as int), mode),
        decreases bytes.len() - i,
    {
        proof {
            let upto = bytes@.subrange(0, i + 1);
            assert(upto.drop_last() =~= bytes@.subrange(0, i as int));
            assert(upto.last() == bytes@[i as int]);
            if i == 0 {
                assert(text@ + shown(bytes@[0], mode) =~= shown(bytes@[0], mode));
            }
        }
        if i > 0 {
            text.append(" ");
        }
        append_shown(&mut text, bytes[i], mode);
        i += 1;
    }
    assert(bytes@.subrange(0, bytes@.len() as int) =~= bytes@);
    text
}

} // verus!
