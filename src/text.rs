//! Rendering of unsigned integers as decimal and hexadecimal text.
use vstd::prelude::*;
use vstd::string::StringExecFns;

verus! {

/// The character of the digit `d` (below sixteen), upper-case for ten and above.
pub open spec fn digit_char(d: nat) -> char {
    if d == 0 { '0' }
    else if d == 1 { '1' }
    else if d == 2 { '2' }
    else if d == 3 { '3' }
    else if d == 4 { '4' }
    else if d == 5 { '5' }
    else if d == 6 { '6' }
    else if d == 7 { '7' }
    else if d == 8 { '8' }
    else if d == 9 { '9' }
    else if d == 10 { 'A' }
    else if d == 11 { 'B' }
    else if d == 12 { 'C' }
    else if d == 13 { 'D' }
    else if d == 14 { 'E' }
    else { 'F' }
}

/// The radix of decimal (`false`) or hexadecimal (`true`) text.
pub open spec fn radix(hex: bool) -> nat {
    if hex { 16 } else { 10 }
}

/// `n` in base ten or sixteen, without leading zeros; zero is "0".
pub open spec fn digits(n: nat, hex: bool) -> Seq<char>
    decreases n,
{
    if n < radix(hex) {
        seq![digit_char(n)]
    } else if hex {
        digits(n / 16, hex).push(digit_char(n % 16))
    } else {
        digits(n / 10, hex).push(digit_char(n % 10))
    }
}

/// The last `width` digits of `n` in base sixteen, padded with zeros.
pub open spec fn hex_padded(n: nat, width: nat) -> Seq<char>
    decreases width,
{
    if width == 0 {
        Seq::empty()
    } else {
        hex_padded(n / 16, (width - 1) as nat).push(digit_char(n % 16))
    }
}

/// Appends the character of one digit.
fn push_digit(out: &mut String, d: u64)
    requires
        d < 16,
    ensures
        final(out)@ == old(out)@.push(digit_char(d as nat)),
{
    let s: &str = match d {
        0 => "0",
        1 => "1",
        2 => "2",
        3 => "3",
        4 => "4",
        5 => "5",
        6 => "6",
        7 => "7",
        8 => "8",
        9 => "9",
        10 => "A",
        11 => "B",
        12 => "C",
        13 => "D",
        14 => "E",
        _ => "F",
    };
    proof {
        reveal_strlit("0");
        reveal_strlit("1");
        reveal_strlit("2");
        reveal_strlit("3");
        reveal_strlit("4");
        reveal_strlit("5");
        reveal_strlit("6");
        reveal_strlit("7");
        reveal_strlit("8");
        reveal_strlit("9");
        reveal_strlit("A");
        reveal_strlit("B");
        reveal_strlit("C");
        reveal_strlit("D");
        reveal_strlit("E");
        reveal_strlit("F");
    }
    out.append(s);
}

/// Appends `n` written in base sixteen (`hex`) or ten, without leading zeros.
pub fn push_digits(out: &mut String, n: u64, hex: bool)
    ensures
        final(out)@ == old(out)@ + digits(n as nat, hex),
    decreases n,
{
    let base: u64 = if hex { 16 } else { 10 };
    if n >= base {
        push_digits(out, n / base, hex);
    }
    push_digit(out, n % base);
    proof {
        assert(final(out)@ =~= old(out)@ + digits(n as nat, hex));
    }
}

/// Appends the last `width` base-sixteen digits of `n`, padded with zeros.
pub fn push_hex_padded(out: &mut String, n: u64, width: u64)
    ensures
        final(out)@ == old(out)@ + hex_padded(n as nat, width as nat),
    decreases width,
{
    if width > 0 {
        push_hex_padded(out, n / 16, width - 1);
        push_digit(out, n % 16);
    }
    proof {
        assert(final(out)@ =~= old(out)@ + hex_padded(n as nat, width as nat));
    }
}

} // verus!
