//! Text building helpers shared by the metadata parsers.

use vstd::prelude::*;

verus! {

/// `String::push`: appends the character `ch`.
pub assume_specification[ String::push ](s: &mut String, ch: char)
    ensures
        final(s)@ == old(s)@.push(ch),
;

/// The character with the code point of byte `b` (Latin-1).
pub open spec fn latin1(b: u8) -> char {
    b as char
}

/// The upper-case hexadecimal digit of `v`.
pub open spec fn hex_digit(v: int) -> char {
    if v < 10 {
        ((v + 48) as u8) as char
    } else {
        ((v - 10 + 65) as u8) as char
    }
}

/// The character of byte `b`, read as Latin-1.
pub fn char_from_byte(b: u8) -> (c: char)
    ensures
        c == latin1(b),
{
    b as char
}

/// Appends the two upper-case hexadecimal digits of `b`.
pub fn push_hex_byte(s: &mut String, b: u8)
    ensures
        final(s)@ == old(s)@.push(hex_digit(b as int / 16)).push(hex_digit(b as int % 16)),
{
    let hi = b / 16;
    let lo = b % 16;
    let ch = if hi < 10 { (hi + 48) as char } else { (hi - 10 + 65) as char };
    s.push(ch);
    let cl = if lo < 10 { (lo + 48) as char } else { (lo - 10 + 65) as char };
    s.push(cl);
}

/// Decimal digits of `n`, most significant first (`0` for zero).
pub open spec fn decimal(n: nat) -> Seq<char>
    decreases n,
{
    if n < 10 {
        seq![((n + 48) as u8) as char]
    } else {
        decimal(n / 10).push((((n % 10) + 48) as u8) as char)
    }
}

/// Appends the decimal digits of `n`.
pub fn push_decimal(s: &mut String, n: usize)
    ensures
        final(s)@ == old(s)@ + decimal(n as nat),
    decreases n,
{
    if n < 10 {
        s.push(((n as u8) + 48) as char);
        assert(final(s)@ =~= old(s)@ + decimal(n as nat));
    } else {
        push_decimal(s, n / 10);
        s.push((((n % 10) as u8) + 48) as char);
        assert(final(s)@ =~= old(s)@ + decimal(n as nat));
    }
}

/// ASCII decimal digits of `n`, most significant first (`0` for zero).
pub open spec fn decimal_bytes(n: nat) -> Seq<u8>
    decreases n,
{
    if n < 10 {
        seq![(n + 48) as u8]
    } else {
        decimal_bytes(n / 10).push(((n % 10) + 48) as u8)
    }
}

/// Appends the ASCII decimal digits of `n`.
pub fn push_decimal_bytes(v: &mut Vec<u8>, n: usize)
    ensures
        final(v)@ == old(v)@ + decimal_bytes(n as nat),
    decreases n,
{
    if n < 10 {
        v.push((n as u8) + 48);
        assert(final(v)@ =~= old(v)@ + decimal_bytes(n as nat));
    } else {
        push_decimal_bytes(v, n / 10);
        v.push(((n % 10) as u8) + 48);
        assert(final(v)@ =~= old(v)@ + decimal_bytes(n as nat));
    }
}

} // verus!
