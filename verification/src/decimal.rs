//! Unsigned decimal numbers as text: how a port number is written into an
//! address or a request, and how it is read back.

use vstd::prelude::*;

verus! {

/// The character of the decimal digit `d`.
pub open spec fn digit_char(d: nat) -> char
    recommends
        d < 10,
{
    (0x30 + d) as char
}

/// Whether `c` is one of `0` to `9`.
pub open spec fn is_digit(c: char) -> bool {
    0x30 <= c as u32 <= 0x39
}

/// The value of the decimal digit `c`.
pub open spec fn digit_value(c: char) -> nat
    recommends
        is_digit(c),
{
    (c as u32 - 0x30) as nat
}

/// `n` written in decimal, without sign and without leading zeros.
pub open spec fn decimal(n: nat) -> Seq<char>
    decreases n,
{
    if n < 10 {
        seq![digit_char(n)]
    } else {
        decimal(n / 10).push(digit_char(n % 10))
    }
}

/// Whether `s` holds decimal digits only.
pub open spec fn all_digits(s: Seq<char>) -> bool {
    forall|i: int| 0 <= i < s.len() ==> is_digit(#[trigger] s[i])
}

/// The number that the digits of `s` denote; leading zeros count for nothing.
pub open spec fn decimal_value(s: Seq<char>) -> nat
    decreases s.len(),
{
    if s.len() == 0 {
        0
    } else {
        decimal_value(s.drop_last()) * 10 + digit_value(s.last())
    }
}

/// The digits of `s` once an optional leading `+` is taken off.
pub open spec fn unsigned_digits(s: Seq<char>) -> Seq<char> {
    if s.len() > 0 && s[0] == '+' {
        s.drop_first()
    } else {
        s
    }
}

/// The port number that `s` denotes: an optional `+`, then at least one
/// decimal digit and nothing else, with a value of at most 65535.
pub open spec fn parse_port(s: Seq<char>) -> Option<u16> {
    let digits = unsigned_digits(s);
    if digits.len() > 0 && all_digits(digits) && decimal_value(digits) <= 0xFFFF {
        Some(decimal_value(digits) as u16)
    } else {
        None
    }
}

/// A longer digit string never denotes less than its beginning.
pub proof fn lemma_value_of_prefix(s: Seq<char>, n: int)
    requires
        0 <= n <= s.len(),
    ensures
        decimal_value(s.take(n)) <= decimal_value(s),
    decreases s.len(),
{
    if n == s.len() {
        assert(s.take(n) == s);
    } else {
        assert(s.drop_last().take(n) == s.take(n));
        lemma_value_of_prefix(s.drop_last(), n);
    }
}

/// What `decimal` writes is made of digits and denotes the number written.
pub proof fn lemma_decimal_value(n: nat)
    ensures
        decimal(n).len() > 0,
        all_digits(decimal(n)),
        decimal(n)[0] != '+',
        decimal_value(decimal(n)) == n,
    decreases n,
{
    if n < 10 {
        let s = decimal(n);
        assert(s.drop_last() == Seq::<char>::empty());
        assert(decimal_value(s.drop_last()) == 0);
    } else {
        lemma_decimal_value(n / 10);
        let s = decimal(n);
        assert(s.drop_last() == decimal(n / 10));
        assert(s.last() == digit_char(n % 10));
    }
}

/// A port number written in decimal reads back as itself.
pub proof fn lemma_parse_port_of_decimal(port: u16)
    ensures
        parse_port(decimal(port as nat)) == Some(port),
{
    lemma_decimal_value(port as nat);
}

/// The character of one decimal digit.
fn digit_to_char(d: u32) -> (c: char)
    requires
        d < 10,
    ensures
        c == digit_char(d as nat),
{
    if d == 0 {
        '0'
    } else if d == 1 {
        '1'
    } else if d == 2 {
        '2'
    } else if d == 3 {
        '3'
    } else if d == 4 {
        '4'
    } else if d == 5 {
        '5'
    } else if d == 6 {
        '6'
    } else if d == 7 {
        '7'
    } else if d == 8 {
        '8'
    } else {
        '9'
    }
}

/// Appends `n` in decimal to `out`.
pub fn push_decimal(out: &mut Vec<char>, n: u32)
    ensures
        final(out)@ == old(out)@ + decimal(n as nat),
    decreases n,
{
    if n >= 10 {
        push_decimal(out, n / 10);
    }
    out.push(digit_to_char(n % 10));
}

/// `n` in decimal.
pub fn format_decimal(n: u32) -> (digits: Vec<char>)
    ensures
        digits@ == decimal(n as nat),
{
    let mut out: Vec<char> = Vec::new();
    push_decimal(&mut out, n);
    out
}

/// Reads a port number: an optional `+` and then decimal digits, as the
/// standard library reads a `u16`.
pub fn read_port(v: &Vec<char>) -> (port: Option<u16>)
    ensures
        port == parse_port(v@),
{
    let start: usize = if v.len() > 0 && v[0] == '+' {
        1
    } else {
        0
    };
    let ghost digits = unsigned_digits(v@);
    assert(digits == v@.subrange(start as int, v.len() as int));
    if start == v.len() {
        return None;
    }
    let mut acc: u32 = 0;
    let mut i: usize = start;
    while i < v.len()
        invariant
            start <= i <= v.len(),
            start < v.len(),
            digits == unsigned_digits(v@),
            digits == v@.subrange(start as int, v.len() as int),
            all_digits(digits.take(i - start)),
            acc == decimal_value(digits.take(i - start)),
            acc <= 0xFFFF,
        decreases v.len() - i,
    {
        let c = v[i];
        let n: u32 = c as u32;
        let ghost k = i - start;
        assert(digits[k] == c);
        if n < 0x30 || n > 0x39 {
            assert(!is_digit(digits[k]));
            return None;
        }
        let next: u32 = acc * 10 + (n - 0x30);
        proof {
            let t = digits.take(k + 1);
            assert(t.drop_last() == digits.take(k));
            assert(t.last() == c);
            assert(decimal_value(t) == next);
            assert forall|j: int| 0 <= j < t.len() implies is_digit(#[trigger] t[j]) by {
                if j < k {
                    assert(t[j] == digits.take(k)[j]);
                }
            }
        }
        if next > 0xFFFF {
            proof {
                lemma_value_of_prefix(digits, k + 1);
            }
            return None;
        }
        acc = next;
        i += 1;
    }
    assert(digits.take(i - start) == digits);
    Some(acc as u16)
}

} // verus!
