//! Canonical text renderings used when assembling query strings: decimal
//! integers, booleans, and percent-encoded values.

use vstd::prelude::*;
use vstd::string::StringSliceAdditionalSpecFns;

verus! {

/// Relies on std's `String::push`: appends the character to the end of the string.
#[verifier::external_body]
pub(crate) fn push_char(s: &mut String, c: char)
    ensures
        final(s)@ == old(s)@ + seq![c],
{
    s.push(c);
}

/// The character for a single decimal digit.
pub open spec fn decimal_digit(d: nat) -> char {
    if d == 0 {
        '0'
    } else if d == 1 {
        '1'
    } else if d == 2 {
        '2'
    } else if d == 3 {
        '3'
    } else if d == 4 {
        '4'
    } else if d == 5 {
        '5'
    } else if d == 6 {
        '6'
    } else if d == 7 {
        '7'
    } else if d == 8 {
        '8'
    } else {
        '9'
    }
}

/// The canonical decimal rendering of a natural number, without sign,
/// leading zeros, or separators.
pub open spec fn decimal_str(n: nat) -> Seq<char>
    decreases n,
{
    if n < 10 {
        seq![decimal_digit(n)]
    } else {
        decimal_str(n / 10) + seq![decimal_digit(n % 10)]
    }
}

fn decimal_digit_exec(d: u32) -> (r: char)
    requires
        d < 10,
    ensures
        r == decimal_digit(d as nat),
{
    if d == 0 {
        '0'
    } else if d == 1 {
        '1'
    } else if d == 2 {
        '2'
    } else if d == 3 {
        '3'
    } else if d == 4 {
        '4'
    } else if d == 5 {
        '5'
    } else if d == 6 {
        '6'
    } else if d == 7 {
        '7'
    } else if d == 8 {
        '8'
    } else {
        '9'
    }
}

/// Appends the canonical decimal rendering of `n` to `s`.
pub fn append_u32_decimal(s: &mut String, n: u32)
    ensures
        final(s)@ == old(s)@ + decimal_str(n as nat),
    decreases n,
{
    if n >= 10 {
        append_u32_decimal(s, n / 10);
    }
    push_char(s, decimal_digit_exec(n % 10));
}

/// The canonical decimal rendering of a `u32`, as a fresh string.
pub fn u32_to_decimal(n: u32) -> (r: String)
    ensures
        r@ == decimal_str(n as nat),
{
    let mut s = String::new();
    append_u32_decimal(&mut s, n);
    s
}

/// The canonical rendering of a boolean.
pub open spec fn bool_str(b: bool) -> Seq<char> {
    if b {
        "true"@
    } else {
        "false"@
    }
}

/// The canonical rendering of a `bool`, as a fresh string.
pub fn bool_to_str(b: bool) -> (r: &'static str)
    ensures
        r@ == bool_str(b),
{
    if b {
        "true"
    } else {
        "false"
    }
}

/// Bytes that pass through query-string encoding unchanged: printable ASCII
/// other than space, `"`, `#`, `%`, `&`, `+`, `<`, `=` and `>`.
pub open spec fn is_query_safe_byte(b: u8) -> bool {
    32 < b && b < 127 && b != 34 && b != 35 && b != 37 && b != 38 && b != 43 && b != 60 && b != 61
        && b != 62
}

/// The character for a single hexadecimal digit, upper case.
pub open spec fn hex_digit(d: nat) -> char {
    if d < 10 {
        decimal_digit(d)
    } else if d == 10 {
        'A'
    } else if d == 11 {
        'B'
    } else if d == 12 {
        'C'
    } else if d == 13 {
        'D'
    } else if d == 14 {
        'E'
    } else {
        'F'
    }
}

fn hex_digit_exec(d: u8) -> (r: char)
    requires
        d < 16,
    ensures
        r == hex_digit(d as nat),
{
    if d < 10 {
        decimal_digit_exec(d as u32)
    } else if d == 10 {
        'A'
    } else if d == 11 {
        'B'
    } else if d == 12 {
        'C'
    } else if d == 13 {
        'D'
    } else if d == 14 {
        'E'
    } else {
        'F'
    }
}

/// How a single byte of a query-string value is rendered: safe bytes stand
/// for themselves, every other byte becomes `%` and two hex digits.
pub open spec fn encode_byte(b: u8) -> Seq<char> {
    if is_query_safe_byte(b) {
        seq![b as char]
    } else {
        seq!['%', hex_digit((b / 16) as nat), hex_digit((b % 16) as nat)]
    }
}

/// The percent-encoding of a byte sequence, byte by byte.
pub open spec fn percent_encode(bs: Seq<u8>) -> Seq<char>
    decreases bs.len(),
{
    if bs.len() == 0 {
        Seq::empty()
    } else {
        percent_encode(bs.drop_last()) + encode_byte(bs.last())
    }
}

/// Appends the percent-encoding of the UTF-8 bytes of `v` to `s`.
pub fn append_percent_encoded(s: &mut String, v: &str)
    ensures
        final(s)@ == old(s)@ + percent_encode(v.spec_bytes()),
{
    let bytes = v.as_bytes();
    let n = bytes.len();
    for i in 0..n
        invariant
            bytes@ == v.spec_bytes(),
            n == bytes@.len(),
            s@ == old(s)@ + percent_encode(bytes@.take(i as int)),
    {
        let b = bytes[i];
        if 32 < b && b < 127 && b != 34 && b != 35 && b != 37 && b != 38 && b != 43 && b != 60
            && b != 61 && b != 62 {
            push_char(s, b as char);
        } else {
            push_char(s, '%');
            push_char(s, hex_digit_exec(b / 16));
            push_char(s, hex_digit_exec(b % 16));
        }
        proof {
            assert(bytes@.take(i + 1).drop_last() =~= bytes@.take(i as int));
            assert(bytes@.take(i + 1).last() == bytes@[i as int]);
            assert(s@ =~= old(s)@ + percent_encode(bytes@.take(i + 1)));
        }
    }
    proof {
        assert(bytes@.take(n as int) =~= bytes@);
    }
}

} // verus!
