//! Small text-building helpers shared by the JSON encoder and the
//! gateway-address formatting.

use vstd::prelude::*;

verus! {

/// Relies on `String::push`: appends exactly the given character to
/// the end of the string.
#[verifier::external_body]
pub fn push_char(s: &mut String, c: char)
    ensures
        final(s)@ == old(s)@.push(c),
{
    s.push(c);
}

/// The character for a single decimal digit.
pub open spec fn spec_digit(d: nat) -> char {
    if d == 0 {
        '0'
    } else if d == 1 {
        '1'
    } else if d == 2 {
        '2'
    } else if d == 3 {
        '3'
    } else if d == 4 {
        '4'
    } else if d == 5 {
        '5'
    } else if d == 6 {
        '6'
    } else if d == 7 {
        '7'
    } else if d == 8 {
        '8'
    } else {
        '9'
    }
}

/// The decimal text of a byte, without leading zeroes.
pub open spec fn spec_u8_decimal(n: u8) -> Seq<char> {
    if n < 10 {
        seq![spec_digit(n as nat)]
    } else if n < 100 {
        seq![spec_digit((n / 10) as nat), spec_digit((n % 10) as nat)]
    } else {
        seq![
            spec_digit((n / 100) as nat),
            spec_digit(((n / 10) % 10) as nat),
            spec_digit((n % 10) as nat),
        ]
    }
}

/// The character for the decimal digit `d`.
fn digit_char(d: u8) -> (c: char)
    requires
        d < 10,
    ensures
        c == spec_digit(d as nat),
{
    if d == 0 {
        '0'
    } else if d == 1 {
        '1'
    } else if d == 2 {
        '2'
    } else if d == 3 {
        '3'
    } else if d == 4 {
        '4'
    } else if d == 5 {
        '5'
    } else if d == 6 {
        '6'
    } else if d == 7 {
        '7'
    } else if d == 8 {
        '8'
    } else {
        '9'
    }
}

/// The lowercase hexadecimal character for a value below 16.
pub open spec fn spec_hex_digit(d: nat) -> char {
    if d < 10 {
        spec_digit(d)
    } else if d == 10 {
        'a'
    } else if d == 11 {
        'b'
    } else if d == 12 {
        'c'
    } else if d == 13 {
        'd'
    } else if d == 14 {
        'e'
    } else {
        'f'
    }
}

/// The lowercase hexadecimal character for `d`.
pub fn hex_digit(d: u8) -> (c: char)
    requires
        d < 16,
    ensures
        c == spec_hex_digit(d as nat),
{
    if d < 10 {
        digit_char(d)
    } else if d == 10 {
        'a'
    } else if d == 11 {
        'b'
    } else if d == 12 {
        'c'
    } else if d == 13 {
        'd'
    } else if d == 14 {
        'e'
    } else {
        'f'
    }
}

/// Appends the decimal text of `n` to `out`.
pub fn append_u8_decimal(out: &mut String, n: u8)
    ensures
        final(out)@ == old(out)@ + spec_u8_decimal(n),
{
    if n >= 100 {
        push_char(out, digit_char(n / 100));
    }
    if n >= 10 {
        push_char(out, digit_char((n / 10) % 10));
    }
    push_char(out, digit_char(n % 10));
    proof {
        assert(out@ =~= old(out)@ + spec_u8_decimal(n));
    }
}

} // verus!
