use vstd::prelude::*;
use vstd::string::*;
use std::num::ParseIntError;

verus! {

#[verifier::external_type_specification]
#[verifier::external_body]
pub struct ExParseIntError(ParseIntError);

/// The value of a digit character in any radix up to 36 (`0`-`9`, then
/// `a`-`z` or `A`-`Z` for 10-35); 36 for any other character.
pub open spec fn radix_digit(c: char) -> nat {
    if '0' <= c <= '9' {
        (c as nat - '0' as nat) as nat
    } else if 'a' <= c <= 'z' {
        (c as nat - 'a' as nat + 10) as nat
    } else if 'A' <= c <= 'Z' {
        (c as nat - 'A' as nat + 10) as nat
    } else {
        36
    }
}

/// The number that a string of digits stands for in `radix`.
pub open spec fn radix_number(d: Seq<char>, radix: nat) -> nat
    decreases d.len(),
{
    if d.len() == 0 {
        0
    } else {
        radix_number(d.drop_last(), radix) * radix + radix_digit(d.last())
    }
}

/// The value of an optional `+` followed by one or more digits of `radix`.
pub open spec fn unsigned_text_value(s: Seq<char>, radix: nat) -> Option<nat> {
    let d = if s.len() > 0 && s[0] == '+' {
        s.subrange(1, s.len() as int)
    } else {
        s
    };
    if d.len() > 0 && forall|i: int| 0 <= i < d.len() ==> #[trigger] radix_digit(d[i]) < radix {
        Some(radix_number(d, radix))
    } else {
        None
    }
}

/// Relies on `u16::from_str_radix`: an optional `+` and digits of `radix`
/// (at least one, nothing else) standing for at most 0xFFFF give that value;
/// any other text gives an error. Panics on a radix outside 2..=36.
#[verifier::external_body]
fn u16_from_str_radix(s: &str, radix: u32) -> (r: Result<u16, ParseIntError>)
    requires
        2 <= radix <= 36,
    ensures
        match unsigned_text_value(s@, radix as nat) {
            Some(n) => if n <= 0xFFFF {
                r matches Ok(v) && v == n
            } else {
                r is Err
            },
            None => r is Err,
        },
{
    u16::from_str_radix(s, radix)
}

/// The number a command argument stands for: hexadecimal after a `0x`
/// prefix, decimal otherwise.
pub open spec fn parse_u16_spec(s: Seq<char>) -> Option<u16> {
    let hex = s.len() >= 2 && s[0] == '0' && s[1] == 'x';
    let (d, radix) = if hex {
        (s.subrange(2, s.len() as int), 16nat)
    } else {
        (s, 10nat)
    };
    match unsigned_text_value(d, radix) {
        Some(n) => if n <= 0xFFFF {
            Some(n as u16)
        } else {
            None
        },
        None => None,
    }
}

/// Reads a 16-bit number: hexadecimal after a `0x` prefix, decimal otherwise.
pub fn parse_u16(s: &str) -> (r: Result<u16, ParseIntError>)
    ensures
        match parse_u16_spec(s@) {
            Some(v) => r matches Ok(x) && x == v,
            None => r is Err,
        },
{
    let n = s.unicode_len();
    if n >= 2 && s.get_char(0) == '0' && s.get_char(1) == 'x' {
        u16_from_str_radix(s.substring_char(2, n), 16)
    } else {
        u16_from_str_radix(s, 10)
    }
}

} // verus!
