//! The game's colour codes: six hex digits decoded to red, green and
//! blue bytes.

use vstd::prelude::*;
use vstd::string::StrSliceExecFns;

verus! {

pub open spec fn is_hex_digit(c: char) -> bool {
    ||| ('0' as u32) <= (c as u32) <= ('9' as u32)
    ||| ('a' as u32) <= (c as u32) <= ('f' as u32)
    ||| ('A' as u32) <= (c as u32) <= ('F' as u32)
}

pub open spec fn hex_digit_value(c: char) -> int {
    if ('0' as u32) <= (c as u32) <= ('9' as u32) {
        (c as u32) - ('0' as u32)
    } else if ('a' as u32) <= (c as u32) <= ('f' as u32) {
        10 + (c as u32) - ('a' as u32)
    } else {
        10 + (c as u32) - ('A' as u32)
    }
}

/// A colour code names a colour exactly when it is six hex digits;
/// each pair of digits gives one channel, red first.
pub open spec fn spec_hex_color(s: Seq<char>) -> Option<(u8, u8, u8)> {
    if s.len() == 6 && (forall|i: int| 0 <= i < 6 ==> is_hex_digit(#[trigger] s[i])) {
        Some(
            (
                (hex_digit_value(s[0]) * 16 + hex_digit_value(s[1])) as u8,
                (hex_digit_value(s[2]) * 16 + hex_digit_value(s[3])) as u8,
                (hex_digit_value(s[4]) * 16 + hex_digit_value(s[5])) as u8,
            ),
        )
    } else {
        None
    }
}

/// The value of one hex digit, or nothing for any other character.
pub fn hex_digit(c: char) -> (r: Option<u8>)
    ensures
        is_hex_digit(c) ==> r == Some(hex_digit_value(c) as u8) && hex_digit_value(c) <= 15,
        !is_hex_digit(c) ==> r is None,
{
    let v = c as u32;
    if 48 <= v && v <= 57 {
        Some((v - 48) as u8)
    } else if 97 <= v && v <= 102 {
        Some((v - 87) as u8)
    } else if 65 <= v && v <= 70 {
        Some((v - 55) as u8)
    } else {
        None
    }
}

/// Decode a six-digit colour code into its red, green and blue bytes;
/// any other string names no colour.
pub fn hex_color(code: &str) -> (r: Option<(u8, u8, u8)>)
    ensures
        r == spec_hex_color(code@),
{
    if code.unicode_len() != 6 {
        return None;
    }
    let mut digits: Vec<u8> = Vec::new();
    let mut i: usize = 0;
    while i < 6
        invariant
            code@.len() == 6,
            i <= 6,
            digits@.len() == i,
            forall|j: int|
                0 <= j < i ==> is_hex_digit(#[trigger] code@[j]) && digits@[j]
                    == hex_digit_value(code@[j]) && digits@[j] <= 15,
        decreases 6 - i,
    {
        let d = hex_digit(code.get_char(i));
        match d {
            Some(v) => {
                digits.push(v);
            },
            None => {
                return None;
            },
        }
        i = i + 1;
    }
    let red: u8 = digits[0] * 16 + digits[1];
    let green: u8 = digits[2] * 16 + digits[3];
    let blue: u8 = digits[4] * 16 + digits[5];
    Some((red, green, blue))
}

} // verus!
