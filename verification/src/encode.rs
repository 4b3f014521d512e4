//! The seven-segment encoder: fixed tables from hex digits and letters to
//! segment patterns.

use vstd::prelude::*;

verus! {

/// The segment pattern of a hex digit. The input is masked to its low four
/// bits, so every byte maps to some pattern; out-of-range values are
/// normalized, never rejected.
pub open spec fn hex_pattern(digit: u8) -> u8 {
    let n = digit & 0x0f;
    if n == 0 {
        0x3f
    } else if n == 1 {
        0x06
    } else if n == 2 {
        0x5b
    } else if n == 3 {
        0x4f
    } else if n == 4 {
        0x66
    } else if n == 5 {
        0x6d
    } else if n == 6 {
        0x7d
    } else if n == 7 {
        0x07
    } else if n == 8 {
        0x7f
    } else if n == 9 {
        0x6f
    } else if n == 10 {
        0x77
    } else if n == 11 {
        0x7c
    } else if n == 12 {
        0x39
    } else if n == 13 {
        0x5e
    } else if n == 14 {
        0x79
    } else {
        0x71
    }
}

/// A sequence of hex digits, each encoded to its segment pattern.
pub open spec fn hex_payload(digits: Seq<u8>) -> Seq<u8> {
    digits.map_values(|d: u8| hex_pattern(d))
}

/// The segment pattern of a letter, case-insensitively; any character
/// without a defined shape (digits, punctuation) maps to the blank pattern.
pub open spec fn char_pattern(c: char) -> u8 {
    match c {
        'a' | 'A' => 0x77,
        'b' | 'B' => 0x7c,
        'c' | 'C' => 0x58,
        'd' | 'D' => 0x5e,
        'e' | 'E' => 0x79,
        'f' | 'F' => 0x71,
        'g' | 'G' => 0x3d,
        'h' | 'H' => 0x74,
        'i' | 'I' => 0x30,
        'j' | 'J' => 0x1e,
        'k' | 'K' => 0x75,
        'l' | 'L' => 0x38,
        'm' | 'M' => 0x55,
        'n' | 'N' => 0x54,
        'o' | 'O' => 0x5c,
        'p' | 'P' => 0x73,
        'q' | 'Q' => 0x67,
        'r' | 'R' => 0x50,
        's' | 'S' => 0x6d,
        't' | 'T' => 0x78,
        'u' | 'U' => 0x3e,
        'v' | 'V' => 0x3e,
        'w' | 'W' => 0x6a,
        'x' | 'X' => 0x14,
        'y' | 'Y' => 0x6e,
        'z' | 'Z' => 0x5b,
        _ => 0x00,
    }
}

/// A sequence of characters, each encoded to its segment pattern.
pub open spec fn char_payload(chars: Seq<char>) -> Seq<u8> {
    chars.map_values(|c: char| char_pattern(c))
}

/// Looks up the segment pattern of the low four bits of `digit`.
pub fn hex_digit_pattern(digit: u8) -> (r: u8)
    ensures
        r == hex_pattern(digit),
{
    let n = digit & 0x0f;
    if n == 0 {
        0x3f
    } else if n == 1 {
        0x06
    } else if n == 2 {
        0x5b
    } else if n == 3 {
        0x4f
    } else if n == 4 {
        0x66
    } else if n == 5 {
        0x6d
    } else if n == 6 {
        0x7d
    } else if n == 7 {
        0x07
    } else if n == 8 {
        0x7f
    } else if n == 9 {
        0x6f
    } else if n == 10 {
        0x77
    } else if n == 11 {
        0x7c
    } else if n == 12 {
        0x39
    } else if n == 13 {
        0x5e
    } else if n == 14 {
        0x79
    } else {
        0x71
    }
}

/// Looks up the segment pattern of a letter, case-insensitively; characters
/// without a shape give the blank pattern.
pub fn char_to_raw(c: char) -> (r: u8)
    ensures
        r == char_pattern(c),
{
    match c {
        'a' | 'A' => 0x77,
        'b' | 'B' => 0x7c,
        'c' | 'C' => 0x58,
        'd' | 'D' => 0x5e,
        'e' | 'E' => 0x79,
        'f' | 'F' => 0x71,
        'g' | 'G' => 0x3d,
        'h' | 'H' => 0x74,
        'i' | 'I' => 0x30,
        'j' | 'J' => 0x1e,
        'k' | 'K' => 0x75,
        'l' | 'L' => 0x38,
        'm' | 'M' => 0x55,
        'n' | 'N' => 0x54,
        'o' | 'O' => 0x5c,
        'p' | 'P' => 0x73,
        'q' | 'Q' => 0x67,
        'r' | 'R' => 0x50,
        's' | 'S' => 0x6d,
        't' | 'T' => 0x78,
        'u' | 'U' => 0x3e,
        'v' | 'V' => 0x3e,
        'w' | 'W' => 0x6a,
        'x' | 'X' => 0x14,
        'y' | 'Y' => 0x6e,
        'z' | 'Z' => 0x5b,
        _ => 0x00,
    }
}

} // verus!
