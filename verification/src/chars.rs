//! The VIN character alphabet, case normalization, and the transliteration
//! table that maps each permitted character to its checksum value.

use vstd::prelude::*;

verus! {

/// A character is permitted in a VIN if it is an uppercase letter other than
/// `I`, `O` or `Q`, or a decimal digit.
pub open spec fn is_vin_char(c: char) -> bool {
    ||| ('A' <= c && c <= 'Z' && c != 'I' && c != 'O' && c != 'Q')
    ||| ('0' <= c && c <= '9')
}

/// Character-wise case normalization: an ASCII lowercase letter maps to its
/// uppercase counterpart; every other character is unchanged.
pub open spec fn to_upper(c: char) -> char {
    match c {
        'a' => 'A',
        'b' => 'B',
        'c' => 'C',
        'd' => 'D',
        'e' => 'E',
        'f' => 'F',
        'g' => 'G',
        'h' => 'H',
        'i' => 'I',
        'j' => 'J',
        'k' => 'K',
        'l' => 'L',
        'm' => 'M',
        'n' => 'N',
        'o' => 'O',
        'p' => 'P',
        'q' => 'Q',
        'r' => 'R',
        's' => 'S',
        't' => 'T',
        'u' => 'U',
        'v' => 'V',
        'w' => 'W',
        'x' => 'X',
        'y' => 'Y',
        'z' => 'Z',
        _ => c,
    }
}

/// The standard VIN transliteration value of a character: digits map to
/// themselves and letters to their tabulated equivalents. Characters outside
/// the permitted alphabet have no meaningful value and map to zero; callers
/// guard with [`is_vin_char`].
pub open spec fn translit(c: char) -> u32
    recommends
        is_vin_char(c),
{
    match c {
        'A' => 1,
        'B' => 2,
        'C' => 3,
        'D' => 4,
        'E' => 5,
        'F' => 6,
        'G' => 7,
        'H' => 8,
        'J' => 1,
        'K' => 2,
        'L' => 3,
        'M' => 4,
        'N' => 5,
        'P' => 7,
        'R' => 9,
        'S' => 2,
        'T' => 3,
        'U' => 4,
        'V' => 5,
        'W' => 6,
        'X' => 7,
        'Y' => 8,
        'Z' => 9,
        '0' => 0,
        '1' => 1,
        '2' => 2,
        '3' => 3,
        '4' => 4,
        '5' => 5,
        '6' => 6,
        '7' => 7,
        '8' => 8,
        '9' => 9,
        _ => 0,
    }
}

/// Uppercases a single character, ASCII letters only.
pub fn upper_char(c: char) -> (r: char)
    ensures
        r == to_upper(c),
{
    if 'a' <= c && c <= 'z' {
        match c {
            'a' => 'A',
            'b' => 'B',
            'c' => 'C',
            'd' => 'D',
            'e' => 'E',
            'f' => 'F',
            'g' => 'G',
            'h' => 'H',
            'i' => 'I',
            'j' => 'J',
            'k' => 'K',
            'l' => 'L',
            'm' => 'M',
            'n' => 'N',
            'o' => 'O',
            'p' => 'P',
            'q' => 'Q',
            'r' => 'R',
            's' => 'S',
            't' => 'T',
            'u' => 'U',
            'v' => 'V',
            'w' => 'W',
            'x' => 'X',
            'y' => 'Y',
            _ => 'Z',
        }
    } else {
        c
    }
}

/// Decides membership in the VIN alphabet.
pub fn vin_char(c: char) -> (r: bool)
    ensures
        r == is_vin_char(c),
{
    ('A' <= c && c <= 'Z' && c != 'I' && c != 'O' && c != 'Q') || ('0' <= c && c <= '9')
}

/// The transliteration value of a permitted character, and nothing for any
/// other character: validation must come first, so this never reports a
/// user-facing error.
pub fn value_of(c: char) -> (r: Option<u32>)
    ensures
        r is Some <==> is_vin_char(c),
        is_vin_char(c) ==> r == Some(translit(c)),
{
    if vin_char(c) {
        Some(match c {
            'A' => 1,
            'B' => 2,
            'C' => 3,
            'D' => 4,
            'E' => 5,
            'F' => 6,
            'G' => 7,
            'H' => 8,
            'J' => 1,
            'K' => 2,
            'L' => 3,
            'M' => 4,
            'N' => 5,
            'P' => 7,
            'R' => 9,
            'S' => 2,
            'T' => 3,
            'U' => 4,
            'V' => 5,
            'W' => 6,
            'X' => 7,
            'Y' => 8,
            'Z' => 9,
            '0' => 0,
            '1' => 1,
            '2' => 2,
            '3' => 3,
            '4' => 4,
            '5' => 5,
            '6' => 6,
            '7' => 7,
            '8' => 8,
            _ => 9,
        })
    } else {
        None
    }
}

} // verus!
