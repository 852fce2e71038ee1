//! Hex colour strings: `#RRGGBB` and `#RRGGBBAA`, any number of leading `#`.
//!
//! Each pair of characters is read as a base-16 number the way
//! `u8::from_str_radix(_, 16)` reads it: two hex digits, or a `+` sign and one
//! hex digit. Lengths are in bytes, and each pair is a byte range of the
//! string, which must fall on character boundaries.

use vstd::prelude::*;
use vstd::utf8::*;

verus! {

/// The value of an ASCII hex digit.
pub open spec fn hex_digit(b: u8) -> Option<u8> {
    if 0x30 <= b <= 0x39 {
        Some((b - 0x30) as u8)
    } else if 0x61 <= b <= 0x66 {
        Some((b - 0x61 + 10) as u8)
    } else if 0x41 <= b <= 0x46 {
        Some((b - 0x41 + 10) as u8)
    } else {
        None
    }
}

/// The base-16 value of a two-byte string: two hex digits, or `+` and one.
pub open spec fn hex_pair(b0: u8, b1: u8) -> Option<u8> {
    if b0 == 0x2b {
        hex_digit(b1)
    } else {
        match (hex_digit(b0), hex_digit(b1)) {
            (Some(h), Some(l)) => Some((h * 16 + l) as u8),
            _ => None,
        }
    }
}

/// Number of leading `#` bytes.
pub open spec fn leading_hashes(b: Seq<u8>) -> nat
    decreases b.len(),
{
    if b.len() > 0 && b[0] == 0x23 {
        1 + leading_hashes(b.drop_first())
    } else {
        0
    }
}

/// The bytes after the leading `#`s.
pub open spec fn hex_body(b: Seq<u8>) -> Seq<u8> {
    b.skip(leading_hashes(b) as int)
}

/// When the body of `b` has `n` bytes, cutting it into pairs falls on
/// character boundaries: no pair starts with a UTF-8 continuation byte. This
/// is where `&str` slicing does not panic.
pub open spec fn pairs_on_boundaries(b: Seq<u8>, n: nat) -> bool {
    let h = hex_body(b);
    h.len() == n ==> forall|k: int|
        0 < k < h.len() && k % 2 == 0 ==> !is_continuation_byte(#[trigger] h[k])
}

/// The colour a `#RRGGBB` string names.
pub open spec fn hex_rgb(b: Seq<u8>) -> Option<(u8, u8, u8)> {
    let h = hex_body(b);
    if h.len() != 6 {
        None
    } else {
        match (hex_pair(h[0], h[1]), hex_pair(h[2], h[3]), hex_pair(h[4], h[5])) {
            (Some(r), Some(g), Some(bl)) => Some((r, g, bl)),
            _ => None,
        }
    }
}

/// The colour a `#RRGGBB` or `#RRGGBBAA` string names; without an alpha
/// pair the colour is opaque.
pub open spec fn hex_rgba(b: Seq<u8>) -> Option<(u8, u8, u8, u8)> {
    let h = hex_body(b);
    if h.len() == 6 {
        match hex_rgb(b) {
            Some((r, g, bl)) => Some((r, g, bl, 255u8)),
            None => None,
        }
    } else if h.len() == 8 {
        match (
            hex_pair(h[0], h[1]),
            hex_pair(h[2], h[3]),
            hex_pair(h[4], h[5]),
            hex_pair(h[6], h[7]),
        ) {
            (Some(r), Some(g), Some(bl), Some(a)) => Some((r, g, bl, a)),
            _ => None,
        }
    } else {
        None
    }
}

/// The value of a hex digit byte.
fn hex_digit_value(b: u8) -> (r: Option<u8>)
    ensures
        r == hex_digit(b),
{
    if 0x30 <= b && b <= 0x39 {
        Some(b - 0x30)
    } else if 0x61 <= b && b <= 0x66 {
        Some(b - 0x61 + 10)
    } else if 0x41 <= b && b <= 0x46 {
        Some(b - 0x41 + 10)
    } else {
        None
    }
}

/// The base-16 value of the two bytes `b0 b1`.
pub fn parse_hex_pair(b0: u8, b1: u8) -> (r: Option<u8>)
    ensures
        r == hex_pair(b0, b1),
{
    if b0 == 0x2b {
        return hex_digit_value(b1);
    }
    match (hex_digit_value(b0), hex_digit_value(b1)) {
        (Some(h), Some(l)) => Some(h * 16 + l),
        _ => None,
    }
}

/// Index of the first byte after the leading `#`s.
fn skip_hashes(b: &[u8]) -> (i: usize)
    ensures
        i == leading_hashes(b@),
        i <= b@.len(),
{
    let mut i: usize = 0;
    assert(b@.skip(0) =~= b@);
    while i < b.len() && b[i] == 0x23
        invariant
            i <= b@.len(),
            leading_hashes(b@) == i + leading_hashes(b@.skip(i as int)),
        decreases b@.len() - i,
    {
        assert(b@.skip(i as int).drop_first() =~= b@.skip(i + 1));
        i = i + 1;
    }
    assert(i == b@.len() ==> b@.skip(i as int).len() == 0);
    i
}

/// Parses a `#RRGGBB` colour.
pub fn parse_hex_color(hex: &str) -> (r: Option<(u8, u8, u8)>)
    requires
        pairs_on_boundaries(encode_utf8(hex@), 6),
    ensures
        r == hex_rgb(encode_utf8(hex@)),
{
    let b = hex.as_bytes();
    let i = skip_hashes(b);
    let ghost h = hex_body(b@);
    if b.len() - i != 6 {
        return None;
    }
    assert(forall|k: int| 0 <= k < 6 ==> h[k] == b@[i + k]);
    let r = parse_hex_pair(b[i], b[i + 1]);
    let g = parse_hex_pair(b[i + 2], b[i + 3]);
    let bl = parse_hex_pair(b[i + 4], b[i + 5]);
    match (r, g, bl) {
        (Some(r), Some(g), Some(bl)) => Some((r, g, bl)),
        _ => None,
    }
}

/// Parses a `#RRGGBB` or `#RRGGBBAA` colour; without alpha it is opaque.
pub fn parse_hex_rgba(hex: &str) -> (r: Option<(u8, u8, u8, u8)>)
    requires
        pairs_on_boundaries(encode_utf8(hex@), 6),
        pairs_on_boundaries(encode_utf8(hex@), 8),
    ensures
        r == hex_rgba(encode_utf8(hex@)),
{
    let b = hex.as_bytes();
    let i = skip_hashes(b);
    let ghost h = hex_body(b@);
    let n = b.len() - i;
    if n == 6 {
        return match parse_hex_color(hex) {
            Some((r, g, bl)) => Some((r, g, bl, 255u8)),
            None => None,
        };
    }
    if n != 8 {
        return None;
    }
    assert(forall|k: int| 0 <= k < 8 ==> h[k] == b@[i + k]);
    let r = parse_hex_pair(b[i], b[i + 1]);
    let g = parse_hex_pair(b[i + 2], b[i + 3]);
    let bl = parse_hex_pair(b[i + 4], b[i + 5]);
    let a = parse_hex_pair(b[i + 6], b[i + 7]);
    match (r, g, bl, a) {
        (Some(r), Some(g), Some(bl), Some(a)) => Some((r, g, bl, a)),
        _ => None,
    }
}

/// A six-digit colour read with an optional alpha pair is the same colour,
/// opaque.
pub proof fn law_rgba_extends_rgb(b: Seq<u8>)
    requires
        hex_body(b).len() == 6,
    ensures
        hex_rgba(b) == match hex_rgb(b) {
            Some((r, g, bl)) => Some((r, g, bl, 255u8)),
            None => None::<(u8, u8, u8, u8)>,
        },
{
}

} // verus!
