//! Backgrounds shown behind the lock indicator.

use vstd::prelude::*;
use vstd::utf8::*;

use crate::hex::{hex_rgb, pairs_on_boundaries, parse_hex_color};

verus! {

/// Processed background ready for display.
pub struct Background {
    /// Pixel data in BGRA format for X11
    pub data: Vec<u8>,
    /// Image width
    pub width: u32,
    /// Image height
    pub height: u32,
}

/// The colour used when the configured one cannot be read (`#1a1a2e`).
pub open spec fn fallback_rgb() -> (u8, u8, u8) {
    (26u8, 26u8, 46u8)
}

/// The colour a solid background made from `hex` has.
pub open spec fn solid_rgb(hex: Seq<char>) -> (u8, u8, u8) {
    match hex_rgb(encode_utf8(hex)) {
        Some(c) => c,
        None => fallback_rgb(),
    }
}

/// Byte `k` (0 to 3) of an opaque BGRA pixel of colour `c`.
pub open spec fn bgra_byte(c: (u8, u8, u8), k: int) -> u8 {
    if k == 0 {
        c.2
    } else if k == 1 {
        c.1
    } else if k == 2 {
        c.0
    } else {
        255u8
    }
}

impl Background {
    /// A background of `width` x `height` opaque pixels of the colour `hex_color`
    /// names, or of the fallback colour when it names none.
    pub fn solid_color(width: u32, height: u32, hex_color: &str) -> (bg: Self)
        requires
            width * height <= u32::MAX,
            4 * width * height <= isize::MAX,
            pairs_on_boundaries(encode_utf8(hex_color@), 6),
        ensures
            bg.width == width,
            bg.height == height,
            bg.data@.len() == 4 * width * height,
            forall|i: int|
                0 <= i < bg.data@.len() ==> #[trigger] bg.data@[i] == bgra_byte(
                    solid_rgb(hex_color@),
                    i % 4,
                ),
    {
        let (r, g, b) = match parse_hex_color(hex_color) {
            Some(c) => c,
            None => (26u8, 26u8, 46u8),
        };
        let ghost c = (r, g, b);
        let pixel_count = (width * height) as usize;
        assert(4 * pixel_count == 4 * width * height) by (nonlinear_arith)
            requires
                pixel_count == width * height,
        ;
        let mut data: Vec<u8> = Vec::with_capacity(pixel_count * 4);
        let mut k: usize = 0;
        while k < pixel_count
            invariant
                k <= pixel_count,
                pixel_count == width * height,
                4 * pixel_count <= isize::MAX,
                c == (r, g, b),
                data@.len() == 4 * k,
                forall|i: int| 0 <= i < data@.len() ==> #[trigger] data@[i] == bgra_byte(c, i % 4),
            decreases pixel_count - k,
        {
            data.push(b);
            data.push(g);
            data.push(r);
            data.push(255);
            k = k + 1;
        }
        Background { data, width, height }
    }
}

/// Every pixel of a solid background is the same opaque pixel.
pub proof fn law_solid_pixels_uniform(bg: Seq<u8>, c: (u8, u8, u8), i: int, j: int)
    requires
        forall|k: int| 0 <= k < bg.len() ==> #[trigger] bg[k] == bgra_byte(c, k % 4),
        0 <= i < bg.len(),
        0 <= j < bg.len(),
        i % 4 == j % 4,
    ensures
        bg[i] == bg[j],
        i % 4 == 3 ==> bg[i] == 255,
{
}

} // verus!
