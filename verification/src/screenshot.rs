//! Captured screen pixels and the conversion between the BGRA layout of the
//! X server and the RGBA layout of image processing.

use vstd::prelude::*;

verus! {

/// Captured screenshot data.
pub struct Screenshot {
    /// Raw pixel data in BGRA format (X11 native)
    pub data: Vec<u8>,
    /// Image width
    pub width: u32,
    /// Image height
    pub height: u32,
    /// Bits per pixel (typically 24 or 32)
    pub depth: u8,
}

/// `s` with the first and third byte of every whole 4-byte pixel exchanged;
/// trailing bytes that make no whole pixel are left as they are.
pub open spec fn swap_red_blue(s: Seq<u8>) -> Seq<u8> {
    Seq::new(
        s.len(),
        |i: int|
            if i < s.len() / 4 * 4 {
                if i % 4 == 0 {
                    s[i + 2]
                } else if i % 4 == 2 {
                    s[i - 2]
                } else {
                    s[i]
                }
            } else {
                s[i]
            },
    )
}

/// Exchanges the first and third byte of every whole 4-byte pixel.
fn swap_pixels(data: &mut [u8])
    ensures
        final(data)@ == swap_red_blue(old(data)@),
{
    let n = data.len();
    let pixels = n / 4;
    let mut k: usize = 0;
    while k < pixels
        invariant
            pixels == n / 4,
            n == old(data)@.len(),
            data@.len() == n,
            k <= pixels,
            forall|i: int|
                0 <= i < n ==> #[trigger] data@[i] == if i < 4 * k {
                    swap_red_blue(old(data)@)[i]
                } else {
                    old(data)@[i]
                },
        decreases pixels - k,
    {
        let at = 4 * k;
        let b = data[at];
        let r = data[at + 2];
        data[at] = r;
        data[at + 2] = b;
        k = k + 1;
    }
    assert(data@ =~= swap_red_blue(old(data)@));
}

/// Converts BGRA pixel data to RGBA in place.
pub fn bgra_to_rgba(data: &mut [u8])
    ensures
        final(data)@ == swap_red_blue(old(data)@),
{
    swap_pixels(data);
}

/// Converts RGBA pixel data to BGRA in place.
pub fn rgba_to_bgra(data: &mut [u8])
    ensures
        final(data)@ == swap_red_blue(old(data)@),
{
    swap_pixels(data);
}

impl Screenshot {
    /// The pixels in RGBA order.
    pub fn to_rgba(&self) -> (rgba: Vec<u8>)
        ensures
            rgba@ == swap_red_blue(self.data@),
    {
        let mut rgba: Vec<u8> = Vec::new();
        let mut k: usize = 0;
        while k < self.data.len()
            invariant
                k <= self.data@.len(),
                rgba@ == self.data@.take(k as int),
            decreases self.data@.len() - k,
        {
            rgba.push(self.data[k]);
            k = k + 1;
        }
        assert(rgba@ =~= self.data@);
        bgra_to_rgba(rgba.as_mut_slice());
        rgba
    }
}

/// Converting to RGBA and back gives the original pixels.
pub proof fn law_conversion_round_trip(s: Seq<u8>)
    ensures
        swap_red_blue(swap_red_blue(s)) == s,
{
    assert(swap_red_blue(swap_red_blue(s)) =~= s);
}

} // verus!
