//! Clipping of a source image placed on a destination buffer: which source
//! rows or columns land inside the destination.

use vstd::prelude::*;

verus! {

/// Source index `s` lies in the source and, placed at `dest`, lands inside a
/// destination of length `dst_len`.
pub open spec fn lands_inside(dest: int, src_len: int, dst_len: int, s: int) -> bool {
    0 <= s < src_len && 0 <= dest + s < dst_len
}

/// The source indices that land inside the destination when the source, of
/// length `src_len`, is placed at `dest` on a destination of length
/// `dst_len`: exactly those in `[r.0, r.1)`.
pub fn visible_span(dest: i32, src_len: i32, dst_len: i32) -> (r: (i32, i32))
    ensures
        0 <= r.0 <= r.1,
        forall|s: int| r.0 <= s < r.1 <==> lands_inside(dest as int, src_len as int, dst_len as int, s),
{
    let d: i64 = dest as i64;
    let lo: i64 = if d < 0 {
        -d
    } else {
        0
    };
    let limit: i64 = dst_len as i64 - d;
    let hi: i64 = if (src_len as i64) < limit {
        src_len as i64
    } else {
        limit
    };
    if hi <= lo {
        (0, 0)
    } else {
        (lo as i32, hi as i32)
    }
}

} // verus!
