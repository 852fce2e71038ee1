//! How a full-window image is cut into horizontal bands small enough for one
//! X11 `PutImage` request each.

use vstd::prelude::*;

verus! {

/// Largest number of bytes sent in one band, unless a single row is larger.
pub const MAX_CHUNK_BYTES: usize = 1048576;

/// One band of rows of a 32-bit image.
#[derive(Debug, Clone, Copy, PartialEq, Eq, Structural)]
pub struct ImageChunk {
    /// First row of the band.
    pub y: i16,
    /// Number of rows in the band.
    pub rows: u16,
    /// Offset of the band's first byte in the image data.
    pub offset: usize,
    /// Number of bytes of the band.
    pub bytes: usize,
}

/// Rows per band for an image `width` pixels wide: as many whole rows as fit
/// in `MAX_CHUNK_BYTES`, and at least one.
pub open spec fn rows_per_chunk(width: u16) -> int {
    let q = MAX_CHUNK_BYTES as int / (4 * width as int);
    if q < 1 {
        1
    } else {
        q
    }
}

/// `chunks` cuts an image `width` x `height` into consecutive bands of
/// `rows_per_chunk` rows, the last band holding the rows that are left.
pub open spec fn is_band_cut(chunks: Seq<ImageChunk>, width: u16, height: u16) -> bool {
    let per = rows_per_chunk(width);
    let row_bytes = 4 * width as int;
    &&& (chunks.len() == 0) == (height == 0)
    &&& chunks.len() > 0 ==> chunks[0].y == 0
    &&& forall|k: int|
        0 <= k < chunks.len() - 1 ==> #[trigger] chunks[k].rows == per && chunks[k + 1].y
            == chunks[k].y + per
    &&& chunks.len() > 0 ==> {
        let last = chunks[chunks.len() - 1];
        &&& 0 < last.rows <= per
        &&& last.y + last.rows == height
    }
    &&& forall|k: int|
        0 <= k < chunks.len() ==> #[trigger] chunks[k].offset == chunks[k].y * row_bytes
            && chunks[k].bytes == chunks[k].rows * row_bytes
}

/// The bands in which an image `width` pixels wide and `height` rows high is
/// sent. The image must be at least one pixel wide, its rows must be
/// addressable by the request's signed 16-bit row, and its size in bytes must
/// fit in a `usize`.
pub fn image_chunks(width: u16, height: u16) -> (chunks: Vec<ImageChunk>)
    requires
        width > 0,
        height <= 32767,
        4 * width * height <= usize::MAX,
    ensures
        is_band_cut(chunks@, width, height),
{
    let bytes_per_row: usize = width as usize * 4;
    let q: usize = MAX_CHUNK_BYTES / bytes_per_row;
    let rows_per: usize = if q < 1 {
        1
    } else {
        q
    };
    let ghost per = rows_per_chunk(width);
    assert(rows_per == per);
    let mut chunks: Vec<ImageChunk> = Vec::new();
    let mut y: usize = 0;
    let total: usize = height as usize;
    while y < total
        invariant
            bytes_per_row == 4 * width,
            rows_per == per,
            per >= 1,
            total == height,
            height <= 32767,
            4 * width * height <= usize::MAX,
            y <= total,
            (chunks@.len() == 0) == (y == 0),
            chunks@.len() > 0 ==> chunks@[0].y == 0,
            chunks@.len() > 0 ==> chunks@[chunks@.len() - 1].y + chunks@[chunks@.len()
                - 1].rows == y,
            chunks@.len() > 0 ==> 0 < chunks@[chunks@.len() - 1].rows <= per,
            forall|k: int|
                0 <= k < chunks@.len() - 1 ==> #[trigger] chunks@[k].rows == per && chunks@[k
                    + 1].y == chunks@[k].y + per,
            forall|k: int|
                0 <= k < chunks@.len() ==> #[trigger] chunks@[k].offset == chunks@[k].y * (4
                    * width) && chunks@[k].bytes == chunks@[k].rows * (4 * width),
            chunks@.len() > 0 && y < total ==> chunks@[chunks@.len() - 1].rows == per,
        decreases total - y,
    {
        let left = total - y;
        let rows: usize = if left < rows_per {
            left
        } else {
            rows_per
        };
        assert(y * bytes_per_row <= usize::MAX && rows * bytes_per_row <= usize::MAX)
            by (nonlinear_arith)
            requires
                y + rows <= height,
                bytes_per_row == 4 * width,
                4 * width * height <= usize::MAX,
        ;
        let offset = y * bytes_per_row;
        let bytes = rows * bytes_per_row;
        let chunk = ImageChunk { y: y as i16, rows: rows as u16, offset, bytes };
        assert(chunk.y == y && chunk.rows == rows);
        let ghost prev = chunks@;
        let ghost old_y = y;
        chunks.push(chunk);
        y = y + rows;
        proof {
            assert(chunks@[chunks@.len() - 1] == chunk);
            assert forall|k: int| 0 <= k < chunks@.len() implies #[trigger] chunks@[k].offset
                == chunks@[k].y * (4 * width) && chunks@[k].bytes == chunks@[k].rows * (4
                * width) by {
                if k < prev.len() {
                    assert(chunks@[k] == prev[k]);
                }
            }
            assert forall|k: int| 0 <= k < chunks@.len() - 1 implies #[trigger] chunks@[k].rows
                == per && chunks@[k + 1].y == chunks@[k].y + per by {
                if k < prev.len() - 1 {
                    assert(chunks@[k] == prev[k] && chunks@[k + 1] == prev[k + 1]);
                } else {
                    assert(chunks@[k] == prev[k]);
                }
            }
        }
    }
    chunks
}

} // verus!
