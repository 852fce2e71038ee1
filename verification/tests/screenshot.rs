use garlock::screenshot::{bgra_to_rgba, rgba_to_bgra, Screenshot};

#[test]
fn swaps_red_and_blue() {
    let mut px = vec![1, 2, 3, 4, 5, 6, 7, 8];
    bgra_to_rgba(&mut px);
    assert_eq!(px, vec![3, 2, 1, 4, 7, 6, 5, 8]);
}

#[test]
fn trailing_bytes_untouched() {
    let mut px = vec![1, 2, 3, 4, 5, 6];
    rgba_to_bgra(&mut px);
    assert_eq!(px, vec![3, 2, 1, 4, 5, 6]);
}

#[test]
fn round_trip() {
    let original: Vec<u8> = (0..=41).collect();
    let mut px = original.clone();
    bgra_to_rgba(&mut px);
    assert_ne!(px, original);
    rgba_to_bgra(&mut px);
    assert_eq!(px, original);
}

#[test]
fn screenshot_to_rgba_leaves_source() {
    let shot = Screenshot { data: vec![10, 20, 30, 40], width: 1, height: 1, depth: 24 };
    assert_eq!(shot.to_rgba(), vec![30, 20, 10, 40]);
    assert_eq!(shot.data, vec![10, 20, 30, 40]);
}

use garlock::transfer::{image_chunks, MAX_CHUNK_BYTES};

#[test]
fn bands_of_a_full_hd_image() {
    let chunks = image_chunks(1920, 1080);
    // 1 MiB holds 136 rows of 7680 bytes
    assert_eq!(chunks.len(), 8);
    assert_eq!(chunks[0].y, 0);
    assert_eq!(chunks[0].rows, 136);
    assert_eq!(chunks[1].y, 136);
    assert_eq!(chunks[1].offset, 136 * 7680);
    let last = chunks[7];
    assert_eq!(last.y, 952);
    assert_eq!(last.rows, 128);
    assert_eq!(last.offset + last.bytes, 1920 * 1080 * 4);
    assert!(chunks.iter().all(|c| c.bytes <= MAX_CHUNK_BYTES));
}

#[test]
fn wide_rows_four_per_band() {
    // a row of 65535 pixels is 262140 bytes: four rows fit in 1 MiB
    let chunks = image_chunks(65535, 9);
    assert_eq!(chunks.len(), 3);
    assert_eq!(chunks[0].rows, 4);
    assert_eq!(chunks[1].rows, 4);
    assert_eq!(chunks[2].rows, 1);
    assert_eq!(chunks[2].y, 8);
    assert_eq!(chunks[2].offset, 8 * 262140);
}

#[test]
fn narrow_image_fits_in_one_band() {
    let chunks = image_chunks(1, 2);
    assert_eq!(chunks.len(), 1);
    assert_eq!(chunks[0].rows, 2);
}

#[test]
fn empty_image_has_no_band() {
    assert!(image_chunks(10, 0).is_empty());
    let one = image_chunks(1, 1);
    assert_eq!(one.len(), 1);
    assert_eq!(one[0].bytes, 4);
}

use garlock::clip::visible_span;

fn brute_force(dest: i32, src_len: i32, dst_len: i32) -> Vec<i32> {
    (0..src_len.max(0)).filter(|s| {
        let p = dest as i64 + *s as i64;
        p >= 0 && p < dst_len as i64
    }).collect()
}

#[test]
fn clipping_matches_pixel_by_pixel_test() {
    for dest in [-300, -200, -5, 0, 3, 150, 1000, 2000] {
        for (src_len, dst_len) in [(200, 1920), (0, 10), (10, 0), (5, 5), (-3, 10)] {
            let (lo, hi) = visible_span(dest, src_len, dst_len);
            let expected = brute_force(dest, src_len, dst_len);
            let got: Vec<i32> = (lo..hi).collect();
            assert_eq!(got, expected, "dest {} src {} dst {}", dest, src_len, dst_len);
        }
    }
}

#[test]
fn clipping_at_extremes() {
    assert_eq!(visible_span(i32::MIN, i32::MAX, i32::MAX), (0, 0));
    assert_eq!(visible_span(i32::MAX, 10, i32::MAX), (0, 0));
    assert_eq!(visible_span(-10, 20, 5), (10, 15));
}
