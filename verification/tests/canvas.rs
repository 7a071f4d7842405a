use vellum_core::{draw_bitmap_to_canvas, fill_canvas, Bitmap};

const BG: [u8; 4] = [38, 40, 46, 255];

#[test]
fn fill_sets_whole_pixels_only() {
    let mut buffer = vec![0u8; 10];
    fill_canvas(&mut buffer, [1, 2, 3, 4]);
    assert_eq!(buffer, vec![1, 2, 3, 4, 1, 2, 3, 4, 0, 0]);
}

#[test]
fn canvas_without_bitmap_is_background() {
    let mut buffer = vec![7u8; 9];
    draw_bitmap_to_canvas(&mut buffer, 2, 1, None, 2, 1);
    assert_eq!(buffer, vec![38, 40, 46, 255, 38, 40, 46, 255, 7]);
}

#[test]
fn bitmap_is_swizzled_to_bgra_and_centred() {
    let bitmap = Bitmap::from_rgba(1, 1, vec![10, 20, 30, 40]).unwrap();
    let mut buffer = vec![0u8; 3 * 3 * 4];
    draw_bitmap_to_canvas(&mut buffer, 3, 3, Some(&bitmap), 1, 1);
    for pixel in 0..9 {
        let expected = if pixel == 4 { [30, 20, 10, 40] } else { BG };
        assert_eq!(&buffer[pixel * 4..pixel * 4 + 4], &expected, "pixel {pixel}");
    }
}

#[test]
fn bitmap_is_scaled_by_nearest_sample() {
    let bitmap = Bitmap::from_rgba(2, 1, vec![1, 2, 3, 4, 5, 6, 7, 8]).unwrap();
    let mut buffer = vec![0u8; 4 * 1 * 4];
    draw_bitmap_to_canvas(&mut buffer, 4, 1, Some(&bitmap), 4, 1);
    assert_eq!(
        buffer,
        vec![3, 2, 1, 4, 3, 2, 1, 4, 7, 6, 5, 8, 7, 6, 5, 8]
    );
}

#[test]
fn drawn_area_is_clamped_to_the_canvas_and_at_least_a_pixel() {
    let bitmap = Bitmap::from_rgba(1, 2, vec![1, 2, 3, 4, 5, 6, 7, 8]).unwrap();
    let mut buffer = vec![0u8; 2 * 2 * 4];
    draw_bitmap_to_canvas(&mut buffer, 2, 2, Some(&bitmap), 100, 100);
    assert_eq!(
        buffer,
        vec![3, 2, 1, 4, 3, 2, 1, 4, 7, 6, 5, 8, 7, 6, 5, 8]
    );
    let mut buffer = vec![0u8; 2 * 2 * 4];
    draw_bitmap_to_canvas(&mut buffer, 2, 2, Some(&bitmap), 0, 0);
    assert_eq!(&buffer[..4], &[3, 2, 1, 4]);
    assert_eq!(&buffer[4..], &[38, 40, 46, 255, 38, 40, 46, 255, 38, 40, 46, 255]);
}

#[test]
fn short_buffer_and_zero_canvas_only_get_background() {
    let bitmap = Bitmap::from_rgba(1, 1, vec![1, 2, 3, 4]).unwrap();
    let mut buffer = vec![0u8; 6];
    draw_bitmap_to_canvas(&mut buffer, 0, 3, Some(&bitmap), 1, 1);
    assert_eq!(buffer, vec![38, 40, 46, 255, 0, 0]);
    let mut buffer = vec![0u8; 6];
    draw_bitmap_to_canvas(&mut buffer, 3, 3, Some(&bitmap), 1, 1);
    assert_eq!(buffer, vec![38, 40, 46, 255, 0, 0]);
}

#[test]
fn a_huge_canvas_without_a_bitmap_is_only_filled() {
    let mut buffer = vec![0u8; 9];
    draw_bitmap_to_canvas(&mut buffer, u32::MAX, u32::MAX, None, 0, 0);
    assert_eq!(buffer, vec![38, 40, 46, 255, 38, 40, 46, 255, 0]);
    let bitmap = Bitmap::from_rgba(1, 1, vec![1, 2, 3, 4]).unwrap();
    let mut buffer = vec![0u8; 4];
    draw_bitmap_to_canvas(&mut buffer, 0, u32::MAX, Some(&bitmap), 1, 1);
    assert_eq!(buffer, BG.to_vec());
}
