//! Drawing a bitmap onto a BGRA canvas, scaled to fit and centred.

use vstd::prelude::*;

use vstd::arithmetic::div_mod::lemma_fundamental_div_mod;
use vstd::arithmetic::div_mod::lemma_fundamental_div_mod_converse;
use vstd::arithmetic::div_mod::lemma_div_by_multiple;

use crate::bitmap::{valid_layout, Bitmap, BitmapModel};

verus! {

/// Byte `channel` of the canvas background colour.
pub open spec fn background_byte(channel: int) -> u8 {
    if channel == 0 {
        38
    } else if channel == 1 {
        40
    } else if channel == 2 {
        46
    } else {
        255
    }
}

/// The bytes of a buffer after every complete 4-byte pixel was set to
/// `color`; trailing bytes that do not make a pixel are kept.
pub open spec fn filled(before: Seq<u8>, color: Seq<u8>) -> Seq<u8> {
    Seq::new(
        before.len(),
        |k: int|
            if k < 4 * (before.len() / 4) {
                color[k % 4]
            } else {
                before[k]
            },
    )
}

/// The drawn extent along one axis: the scaled size of the bitmap, at
/// least one pixel and at most the canvas size.
pub open spec fn clamp_extent(scaled: u32, canvas: u32) -> int {
    let at_least_one = if scaled == 0 {
        1
    } else {
        scaled as int
    };
    if at_least_one > canvas {
        canvas as int
    } else {
        at_least_one
    }
}

/// The source row (or column) sampled for drawn row (or column)
/// `position`, when `source` rows are drawn over `drawn` rows.
pub open spec fn sample_index(position: int, drawn: int, source: int) -> int {
    let sample = position * source / drawn;
    if sample < source - 1 {
        sample
    } else {
        source - 1
    }
}

/// Canvas pixels are blue, green, red, alpha; bitmap pixels are red,
/// green, blue, alpha.
pub open spec fn swizzle(channel: int) -> int {
    if channel == 0 {
        2
    } else if channel == 2 {
        0
    } else {
        channel
    }
}

/// Where the bitmap lands on the canvas.
pub struct Placement {
    pub draw_width: int,
    pub draw_height: int,
    pub offset_x: int,
    pub offset_y: int,
}

/// The bitmap is drawn `scaled_width` by `scaled_height` pixels large,
/// clamped to the canvas, and centred.
pub open spec fn placement(
    canvas_width: u32,
    canvas_height: u32,
    scaled_width: u32,
    scaled_height: u32,
) -> Placement {
    let draw_width = clamp_extent(scaled_width, canvas_width);
    let draw_height = clamp_extent(scaled_height, canvas_height);
    Placement {
        draw_width,
        draw_height,
        offset_x: (canvas_width - draw_width) / 2,
        offset_y: (canvas_height - draw_height) / 2,
    }
}

/// Canvas pixel `pixel`, in row-major order over rows `canvas_width`
/// pixels wide, lies where the bitmap is drawn.
pub open spec fn in_drawn_area(place: Placement, canvas_width: int, pixel: int) -> bool {
    &&& place.offset_y <= pixel / canvas_width < place.offset_y + place.draw_height
    &&& place.offset_x <= pixel % canvas_width < place.offset_x + place.draw_width
}

/// The bitmap byte that canvas byte `k` shows, for a pixel in the drawn area.
pub open spec fn sampled_byte(
    image: BitmapModel,
    place: Placement,
    canvas_width: int,
    k: int,
) -> u8 {
    let row = (k / 4) / canvas_width;
    let col = (k / 4) % canvas_width;
    let source_y = sample_index(row - place.offset_y, place.draw_height, image.height as int);
    let source_x = sample_index(col - place.offset_x, place.draw_width, image.width as int);
    image.rgba[4 * (source_y * image.width + source_x) + swizzle(k % 4)]
}

/// Byte `k` of the canvas once the bitmap is drawn on it: in a complete
/// pixel, the sampled bitmap byte inside the drawn area and the background
/// elsewhere; beyond the last complete pixel, the byte as it was.
pub open spec fn canvas_byte(
    before: Seq<u8>,
    canvas_width: u32,
    canvas_height: u32,
    image: Option<BitmapModel>,
    scaled_width: u32,
    scaled_height: u32,
    k: int,
) -> u8 {
    if k >= 4 * (before.len() / 4) {
        before[k]
    } else {
        match image {
            Some(img) => {
                let place = placement(canvas_width, canvas_height, scaled_width, scaled_height);
                if canvas_width == 0 || canvas_height == 0 {
                    background_byte(k % 4)
                } else if in_drawn_area(place, canvas_width as int, k / 4) {
                    sampled_byte(img, place, canvas_width as int, k)
                } else {
                    background_byte(k % 4)
                }
            },
            None => background_byte(k % 4),
        }
    }
}

/// The canvas once the bitmap is drawn on it.
pub open spec fn drawn_canvas(
    before: Seq<u8>,
    canvas_width: u32,
    canvas_height: u32,
    image: Option<BitmapModel>,
    scaled_width: u32,
    scaled_height: u32,
) -> Seq<u8> {
    Seq::new(
        before.len(),
        |k: int|
            canvas_byte(before, canvas_width, canvas_height, image, scaled_width, scaled_height, k),
    )
}

/// On a non-empty canvas the drawn area is at least one pixel, lies inside
/// the canvas, and is centred: the margins on either side differ by at most
/// one pixel.
pub proof fn lemma_placement_centred(
    canvas_width: u32,
    canvas_height: u32,
    scaled_width: u32,
    scaled_height: u32,
)
    requires
        canvas_width > 0,
        canvas_height > 0,
    ensures
        ({
            let place = placement(canvas_width, canvas_height, scaled_width, scaled_height);
            &&& 1 <= place.draw_width <= canvas_width
            &&& 1 <= place.draw_height <= canvas_height
            &&& 0 <= place.offset_x
            &&& 0 <= place.offset_y
            &&& place.offset_x + place.draw_width <= canvas_width
            &&& place.offset_y + place.draw_height <= canvas_height
            &&& 0 <= (canvas_width - place.offset_x - place.draw_width) - place.offset_x <= 1
            &&& 0 <= (canvas_height - place.offset_y - place.draw_height) - place.offset_y <= 1
            &&& (scaled_width >= 1 && scaled_width <= canvas_width) ==> place.draw_width
                == scaled_width
            &&& (scaled_height >= 1 && scaled_height <= canvas_height) ==> place.draw_height
                == scaled_height
        }),
{
}

/// A bitmap drawn at its own size on a canvas that holds it shows each of
/// its pixels `(x, y)` at canvas pixel `(offset_x + x, offset_y + y)`, where
/// the offsets centre it, with the bytes in blue, green, red, alpha order.
pub proof fn lemma_own_size_drawing_copies_pixels(
    before: Seq<u8>,
    canvas_width: u32,
    canvas_height: u32,
    image: BitmapModel,
    x: int,
    y: int,
)
    requires
        valid_layout(image.width, image.height, image.rgba.len() as int),
        image.width <= canvas_width,
        image.height <= canvas_height,
        0 <= x < image.width,
        0 <= y < image.height,
        4 * (((canvas_height - image.height) / 2 + y) * canvas_width + (canvas_width - image.width)
            / 2 + x) + 4 <= before.len(),
    ensures
        ({
            let pixel = ((canvas_height - image.height) / 2 + y) * canvas_width + (canvas_width
                - image.width) / 2 + x;
            let source = 4 * (y * image.width + x);
            let after = drawn_canvas(
                before,
                canvas_width,
                canvas_height,
                Some(image),
                image.width,
                image.height,
            );
            &&& after[4 * pixel] == image.rgba[source + 2]
            &&& after[4 * pixel + 1] == image.rgba[source + 1]
            &&& after[4 * pixel + 2] == image.rgba[source]
            &&& after[4 * pixel + 3] == image.rgba[source + 3]
        }),
{
    let w = image.width as int;
    let h = image.height as int;
    let cw = canvas_width as int;
    assert(w >= 1 && h >= 1) by (nonlinear_arith)
        requires
            w * h > 0,
            w >= 0,
            h >= 0,
    ;
    let place = placement(canvas_width, canvas_height, image.width, image.height);
    assert(place.draw_width == w && place.draw_height == h);
    let row = (canvas_height - image.height) / 2 + y;
    let col = (canvas_width - image.width) / 2 + x;
    assert(col < cw);
    lemma_pixel_position(cw, row, col);
    let pixel = row * cw + col;
    assert(0 <= row * cw) by (nonlinear_arith)
        requires
            0 <= row,
            0 <= cw,
    ;
    assert(in_drawn_area(place, cw, pixel));
    lemma_div_by_multiple(y, h);
    lemma_div_by_multiple(x, w);
    assert(sample_index(row - place.offset_y, h, h) == y);
    assert(sample_index(col - place.offset_x, w, w) == x);
    let filled_len = 4 * (before.len() / 4);
    assert(4 * pixel + 4 <= filled_len);
    assert((4 * pixel) / 4 == pixel && (4 * pixel) % 4 == 0);
    assert((4 * pixel + 1) / 4 == pixel && (4 * pixel + 1) % 4 == 1);
    assert((4 * pixel + 2) / 4 == pixel && (4 * pixel + 2) % 4 == 2);
    assert((4 * pixel + 3) / 4 == pixel && (4 * pixel + 3) % 4 == 3);
}

/// Set every complete 4-byte pixel of the buffer to `color`.
pub fn fill_canvas(buffer: &mut [u8], color: [u8; 4])
    ensures
        final(buffer)@ == filled(old(buffer)@, color@),
{
    let len: usize = buffer.len();
    let pixels: usize = len / 4;
    let ghost before = buffer@;
    let mut i: usize = 0;
    while i < pixels
        invariant
            len == before.len(),
            buffer@.len() == len,
            pixels == len / 4,
            i <= pixels,
            forall|k: int|
                0 <= k < len ==> #[trigger] buffer@[k] == if k < 4 * i {
                    color@[k % 4]
                } else {
                    before[k]
                },
        decreases pixels - i,
    {
        let base: usize = 4 * i;
        buffer[base] = color[0];
        buffer[base + 1] = color[1];
        buffer[base + 2] = color[2];
        buffer[base + 3] = color[3];
        i = i + 1;
    }
    assert(buffer@ =~= filled(before, color@));
}

/// Pixel `row * width + col` lies in row `row` and column `col`.
proof fn lemma_pixel_position(width: int, row: int, col: int)
    requires
        width > 0,
        row >= 0,
        0 <= col < width,
    ensures
        (row * width + col) / width == row,
        (row * width + col) % width == col,
{
    lemma_fundamental_div_mod_converse(row * width + col, width, row, col);
}

/// A pixel is determined by its row and column.
proof fn lemma_pixel_from_position(width: int, pixel: int)
    requires
        width > 0,
        pixel >= 0,
    ensures
        pixel == (pixel / width) * width + pixel % width,
        0 <= pixel % width < width,
        pixel / width >= 0,
{
    lemma_fundamental_div_mod(pixel, width);
    assert(width * (pixel / width) == (pixel / width) * width) by (nonlinear_arith);
    assert(pixel / width >= 0) by (nonlinear_arith)
        requires
            width > 0,
            pixel >= 0,
            pixel == width * (pixel / width) + pixel % width,
            0 <= pixel % width < width,
    ;
}

/// The source pixel sampled for a drawn pixel lies inside the bitmap.
proof fn lemma_sample_in_bounds(source_x: int, source_y: int, width: int, height: int)
    requires
        0 <= source_x < width,
        0 <= source_y < height,
    ensures
        4 * (source_y * width + source_x) + 4 <= 4 * (width * height),
        0 <= source_y * width + source_x,
{
    assert(source_y * width + source_x + 1 <= width * height) by (nonlinear_arith)
        requires
            0 <= source_x < width,
            0 <= source_y < height,
    ;
    assert(0 <= source_y * width) by (nonlinear_arith)
        requires
            0 <= source_x < width,
            0 <= source_y,
    ;
}

/// Draw a bitmap onto a BGRA canvas of `canvas_width` by `canvas_height`
/// pixels, after filling it with the background colour.
///
/// Pixel offsets are computed in the canvas's coordinates, so a bitmap is
/// only drawn on a canvas whose size in bytes fits in `usize`; without a
/// bitmap, or on an empty canvas, the buffer is only filled.
///
/// `scaled_width` and `scaled_height` are the bitmap's size scaled to fit
/// the canvas, rounded to whole pixels; the drawn area is clamped to at
/// least one pixel and at most the canvas, and centred. Each drawn pixel
/// shows the nearest source pixel at or above and to the left of its
/// scaled position.
pub fn draw_bitmap_to_canvas(
    buffer: &mut [u8],
    canvas_width: u32,
    canvas_height: u32,
    bitmap: Option<&Bitmap>,
    scaled_width: u32,
    scaled_height: u32,
)
    requires
        bitmap is Some && canvas_width > 0 && canvas_height > 0 ==> 4 * (canvas_width as int
            * canvas_height as int) <= usize::MAX,
    ensures
        final(buffer)@ == drawn_canvas(
            old(buffer)@,
            canvas_width,
            canvas_height,
            match bitmap {
                Some(b) => Some(b@),
                None => None,
            },
            scaled_width,
            scaled_height,
        ),
{
    let ghost before = buffer@;
    let ghost image = match bitmap {
        Some(b) => Some(b@),
        None => None,
    };
    let ghost target = drawn_canvas(before, canvas_width, canvas_height, image, scaled_width, scaled_height);
    fill_canvas(buffer, [38u8, 40u8, 46u8, 255u8]);
    let ghost background = buffer@;
    let len: usize = buffer.len();
    let filled_len: usize = 4 * (len / 4);
    assert(forall|k: int| 0 <= k < 4 * (len / 4) ==> #[trigger] background[k] == background_byte(k % 4));
    let bitmap = match bitmap {
        Some(b) => b,
        None => {
            assert(buffer@ =~= target);
            return;
        },
    };
    let source_width: u32 = bitmap.width();
    let source_height: u32 = bitmap.height();
    assert(source_width > 0 && source_height > 0) by (nonlinear_arith)
        requires
            source_width as int * source_height as int > 0,
    ;
    if source_width == 0 || source_height == 0 || canvas_width == 0 || canvas_height == 0 {
        assert(buffer@ =~= target);
        return;
    }
    let mut draw_width: u32 = if scaled_width == 0 {
        1
    } else {
        scaled_width
    };
    if draw_width > canvas_width {
        draw_width = canvas_width;
    }
    let mut draw_height: u32 = if scaled_height == 0 {
        1
    } else {
        scaled_height
    };
    if draw_height > canvas_height {
        draw_height = canvas_height;
    }
    let offset_x: u32 = (canvas_width - draw_width) / 2;
    let offset_y: u32 = (canvas_height - draw_height) / 2;
    let ghost place = placement(canvas_width, canvas_height, scaled_width, scaled_height);
    let ghost img = bitmap@;
    let ghost cw = canvas_width as int;
    assert(place.draw_width == draw_width && place.draw_height == draw_height);
    assert(place.offset_x == offset_x && place.offset_y == offset_y);
    let source = bitmap.rgba();
    assert(source@.len() == 4 * (source_width as int * source_height as int));
    let mut y: u32 = 0;
    while y < draw_height
        invariant
            buffer@.len() == len,
            len == before.len(),
            filled_len == 4 * (len / 4),
            background.len() == len,
            forall|k: int| 0 <= k < filled_len ==> #[trigger] background[k] == background_byte(k % 4),
            forall|k: int| filled_len <= k < len ==> #[trigger] background[k] == before[k],
            image == Some(img),
            img == bitmap@,
            source@ == img.rgba,
            source_width == img.width,
            source_height == img.height,
            source_width > 0,
            source_height > 0,
            valid_layout(img.width, img.height, img.rgba.len() as int),
            canvas_width > 0,
            canvas_height > 0,
            cw == canvas_width as int,
            4 * (canvas_width as int * canvas_height as int) <= usize::MAX,
            place == placement(canvas_width, canvas_height, scaled_width, scaled_height),
            place.draw_width == draw_width,
            place.draw_height == draw_height,
            place.offset_x == offset_x,
            place.offset_y == offset_y,
            1 <= draw_width <= canvas_width,
            1 <= draw_height <= canvas_height,
            offset_x + draw_width <= canvas_width,
            offset_y + draw_height <= canvas_height,
            target == drawn_canvas(before, canvas_width, canvas_height, image, scaled_width, scaled_height),
            y <= draw_height,
            forall|k: int|
                0 <= k < len ==> #[trigger] buffer@[k] == if k < filled_len && ((k / 4) / cw
                    < offset_y + y || ((k / 4) / cw == offset_y + y && (k / 4) % cw < offset_x)) {
                    target[k]
                } else {
                    background[k]
                },
        decreases draw_height - y,
    {
        assert((y as int) * (source_height as int) <= 0xffff_ffff * 0xffff_ffff) by (nonlinear_arith)
            requires
                y <= 0xffff_ffff,
                source_height <= 0xffff_ffff,
        ;
        let scaled_y: u64 = (y as u64 * source_height as u64) / draw_height as u64;
        let source_y: usize = if scaled_y < (source_height - 1) as u64 {
            scaled_y as usize
        } else {
            (source_height - 1) as usize
        };
        assert(source_y == sample_index(y as int, draw_height as int, source_height as int));
        let mut x: u32 = 0;
        while x < draw_width
            invariant
                buffer@.len() == len,
                len == before.len(),
                filled_len == 4 * (len / 4),
                background.len() == len,
                forall|k: int| 0 <= k < filled_len ==> #[trigger] background[k] == background_byte(k % 4),
                forall|k: int| filled_len <= k < len ==> #[trigger] background[k] == before[k],
                image == Some(img),
                source@ == img.rgba,
                source_width == img.width,
                source_height == img.height,
                source_width > 0,
                source_height > 0,
                valid_layout(img.width, img.height, img.rgba.len() as int),
                canvas_width > 0,
                canvas_height > 0,
                cw == canvas_width as int,
                4 * (canvas_width as int * canvas_height as int) <= usize::MAX,
                place == placement(canvas_width, canvas_height, scaled_width, scaled_height),
                place.draw_width == draw_width,
                place.draw_height == draw_height,
                place.offset_x == offset_x,
                place.offset_y == offset_y,
                1 <= draw_width <= canvas_width,
                1 <= draw_height <= canvas_height,
                offset_x + draw_width <= canvas_width,
                offset_y + draw_height <= canvas_height,
                target == drawn_canvas(before, canvas_width, canvas_height, image, scaled_width, scaled_height),
                y < draw_height,
                source_y == sample_index(y as int, draw_height as int, source_height as int),
                source_y < source_height,
                x <= draw_width,
                forall|k: int|
                    0 <= k < len ==> #[trigger] buffer@[k] == if k < filled_len && ((k / 4) / cw
                        < offset_y + y || ((k / 4) / cw == offset_y + y && (k / 4) % cw < offset_x
                        + x)) {
                        target[k]
                    } else {
                        background[k]
                    },
            decreases draw_width - x,
        {
            assert((x as int) * (source_width as int) <= 0xffff_ffff * 0xffff_ffff) by (nonlinear_arith)
                requires
                    x <= 0xffff_ffff,
                    source_width <= 0xffff_ffff,
            ;
            let scaled_x: u64 = (x as u64 * source_width as u64) / draw_width as u64;
            let source_x: usize = if scaled_x < (source_width - 1) as u64 {
                scaled_x as usize
            } else {
                (source_width - 1) as usize
            };
            proof {
                lemma_sample_in_bounds(
                    source_x as int,
                    source_y as int,
                    source_width as int,
                    source_height as int,
                );
            }
            let source_offset: usize = (source_y * source_width as usize + source_x) * 4;
            let row: u32 = offset_y + y;
            let col: u32 = offset_x + x;
            proof {
                lemma_pixel_position(cw, row as int, col as int);
                assert((row as int) * cw + col < cw * (canvas_height as int)) by (nonlinear_arith)
                    requires
                        0 <= row < canvas_height,
                        0 <= col < cw,
                ;
                assert(0 <= (row as int) * cw) by (nonlinear_arith)
                    requires
                        0 <= row,
                        0 <= cw,
                ;
            }
            let pixel: u64 = row as u64 * canvas_width as u64 + col as u64;
            let destination_offset: usize = (pixel * 4) as usize;
            let ghost old_buffer = buffer@;
            if source_offset + 4 <= source.len() && destination_offset + 4 <= len {
                buffer[destination_offset] = source[source_offset + 2];
                buffer[destination_offset + 1] = source[source_offset + 1];
                buffer[destination_offset + 2] = source[source_offset];
                buffer[destination_offset + 3] = source[source_offset + 3];
            }
            proof {
                assert forall|k: int| 0 <= k < len implies #[trigger] buffer@[k] == if k < filled_len
                    && ((k / 4) / cw < offset_y + y || ((k / 4) / cw == offset_y + y && (k / 4)
                    % cw < offset_x + x + 1)) {
                    target[k]
                } else {
                    background[k]
                } by {
                    if k < filled_len {
                        lemma_pixel_from_position(cw, k / 4);
                        if k / 4 == pixel as int {
                            assert(destination_offset + 4 <= len);
                            assert(in_drawn_area(place, cw, k / 4));
                            assert(target[k] == sampled_byte(img, place, cw, k));
                        }
                    }
                }
            }
            x = x + 1;
        }
        y = y + 1;
    }
    proof {
        assert forall|k: int| 0 <= k < len implies #[trigger] buffer@[k] == target[k] by {
            if k < filled_len {
                lemma_pixel_from_position(cw, k / 4);
            }
        }
    }
    assert(buffer@ =~= target);
}

} // verus!
