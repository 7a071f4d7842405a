use vstd::prelude::*;

use crate::codec::{decoded_raster, encode_png_rgba8, has_png_signature, png_encoding};
use crate::error::DocumentError;

verus! {

/// Largest number of pixels that a bitmap may hold.
pub const MAX_BITMAP_PIXELS: u64 = 64 * 1024 * 1024;

/// What a bitmap holds: its size in pixels and its row-major RGBA8 bytes.
pub struct BitmapModel {
    pub width: u32,
    pub height: u32,
    pub rgba: Seq<u8>,
}

/// Why a bitmap of `width` by `height` pixels over a buffer of `len`
/// bytes is refused, or `None` when it is accepted.
pub open spec fn layout_error(width: u32, height: u32, len: int) -> Option<Seq<char>> {
    let pixels = width as int * height as int;
    if pixels == 0 {
        Some("bitmap dimensions must be non-zero"@)
    } else if pixels > MAX_BITMAP_PIXELS {
        Some("bitmap is too large to display"@)
    } else if len != 4 * pixels {
        Some("bitmap buffer has an invalid length"@)
    } else {
        None
    }
}

/// A bitmap of `width` by `height` pixels over `len` bytes is accepted.
pub open spec fn valid_layout(width: u32, height: u32, len: int) -> bool {
    layout_error(width, height, len) is None
}

/// The 32-bit word of one pixel: alpha in the top byte, then red, green,
/// and blue in the lowest byte.
pub open spec fn bgra_word(red: u8, green: u8, blue: u8, alpha: u8) -> int {
    alpha as int * 0x100_0000 + red as int * 0x1_0000 + green as int * 0x100 + blue as int
}

/// The words of all complete pixels of a packed RGBA8 buffer.
pub open spec fn bgra_words(rgba: Seq<u8>) -> Seq<u32> {
    Seq::new(
        (rgba.len() / 4) as nat,
        |i: int| bgra_word(rgba[4 * i], rgba[4 * i + 1], rgba[4 * i + 2], rgba[4 * i + 3]) as u32,
    )
}

/// A decoded, row-major RGBA8 bitmap.
#[derive(Debug)]
pub struct Bitmap {
    width: u32,
    height: u32,
    rgba: Vec<u8>,
}

impl View for Bitmap {
    type V = BitmapModel;

    closed spec fn view(&self) -> BitmapModel {
        BitmapModel { width: self.width, height: self.height, rgba: self.rgba@ }
    }
}

proof fn lemma_pixel_count_fits(width: u32, height: u32)
    ensures
        width as int * height as int <= 0xffff_fffe_0000_0001,
        0 <= width as int * height as int,
{
    assert(width as int * height as int <= 0xffff_ffff * 0xffff_ffff) by (nonlinear_arith)
        requires
            width <= 0xffff_ffff,
            height <= 0xffff_ffff,
    ;
    assert(0 <= width as int * height as int) by (nonlinear_arith);
}

proof fn lemma_positive_sides(width: u32, height: u32)
    requires
        width as int * height as int > 0,
    ensures
        width >= 1,
        height >= 1,
{
    assert(width >= 1 && height >= 1) by (nonlinear_arith)
        requires
            width as int * height as int > 0,
    ;
}

proof fn lemma_pack_pixel(red: u8, green: u8, blue: u8, alpha: u8)
    by (bit_vector)
    ensures
        ((alpha as u32) << 24u32) | ((red as u32) << 16u32) | ((green as u32) << 8u32) | (blue as u32)
            == (alpha as u32) * 0x100_0000u32 + (red as u32) * 0x1_0000u32 + (green as u32) * 0x100u32
            + (blue as u32),
{
}

fn pack_pixel(red: u8, green: u8, blue: u8, alpha: u8) -> (word: u32)
    ensures
        word as int == bgra_word(red, green, blue, alpha),
{
    proof {
        lemma_pack_pixel(red, green, blue, alpha);
    }
    ((alpha as u32) << 24u32) | ((red as u32) << 16u32) | ((green as u32) << 8u32) | (blue as u32)
}

impl Clone for Bitmap {
    fn clone(&self) -> (copy: Self)
        ensures
            copy@ == self@,
    {
        proof {
            use_type_invariant(self);
        }
        let rgba = self.rgba.clone();
        assert(rgba@ =~= self.rgba@);
        Bitmap { width: self.width, height: self.height, rgba }
    }
}

impl Bitmap {
    #[verifier::type_invariant]
    closed spec fn layout_is_valid(&self) -> bool {
        valid_layout(self.width, self.height, self.rgba@.len() as int)
    }

    /// Construct a bitmap from tightly packed RGBA8 pixels.
    ///
    /// The bitmap is accepted exactly when it has at least one pixel, at most
    /// `MAX_BITMAP_PIXELS` pixels, and four bytes per pixel.
    pub fn from_rgba(width: u32, height: u32, rgba: Vec<u8>) -> (result: Result<Bitmap, DocumentError>)
        ensures
            result is Ok <==> valid_layout(width, height, rgba@.len() as int),
            result matches Ok(bitmap) ==> bitmap@ == (BitmapModel { width, height, rgba: rgba@ }),
            result matches Err(error) ==> Some(error@) == layout_error(width, height, rgba@.len() as int),
    {
        proof {
            lemma_pixel_count_fits(width, height);
        }
        let pixel_count: u64 = width as u64 * height as u64;
        if pixel_count == 0 {
            return Err(DocumentError::from_text("bitmap dimensions must be non-zero"));
        }
        if pixel_count > MAX_BITMAP_PIXELS {
            return Err(DocumentError::from_text("bitmap is too large to display"));
        }
        let expected_len: usize = (pixel_count * 4) as usize;
        if rgba.len() != expected_len {
            return Err(DocumentError::from_text("bitmap buffer has an invalid length"));
        }
        Ok(Bitmap { width, height, rgba })
    }

    /// Return the bitmap width in pixels.
    pub fn width(&self) -> (width: u32)
        ensures
            width == self@.width,
            valid_layout(self@.width, self@.height, self@.rgba.len() as int),
    {
        proof {
            use_type_invariant(self);
        }
        self.width
    }

    /// Return the bitmap height in pixels.
    pub fn height(&self) -> (height: u32)
        ensures
            height == self@.height,
            valid_layout(self@.width, self@.height, self@.rgba.len() as int),
    {
        proof {
            use_type_invariant(self);
        }
        self.height
    }

    /// Return the packed RGBA8 pixels.
    pub fn rgba(&self) -> (pixels: &[u8])
        ensures
            pixels@ == self@.rgba,
            valid_layout(self@.width, self@.height, self@.rgba.len() as int),
    {
        proof {
            use_type_invariant(self);
        }
        self.rgba.as_slice()
    }

    /// Encode the bitmap as a PNG file. Encoding a bitmap always succeeds,
    /// and decoding the file gives the bitmap back.
    pub fn encode_png(&self) -> (png: Result<Vec<u8>, DocumentError>)
        ensures
            png is Ok,
            png matches Ok(bytes) ==> {
                &&& bytes@ == png_encoding(self@.width, self@.height, self@.rgba)
                &&& has_png_signature(bytes@)
                &&& decoded_raster(bytes@) == Ok::<(u32, u32, Seq<u8>), Seq<char>>(
                    (self@.width, self@.height, self@.rgba),
                )
            },
    {
        proof {
            use_type_invariant(self);
            lemma_positive_sides(self.width, self.height);
        }
        match encode_png_rgba8(self.width, self.height, self.rgba.as_slice()) {
            Ok(bytes) => Ok(bytes),
            Err(detail) => Err(DocumentError::with_detail("could not save PNG: ", detail.as_str())),
        }
    }

    /// Convert the bitmap to 32-bit BGRA words, one per pixel.
    ///
    /// In native little-endian byte order byte 0 of a word is blue, byte 1
    /// green, byte 2 red and byte 3 alpha.
    pub fn to_bgra_words(&self) -> (words: Vec<u32>)
        ensures
            words@ == bgra_words(self@.rgba),
            words@.len() == self@.width as int * self@.height as int,
    {
        proof {
            use_type_invariant(self);
        }
        let len: usize = self.rgba.len();
        let count: usize = len / 4;
        let mut words: Vec<u32> = Vec::with_capacity(count);
        let mut i: usize = 0;
        while i < count
            invariant
                len == self.rgba@.len(),
                count == len / 4,
                i <= count,
                words@ == bgra_words(self.rgba@).take(i as int),
            decreases count - i,
        {
            assert(4 * i + 3 < self.rgba@.len());
            let base: usize = 4 * i;
            let word = pack_pixel(
                self.rgba[base],
                self.rgba[base + 1],
                self.rgba[base + 2],
                self.rgba[base + 3],
            );
            words.push(word);
            i = i + 1;
            assert(words@ =~= bgra_words(self.rgba@).take(i as int));
        }
        assert(words@ =~= bgra_words(self.rgba@));
        words
    }
}

/// The little-endian bytes of a pixel word are blue, green, red and alpha.
pub proof fn lemma_bgra_word_bytes(red: u8, green: u8, blue: u8, alpha: u8)
    ensures
        bgra_word(red, green, blue, alpha) % 0x100 == blue,
        bgra_word(red, green, blue, alpha) / 0x100 % 0x100 == green,
        bgra_word(red, green, blue, alpha) / 0x1_0000 % 0x100 == red,
        bgra_word(red, green, blue, alpha) / 0x100_0000 == alpha,
        bgra_word(red, green, blue, alpha) < 0x1_0000_0000,
{
    lemma_word_bytes(red, green, blue, alpha);
}

proof fn lemma_word_bytes(red: u8, green: u8, blue: u8, alpha: u8)
    by (bit_vector)
    ensures
        ((alpha as u32) * 0x100_0000u32 + (red as u32) * 0x1_0000u32 + (green as u32) * 0x100u32
            + (blue as u32)) % 0x100 == blue as u32,
        ((alpha as u32) * 0x100_0000u32 + (red as u32) * 0x1_0000u32 + (green as u32) * 0x100u32
            + (blue as u32)) / 0x100 % 0x100 == green as u32,
        ((alpha as u32) * 0x100_0000u32 + (red as u32) * 0x1_0000u32 + (green as u32) * 0x100u32
            + (blue as u32)) / 0x1_0000 % 0x100 == red as u32,
        ((alpha as u32) * 0x100_0000u32 + (red as u32) * 0x1_0000u32 + (green as u32) * 0x100u32
            + (blue as u32)) / 0x100_0000 == alpha as u32,
        ((alpha as u32) * 0x100_0000u32 + (red as u32) * 0x1_0000u32 + (green as u32) * 0x100u32
            + (blue as u32)) < 0x1_0000_0000,
{
}

} // verus!
