//! The calls into `image` and `hayro`, each behind a trusted item whose
//! contract states what the crate's source shows of it.

use vstd::prelude::*;

use hayro::hayro_syntax::Pdf;

use crate::bitmap::MAX_BITMAP_PIXELS;

verus! {

/// `hayro_syntax::Pdf`, a parsed PDF file.
#[verifier::external_type_specification]
#[verifier::external_body]
pub struct ExPdf(Pdf);

/// What decoding a raster image (`decode_image`) makes of a byte buffer:
/// the width, height and RGBA8 bytes of the image, or the text (by
/// `Display`) of the error that `image` reports.
///
/// Whether decoding succeeds, the size, and the error text depend on the
/// bytes alone for every format. The pixels do for the formats that
/// `decodes_by_bytes_alone` lists; for the others (JPEG, TIFF, which may
/// hold JPEG data, Radiance HDR and DDS) the pixels of this value are left
/// unrelated to what the decoder gives, since the JPEG decoder picks its
/// transform and colour-conversion code by the processor's features.
pub uninterp spec fn decoded_raster(bytes: Seq<u8>) -> Result<(u32, u32, Seq<u8>), Seq<char>>;

/// The bytes of the PNG file that `image`'s PNG encoder writes for an
/// RGBA8 image of the given size and pixels.
pub uninterp spec fn png_encoding(width: u32, height: u32, rgba: Seq<u8>) -> Seq<u8>;

/// What `hayro_syntax::Pdf::new` makes of a byte buffer: the number of
/// pages of the parsed file (the length of what `Pdf::pages` gives), or
/// the text (by `Debug`) of the error that it reports.
pub uninterp spec fn parsed_pdf(bytes: Seq<u8>) -> Result<usize, Seq<char>>;

/// The bytes begin with the eight-byte PNG file signature.
pub open spec fn has_png_signature(bytes: Seq<u8>) -> bool {
    &&& bytes.len() >= 8
    &&& bytes[0] == 0x89u8
    &&& bytes[1] == 0x50u8
    &&& bytes[2] == 0x4eu8
    &&& bytes[3] == 0x47u8
    &&& bytes[4] == 0x0du8
    &&& bytes[5] == 0x0au8
    &&& bytes[6] == 0x1au8
    &&& bytes[7] == 0x0au8
}

/// The bytes begin with `signature`.
pub open spec fn starts_with(bytes: Seq<u8>, signature: Seq<u8>) -> bool {
    signature.len() <= bytes.len() && bytes.subrange(0, signature.len() as int) == signature
}

/// The bytes carry the signature by which `image::guess_format` picks a
/// format whose decoder gives pixels that depend on the bytes alone: PNG,
/// GIF, WebP, BMP, ICO (which holds PNG or BMP images), QOI, the PNM family
/// and farbfeld. No signature that `guess_format` tries before these can
/// match such bytes.
pub open spec fn decodes_by_bytes_alone(bytes: Seq<u8>) -> bool {
    ||| has_png_signature(bytes)
    ||| starts_with(bytes, seq![0x47u8, 0x49u8, 0x46u8, 0x38u8, 0x39u8, 0x61u8])
    ||| starts_with(bytes, seq![0x47u8, 0x49u8, 0x46u8, 0x38u8, 0x37u8, 0x61u8])
    ||| (starts_with(bytes, seq![0x52u8, 0x49u8, 0x46u8, 0x46u8]) && bytes.len() >= 12
        && bytes.subrange(8, 12) == seq![0x57u8, 0x45u8, 0x42u8, 0x50u8])
    ||| starts_with(bytes, seq![0x42u8, 0x4du8])
    ||| starts_with(bytes, seq![0x00u8, 0x00u8, 0x01u8, 0x00u8])
    ||| starts_with(bytes, seq![0x71u8, 0x6fu8, 0x69u8, 0x66u8])
    ||| (bytes.len() >= 2 && bytes[0] == 0x50u8 && 0x31u8 <= bytes[1] <= 0x37u8)
    ||| starts_with(bytes, seq![0x66u8, 0x61u8, 0x72u8, 0x62u8, 0x66u8, 0x65u8, 0x6cu8, 0x64u8])
}

/// Two decoding outcomes agree on everything but the pixels: both succeed
/// with the same size, or both fail with the same text.
pub open spec fn same_but_pixels(
    a: Result<(u32, u32, Seq<u8>), Seq<char>>,
    b: Result<(u32, u32, Seq<u8>), Seq<char>>,
) -> bool {
    match (a, b) {
        (Ok((wa, ha, _)), Ok((wb, hb, _))) => wa == wb && ha == hb,
        (Err(ta), Err(tb)) => ta == tb,
        _ => false,
    }
}

/// A decoded image holds four bytes per pixel.
pub open spec fn four_bytes_per_pixel(decoded: Result<(u32, u32, Seq<u8>), Seq<char>>) -> bool {
    match decoded {
        Ok((width, height, rgba)) => rgba.len() == 4 * (width as int * height as int),
        Err(_) => true,
    }
}

/// The outcome of decoding, as plain values.
pub open spec fn decoded_view(decoded: Result<(u32, u32, Vec<u8>), String>) -> Result<
    (u32, u32, Seq<u8>),
    Seq<char>,
> {
    match decoded {
        Ok((width, height, rgba)) => Ok((width, height, rgba@)),
        Err(text) => Err(text@),
    }
}

/// Decodes an image the way `image::load_from_memory` does, without the
/// process-wide format hooks: `image::guess_format` picks a built-in format
/// from the leading bytes, `image::load_from_memory_with_format` decodes
/// with it under `image`'s fixed default limits, `into_rgba8` converts the
/// pixels, and an error is formatted with `Display`.
///
/// The contract claims that whether decoding succeeds, the size and the
/// error text depend on the bytes alone (decoders fail or succeed while
/// parsing, under fixed limits); that the pixels do as well for the formats
/// of `decodes_by_bytes_alone`, whose decoders select no code by the
/// processor's features; and that the pixels come as four bytes each
/// (`into_rgba8` gives the decoder's exact RGBA8 buffer or a converted copy
/// of the image's size).
#[verifier::external_body]
pub(crate) fn decode_image(bytes: &[u8]) -> (decoded: Result<(u32, u32, Vec<u8>), String>)
    ensures
        same_but_pixels(decoded_view(decoded), decoded_raster(bytes@)),
        four_bytes_per_pixel(decoded_view(decoded)),
        decodes_by_bytes_alone(bytes@) ==> decoded_raster(bytes@) == decoded_view(decoded),
{
    let format = image::guess_format(bytes).map_err(|error| format!("{error}"))?;
    match image::load_from_memory_with_format(bytes, format) {
        Ok(image) => {
            let image = image.into_rgba8();
            let (width, height) = image.dimensions();
            Ok((width, height, image.into_raw()))
        },
        Err(error) => Err(format!("{error}")),
    }
}

/// Calls `image::write_buffer_with_format` with `ImageFormat::Png` and
/// `ExtendedColorType::Rgba8` on an in-memory writer, which is what
/// `ImageBuffer::save_with_format` does on a file. The PNG encoder panics
/// unless the buffer holds exactly four bytes per pixel, which `requires`
/// rules out.
///
/// The contract claims that the bytes written depend on the image alone;
/// that encoding succeeds for an image of at least one pixel each way (the
/// `png` writer refuses only a zero width or height for RGBA8, and writing
/// to memory does not fail); that the output begins with the PNG signature;
/// and that decoding it again as a PNG file gives back the image,
/// for images that fit `MAX_BITMAP_PIXELS`, whose decoded buffer stays
/// inside `image`'s default allocation limit of 512 MiB.
#[verifier::external_body]
pub(crate) fn encode_png_rgba8(width: u32, height: u32, rgba: &[u8]) -> (encoded: Result<
    Vec<u8>,
    String,
>)
    requires
        rgba@.len() == 4 * (width as int * height as int),
    ensures
        width >= 1 && height >= 1 ==> encoded is Ok,
        encoded matches Ok(bytes) ==> {
            &&& bytes@ == png_encoding(width, height, rgba@)
            &&& has_png_signature(bytes@)
            &&& width as int * height as int <= MAX_BITMAP_PIXELS ==> decoded_raster(bytes@)
                == Ok::<(u32, u32, Seq<u8>), Seq<char>>((width, height, rgba@))
        },
{
    let mut writer = std::io::Cursor::new(Vec::new());
    match image::write_buffer_with_format(
        &mut writer,
        rgba,
        width,
        height,
        image::ExtendedColorType::Rgba8,
        image::ImageFormat::Png,
    ) {
        Ok(()) => Ok(writer.into_inner()),
        Err(error) => Err(format!("{error}")),
    }
}

/// Calls `hayro_syntax::Pdf::new`, which parses a PDF file and resolves its
/// page tree, reads the number of pages as the length of `Pdf::pages`, and
/// formats an error with `Debug`. The contract claims that the outcome
/// depends on the bytes alone; the parsed document is opaque.
#[verifier::external_body]
pub(crate) fn parse_pdf(bytes: Vec<u8>) -> (parsed: Result<(Pdf, usize), String>)
    ensures
        match parsed {
            Ok((_, count)) => parsed_pdf(bytes@) == Ok::<usize, Seq<char>>(count),
            Err(text) => parsed_pdf(bytes@) == Err::<usize, Seq<char>>(text@),
        },
{
    match Pdf::new(bytes) {
        Ok(pdf) => {
            let count: usize = pdf.pages().len();
            Ok((pdf, count))
        },
        Err(error) => Err(format!("{error:?}")),
    }
}

} // verus!
