//! Wallet card artwork as RGBA pixel buffers, and the PNG files written for
//! a card skin.

use vstd::prelude::*;
use image::codecs::png::{CompressionType, FilterType as PngFilter, PngEncoder};
use image::{DynamicImage, ImageEncoder, ImageFormat, RgbaImage, imageops::FilterType};

verus! {

/// Width of the `@3x` card artwork.
pub const CARD_WIDTH: u32 = 1536;
/// Height of the `@3x` card artwork.
pub const CARD_HEIGHT: u32 = 969;
/// Width of the `@2x` card artwork.
pub const CARD_WIDTH_2X: u32 = 1024;
/// Height of the `@2x` card artwork.
pub const CARD_HEIGHT_2X: u32 = 646;
/// Width of the on-screen preview.
pub const PREVIEW_WIDTH: u32 = 768;
/// Height of the on-screen preview.
pub const PREVIEW_HEIGHT: u32 = 485;

/// Why an image step failed.
#[derive(Clone, Copy, PartialEq, Eq, Structural, Debug)]
pub enum ImageFailure {
    /// The bytes are not an image that could be decoded.
    Decode,
    /// The pixels could not be encoded as PNG.
    Encode,
}

/// An 8-bit RGBA image: `width * height` pixels, row by row, four bytes each.
pub struct RgbaBuffer {
    width: u32,
    height: u32,
    pixels: Vec<u8>,
}

impl RgbaBuffer {
    #[verifier::type_invariant]
    spec fn inv(self) -> bool {
        self.pixels@.len() == self.width * self.height * 4
    }

    /// The width in pixels.
    pub closed spec fn spec_width(self) -> u32 {
        self.width
    }

    /// The height in pixels.
    pub closed spec fn spec_height(self) -> u32 {
        self.height
    }

    /// The pixel bytes, row by row, R G B A per pixel.
    pub closed spec fn spec_pixels(self) -> Seq<u8> {
        self.pixels@
    }

    /// An image of the given size holding `pixels`; `None` unless there are
    /// exactly four bytes per pixel.
    pub fn from_raw(width: u32, height: u32, pixels: Vec<u8>) -> (r: Option<RgbaBuffer>)
        ensures
            match r {
                Some(img) => pixels@.len() == width * height * 4 && img.spec_width() == width
                    && img.spec_height() == height && img.spec_pixels() == pixels@,
                None => pixels@.len() != width * height * 4,
            },
    {
        assert((width as int) * (height as int) <= 0xffff_ffff * 0xffff_ffff) by (nonlinear_arith)
            requires
                width <= 0xffff_ffff,
                height <= 0xffff_ffff,
        ;
        let needed: u128 = (width as u128) * (height as u128) * 4;
        if (pixels.len() as u128) == needed {
            Some(RgbaBuffer { width, height, pixels })
        } else {
            None
        }
    }

    /// The width in pixels.
    pub fn width(&self) -> (r: u32)
        ensures
            r == self.spec_width(),
    {
        self.width
    }

    /// The height in pixels.
    pub fn height(&self) -> (r: u32)
        ensures
            r == self.spec_height(),
    {
        self.height
    }

    /// The pixel bytes.
    pub fn pixels(&self) -> (r: &Vec<u8>)
        ensures
            r@ == self.spec_pixels(),
            r@.len() == self.spec_width() * self.spec_height() * 4,
    {
        proof {
            use_type_invariant(self);
        }
        &self.pixels
    }
}

/// The eight bytes every PNG file begins with.
pub open spec fn png_signature() -> Seq<u8> {
    seq![137u8, 80, 78, 71, 13, 10, 26, 10]
}

/// The PNG file that `image`'s `PngEncoder`, set to fast compression and
/// adaptive filtering, writes for an RGBA image.
pub uninterp spec fn fast_png_encoding(width: u32, height: u32, pixels: Seq<u8>) -> Seq<u8>;

/// The PNG file that `image`'s `DynamicImage::write_to` writes for an RGBA
/// image with its default PNG settings.
pub uninterp spec fn default_png_encoding(width: u32, height: u32, pixels: Seq<u8>) -> Seq<u8>;

/// What `image::load_from_memory` followed by `to_rgba8` gives for a PNG
/// file `bytes`: the size and RGBA pixels of the decoded image, or `None`
/// when it fails. Only PNG files (lossless, decoded the same way on every
/// machine) are named.
pub uninterp spec fn decoded_rgba(bytes: Seq<u8>) -> Option<(u32, u32, Seq<u8>)>;

/// `bytes` begins with the PNG signature.
pub open spec fn is_png_file(bytes: Seq<u8>) -> bool {
    bytes.len() >= 8 && bytes.subrange(0, 8) == png_signature()
}

/// Encodes RGBA pixels as PNG with `PngEncoder::new_with_quality` (fast
/// compression, adaptive filter) and `ImageEncoder::write_image`. Trusted:
/// the file is the named encoding of the pixels and begins with the PNG
/// signature; it succeeds exactly when the image has rows and columns. The
/// `png` encoder's header check refuses only a zero width or height, and
/// writing RGBA8 data of the right length into a `Vec` has no other failure.
#[verifier::external_body]
fn encode_png_fast(width: u32, height: u32, pixels: &Vec<u8>) -> (r: Result<Vec<u8>, ImageFailure>)
    requires
        pixels@.len() == width * height * 4,
    ensures
        r is Ok <==> (width > 0 && height > 0),
        match r {
            Ok(png) => png@ == fast_png_encoding(width, height, pixels@) && is_png_file(png@),
            Err(e) => e == ImageFailure::Encode,
        },
{
    let mut png = Vec::new();
    let encoder = PngEncoder::new_with_quality(&mut png, CompressionType::Fast, PngFilter::Adaptive);
    match encoder.write_image(pixels, width, height, image::ExtendedColorType::Rgba8) {
        Ok(()) => Ok(png),
        Err(_) => Err(ImageFailure::Encode),
    }
}

/// Encodes an RGBA image as PNG with `DynamicImage::write_to` and
/// `ImageFormat::Png`, which uses `PngEncoder` with its default settings.
/// Trusted as `encode_png_fast` is: the named encoding, beginning with the
/// PNG signature, and success exactly when the image has rows and columns.
#[verifier::external_body]
fn encode_png_default(width: u32, height: u32, pixels: &Vec<u8>) -> (r: Result<Vec<u8>, ImageFailure>)
    requires
        pixels@.len() == width * height * 4,
    ensures
        r is Ok <==> (width > 0 && height > 0),
        match r {
            Ok(png) => png@ == default_png_encoding(width, height, pixels@) && is_png_file(png@),
            Err(e) => e == ImageFailure::Encode,
        },
{
    let img = RgbaImage::from_raw(width, height, pixels.clone()).unwrap();
    let mut png = Vec::new();
    match DynamicImage::ImageRgba8(img).write_to(&mut std::io::Cursor::new(&mut png), ImageFormat::Png) {
        Ok(()) => Ok(png),
        Err(_) => Err(ImageFailure::Encode),
    }
}

/// Channel `ch` (0 to 3) is `v` in each of the `n` RGBA pixels of `pixels`.
pub open spec fn channel_is(pixels: Seq<u8>, n: int, ch: int, v: u8) -> bool {
    forall|i: int| 0 <= i < n ==> #[trigger] pixels[4 * i + ch] == v
}

/// Each channel that has one value in all `n` pixels of `src` has that
/// value in all `m` pixels of `dst`: a flat colour stays that colour.
pub open spec fn keeps_flat_channels(src: Seq<u8>, n: int, dst: Seq<u8>, m: int) -> bool {
    forall|ch: int, v: u8| 0 <= ch < 4 && #[trigger] channel_is(src, n, ch, v) ==> channel_is(dst, m, ch, v)
}

/// Resizes an RGBA image with `DynamicImage::resize_exact` and the Lanczos3
/// filter. Trusted: four bytes per pixel of the new size; to the same size
/// the pixels are copied (`imageops::resize` returns a copy then); and a
/// channel with one value everywhere keeps that value, because each output
/// sample is a sum of input samples with weights divided by their sum, then
/// rounded to the nearest integer. Which other pixels come out is left
/// unsaid: the kernel uses `f32::sin`, whose precision std does not fix, so
/// two runs need not give the same bytes.
#[verifier::external_body]
fn resize_lanczos(width: u32, height: u32, pixels: &Vec<u8>, new_width: u32, new_height: u32) -> (r: Vec<u8>)
    requires
        pixels@.len() == width * height * 4,
        width > 0,
        height > 0,
        new_width > 0,
        new_height > 0,
    ensures
        r@.len() == new_width * new_height * 4,
        new_width == width && new_height == height ==> r@ == pixels@,
        keeps_flat_channels(pixels@, width * height, r@, new_width * new_height),
{
    let img = RgbaImage::from_raw(width, height, pixels.clone()).unwrap();
    DynamicImage::ImageRgba8(img).resize_exact(new_width, new_height, FilterType::Lanczos3).to_rgba8().into_raw()
}

/// Decodes an image file with `image::load_from_memory` and converts it
/// with `to_rgba8`. Trusted: four bytes per pixel, and for a file that
/// begins with the PNG signature (which `image` decodes as PNG) the answer
/// is the named decoding. For other formats the pixels are not tied to the
/// file: the JPEG decoder picks SIMD or scalar code on the running machine.
#[verifier::external_body]
fn decode_rgba(bytes: &[u8]) -> (r: Result<(u32, u32, Vec<u8>), ImageFailure>)
    ensures
        match r {
            Ok(img) => img.2@.len() == img.0 * img.1 * 4 && (is_png_file(bytes@) ==> decoded_rgba(
                bytes@,
            ) == Some((img.0, img.1, img.2@))),
            Err(e) => e == ImageFailure::Decode && (is_png_file(bytes@) ==> decoded_rgba(bytes@) is None),
        },
{
    match image::load_from_memory(bytes) {
        Ok(img) => {
            let rgba = img.to_rgba8();
            Ok((rgba.width(), rgba.height(), rgba.into_raw()))
        },
        Err(_) => Err(ImageFailure::Decode),
    }
}

/// A 300 by 300 key button encoded as PNG with the default settings.
pub fn encode_button_png(pixels: &Vec<u8>) -> (r: Result<Vec<u8>, ImageFailure>)
    requires
        pixels@.len() == 360000,
    ensures
        r matches Ok(png) && png@ == default_png_encoding(300, 300, pixels@) && is_png_file(png@),
{
    encode_png_default(300, 300, pixels)
}

/// The two PNG files of a card skin framed at `@3x` size, both with fast
/// compression: the `@3x` file encodes `rgba` itself, the `@2x` file
/// encodes a `CARD_WIDTH_2X` by `CARD_HEIGHT_2X` Lanczos3 resize of it, in
/// which every channel that is flat in `rgba` keeps its value (so a card of
/// one colour gives an `@2x` of that colour); its other pixels are not
/// stated.
pub fn encode_wallet_pngs(rgba: &RgbaBuffer) -> (r: Result<(Vec<u8>, Vec<u8>), ImageFailure>)
    ensures
        r matches Ok(pngs) ==> {
            &&& pngs.0@ == fast_png_encoding(rgba.spec_width(), rgba.spec_height(), rgba.spec_pixels())
            &&& exists|p: Seq<u8>|
                p.len() == CARD_WIDTH_2X * CARD_HEIGHT_2X * 4 && pngs.1@ == #[trigger] fast_png_encoding(
                    CARD_WIDTH_2X,
                    CARD_HEIGHT_2X,
                    p,
                ) && keeps_flat_channels(
                    rgba.spec_pixels(),
                    rgba.spec_width() * rgba.spec_height(),
                    p,
                    CARD_WIDTH_2X * CARD_HEIGHT_2X,
                )
            &&& is_png_file(pngs.0@)
            &&& is_png_file(pngs.1@)
        },
        r is Ok <==> (rgba.spec_width() > 0 && rgba.spec_height() > 0),
        r matches Err(e) ==> e == ImageFailure::Encode,
{
    let w = rgba.width();
    let h = rgba.height();
    let pixels = rgba.pixels();
    let png = match encode_png_fast(w, h, pixels) {
        Ok(p) => p,
        Err(e) => return Err(e),
    };
    let small = resize_lanczos(w, h, pixels, CARD_WIDTH_2X, CARD_HEIGHT_2X);
    assert(small@.len() == CARD_WIDTH_2X * CARD_HEIGHT_2X * 4);
    let png_2x = match encode_png_fast(CARD_WIDTH_2X, CARD_HEIGHT_2X, &small) {
        Ok(p) => p,
        Err(e) => return Err(e),
    };
    assert(png_2x@ == fast_png_encoding(CARD_WIDTH_2X, CARD_HEIGHT_2X, small@));
    Ok((png, png_2x))
}

/// The `@2x` PNG of a card from its `@3x` PNG: decoded, resized with Lanczos3
/// to `CARD_WIDTH_2X` by `CARD_HEIGHT_2X`, and encoded with the default PNG
/// settings. A file that does not decode, or decodes to an image with no
/// rows or columns, is refused as `Decode`; every other file gives a
/// `CARD_WIDTH_2X` by `CARD_HEIGHT_2X` PNG. For a PNG file, when it is
/// refused is stated exactly; the resized pixels are not stated.
pub fn png_2x_from_3x(png_3x: &[u8]) -> (r: Result<Vec<u8>, ImageFailure>)
    ensures
        is_png_file(png_3x@) ==> match decoded_rgba(png_3x@) {
            Some(img) => if img.0 > 0 && img.1 > 0 {
                r matches Ok(png) && exists|p: Seq<u8>|
                    p.len() == CARD_WIDTH_2X * CARD_HEIGHT_2X * 4 && png@ == #[trigger] default_png_encoding(
                        CARD_WIDTH_2X,
                        CARD_HEIGHT_2X,
                        p,
                    ) && keeps_flat_channels(img.2, img.0 * img.1, p, CARD_WIDTH_2X * CARD_HEIGHT_2X)
            } else {
                r == Err::<Vec<u8>, ImageFailure>(ImageFailure::Decode)
            },
            None => r == Err::<Vec<u8>, ImageFailure>(ImageFailure::Decode),
        },
        r matches Ok(png) ==> is_png_file(png@) && exists|p: Seq<u8>|
            p.len() == CARD_WIDTH_2X * CARD_HEIGHT_2X * 4 && png@ == #[trigger] default_png_encoding(
                CARD_WIDTH_2X,
                CARD_HEIGHT_2X,
                p,
            ),
        r matches Err(e) ==> e == ImageFailure::Decode,
{
    let (w, h, pixels) = match decode_rgba(png_3x) {
        Ok(img) => img,
        Err(e) => return Err(e),
    };
    if w == 0 || h == 0 {
        return Err(ImageFailure::Decode);
    }
    let small = resize_lanczos(w, h, &pixels, CARD_WIDTH_2X, CARD_HEIGHT_2X);
    let png = match encode_png_default(CARD_WIDTH_2X, CARD_HEIGHT_2X, &small) {
        Ok(p) => p,
        Err(e) => return Err(e),
    };
    assert(png@ == default_png_encoding(CARD_WIDTH_2X, CARD_HEIGHT_2X, small@));
    Ok(png)
}

} // verus!
