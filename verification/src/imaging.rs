//! The image-producing flows.
//!
//! The clear flow asks the accelerator to fill a two-dimensional image with
//! the fixed clear colour and copies it into a byte buffer; the fractal and
//! triangle flows render into an image of the same format and copy it out
//! the same way.  The buffer holds the pixels row by row, four bytes per
//! pixel: red, green, blue, alpha.  The clear is modelled here exactly; the
//! read-back checks and the encoding of the buffer as a PNG file's bytes are
//! verified against that layout, and only the final file write stays with
//! the shell.

use vstd::prelude::*;

use vstd::arithmetic::div_mod::{lemma_fundamental_div_mod, lemma_mod_bound};

verus! {

/// The red byte of the fixed clear colour: component 0.0 of the clear value,
/// in the image format's 8-bit encoding of the range zero to one.
pub const CLEAR_RED: u8 = 0;

/// The green byte of the fixed clear colour: component 0.0.
pub const CLEAR_GREEN: u8 = 0;

/// The blue byte of the fixed clear colour: component 1.0, encoded as 255.
pub const CLEAR_BLUE: u8 = 255;

/// The alpha byte of the fixed clear colour: component 1.0, encoded as 255.
pub const CLEAR_ALPHA: u8 = 255;

/// The alpha byte of a fully opaque pixel.
pub const OPAQUE_ALPHA: u8 = 255;

/// The red byte of the triangle flow's fill colour: the fragment shader's
/// constant component 0.99, in the image format's 8-bit encoding.
pub const FILL_RED: u8 = 252;

/// The green byte of the triangle flow's fill colour: component 0.82.
pub const FILL_GREEN: u8 = 209;

/// The blue byte of the triangle flow's fill colour: component 0.63.
pub const FILL_BLUE: u8 = 161;

/// The alpha byte of the triangle flow's fill colour: component 1.0.
pub const FILL_ALPHA: u8 = 255;

/// The byte length of a width-by-height image in the four-byte-per-pixel
/// layout.
pub open spec fn rgba_len(width: u32, height: u32) -> int {
    4 * (width as int) * (height as int)
}

/// Whether pixel `p` of `bytes` holds the fixed clear colour.
pub open spec fn is_clear_pixel(bytes: Seq<u8>, p: int) -> bool {
    &&& bytes[4 * p] == CLEAR_RED
    &&& bytes[4 * p + 1] == CLEAR_GREEN
    &&& bytes[4 * p + 2] == CLEAR_BLUE
    &&& bytes[4 * p + 3] == CLEAR_ALPHA
}

/// Whether every pixel of `bytes` holds the fixed clear colour.
pub open spec fn all_clear(bytes: Seq<u8>) -> bool {
    forall|p: int| 0 <= p && 4 * p + 3 < bytes.len() ==> #[trigger] is_clear_pixel(bytes, p)
}

/// Whether every pixel of `bytes` is fully opaque.
pub open spec fn alpha_opaque(bytes: Seq<u8>) -> bool {
    forall|p: int| 0 <= p && 4 * p + 3 < bytes.len() ==> #[trigger] bytes[4 * p + 3]
        == OPAQUE_ALPHA
}

/// The image buffer as the clear flow's command leaves it: a width-by-height
/// image whose every pixel holds the fixed clear colour.
pub fn clear_pixels(width: u32, height: u32) -> (r: Vec<u8>)
    requires
        rgba_len(width, height) <= usize::MAX,
    ensures
        r@.len() == rgba_len(width, height),
        all_clear(r@),
        alpha_opaque(r@),
{
    proof {
        assert((width as int) * (height as int) <= usize::MAX && 4 * ((width as int) * (
        height as int)) == 4 * (width as int) * (height as int)) by (nonlinear_arith)
            requires
                4 * (width as int) * (height as int) <= usize::MAX,
        ;
    }
    let pixels: usize = (width as usize) * (height as usize);
    let mut r: Vec<u8> = Vec::new();
    let mut p: usize = 0;
    while p < pixels
        invariant
            4 * (pixels as int) <= usize::MAX,
            p <= pixels,
            r@.len() == 4 * p,
            forall|q: int| 0 <= q < p ==> #[trigger] is_clear_pixel(r@, q),
        decreases pixels - p,
    {
        let ghost prefix = r@;
        r.push(CLEAR_RED);
        r.push(CLEAR_GREEN);
        r.push(CLEAR_BLUE);
        r.push(CLEAR_ALPHA);
        p = p + 1;
        proof {
            assert(r@ =~= prefix + seq![CLEAR_RED, CLEAR_GREEN, CLEAR_BLUE, CLEAR_ALPHA]);
            assert forall|q: int| 0 <= q < p implies #[trigger] is_clear_pixel(r@, q) by {
                if q < p - 1 {
                    assert(is_clear_pixel(prefix, q));
                    assert(r@[4 * q] == prefix[4 * q]);
                    assert(r@[4 * q + 1] == prefix[4 * q + 1]);
                    assert(r@[4 * q + 2] == prefix[4 * q + 2]);
                    assert(r@[4 * q + 3] == prefix[4 * q + 3]);
                } else {
                    assert(4 * q == prefix.len());
                    assert(r@[4 * q] == CLEAR_RED);
                    assert(r@[4 * q + 1] == CLEAR_GREEN);
                    assert(r@[4 * q + 2] == CLEAR_BLUE);
                    assert(r@[4 * q + 3] == CLEAR_ALPHA);
                }
            }
        }
    }
    proof {
        lemma_clear_is_opaque(r@);
    }
    r
}

/// Whether `bytes` has exactly the length of a width-by-height image: the
/// condition under which the buffer is an image of the requested dimensions.
pub fn rgba_len_matches(width: u32, height: u32, bytes: &Vec<u8>) -> (r: bool)
    ensures
        r <==> bytes@.len() == rgba_len(width, height),
{
    proof {
        assert(4 * (width as int) * (height as int) <= u128::MAX) by (nonlinear_arith)
            requires
                0 <= (width as int),
                (width as int) < 0x1_0000_0000,
                0 <= (height as int),
                (height as int) < 0x1_0000_0000,
        ;
    }
    let expected: u128 = 4 * (width as u128) * (height as u128);
    (bytes.len() as u128) == expected
}

/// Whether every pixel of `bytes` is fully opaque: the read-back check of
/// the fractal flow, whose shader writes alpha 1.0 to every pixel it
/// touches.
pub fn alpha_fully_opaque(bytes: &Vec<u8>) -> (r: bool)
    ensures
        r <==> alpha_opaque(bytes@),
{
    let pixels: usize = bytes.len() / 4;
    proof {
        lemma_fundamental_div_mod(bytes@.len() as int, 4);
        lemma_mod_bound(bytes@.len() as int, 4);
    }
    let mut p: usize = 0;
    while p < pixels
        invariant
            pixels == bytes@.len() / 4,
            4 * (pixels as int) <= bytes@.len(),
            bytes@.len() < 4 * (pixels as int) + 4,
            bytes@.len() <= usize::MAX,
            p <= pixels,
            forall|q: int| 0 <= q < p ==> #[trigger] bytes@[4 * q + 3] == OPAQUE_ALPHA,
        decreases pixels - p,
    {
        if bytes[4 * p + 3] != OPAQUE_ALPHA {
            proof {
                assert(bytes@[4 * (p as int) + 3] != OPAQUE_ALPHA);
                assert(!alpha_opaque(bytes@));
            }
            return false;
        }
        p = p + 1;
    }
    true
}

/// Whether every pixel of `bytes` holds the fixed clear colour: the
/// read-back check of the clear flow.
pub fn check_all_clear(bytes: &Vec<u8>) -> (r: bool)
    ensures
        r <==> all_clear(bytes@),
{
    let pixels: usize = bytes.len() / 4;
    proof {
        lemma_fundamental_div_mod(bytes@.len() as int, 4);
        lemma_mod_bound(bytes@.len() as int, 4);
    }
    let mut p: usize = 0;
    while p < pixels
        invariant
            pixels == bytes@.len() / 4,
            4 * (pixels as int) <= bytes@.len(),
            bytes@.len() < 4 * (pixels as int) + 4,
            bytes@.len() <= usize::MAX,
            p <= pixels,
            forall|q: int| 0 <= q < p ==> #[trigger] is_clear_pixel(bytes@, q),
        decreases pixels - p,
    {
        let base: usize = 4 * p;
        if bytes[base] != CLEAR_RED || bytes[base + 1] != CLEAR_GREEN || bytes[base + 2]
            != CLEAR_BLUE || bytes[base + 3] != CLEAR_ALPHA {
            proof {
                assert(!is_clear_pixel(bytes@, p as int));
                assert(!all_clear(bytes@));
            }
            return false;
        }
        p = p + 1;
    }
    true
}

/// Whether pixel `p` of `bytes` holds the triangle flow's fill colour.
pub open spec fn is_fill_pixel(bytes: Seq<u8>, p: int) -> bool {
    &&& bytes[4 * p] == FILL_RED
    &&& bytes[4 * p + 1] == FILL_GREEN
    &&& bytes[4 * p + 2] == FILL_BLUE
    &&& bytes[4 * p + 3] == FILL_ALPHA
}

/// Whether every pixel of `bytes` is the clear colour or the triangle fill
/// colour: the read-back check of the triangle flow, whose render pass
/// clears the image and draws one triangle in the fragment shader's
/// constant colour.
pub fn check_clear_or_fill(bytes: &Vec<u8>) -> (r: bool)
    ensures
        r <==> forall|p: int|
            0 <= p && 4 * p + 3 < bytes@.len() ==> (#[trigger] is_clear_pixel(bytes@, p)
                || is_fill_pixel(bytes@, p)),
{
    let pixels: usize = bytes.len() / 4;
    proof {
        lemma_fundamental_div_mod(bytes@.len() as int, 4);
        lemma_mod_bound(bytes@.len() as int, 4);
    }
    let mut p: usize = 0;
    while p < pixels
        invariant
            pixels == bytes@.len() / 4,
            4 * (pixels as int) <= bytes@.len(),
            bytes@.len() < 4 * (pixels as int) + 4,
            bytes@.len() <= usize::MAX,
            p <= pixels,
            forall|q: int|
                0 <= q < p ==> (#[trigger] is_clear_pixel(bytes@, q) || is_fill_pixel(bytes@, q)),
        decreases pixels - p,
    {
        let base: usize = 4 * p;
        let clear = bytes[base] == CLEAR_RED && bytes[base + 1] == CLEAR_GREEN && bytes[base + 2]
            == CLEAR_BLUE && bytes[base + 3] == CLEAR_ALPHA;
        let fill = bytes[base] == FILL_RED && bytes[base + 1] == FILL_GREEN && bytes[base + 2]
            == FILL_BLUE && bytes[base + 3] == FILL_ALPHA;
        if !clear && !fill {
            proof {
                assert(!is_clear_pixel(bytes@, p as int));
                assert(!is_fill_pixel(bytes@, p as int));
            }
            return false;
        }
        p = p + 1;
    }
    true
}

/// Why encoding an image buffer failed.
#[derive(Clone, Copy, Debug, PartialEq, Eq, Structural)]
pub enum ImageError {
    /// The buffer's length is not that of a width-by-height image.
    DimensionMismatch,
    /// The encoder itself refused the image.
    EncodeFailed,
}

/// The PNG encoding of a width-by-height image buffer.  The encoder's output
/// depends on nothing but the dimensions and the pixel bytes.
pub uninterp spec fn png_encoding(width: u32, height: u32, bytes: Seq<u8>) -> Seq<u8>;

/// Relies on image's `PngEncoder` and `ImageEncoder::write_image`: encoding
/// a buffer of exactly the advertised size into an in-memory writer yields
/// the PNG bytes of that image, a function of the dimensions and the pixel
/// bytes alone.  `write_image` panics on a buffer of any other length, which
/// the precondition rules out.  With the length right, the encoder fails
/// exactly on an image with no pixels: it rejects zero width and zero
/// height before writing anything, and on nonzero dimensions every other
/// failure path is excluded — the colour format is fixed and valid, and the
/// in-memory writer cannot fail.
#[verifier::external_body]
fn png_encode_rgba(width: u32, height: u32, bytes: &Vec<u8>) -> (r: Option<Vec<u8>>)
    requires
        bytes@.len() == rgba_len(width, height),
    ensures
        r matches Some(png) ==> png@ == png_encoding(width, height, bytes@),
        width > 0 && height > 0 ==> r is Some,
        width == 0 || height == 0 ==> r is None,
{
    let mut out: Vec<u8> = Vec::new();
    let encoder = image::codecs::png::PngEncoder::new(&mut out);
    let res = image::ImageEncoder::write_image(
        encoder,
        bytes.as_slice(),
        width,
        height,
        image::ExtendedColorType::Rgba8,
    );
    match res {
        Ok(()) => Some(out),
        Err(_) => None,
    }
}

/// Encode `bytes` as the PNG bytes of a width-by-height image, ready to be
/// written to the output file.  Rejects the buffer exactly when its length
/// is not that of an image of the requested dimensions, so an encoded image
/// has exactly those dimensions; with the length right, encoding succeeds
/// exactly when the image has at least one pixel, and yields the PNG
/// encoding of the buffer.
pub fn encode_image(width: u32, height: u32, bytes: &Vec<u8>) -> (r: Result<Vec<u8>, ImageError>)
    ensures
        r == Err::<Vec<u8>, ImageError>(ImageError::DimensionMismatch) <==> bytes@.len()
            != rgba_len(width, height),
        r == Err::<Vec<u8>, ImageError>(ImageError::EncodeFailed) <==> (bytes@.len() == rgba_len(
            width,
            height,
        ) && (width == 0 || height == 0)),
        r is Ok <==> (bytes@.len() == rgba_len(width, height) && width > 0 && height > 0),
        r matches Ok(png) ==> png@ == png_encoding(width, height, bytes@),
{
    if !rgba_len_matches(width, height, bytes) {
        return Err(ImageError::DimensionMismatch);
    }
    match png_encode_rgba(width, height, bytes) {
        Some(png) => Ok(png),
        None => Err(ImageError::EncodeFailed),
    }
}

/// A buffer the clear flow produced is fully opaque: the fixed clear colour
/// carries alpha 255, so every cleared pixel is opaque.
pub proof fn lemma_clear_is_opaque(bytes: Seq<u8>)
    requires
        all_clear(bytes),
    ensures
        alpha_opaque(bytes),
{
    assert forall|p: int| 0 <= p && 4 * p + 3 < bytes.len() implies #[trigger] bytes[4 * p + 3]
        == OPAQUE_ALPHA by {
        assert(is_clear_pixel(bytes, p));
    }
}

} // verus!
