//! Icon pixel handling: byte-order conversion, blank-bitmap detection,
//! and packaging a raster icon as a `data:` URL for the rendering layer.
//!
//! Bitmaps arrive from the host as rows of 4-byte pixels. The verified
//! code here reorders BGRA into RGBA, decides whether a bitmap has any
//! visible pixel at all, and builds the final data URL; the PNG encoding
//! and the base64 encoding are outside calls behind trusted wrappers.

use vstd::prelude::*;
use vstd::arithmetic::div_mod::lemma_multiply_divide_le;
use vstd::string::StringExecFns;
use base64::Engine;
use image::ImageEncoder;

verus! {

/// Where byte `i` of the RGBA image comes from in the BGRA original:
/// the blue and red channels of each 4-byte pixel trade places, green
/// and alpha stay.
pub open spec fn spec_swapped_index(i: int) -> int {
    if i % 4 == 0 {
        i + 2
    } else if i % 4 == 2 {
        i - 2
    } else {
        i
    }
}

/// Reorder a BGRA pixel buffer into RGBA: within every 4-byte pixel the
/// first and third bytes swap, the others stay.
pub fn bgra_to_rgba(pixels: &Vec<u8>) -> (r: Vec<u8>)
    requires
        pixels@.len() % 4 == 0,
    ensures
        r@.len() == pixels@.len(),
        forall|i: int| 0 <= i < pixels@.len()
            ==> #[trigger] r@[i] == pixels@[spec_swapped_index(i)],
{
    let count = pixels.len() / 4;
    let mut out: Vec<u8> = Vec::new();
    for p in 0..count
        invariant
            pixels@.len() % 4 == 0,
            pixels@.len() <= usize::MAX,
            count == pixels@.len() / 4,
            out@.len() == 4 * p,
            forall|i: int| 0 <= i < 4 * p ==> #[trigger] out@[i] == pixels@[spec_swapped_index(i)],
    {
        proof {
            assert(4 * (p as int) + 4 <= pixels@.len());
        }
        let base = 4 * p;
        out.push(pixels[base + 2]);
        out.push(pixels[base + 1]);
        out.push(pixels[base]);
        out.push(pixels[base + 3]);
    }
    out
}

/// Whether any pixel of a 4-byte-per-pixel buffer has a non-zero alpha
/// channel (its fourth byte). A bitmap without one is blank and the host
/// should try its next icon source.
pub fn has_visible_pixel(pixels: &Vec<u8>) -> (r: bool)
    requires
        pixels@.len() % 4 == 0,
    ensures
        r <==> exists|p: int| 0 <= p < pixels@.len() / 4 && #[trigger] pixels@[4 * p + 3] > 0,
{
    let count = pixels.len() / 4;
    for p in 0..count
        invariant
            pixels@.len() % 4 == 0,
            pixels@.len() <= usize::MAX,
            count == pixels@.len() / 4,
            forall|q: int| 0 <= q < p ==> !(#[trigger] pixels@[4 * q + 3] > 0),
    {
        proof {
            assert(4 * (p as int) + 4 <= pixels@.len());
        }
        if pixels[4 * p + 3] > 0 {
            return true;
        }
    }
    false
}

/// The square side a fallback-extracted icon should be rescaled to, or
/// `None` when it is already large enough to display: bitmaps narrower
/// than the base icon size look blurry and are upscaled generously.
pub fn upscale_side(width: u32) -> (r: Option<u32>)
    ensures
        r == if width < 48 {
            Some(128u32)
        } else {
            None::<u32>
        },
{
    if width < 48 {
        Some(128)
    } else {
        None
    }
}

/// The PNG stream the outside encoder produces for an RGBA pixel buffer
/// of the given dimensions. The stream is a function of these arguments
/// alone; its exact bytes are not modeled.
pub uninterp spec fn png_of(pixels: Seq<u8>, width: u32, height: u32) -> Seq<u8>;

/// Relies on image's `PngEncoder` writing through `write_image` into a
/// growable byte buffer: with a buffer of exactly `4 * width * height`
/// bytes it never panics, and the stream it produces depends on the pixel
/// bytes and dimensions alone.
#[verifier::external_body]
fn encode_png(pixels: &Vec<u8>, width: u32, height: u32) -> (r: Option<Vec<u8>>)
    requires
        pixels@.len() == 4 * width * height,
    ensures
        r matches Some(b) ==> b@ == png_of(pixels@, width, height),
{
    let mut out: Vec<u8> = Vec::new();
    let encoder = image::codecs::png::PngEncoder::new(&mut out);
    match encoder.write_image(pixels.as_slice(), width, height, image::ExtendedColorType::Rgba8) {
        Ok(()) => Some(out),
        Err(_) => None,
    }
}

/// The base64 text for a byte sequence, as the outside encoder produces
/// it. The text is a function of the bytes alone; its exact characters
/// are not modeled.
pub uninterp spec fn base64_of(bytes: Seq<u8>) -> Seq<char>;

/// Relies on base64's `Engine::encode` with the padded `STANDARD`
/// alphabet: the encoding is a function of the input bytes alone, and a
/// padded encoding is four characters long for every started block of
/// three input bytes.
#[verifier::external_body]
fn base64_encode(bytes: &Vec<u8>) -> (r: String)
    requires
        4 * ((bytes@.len() + 2) / 3) <= usize::MAX,
    ensures
        r@ == base64_of(bytes@),
        r@.len() == 4 * ((bytes@.len() + 2) / 3),
{
    base64::engine::general_purpose::STANDARD.encode(bytes)
}

/// The scheme-and-type prefix of an icon data URL.
pub open spec fn spec_data_url_prefix() -> Seq<char> {
    "data:image/png;base64,"@
}

/// Wrap an already PNG-encoded icon as a `data:` URL: the fixed prefix
/// followed by the base64 text of the stream.
pub fn icon_data_url_from_png(png: &Vec<u8>) -> (r: String)
    requires
        4 * ((png@.len() + 2) / 3) <= usize::MAX,
    ensures
        r@ == spec_data_url_prefix() + base64_of(png@),
{
    let mut url = String::from_str("data:image/png;base64,");
    let b64 = base64_encode(png);
    url.append(b64.as_str());
    url
}

/// Encode an RGBA bitmap as a PNG `data:` URL, the form the rendering
/// layer displays. Returns `None` only when the outside encoder refuses
/// the image or the encoded stream would be too large to wrap.
pub fn icon_data_url(pixels: &Vec<u8>, width: u32, height: u32) -> (r: Option<String>)
    requires
        pixels@.len() == 4 * width * height,
    ensures
        r matches Some(s)
            ==> s@ == spec_data_url_prefix() + base64_of(png_of(pixels@, width, height)),
{
    match encode_png(pixels, width, height) {
        Some(png) => {
            if png.len() <= usize::MAX / 4 {
                proof {
                    let len = png@.len() as int;
                    if len >= 1 {
                        lemma_multiply_divide_le(len + 2, 3, len);
                    }
                }
                Some(icon_data_url_from_png(&png))
            } else {
                None
            }
        },
        None => None,
    }
}

} // verus!
