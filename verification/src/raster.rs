use vstd::prelude::*;

use vstd::arithmetic::mul::lemma_mul_is_associative;
use vstd::arithmetic::mul::lemma_mul_upper_bound;

use crate::checker::checker_colors;
use crate::checker::checkerboard_colors;
use crate::checker::lemma_checkerboard_two_colors;
use crate::color::Rgb;
use crate::color::bytes_of_colors;
use crate::color::write_pixels;

verus! {

/// Why no image could be produced for a request.
#[derive(Clone, Copy, PartialEq, Eq, Structural, Debug)]
pub enum RenderError {
    /// Width or height is zero: the container format refuses an empty image.
    EmptyImage,
    /// The color buffer does not hold exactly width times height pixels.
    SizeMismatch,
}

/// The encoded PNG stream that the png crate produces for an interleaved
/// 8-bit RGB buffer of the given dimensions. Encoding is a pure function of
/// the buffer and the dimensions; its byte-level content is not spelled out
/// here, only named.
pub uninterp spec fn png_encoding(pixels: Seq<u8>, width: u32, height: u32) -> Seq<u8>;

/// Relies on png::Encoder: with positive dimensions, 8-bit RGB color, and a
/// buffer of exactly three bytes per pixel, writing the header and the image
/// data into a Vec cannot fail (the encoder errors only on a zero dimension,
/// an invalid color/depth pair, or a buffer-size mismatch, and a Vec never
/// fails to take bytes), and the stream produced depends on the buffer and
/// the dimensions alone.
#[verifier::external_body]
fn encode_rgb8(pixels: &Vec<u8>, width: u32, height: u32) -> (r: Vec<u8>)
    requires
        width > 0,
        height > 0,
        pixels@.len() == 3 * (width as int) * (height as int),
    ensures
        r@ == png_encoding(pixels@, width, height),
{
    let mut out: Vec<u8> = Vec::new();
    let mut enc = png::Encoder::new(&mut out, width, height);
    enc.set_color(png::ColorType::Rgb);
    enc.set_depth(png::BitDepth::Eight);
    let mut writer = enc.write_header().unwrap();
    writer.write_image_data(pixels.as_slice()).unwrap();
    writer.finish().unwrap();
    out
}

/// Assemble and encode one image: flatten the row-major colors into an
/// interleaved byte buffer and produce the PNG stream, provided the
/// dimensions are positive and consistent with the number of colors.
pub fn rgb_image(colors: &Vec<Rgb>, width: u32, height: u32) -> (r: Result<
    Vec<u8>,
    RenderError,
>)
    ensures
        r is Ok <==> (width > 0 && height > 0 && colors@.len() == (width as int) * (
        height as int)),
        r matches Ok(bytes) ==> bytes@ == png_encoding(bytes_of_colors(colors@), width, height),
        r matches Err(e) ==> ((e == RenderError::EmptyImage) <==> (width == 0 || height == 0)),
{
    if width == 0 || height == 0 {
        return Err(RenderError::EmptyImage);
    }
    proof {
        lemma_mul_upper_bound(width as int, 0xffff_ffff, height as int, 0xffff_ffff);
    }
    let expect: u64 = (width as u64) * (height as u64);
    if (colors.len() as u64) != expect {
        return Err(RenderError::SizeMismatch);
    }
    let buf = write_pixels(colors);
    proof {
        lemma_mul_is_associative(3, width as int, height as int);
    }
    Ok(encode_rgb8(&buf, width, height))
}

/// The whole checkerboard path below the per-axis period tests: classify
/// every cell, assemble the byte stream, and encode it.
pub fn checkerboard_image(cells: &Vec<(bool, bool)>, width: u32, height: u32) -> (r: Result<
    Vec<u8>,
    RenderError,
>)
    ensures
        r is Ok <==> (width > 0 && height > 0 && cells@.len() == (width as int) * (
        height as int)),
        r matches Ok(bytes) ==> bytes@ == png_encoding(
            bytes_of_colors(checker_colors(cells@)),
            width,
            height,
        ),
        r is Ok ==> bytes_of_colors(checker_colors(cells@)).len() == 3 * (width as int) * (
        height as int),
        r matches Err(e) ==> ((e == RenderError::EmptyImage) <==> (width == 0 || height == 0)),
{
    let colors = checkerboard_colors(cells);
    proof {
        lemma_checkerboard_two_colors(cells@);
        lemma_mul_is_associative(3, width as int, height as int);
    }
    rgb_image(&colors, width, height)
}

/// Rendering is idempotent: the contract pins the encoded stream to a
/// function of the colors and the dimensions alone, so any two streams it
/// admits for byte-for-byte equal inputs are byte-identical.
pub proof fn lemma_render_idempotent(
    colors: Seq<Rgb>,
    width: u32,
    height: u32,
    out1: Seq<u8>,
    out2: Seq<u8>,
)
    requires
        out1 == png_encoding(bytes_of_colors(colors), width, height),
        out2 == png_encoding(bytes_of_colors(colors), width, height),
    ensures
        out1 == out2,
{
}

} // verus!
