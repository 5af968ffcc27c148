//! Texture preparation: decode a PNG into 8-bit RGBA pixels and flip it
//! vertically, so that the image origin matches the renderer's UV
//! convention.
//!
//! The decode itself is done by the `image` crate behind a trusted wrapper;
//! the flip is verified byte for byte.

use vstd::prelude::*;
use vstd::arithmetic::div_mod::lemma_fundamental_div_mod_converse;

verus! {

/// What the `image` crate decodes a byte stream to: width, height and a
/// row-major RGBA buffer of `4 * width * height` bytes, or nothing when the
/// bytes are not a readable image. The decode depends on the bytes alone.
pub uninterp spec fn rgba_decode(bytes: Seq<u8>) -> Option<(u32, u32, Seq<u8>)>;

/// Relies on `image::load_from_memory` followed by
/// `image::DynamicImage::into_rgba8`: decoding is a function of the bytes
/// alone, and the raw buffer of an RGBA image holds exactly
/// `4 * width * height` bytes in row-major order.
#[verifier::external_body]
fn decode_rgba(bytes: &[u8]) -> (r: Option<(u32, u32, Vec<u8>)>)
    ensures
        match r {
            Some(d) => rgba_decode(bytes@) == Some((d.0, d.1, d.2@)) && d.2@.len() == 4 * d.0
                * d.1,
            None => rgba_decode(bytes@) is None,
        },
{
    match image::load_from_memory(bytes) {
        Ok(img) => {
            let rgba = img.into_rgba8();
            let (w, h) = rgba.dimensions();
            Some((w, h, rgba.into_raw()))
        },
        Err(_) => None,
    }
}

/// Where byte `i` of the vertically flipped image comes from: the same
/// column of the mirrored row.
pub open spec fn flip_index(i: int, w: int, h: int) -> int {
    let row = i / (4 * w);
    let col = i % (4 * w);
    (h - 1 - row) * (4 * w) + col
}

/// The vertically flipped image: row `r` of the result is row `h - 1 - r`
/// of the input.
pub open spec fn flipped_rows(s: Seq<u8>, w: int, h: int) -> Seq<u8> {
    Seq::new(s.len(), |i: int| s[flip_index(i, w, h)])
}

/// Flip a row-major RGBA buffer vertically.
pub fn flip_vertical(width: u32, height: u32, pixels: &Vec<u8>) -> (out: Vec<u8>)
    requires
        pixels@.len() == 4 * width * height,
    ensures
        out@.len() == pixels@.len(),
        out@ == flipped_rows(pixels@, width as int, height as int),
{
    // The buffer length as a machine word: it bounds every index below.
    let _pixel_count: usize = pixels.len();
    let mut out: Vec<u8> = Vec::new();
    if height == 0 {
        proof {
            assert(out@ =~= flipped_rows(pixels@, width as int, height as int));
        }
        return out;
    }
    proof {
        assert(4 * (width as int) <= pixels@.len()) by (nonlinear_arith)
            requires
                pixels@.len() == 4 * (width as int) * (height as int),
                1 <= (height as int),
        ;
    }
    let row_bytes: usize = 4 * (width as usize);
    let mut r: u32 = 0;
    while r < height
        invariant
            0 < height,
            r <= height,
            pixels@.len() == 4 * width * height,
            pixels@.len() <= usize::MAX,
            row_bytes == 4 * width,
            row_bytes <= pixels@.len(),
            out@.len() == r * row_bytes,
            forall|i: int|
                0 <= i < out@.len() ==> out@[i] == pixels@[flip_index(
                    i,
                    width as int,
                    height as int,
                )],
        decreases height - r,
    {
        proof {
            assert((r as int + 1) * (row_bytes as int) <= pixels@.len() && (height as int - 1
                - r as int) * (row_bytes as int) + row_bytes as int <= pixels@.len())
                by (nonlinear_arith)
                requires
                    0 <= (r as int),
                    (r as int) < (height as int),
                    row_bytes as int == 4 * (width as int),
                    pixels@.len() == 4 * (width as int) * (height as int),
            ;
        }
        let src_row: usize = ((height - 1 - r) as usize) * row_bytes;
        let mut c: usize = 0;
        while c < row_bytes
            invariant
                0 < height,
                r < height,
                pixels@.len() == 4 * width * height,
                pixels@.len() <= usize::MAX,
                row_bytes == 4 * width,
                (r + 1) * row_bytes <= pixels@.len(),
                src_row == (height - 1 - r) * row_bytes,
                src_row + row_bytes <= pixels@.len(),
                c <= row_bytes,
                out@.len() == r * row_bytes + c,
                forall|i: int|
                    0 <= i < out@.len() ==> out@[i] == pixels@[flip_index(
                        i,
                        width as int,
                        height as int,
                    )],
            decreases row_bytes - c,
        {
            out.push(pixels[src_row + c]);
            proof {
                let i0 = r as int * row_bytes as int + c as int;
                lemma_fundamental_div_mod_converse(i0, row_bytes as int, r as int, c as int);
                assert(flip_index(i0, width as int, height as int) == src_row + c);
            }
            c = c + 1;
        }
        proof {
            assert((r as int + 1) * (row_bytes as int) == r as int * (row_bytes as int)
                + row_bytes as int) by (nonlinear_arith);
        }
        r = r + 1;
    }
    proof {
        assert((height as int) * (row_bytes as int) == pixels@.len()) by (nonlinear_arith)
            requires
                row_bytes as int == 4 * (width as int),
                pixels@.len() == 4 * (width as int) * (height as int),
        ;
        assert(out@ =~= flipped_rows(pixels@, width as int, height as int));
    }
    out
}

/// A decoded, vertically flipped RGBA texture.
pub struct TextureImage {
    /// Width in pixels.
    pub width: u32,
    /// Height in pixels.
    pub height: u32,
    /// Row-major RGBA bytes, `4 * width * height` of them, first row at the
    /// bottom of the decoded image.
    pub pixels: Vec<u8>,
}

/// Decode an image file's bytes and flip the pixels vertically. Returns
/// nothing exactly when the bytes are not a readable image; the previous
/// texture (if any) is then kept by the caller.
pub fn prepare_texture(bytes: &[u8]) -> (t: Option<TextureImage>)
    ensures
        match rgba_decode(bytes@) {
            Some(d) => t matches Some(img) && img.width == d.0 && img.height == d.1
                && img.pixels@.len() == 4 * d.0 * d.1 && img.pixels@ == flipped_rows(
                d.2,
                d.0 as int,
                d.1 as int,
            ),
            None => t is None,
        },
{
    match decode_rgba(bytes) {
        None => None,
        Some((width, height, raw)) => {
            let flipped = flip_vertical(width, height, &raw);
            Some(TextureImage { width, height, pixels: flipped })
        },
    }
}

} // verus!
