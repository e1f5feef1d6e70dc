//! Fixed-raster pixel buffers for the device's 64x64 RGB display:
//! uniform fills, alpha compositing against black, and the base64
//! pixel wire format.

use vstd::prelude::*;

use crate::numbers::dec_str;
use crate::numbers::usize_to_string;

verus! {

/// Display dimension in pixels (the display is square).
pub const PIXOO_FRAME_DIM: u32 = 64;

/// Display width in pixels.
pub const PIXOO_FRAME_WIDTH: usize = 64;

/// Display height in pixels.
pub const PIXOO_FRAME_HEIGHT: usize = 64;

/// Bytes per pixel (RGB).
pub const PIXOO_PIXEL_BYTES: usize = 3;

/// Total bytes for a single frame (64 x 64 x 3).
pub const PIXOO_FRAME_LEN: usize = 12288;

/// What a uniform fill holds at byte index `i`: the red, green or blue
/// channel, depending on the position within its 3-byte pixel.
pub open spec fn uniform_byte(red: u8, green: u8, blue: u8, i: int) -> u8 {
    if i % 3 == 0 {
        red
    } else if i % 3 == 1 {
        green
    } else {
        blue
    }
}

/// A full frame of one color, flat and row-major.
pub open spec fn spec_uniform(red: u8, green: u8, blue: u8) -> Seq<u8> {
    Seq::new(12288nat, |i: int| uniform_byte(red, green, blue, i))
}

/// Creates a uniform pixel buffer where every pixel has the same RGB color.
pub fn uniform_pixel_buffer(red: u8, green: u8, blue: u8) -> (buffer: Vec<u8>)
    ensures
        buffer@ == spec_uniform(red, green, blue),
        buffer@.len() == PIXOO_FRAME_LEN,
        forall|i: int|
            0 <= i < buffer@.len() ==> buffer@[i] == uniform_byte(red, green, blue, i),
{
    let mut buffer: Vec<u8> = Vec::new();
    let mut p: usize = 0;
    while p < 4096
        invariant
            p <= 4096,
            buffer@.len() == 3 * p,
            forall|i: int|
                0 <= i < buffer@.len() ==> buffer@[i] == uniform_byte(red, green, blue, i),
        decreases 4096 - p,
    {
        buffer.push(red);
        buffer.push(green);
        buffer.push(blue);
        p = p + 1;
    }
    proof {
        assert(buffer@ =~= spec_uniform(red, green, blue));
    }
    buffer
}

/// Names what the base64 encoder returns for a byte sequence: the
/// standard-alphabet, unpadded base64 rendering.
pub uninterp spec fn base64_no_pad(bytes: Seq<u8>) -> Seq<char>;

/// Relies on base64's `STANDARD_NO_PAD` engine: deterministic in the
/// input bytes alone, and four characters for every whole group of
/// three bytes when no padding is emitted.
#[verifier::external_body]
fn b64_encode(bytes: &[u8]) -> (r: String)
    ensures
        r@ == base64_no_pad(bytes@),
        bytes@.len() % 3 == 0 ==> r@.len() == bytes@.len() / 3 * 4,
{
    base64::Engine::encode(&base64::engine::general_purpose::STANDARD_NO_PAD, bytes)
}

/// Encodes a frame buffer into the device's pixel wire format. Exactly
/// the buffers of the fixed frame length encode; every other length is
/// an error naming both the expected and the actual count.
pub fn encode_pic_data(pixels: &[u8]) -> (r: Result<String, String>)
    ensures
        r is Ok <==> pixels@.len() == PIXOO_FRAME_LEN,
        r matches Ok(s) ==> s@ == base64_no_pad(pixels@) && s@.len() == 16384,
        r matches Err(m) ==> m@ == "expected 12288 bytes, got "@ + dec_str(
            pixels@.len() as int,
        ),
{
    if pixels.len() != PIXOO_FRAME_LEN {
        let mut m = String::from_str("expected 12288 bytes, got ");
        m.append(usize_to_string(pixels.len()).as_str());
        return Err(m);
    }
    Ok(b64_encode(pixels))
}

/// A channel composited against an opaque black background:
/// `channel * alpha / 255`, integer division.
pub open spec fn spec_premultiply(channel: u8, alpha: u8) -> u8 {
    ((channel as int * alpha as int) / 255) as u8
}

/// Law: compositing against black is the identity at the alpha
/// extremes — a fully transparent channel goes to zero whatever its
/// value, a fully opaque one is unchanged.
pub proof fn lemma_premultiply_extremes(channel: u8, alpha: u8)
    ensures
        alpha == 0 ==> spec_premultiply(channel, alpha) == 0,
        alpha == 255 ==> spec_premultiply(channel, alpha) == channel,
{
    if alpha == 255 {
        assert(channel as int * 255 / 255 == channel as int) by (nonlinear_arith);
    }
}

/// Premultiplies a color channel by its alpha against a black
/// background. The result always fits a byte: 255 * 255 / 255 = 255.
pub fn premultiply(channel: u8, alpha: u8) -> (r: u8)
    ensures
        r == spec_premultiply(channel, alpha),
        alpha == 0 ==> r == 0,
        alpha == 255 ==> r == channel,
{
    proof {
        assert(channel as int * alpha as int <= 255 * 255) by (nonlinear_arith)
            requires
                channel as int <= 255,
                alpha as int <= 255,
        ;
        assert(channel as int * alpha as int / 255 <= 255);
        lemma_premultiply_extremes(channel, alpha);
    }
    ((channel as u16 * alpha as u16) / 255) as u8
}

/// A flat RGBA byte sequence composited against opaque black with the
/// alpha channel dropped: three bytes per pixel, each premultiplied.
pub open spec fn spec_composite(rgba: Seq<u8>) -> Seq<u8> {
    Seq::new(
        (rgba.len() / 4 * 3) as nat,
        |i: int| spec_premultiply(rgba[i / 3 * 4 + i % 3], rgba[i / 3 * 4 + 3]),
    )
}

/// Composites a flat row-major RGBA byte sequence against opaque
/// black, dropping the alpha channel: three output bytes per pixel,
/// each the premultiplied source channel.
pub fn composite_to_rgb(rgba: &Vec<u8>) -> (rgb: Vec<u8>)
    requires
        rgba@.len() % 4 == 0,
    ensures
        rgb@ == spec_composite(rgba@),
        rgb@.len() == rgba@.len() / 4 * 3,
        forall|i: int|
            0 <= i < rgb@.len() ==> #[trigger] rgb@[i] == spec_premultiply(
                rgba@[i / 3 * 4 + i % 3],
                rgba@[i / 3 * 4 + 3],
            ),
{
    let pixel_count = rgba.len() / 4;
    let mut rgb: Vec<u8> = Vec::new();
    let mut p: usize = 0;
    while p < pixel_count
        invariant
            0 <= p <= pixel_count,
            pixel_count == rgba@.len() / 4,
            rgba@.len() % 4 == 0,
            rgba@.len() <= usize::MAX,
            rgb@.len() == 3 * p,
            forall|i: int|
                0 <= i < rgb@.len() ==> #[trigger] rgb@[i] == spec_premultiply(
                    rgba@[i / 3 * 4 + i % 3],
                    rgba@[i / 3 * 4 + 3],
                ),
        decreases pixel_count - p,
    {
        proof {
            assert(rgba@.len() == 4 * (rgba@.len() / 4) + rgba@.len() % 4);
            assert(4 * p + 3 < rgba@.len());
        }
        let a = rgba[4 * p + 3];
        rgb.push(premultiply(rgba[4 * p], a));
        rgb.push(premultiply(rgba[4 * p + 1], a));
        rgb.push(premultiply(rgba[4 * p + 2], a));
        p = p + 1;
        proof {
            assert forall|i: int| 0 <= i < rgb@.len() implies #[trigger] rgb@[i]
                == spec_premultiply(rgba@[i / 3 * 4 + i % 3], rgba@[i / 3 * 4 + 3]) by {
                if i >= 3 * (p - 1) {
                    assert(i / 3 == p - 1);
                }
            }
        }
    }
    proof {
        assert(rgb@ =~= spec_composite(rgba@));
    }
    rgb
}

} // verus!
