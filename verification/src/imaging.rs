//! Image decoding for the display: format resolution, static and
//! animated decode paths, frame capping, and per-frame timing.
//!
//! A declared content type of one of the four supported image formats
//! is trusted; a generic or missing one falls back to magic-byte
//! sniffing; any other declared type is rejected outright, without
//! sniffing. Animations are capped at 60 frames; the cap is policy,
//! never an error.

use vstd::prelude::*;

use crate::pixels::composite_to_rgb;
use crate::pixels::spec_composite;
use crate::pixels::PIXOO_FRAME_DIM;
use crate::pixels::PIXOO_FRAME_LEN;
use crate::text::str_eq;

verus! {

/// The most frames of an animation that are kept.
pub const MAX_ANIMATION_FRAMES: usize = 60;

/// The four image formats the gateway accepts.
#[derive(Clone, Copy, Debug, PartialEq, Eq, Structural)]
pub enum ImageFormatKind {
    Jpeg,
    Png,
    WebP,
    Gif,
}

/// One frame ready for the device: a full raster in the device's flat
/// RGB layout, and how long the device should show it. A zero delay
/// denotes a static, single-frame image.
#[derive(Debug)]
pub struct DecodedFrame {
    pub rgb_buffer: Vec<u8>,
    pub delay_ms: u32,
}

/// Why an upload could not be decoded.
#[derive(Clone, Debug)]
pub enum ImageError {
    /// Neither the declared content type nor the magic bytes name a
    /// supported format.
    UnsupportedFormat,
    /// The bytes do not decode as the resolved format.
    DecodeFailed(String),
}

/// What the declared content type decides: trust it, sniff instead, or
/// reject the upload outright.
#[derive(Clone, Copy, Debug, PartialEq, Eq, Structural)]
pub enum FormatResolution {
    Declared(ImageFormatKind),
    Sniff,
    Reject,
}

/// The view of an optional content-type string.
pub open spec fn spec_ct(ct: Option<&str>) -> Option<Seq<char>> {
    match ct {
        Some(s) => Some(s@),
        None => None,
    }
}

/// The content-type rule: the four supported image types are trusted;
/// an absent, empty or generic type falls back to sniffing; anything
/// else is rejected without looking at the bytes.
pub open spec fn spec_resolve_declared(ct: Option<Seq<char>>) -> FormatResolution {
    match ct {
        Option::None => FormatResolution::Sniff,
        Option::Some(s) => if s == "image/jpeg"@ {
            FormatResolution::Declared(ImageFormatKind::Jpeg)
        } else if s == "image/png"@ {
            FormatResolution::Declared(ImageFormatKind::Png)
        } else if s == "image/webp"@ {
            FormatResolution::Declared(ImageFormatKind::WebP)
        } else if s == "image/gif"@ {
            FormatResolution::Declared(ImageFormatKind::Gif)
        } else if s == "application/octet-stream"@ || s == ""@ {
            FormatResolution::Sniff
        } else {
            FormatResolution::Reject
        },
    }
}

/// Applies the content-type rule.
pub fn resolve_declared_type(content_type: Option<&str>) -> (r: FormatResolution)
    ensures
        r == spec_resolve_declared(spec_ct(content_type)),
{
    match content_type {
        None => FormatResolution::Sniff,
        Some(ct) => {
            if str_eq(ct, "image/jpeg") {
                FormatResolution::Declared(ImageFormatKind::Jpeg)
            } else if str_eq(ct, "image/png") {
                FormatResolution::Declared(ImageFormatKind::Png)
            } else if str_eq(ct, "image/webp") {
                FormatResolution::Declared(ImageFormatKind::WebP)
            } else if str_eq(ct, "image/gif") {
                FormatResolution::Declared(ImageFormatKind::Gif)
            } else if str_eq(ct, "application/octet-stream") || str_eq(ct, "") {
                FormatResolution::Sniff
            } else {
                FormatResolution::Reject
            }
        },
    }
}

/// Names what the magic-byte sniffer returns: the format read from the
/// leading bytes, kept only when it is one of the four supported ones.
pub uninterp spec fn sniffed_format(bytes: Seq<u8>) -> Option<ImageFormatKind>;

/// Relies on image's `ImageReader::with_guessed_format`: the format is
/// guessed from the content alone; formats other than the supported
/// four are dropped.
#[verifier::external_body]
fn sniff_format(bytes: &[u8]) -> (r: Option<ImageFormatKind>)
    ensures
        r == sniffed_format(bytes@),
{
    let reader = match image::ImageReader::new(std::io::Cursor::new(bytes)).with_guessed_format() {
        Ok(reader) => reader,
        Err(_) => return None,
    };
    match reader.format() {
        Some(image::ImageFormat::Jpeg) => Some(ImageFormatKind::Jpeg),
        Some(image::ImageFormat::Png) => Some(ImageFormatKind::Png),
        Some(image::ImageFormat::WebP) => Some(ImageFormatKind::WebP),
        Some(image::ImageFormat::Gif) => Some(ImageFormatKind::Gif),
        _ => None,
    }
}

/// The whole format-resolution rule: declared type first, magic bytes
/// only as a fallback, rejection without sniffing.
pub open spec fn spec_detect(bytes: Seq<u8>, ct: Option<Seq<char>>) -> Option<ImageFormatKind> {
    match spec_resolve_declared(ct) {
        FormatResolution::Declared(f) => Some(f),
        FormatResolution::Reject => None,
        FormatResolution::Sniff => sniffed_format(bytes),
    }
}

/// Resolves the image format of an upload. An unsupported declared
/// type fails without the bytes being looked at.
pub fn detect_format(bytes: &[u8], content_type: Option<&str>) -> (r: Result<
    ImageFormatKind,
    ImageError,
>)
    ensures
        match spec_detect(bytes@, spec_ct(content_type)) {
            Some(f) => r matches Ok(g) && g == f,
            None => r matches Err(ImageError::UnsupportedFormat),
        },
{
    match resolve_declared_type(content_type) {
        FormatResolution::Declared(f) => Ok(f),
        FormatResolution::Reject => Err(ImageError::UnsupportedFormat),
        FormatResolution::Sniff => match sniff_format(bytes) {
            Some(f) => Ok(f),
            None => Err(ImageError::UnsupportedFormat),
        },
    }
}

/// Names what the animation probe returns: whether the bytes are a
/// WebP container that actually holds an animation.
pub uninterp spec fn webp_is_animated(bytes: Seq<u8>) -> bool;

/// Relies on image's `WebPDecoder::has_animation`; bytes that do not
/// open as WebP count as not animated.
#[verifier::external_body]
fn has_webp_animation(bytes: &[u8]) -> (r: bool)
    ensures
        r == webp_is_animated(bytes@),
{
    match image::codecs::webp::WebPDecoder::new(std::io::Cursor::new(bytes)) {
        Ok(dec) => dec.has_animation(),
        Err(_) => false,
    }
}

/// Names what the static decode-and-resize path returns: the upload
/// decoded as the given format, resized to `dw` x `dh`, as flat RGBA
/// bytes; or the decoder's error message.
pub uninterp spec fn static_rgba_of(bytes: Seq<u8>, format: ImageFormatKind, dw: u32, dh: u32) -> Result<
    Seq<u8>,
    Seq<char>,
>;

/// Relies on image's `ImageReader::with_format`, `decode`,
/// `DynamicImage::resize_exact` with the Triangle filter, and
/// `to_rgba8`: a successful decode comes back at exactly the requested
/// dimensions, four bytes per pixel.
#[verifier::external_body]
fn decode_static_rgba(bytes: &[u8], format: ImageFormatKind, dw: u32, dh: u32) -> (r: Result<
    Vec<u8>,
    String,
>)
    requires
        dw * dh * 4 <= usize::MAX,
        dw >= 1,
        dh >= 1,
    ensures
        match r {
            Ok(v) => static_rgba_of(bytes@, format, dw, dh) == Ok::<Seq<u8>, Seq<char>>(v@)
                && v@.len() == dw * dh * 4,
            Err(m) => static_rgba_of(bytes@, format, dw, dh) == Err::<Seq<u8>, Seq<char>>(m@),
        },
{
    let fmt = match format {
        ImageFormatKind::Jpeg => image::ImageFormat::Jpeg,
        ImageFormatKind::Png => image::ImageFormat::Png,
        ImageFormatKind::WebP => image::ImageFormat::WebP,
        ImageFormatKind::Gif => image::ImageFormat::Gif,
    };
    let img = image::ImageReader::with_format(std::io::Cursor::new(bytes), fmt)
        .decode()
        .map_err(|e| e.to_string())?;
    let resized = img.resize_exact(dw, dh, image::imageops::FilterType::Triangle);
    Ok(resized.to_rgba8().into_raw())
}

/// One undecoded animation frame: its raster as flat RGBA bytes, its
/// dimensions, and its native delay as a millisecond fraction.
#[derive(Debug)]
pub struct RawFrame {
    pub rgba: Vec<u8>,
    pub width: u32,
    pub height: u32,
    pub delay_num: u32,
    pub delay_den: u32,
}

/// Names what the GIF frame decoder returns: the complete frame list,
/// in order, or the decoder's error message.
pub uninterp spec fn gif_frames_of(bytes: Seq<u8>) -> Result<Seq<RawFrame>, Seq<char>>;

/// Relies on image's `GifDecoder`, `AnimationDecoder::into_frames`,
/// `Frame::delay().numer_denom_ms()` and `Frame::into_buffer`: every
/// frame buffer holds exactly width x height RGBA pixels.
#[verifier::external_body]
fn decode_gif_frames(bytes: &[u8]) -> (r: Result<Vec<RawFrame>, String>)
    ensures
        match r {
            Ok(v) => gif_frames_of(bytes@) == Ok::<Seq<RawFrame>, Seq<char>>(v@) && forall|i: int|
                0 <= i < v@.len() ==> (#[trigger] v@[i]).rgba@.len() == v@[i].width * v@[i].height
                    * 4,
            Err(m) => gif_frames_of(bytes@) == Err::<Seq<RawFrame>, Seq<char>>(m@),
        },
{
    let dec = match image::codecs::gif::GifDecoder::new(std::io::Cursor::new(bytes)) {
        Ok(dec) => dec,
        Err(e) => return Err(e.to_string()),
    };
    let all: Result<Vec<image::Frame>, _> = image::AnimationDecoder::into_frames(dec).collect();
    Ok(all.map_err(|e| e.to_string())?.into_iter().map(|f| {
        let (delay_num, delay_den) = f.delay().numer_denom_ms();
        let buf = f.into_buffer();
        let (width, height) = (buf.width(), buf.height());
        RawFrame { rgba: buf.into_raw(), width, height, delay_num, delay_den }
    }).collect())
}

/// Names what the animated-WebP frame decoder returns, as
/// `gif_frames_of` does for GIF.
pub uninterp spec fn webp_frames_of(bytes: Seq<u8>) -> Result<Seq<RawFrame>, Seq<char>>;

/// Relies on image's `WebPDecoder` and the same frame API as the GIF
/// path.
#[verifier::external_body]
fn decode_webp_frames(bytes: &[u8]) -> (r: Result<Vec<RawFrame>, String>)
    ensures
        match r {
            Ok(v) => webp_frames_of(bytes@) == Ok::<Seq<RawFrame>, Seq<char>>(v@) && forall|
                i: int,
            |
                0 <= i < v@.len() ==> (#[trigger] v@[i]).rgba@.len() == v@[i].width * v@[i].height
                    * 4,
            Err(m) => webp_frames_of(bytes@) == Err::<Seq<RawFrame>, Seq<char>>(m@),
        },
{
    let dec = match image::codecs::webp::WebPDecoder::new(std::io::Cursor::new(bytes)) {
        Ok(dec) => dec,
        Err(e) => return Err(e.to_string()),
    };
    let all: Result<Vec<image::Frame>, _> = image::AnimationDecoder::into_frames(dec).collect();
    Ok(all.map_err(|e| e.to_string())?.into_iter().map(|f| {
        let (delay_num, delay_den) = f.delay().numer_denom_ms();
        let buf = f.into_buffer();
        let (width, height) = (buf.width(), buf.height());
        RawFrame { rgba: buf.into_raw(), width, height, delay_num, delay_den }
    }).collect())
}

/// Names what the raster resize returns: the `sw` x `sh` RGBA input
/// resized to `dw` x `dh` with the same smooth filter as the static
/// path.
pub uninterp spec fn resized_rgba_of(rgba: Seq<u8>, sw: u32, sh: u32, dw: u32, dh: u32) -> Seq<
    u8,
>;

/// Relies on image's `RgbaImage::from_raw`, `resize_exact` with the
/// Triangle filter, and `into_raw`: the result is exactly the
/// requested dimensions, four bytes per pixel.
#[verifier::external_body]
fn resize_rgba(rgba: &Vec<u8>, sw: u32, sh: u32, dw: u32, dh: u32) -> (r: Vec<u8>)
    requires
        rgba@.len() == sw * sh * 4,
        sw >= 1,
        sh >= 1,
        dw >= 1,
        dh >= 1,
        dw * dh * 4 <= usize::MAX,
    ensures
        r@ == resized_rgba_of(rgba@, sw, sh, dw, dh),
        r@.len() == dw * dh * 4,
{
    let img = image::RgbaImage::from_raw(sw, sh, rgba.clone()).unwrap();
    let resized = image::DynamicImage::ImageRgba8(img).resize_exact(
        dw,
        dh,
        image::imageops::FilterType::Triangle,
    );
    resized.to_rgba8().into_raw()
}

/// A frame's native delay in milliseconds: the value of its timing
/// fraction, zero when the denominator is zero.
pub open spec fn spec_delay_ms(num: u32, den: u32) -> u32 {
    if den == 0 {
        0u32
    } else {
        (num as int / den as int) as u32
    }
}

/// How a kept animation frame relates to its raw source: the delay is
/// the timing fraction's value, and the raster is the source resized
/// to the device and composited against black.
pub open spec fn frame_matches(f: DecodedFrame, raw: RawFrame) -> bool {
    &&& f.delay_ms == spec_delay_ms(raw.delay_num, raw.delay_den)
    &&& f.rgb_buffer@ == spec_composite(
        resized_rgba_of(raw.rgba@, raw.width, raw.height, 64, 64),
    )
    &&& f.rgb_buffer@.len() == PIXOO_FRAME_LEN
}

/// The number of frames kept from an animation of `n` logical frames.
pub open spec fn spec_kept_frames(n: int) -> int {
    if n <= 60 {
        n
    } else {
        60
    }
}

/// Whether some kept frame of the animation has no pixels — the one
/// way transcoding a decoded animation can fail.
pub open spec fn has_empty_frame(raws: Seq<RawFrame>) -> bool {
    exists|i: int|
        0 <= i < spec_kept_frames(raws.len() as int) && ((#[trigger] raws[i]).width == 0
            || raws[i].height == 0)
}

/// Transcodes a decoded animation: at most 60 frames are kept, in
/// order, each resized to the device raster and composited against
/// black, with its delay read from the native timing fraction.
/// Truncation is silent; only a frame without pixels is an error.
fn process_animation(raws: Vec<RawFrame>) -> (r: Result<Vec<DecodedFrame>, ImageError>)
    requires
        forall|i: int|
            0 <= i < raws@.len() ==> (#[trigger] raws@[i]).rgba@.len() == raws@[i].width
                * raws@[i].height * 4,
    ensures
        match r {
            Ok(fs) => {
                &&& fs@.len() == spec_kept_frames(raws@.len() as int)
                &&& forall|i: int|
                    0 <= i < fs@.len() ==> frame_matches(#[trigger] fs@[i], raws@[i])
                &&& forall|i: int|
                    0 <= i < fs@.len() ==> (#[trigger] raws@[i]).width > 0 && raws@[i].height > 0
            },
            Err(e) => e is DecodeFailed && has_empty_frame(raws@),
        },
{
    let total = raws.len();
    let keep = if total > MAX_ANIMATION_FRAMES {
        MAX_ANIMATION_FRAMES
    } else {
        total
    };
    let mut frames: Vec<DecodedFrame> = Vec::new();
    let mut i: usize = 0;
    while i < keep
        invariant
            0 <= i <= keep,
            keep == spec_kept_frames(raws@.len() as int),
            keep <= raws@.len(),
            frames@.len() == i,
            forall|j: int| 0 <= j < i ==> frame_matches(#[trigger] frames@[j], raws@[j]),
            forall|j: int|
                0 <= j < i ==> (#[trigger] raws@[j]).width > 0 && raws@[j].height > 0,
            forall|j: int|
                0 <= j < raws@.len() ==> (#[trigger] raws@[j]).rgba@.len() == raws@[j].width
                    * raws@[j].height * 4,
        decreases keep - i,
    {
        let width = raws[i].width;
        let height = raws[i].height;
        let delay_num = raws[i].delay_num;
        let delay_den = raws[i].delay_den;
        if width == 0 || height == 0 {
            return Err(ImageError::DecodeFailed(String::from_str("frame has no pixels")));
        }
        let delay_ms: u32 = if delay_den == 0 {
            0
        } else {
            delay_num / delay_den
        };
        let rgba = resize_rgba(&raws[i].rgba, width, height, PIXOO_FRAME_DIM, PIXOO_FRAME_DIM);
        let rgb = composite_to_rgb(&rgba);
        frames.push(DecodedFrame { rgb_buffer: rgb, delay_ms });
        i = i + 1;
    }
    Ok(frames)
}

/// Whether the bytes are a WebP that actually contains more than one
/// frame: the container's animation flag set, and the decoded frame
/// list longer than one.
pub open spec fn webp_truly_animated(bytes: Seq<u8>) -> bool {
    &&& webp_is_animated(bytes)
    &&& (webp_frames_of(bytes) matches Ok(raws) && raws.len() > 1)
}

/// Decodes an upload into the frames the device will show. The format
/// comes from the content-type rule; the one native animation
/// container is decoded whole and capped at 60 frames; a WebP counts
/// as animated only when it actually contains more than one frame —
/// otherwise it is treated as static, like every other resolved
/// format: a single frame with zero delay.
pub fn decode_upload(bytes: &[u8], content_type: Option<&str>) -> (r: Result<
    Vec<DecodedFrame>,
    ImageError,
>)
    ensures
        match spec_detect(bytes@, spec_ct(content_type)) {
            Option::None => r matches Err(ImageError::UnsupportedFormat),
            Option::Some(f) => {
                if f == ImageFormatKind::Gif {
                    spec_animation_outcome(gif_frames_of(bytes@), r)
                } else if f == ImageFormatKind::WebP && webp_truly_animated(bytes@) {
                    spec_animation_outcome(webp_frames_of(bytes@), r)
                } else {
                    spec_static_outcome(static_rgba_of(bytes@, f, 64, 64), r)
                }
            },
        },
{
    let format = match detect_format(bytes, content_type) {
        Ok(f) => f,
        Err(e) => {
            return Err(e);
        },
    };
    match format {
        ImageFormatKind::Gif => {
            let res = match decode_gif_frames(bytes) {
                Err(m) => Err(ImageError::DecodeFailed(m)),
                Ok(raws) => process_animation(raws),
            };
            proof {
                assert(spec_animation_outcome(gif_frames_of(bytes@), res));
            }
            res
        },
        ImageFormatKind::WebP => {
            if has_webp_animation(bytes) {
                match decode_webp_frames(bytes) {
                    Err(_) => decode_static(bytes, ImageFormatKind::WebP),
                    Ok(raws) => {
                        if raws.len() > 1 {
                            let res = process_animation(raws);
                            proof {
                                assert(webp_truly_animated(bytes@));
                                assert(spec_animation_outcome(webp_frames_of(bytes@), res));
                            }
                            res
                        } else {
                            proof {
                                assert(!webp_truly_animated(bytes@));
                            }
                            decode_static(bytes, ImageFormatKind::WebP)
                        }
                    },
                }
            } else {
                decode_static(bytes, ImageFormatKind::WebP)
            }
        },
        _ => decode_static(bytes, format),
    }
}

/// How the result of an animated decode relates to the decoder's
/// frame list: the decoder's error is handed on; otherwise at most 60
/// frames are kept, in order, each transcoded to the device raster,
/// and failure is owed only to a kept frame without pixels — so a
/// well-formed animation always comes back as its first
/// `min(n, 60)` frames.
pub open spec fn spec_animation_outcome(
    decoded: Result<Seq<RawFrame>, Seq<char>>,
    r: Result<Vec<DecodedFrame>, ImageError>,
) -> bool {
    match decoded {
        Err(m) => r matches Err(ImageError::DecodeFailed(s)) && s@ == m,
        Ok(raws) => match r {
            Ok(fs) => {
                &&& fs@.len() == spec_kept_frames(raws.len() as int)
                &&& forall|i: int|
                    0 <= i < fs@.len() ==> frame_matches(#[trigger] fs@[i], raws[i])
            },
            Err(e) => e is DecodeFailed && has_empty_frame(raws),
        },
    }
}

/// How the result of a static decode relates to the decoded raster:
/// the decoder's error is handed on; otherwise exactly one frame with
/// zero delay, the raster composited against black.
pub open spec fn spec_static_outcome(
    decoded: Result<Seq<u8>, Seq<char>>,
    r: Result<Vec<DecodedFrame>, ImageError>,
) -> bool {
    match decoded {
        Err(m) => r matches Err(ImageError::DecodeFailed(s)) && s@ == m,
        Ok(rgba) => r matches Ok(fs) && fs@.len() == 1 && fs@[0].delay_ms == 0
            && fs@[0].rgb_buffer@ == spec_composite(rgba) && fs@[0].rgb_buffer@.len()
            == PIXOO_FRAME_LEN,
    }
}

/// Decodes a static image to its single device frame.
fn decode_static(bytes: &[u8], format: ImageFormatKind) -> (r: Result<
    Vec<DecodedFrame>,
    ImageError,
>)
    ensures
        spec_static_outcome(static_rgba_of(bytes@, format, 64, 64), r),
{
    match decode_static_rgba(bytes, format, PIXOO_FRAME_DIM, PIXOO_FRAME_DIM) {
        Err(m) => Err(ImageError::DecodeFailed(m)),
        Ok(rgba) => {
            let rgb = composite_to_rgb(&rgba);
            let mut frames: Vec<DecodedFrame> = Vec::new();
            frames.push(DecodedFrame { rgb_buffer: rgb, delay_ms: 0 });
            Ok(frames)
        },
    }
}

} // verus!
