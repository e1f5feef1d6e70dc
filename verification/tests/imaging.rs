use std::io::Cursor;
use std::time::Duration;

use image::codecs::gif::GifEncoder;
use image::{Delay, DynamicImage, Frame, ImageBuffer, ImageFormat, Rgba, RgbaImage};
use pixoo_bridge::imaging::decode_upload;
use pixoo_bridge::imaging::ImageError;
use pixoo_bridge::PIXOO_FRAME_LEN;

fn solid_image(width: u32, height: u32, rgba: [u8; 4]) -> RgbaImage {
    ImageBuffer::from_fn(width, height, |_, _| Rgba(rgba))
}

fn encode_image(img: RgbaImage, format: ImageFormat) -> Vec<u8> {
    let mut buf = Vec::new();
    DynamicImage::ImageRgba8(img)
        .write_to(&mut Cursor::new(&mut buf), format)
        .expect("write image");
    buf
}

fn animated_gif(frame_count: usize, delay_ms: u64) -> Vec<u8> {
    let mut buf = Vec::new();
    {
        let mut encoder = GifEncoder::new(&mut buf);
        encoder
            .set_repeat(image::codecs::gif::Repeat::Infinite)
            .unwrap();
        for i in 0..frame_count {
            let v = ((i * 10) % 256) as u8;
            let img = solid_image(8, 8, [v, v, v, 255]);
            let frame = Frame::from_parts(
                img,
                0,
                0,
                Delay::from_saturating_duration(Duration::from_millis(delay_ms)),
            );
            encoder.encode_frame(frame).expect("encode frame");
        }
    }
    buf
}

#[test]
fn decodes_static_jpeg_black() {
    let data = encode_image(solid_image(100, 100, [0, 0, 0, 255]), ImageFormat::Jpeg);
    let frames = decode_upload(&data, Some("image/jpeg")).expect("decode");
    assert_eq!(frames.len(), 1);
    assert_eq!(frames[0].rgb_buffer.len(), PIXOO_FRAME_LEN);
    assert_eq!(frames[0].delay_ms, 0);
    assert_eq!(frames[0].rgb_buffer[0], 0);
    assert_eq!(frames[0].rgb_buffer[1], 0);
    assert_eq!(frames[0].rgb_buffer[2], 0);
}

#[test]
fn decodes_static_jpeg_white() {
    let data = encode_image(solid_image(100, 100, [255, 255, 255, 255]), ImageFormat::Jpeg);
    let frames = decode_upload(&data, Some("image/jpeg")).expect("decode");
    assert_eq!(frames.len(), 1);
    assert_eq!(frames[0].rgb_buffer.len(), PIXOO_FRAME_LEN);
    assert_eq!(frames[0].rgb_buffer[0], 255);
    assert_eq!(frames[0].rgb_buffer[1], 255);
    assert_eq!(frames[0].rgb_buffer[2], 255);
}

#[test]
fn decodes_static_png() {
    let data = encode_image(solid_image(32, 32, [255, 0, 0, 255]), ImageFormat::Png);
    let frames = decode_upload(&data, Some("image/png")).expect("decode");
    assert_eq!(frames.len(), 1);
    assert_eq!(frames[0].rgb_buffer.len(), PIXOO_FRAME_LEN);
    assert_eq!(frames[0].rgb_buffer[0], 255);
    assert_eq!(frames[0].rgb_buffer[1], 0);
    assert_eq!(frames[0].rgb_buffer[2], 0);
}

#[test]
fn decodes_static_webp() {
    let data = encode_image(solid_image(8, 8, [255, 255, 255, 255]), ImageFormat::WebP);
    let frames = decode_upload(&data, Some("image/webp")).expect("decode");
    assert_eq!(frames.len(), 1);
    assert_eq!(frames[0].rgb_buffer.len(), PIXOO_FRAME_LEN);
    assert_eq!(frames[0].rgb_buffer[0], 255);
    assert_eq!(frames[0].rgb_buffer[1], 255);
    assert_eq!(frames[0].rgb_buffer[2], 255);
}

#[test]
fn decodes_animated_gif_multiple_frames() {
    let data = animated_gif(3, 100);
    let frames = decode_upload(&data, Some("image/gif")).expect("decode");
    assert!(
        frames.len() >= 2,
        "expected multiple frames, got {}",
        frames.len()
    );
    for frame in &frames {
        assert_eq!(frame.rgb_buffer.len(), PIXOO_FRAME_LEN);
    }
}

#[test]
fn animated_gif_respects_frame_delay() {
    let data = animated_gif(2, 1000);
    let frames = decode_upload(&data, Some("image/gif")).expect("decode");
    // GIF delay encoding rounds to 10ms units, so 1000ms should come
    // back as ~1000ms.
    for frame in &frames {
        assert!(
            frame.delay_ms >= 990 && frame.delay_ms <= 1010,
            "expected ~1000ms, got {}ms",
            frame.delay_ms
        );
    }
}

#[test]
fn truncates_gif_at_60_frames() {
    let data = animated_gif(80, 50);
    let frames = decode_upload(&data, Some("image/gif")).expect("decode");
    assert_eq!(frames.len(), 60);
}

#[test]
fn exactly_60_frames_not_truncated() {
    let data = animated_gif(60, 50);
    let frames = decode_upload(&data, Some("image/gif")).expect("decode");
    assert_eq!(frames.len(), 60);
}

#[test]
fn rejects_unsupported_format() {
    let result = decode_upload(b"not an image", Some("image/bmp"));
    assert!(matches!(result, Err(ImageError::UnsupportedFormat)));
}

#[test]
fn unsupported_declared_type_is_rejected_without_sniffing() {
    // These bytes are a perfectly valid PNG; the declared type alone
    // rejects them.
    let data = encode_image(solid_image(8, 8, [1, 2, 3, 255]), ImageFormat::Png);
    let result = decode_upload(&data, Some("image/tiff"));
    assert!(matches!(result, Err(ImageError::UnsupportedFormat)));
}

#[test]
fn rejects_corrupt_data() {
    let result = decode_upload(b"just some text pretending to be an image", Some("image/png"));
    assert!(matches!(result, Err(ImageError::DecodeFailed(_))));
}

#[test]
fn falls_back_to_magic_bytes_on_missing_content_type() {
    let data = encode_image(solid_image(32, 32, [255, 0, 0, 255]), ImageFormat::Png);
    let frames = decode_upload(&data, None).expect("decode");
    assert_eq!(frames.len(), 1);
}

#[test]
fn falls_back_to_magic_bytes_on_octet_stream() {
    let data = encode_image(solid_image(8, 8, [255, 255, 255, 255]), ImageFormat::WebP);
    let frames = decode_upload(&data, Some("application/octet-stream")).expect("decode");
    assert_eq!(frames.len(), 1);
}

#[test]
fn alpha_composited_against_black() {
    let data = encode_image(solid_image(4, 4, [255, 128, 64, 128]), ImageFormat::Png);
    let frames = decode_upload(&data, Some("image/png")).expect("decode");
    assert_eq!(frames.len(), 1);
    // RGBA(255, 128, 64, 128), alpha = 128/255: roughly half of each
    // channel survives the composite.
    let r = frames[0].rgb_buffer[0];
    let g = frames[0].rgb_buffer[1];
    let b = frames[0].rgb_buffer[2];
    assert!(r > 120 && r < 135, "red={r} expected ~128");
    assert!(g > 58 && g < 70, "green={g} expected ~64");
    assert!(b > 28 && b < 38, "blue={b} expected ~32");
}
