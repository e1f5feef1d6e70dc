use base64::engine::general_purpose::STANDARD_NO_PAD;
use base64::Engine;
use pixoo_bridge::encode_pic_data;
use pixoo_bridge::uniform_pixel_buffer;
use pixoo_bridge::PIXOO_FRAME_DIM;
use pixoo_bridge::PIXOO_FRAME_LEN;

#[test]
fn draw_uniform_buffer_sets_expected_bytes() {
    let buffer = uniform_pixel_buffer(255, 0, 128);
    assert_eq!(buffer.len(), PIXOO_FRAME_LEN);
    assert_eq!(&buffer[0..3], &[255, 0, 128]);
    let tail = &buffer[PIXOO_FRAME_LEN - 3..PIXOO_FRAME_LEN];
    assert_eq!(tail, &[255, 0, 128]);
}

#[test]
fn buffer_uniform_buffer_sets_expected_bytes() {
    let buffer = uniform_pixel_buffer(255, 0, 128);
    assert_eq!(buffer.len(), PIXOO_FRAME_LEN);
    assert_eq!(&buffer[0..3], &[255, 0, 128]);
    let tail = &buffer[PIXOO_FRAME_LEN - 3..PIXOO_FRAME_LEN];
    assert_eq!(tail, &[255, 0, 128]);
}

#[test]
fn canvas_uniform_buffer_sets_expected_bytes() {
    let buffer = uniform_pixel_buffer(255, 0, 128);
    assert_eq!(buffer.len(), PIXOO_FRAME_LEN);
    assert_eq!(&buffer[0..3], &[255, 0, 128]);
    let tail = &buffer[PIXOO_FRAME_LEN - 3..PIXOO_FRAME_LEN];
    assert_eq!(tail, &[255, 0, 128]);
}

#[test]
fn uniform_buffer_every_pixel_has_the_fill_color() {
    let buffer = uniform_pixel_buffer(7, 31, 255);
    assert_eq!(buffer.len(), 12288);
    for chunk in buffer.chunks(3) {
        assert_eq!(chunk, &[7, 31, 255]);
    }
}

#[test]
fn draw_encode_pic_data_black_buffer_is_all_a() {
    let buffer = uniform_pixel_buffer(0, 0, 0);
    let encoded = encode_pic_data(&buffer).expect("encoded");
    let expected_len = (PIXOO_FRAME_LEN / 3) * 4;
    let expected = "A".repeat(expected_len);
    assert_eq!(encoded, expected);
}

#[test]
fn encoding_encode_pic_data_black_buffer_is_all_a() {
    let buffer = uniform_pixel_buffer(0, 0, 0);
    let encoded = encode_pic_data(&buffer).expect("encoded");
    let expected = "A".repeat((PIXOO_FRAME_LEN / 3) * 4);
    assert_eq!(encoded, expected);
}

#[test]
fn draw_encode_pic_data_white_buffer_is_all_slash() {
    let buffer = uniform_pixel_buffer(255, 255, 255);
    let encoded = encode_pic_data(&buffer).expect("encoded");
    let expected_len = (PIXOO_FRAME_LEN / 3) * 4;
    let expected = "/".repeat(expected_len);
    assert_eq!(encoded, expected);
}

#[test]
fn encoding_encode_pic_data_white_buffer_is_all_slash() {
    let buffer = uniform_pixel_buffer(255, 255, 255);
    let encoded = encode_pic_data(&buffer).expect("encoded");
    let expected = "/".repeat((PIXOO_FRAME_LEN / 3) * 4);
    assert_eq!(encoded, expected);
}

#[test]
fn encode_pic_data_uniform_buffer_matches_spec_example() {
    let buffer = uniform_pixel_buffer(255, 0, 128);
    let encoded = encode_pic_data(&buffer).expect("encoded");
    let mut expected_pixels = Vec::with_capacity(PIXOO_FRAME_LEN);
    for _ in 0..(PIXOO_FRAME_DIM * PIXOO_FRAME_DIM) {
        expected_pixels.extend_from_slice(&[255, 0, 128]);
    }
    let expected = STANDARD_NO_PAD.encode(&expected_pixels);
    assert_eq!(encoded, expected);
}

#[test]
fn draw_encode_pic_data_rejects_invalid_length() {
    let err = encode_pic_data(&[0u8; 10]).expect_err("expected length error");
    assert!(err.contains("expected"));
}

#[test]
fn encoding_encode_pic_data_rejects_invalid_length() {
    let err = encode_pic_data(&[0u8; 10]).expect_err("expected length error");
    assert!(err.contains("expected"));
    assert_eq!(err, "expected 12288 bytes, got 10");
}

#[test]
fn encode_pic_data_accepts_exactly_the_frame_length() {
    assert!(encode_pic_data(&vec![1u8; 12288]).is_ok());
    assert!(encode_pic_data(&vec![1u8; 12287]).is_err());
    assert!(encode_pic_data(&vec![1u8; 12289]).is_err());
    assert!(encode_pic_data(&[]).is_err());
}

#[test]
fn encode_pic_data_is_deterministic_and_never_pads() {
    let buffer = uniform_pixel_buffer(9, 9, 9);
    let once = encode_pic_data(&buffer).expect("encoded");
    let twice = encode_pic_data(&buffer).expect("encoded");
    assert_eq!(once, twice);
    assert_eq!(once.len(), 16384);
    assert!(!once.contains('='));
}

#[test]
fn premultiply_composites_against_black() {
    let frames = pixoo_bridge::pixels::composite_to_rgb(&vec![
        200, 100, 50, 0, // fully transparent: goes to black
        200, 100, 50, 255, // fully opaque: unchanged
        255, 128, 64, 128, // half transparent
    ]);
    assert_eq!(&frames[0..3], &[0, 0, 0]);
    assert_eq!(&frames[3..6], &[200, 100, 50]);
    assert_eq!(u16::from(frames[6]), 255u16 * 128 / 255);
    assert_eq!(u16::from(frames[7]), 128u16 * 128 / 255);
    assert_eq!(u16::from(frames[8]), 64u16 * 128 / 255);
}
