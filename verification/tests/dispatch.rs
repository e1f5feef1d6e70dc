use pixoo_bridge::dispatch::build_frame_args;
use pixoo_bridge::dispatch::fill_submission;
use pixoo_bridge::dispatch::frame_duration;
use pixoo_bridge::dispatch::plan_animation;
use pixoo_bridge::dispatch::SpeedFactor;
use pixoo_bridge::encode_pic_data;
use pixoo_bridge::imaging::DecodedFrame;
use pixoo_bridge::protocol::ArgValue;
use pixoo_bridge::protocol::CommandArg;
use pixoo_bridge::uniform_pixel_buffer;

fn get<'a>(args: &'a [CommandArg], key: &str) -> &'a ArgValue {
    &args.iter().find(|a| a.key == key).expect("field").value
}

fn speed(permille: u32) -> SpeedFactor {
    SpeedFactor::new(permille).expect("positive factor")
}

#[test]
fn draw_fill_sends_expected_command_sequence() {
    // The fill pipeline submits exactly one frame: offset 0 of 1, the
    // single-frame duration, and the encoded uniform raster.
    let args = fill_submission(42, 32, 128, 16);

    assert_eq!(get(&args, "PicId"), &ArgValue::Int(42));
    assert_eq!(get(&args, "PicNum"), &ArgValue::Int(1));
    assert_eq!(get(&args, "PicOffset"), &ArgValue::Int(0));
    assert_eq!(get(&args, "PicWidth"), &ArgValue::Int(64));
    assert_eq!(get(&args, "PicSpeed"), &ArgValue::Int(9999));

    let expected_buffer = uniform_pixel_buffer(32, 128, 16);
    let expected_pic_data = encode_pic_data(&expected_buffer).expect("picdata");
    assert_eq!(get(&args, "PicData"), &ArgValue::Text(expected_pic_data));
}

#[test]
fn animated_plan_scales_delays_and_numbers_frames() {
    // Three 100 ms frames at a 1.4 speed factor: offsets 0, 1, 2 of
    // count 3, each shown for round(100 * 1.4) = 140 ms.
    let frames: Vec<DecodedFrame> = (0..3)
        .map(|i| DecodedFrame {
            rgb_buffer: uniform_pixel_buffer(i, i, i),
            delay_ms: 100,
        })
        .collect();

    let plans = plan_animation(7, &frames, speed(1400)).expect("plan");
    assert_eq!(plans.len(), 3);
    for (offset, args) in plans.iter().enumerate() {
        assert_eq!(get(args, "PicId"), &ArgValue::Int(7));
        assert_eq!(get(args, "PicNum"), &ArgValue::Int(3));
        assert_eq!(get(args, "PicOffset"), &ArgValue::Int(offset as i64));
        assert_eq!(get(args, "PicWidth"), &ArgValue::Int(64));
        assert_eq!(get(args, "PicSpeed"), &ArgValue::Int(140));
        let expected = encode_pic_data(&frames[offset].rgb_buffer).expect("picdata");
        assert_eq!(get(args, "PicData"), &ArgValue::Text(expected));
    }
}

#[test]
fn plan_rejects_a_frame_with_the_wrong_raster_length() {
    let frames = vec![DecodedFrame {
        rgb_buffer: vec![0u8; 100],
        delay_ms: 100,
    }];
    assert!(plan_animation(7, &frames, speed(1400)).is_err());
}

#[test]
fn zero_delay_uses_the_single_frame_duration() {
    assert_eq!(frame_duration(0, speed(1400)), 9999);
}

#[test]
fn durations_round_half_up_and_never_reach_zero() {
    assert_eq!(frame_duration(100, speed(1400)), 140);
    assert_eq!(frame_duration(1, speed(1400)), 1);
    assert_eq!(frame_duration(3, speed(500)), 2); // 1.5 rounds up
    assert_eq!(frame_duration(1, speed(100)), 1); // 0.1 clamps to 1
    assert_eq!(frame_duration(1000, speed(1000)), 1000);
}

#[test]
fn build_frame_args_orders_the_device_fields() {
    let args = build_frame_args(5, 2, 1, 140, "AAAA".to_string());
    let keys: Vec<&str> = args.iter().map(|a| a.key.as_str()).collect();
    assert_eq!(
        keys,
        vec!["PicId", "PicNum", "PicOffset", "PicWidth", "PicSpeed", "PicData"]
    );
}

#[test]
fn speed_factor_refuses_zero() {
    assert!(SpeedFactor::new(0).is_none());
    assert_eq!(SpeedFactor::default().permille, 1400);
}
