use pixoo_bridge::actions::parse_timezone_offset;
use pixoo_bridge::actions::timezone_wire_value;
use pixoo_bridge::actions::OnOffAction;
use pixoo_bridge::actions::SoundmeterAction;
use pixoo_bridge::actions::StopwatchAction;

#[test]
fn on_off_actions_map_to_device_flags() {
    assert_eq!(OnOffAction::from_str("on"), Ok(OnOffAction::On));
    assert_eq!(OnOffAction::from_str("off"), Ok(OnOffAction::Off));
    assert_eq!(OnOffAction::from_str("fly"), Err(()));
    assert_eq!(OnOffAction::On.flag_value(), 1);
    assert_eq!(OnOffAction::Off.flag_value(), 0);
    assert_eq!(OnOffAction::allowed_values(), vec!["on", "off"]);
}

#[test]
fn stopwatch_actions_map_to_device_status() {
    assert_eq!(StopwatchAction::from_str("start"), Ok(StopwatchAction::Start));
    assert_eq!(StopwatchAction::from_str("stop"), Ok(StopwatchAction::Stop));
    assert_eq!(StopwatchAction::from_str("reset"), Ok(StopwatchAction::Reset));
    assert_eq!(StopwatchAction::from_str("fly"), Err(()));
    assert_eq!(StopwatchAction::Start.status(), 1);
    assert_eq!(StopwatchAction::Stop.status(), 0);
    assert_eq!(StopwatchAction::Reset.status(), 2);
    assert_eq!(StopwatchAction::allowed_values().len(), 3);
}

#[test]
fn soundmeter_actions_map_to_device_status() {
    assert_eq!(SoundmeterAction::from_str("start"), Ok(SoundmeterAction::Start));
    assert_eq!(SoundmeterAction::from_str("stop"), Ok(SoundmeterAction::Stop));
    assert_eq!(SoundmeterAction::from_str("fly"), Err(()));
    assert_eq!(SoundmeterAction::Start.status(), 1);
    assert_eq!(SoundmeterAction::Stop.status(), 0);
    assert_eq!(SoundmeterAction::allowed_values().len(), 2);
}

#[test]
fn timezone_offsets_parse_within_device_range() {
    assert_eq!(parse_timezone_offset("3"), Ok(3));
    assert_eq!(parse_timezone_offset("-12"), Ok(-12));
    assert_eq!(parse_timezone_offset("14"), Ok(14));
    assert_eq!(parse_timezone_offset(" 0 "), Ok(0));
    assert_eq!(
        parse_timezone_offset(""),
        Err("offset must be provided".to_string())
    );
    assert_eq!(
        parse_timezone_offset("abc"),
        Err("offset must be an integer".to_string())
    );
    assert_eq!(
        parse_timezone_offset("15"),
        Err("offset must be between -12 and 14".to_string())
    );
    assert_eq!(
        parse_timezone_offset("-13"),
        Err("offset must be between -12 and 14".to_string())
    );
}

#[test]
fn timezone_wire_value_inverts_the_sign() {
    assert_eq!(timezone_wire_value(0), "GMT+0");
    assert_eq!(timezone_wire_value(3), "GMT-3");
    assert_eq!(timezone_wire_value(-5), "GMT+5");
    assert_eq!(timezone_wire_value(14), "GMT-14");
    assert_eq!(timezone_wire_value(-12), "GMT+12");
}
