//! The closed catalog of device commands and their wire strings.

use vstd::prelude::*;

verus! {

/// A command of the device's control protocol. The set is closed and
/// each variant owns exactly one immutable wire string.
#[derive(Clone, Debug, Eq, PartialEq, Hash)]
pub enum PixooCommand {
    SystemReboot,
    ToolsTimer,
    ToolsStopwatch,
    ToolsScoreboard,
    ToolsSoundMeter,
    ManageGetSettings,
    ManageGetTime,
    ManageGetWeather,
    ManageSetLocation,
    ManageSetTimezone,
    ManageSetUtc,
    ManageSetTimeMode,
    ManageSetTemperatureUnit,
    ManageDisplayPower,
    ManageDisplayBrightness,
    ManageDisplayRotation,
    ManageDisplayMirror,
    ManageDisplayOverclock,
    ManageDisplayWhiteBalance,
    DrawGetGifId,
    DrawSendGif,
    DrawResetGifId,
}

impl PixooCommand {
    /// The wire string of this command, as a sequence of characters.
    pub open spec fn wire_spec(self) -> Seq<char> {
        match self {
            PixooCommand::SystemReboot => "Device/SysReboot"@,
            PixooCommand::ToolsTimer => "Tools/SetTimer"@,
            PixooCommand::ToolsStopwatch => "Tools/SetStopWatch"@,
            PixooCommand::ToolsScoreboard => "Tools/SetScoreBoard"@,
            PixooCommand::ToolsSoundMeter => "Tools/SetNoiseStatus"@,
            PixooCommand::ManageGetSettings => "Channel/GetAllConf"@,
            PixooCommand::ManageGetTime => "Device/GetDeviceTime"@,
            PixooCommand::ManageGetWeather => "Device/GetWeatherInfo"@,
            PixooCommand::ManageSetLocation => "Sys/LogAndLat"@,
            PixooCommand::ManageSetTimezone => "Sys/TimeZone"@,
            PixooCommand::ManageSetUtc => "Device/SetUTC"@,
            PixooCommand::ManageSetTimeMode => "Device/SetTime24Flag"@,
            PixooCommand::ManageSetTemperatureUnit => "Device/SetDisTempMode"@,
            PixooCommand::ManageDisplayPower => "Channel/OnOffScreen"@,
            PixooCommand::ManageDisplayBrightness => "Channel/SetBrightness"@,
            PixooCommand::ManageDisplayRotation => "Device/SetScreenRotationAngle"@,
            PixooCommand::ManageDisplayMirror => "Device/SetMirrorMode"@,
            PixooCommand::ManageDisplayOverclock => "Device/SetHighLightMode"@,
            PixooCommand::ManageDisplayWhiteBalance => "Device/SetWhiteBalance"@,
            PixooCommand::DrawGetGifId => "Draw/GetHttpGifId"@,
            PixooCommand::DrawSendGif => "Draw/SendHttpGif"@,
            PixooCommand::DrawResetGifId => "Draw/ResetHttpGifId"@,
        }
    }

    /// The wire string of this command.
    pub fn as_str(&self) -> (r: &'static str)
        ensures
            r@ == self.wire_spec(),
    {
        match self {
            PixooCommand::SystemReboot => "Device/SysReboot",
            PixooCommand::ToolsTimer => "Tools/SetTimer",
            PixooCommand::ToolsStopwatch => "Tools/SetStopWatch",
            PixooCommand::ToolsScoreboard => "Tools/SetScoreBoard",
            PixooCommand::ToolsSoundMeter => "Tools/SetNoiseStatus",
            PixooCommand::ManageGetSettings => "Channel/GetAllConf",
            PixooCommand::ManageGetTime => "Device/GetDeviceTime",
            PixooCommand::ManageGetWeather => "Device/GetWeatherInfo",
            PixooCommand::ManageSetLocation => "Sys/LogAndLat",
            PixooCommand::ManageSetTimezone => "Sys/TimeZone",
            PixooCommand::ManageSetUtc => "Device/SetUTC",
            PixooCommand::ManageSetTimeMode => "Device/SetTime24Flag",
            PixooCommand::ManageSetTemperatureUnit => "Device/SetDisTempMode",
            PixooCommand::ManageDisplayPower => "Channel/OnOffScreen",
            PixooCommand::ManageDisplayBrightness => "Channel/SetBrightness",
            PixooCommand::ManageDisplayRotation => "Device/SetScreenRotationAngle",
            PixooCommand::ManageDisplayMirror => "Device/SetMirrorMode",
            PixooCommand::ManageDisplayOverclock => "Device/SetHighLightMode",
            PixooCommand::ManageDisplayWhiteBalance => "Device/SetWhiteBalance",
            PixooCommand::DrawGetGifId => "Draw/GetHttpGifId",
            PixooCommand::DrawSendGif => "Draw/SendHttpGif",
            PixooCommand::DrawResetGifId => "Draw/ResetHttpGifId",
        }
    }
}

/// A coarse grouping of the device's capabilities, by feature area.
pub enum CommandType {
    Reboot,
    PlaySound,
    GetNextPictureId,
    ResetPictureId,
    DrawAnimation,
    DrawText,
    ClearText,
    DrawCommandList,
    SetClock,
    GetClock,
    SetDisplayOnOff,
    SetDisplayBrightness,
}

} // verus!
