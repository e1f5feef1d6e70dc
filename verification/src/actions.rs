//! Path-parameter actions of the manage and tools routes, and the
//! timezone offset rule.

use vstd::prelude::*;

use crate::numbers::int_dec_str;
use crate::numbers::int_str_val;
use crate::numbers::parse_i64;
use crate::numbers::u64_to_string;
use crate::numbers::valid_int_str;
use crate::text::trim;
use crate::text::trim_spec;

verus! {

/// An on/off switch in a route path.
#[derive(Clone, Copy, Debug, PartialEq, Eq, Structural)]
pub enum OnOffAction {
    On,
    Off,
}

impl OnOffAction {
    /// The flag the device expects: 1 for on, 0 for off.
    pub fn flag_value(&self) -> (r: i32)
        ensures
            *self is On ==> r == 1,
            *self is Off ==> r == 0,
    {
        match self {
            OnOffAction::On => 1,
            OnOffAction::Off => 0,
        }
    }

    /// The accepted path words.
    pub fn allowed_values() -> (r: Vec<&'static str>)
        ensures
            r@.len() == 2,
            r@[0]@ == "on"@,
            r@[1]@ == "off"@,
    {
        let mut r: Vec<&'static str> = Vec::new();
        r.push("on");
        r.push("off");
        r
    }

    /// Parses the path word; exactly `on` and `off` are accepted.
    pub fn from_str(s: &str) -> (r: Result<OnOffAction, ()>)
        ensures
            s@ == "on"@ ==> r == Result::<OnOffAction, ()>::Ok(OnOffAction::On),
            s@ == "off"@ ==> r == Result::<OnOffAction, ()>::Ok(OnOffAction::Off),
            s@ != "on"@ && s@ != "off"@ ==> r is Err,
    {
        proof {
            reveal_strlit("on");
            reveal_strlit("off");
            assert("on"@.len() == 2);
            assert("off"@.len() == 3);
            assert("on"@ != "off"@);
        }
        if crate::text::str_eq(s, "on") {
            Ok(OnOffAction::On)
        } else if crate::text::str_eq(s, "off") {
            Ok(OnOffAction::Off)
        } else {
            Err(())
        }
    }
}

/// A stopwatch action in a route path.
#[derive(Clone, Copy, Debug, PartialEq, Eq, Structural)]
pub enum StopwatchAction {
    Start,
    Stop,
    Reset,
}

impl StopwatchAction {
    /// The status code the device expects: 1 to start, 0 to stop, 2
    /// to reset.
    pub fn status(&self) -> (r: u8)
        ensures
            *self is Start ==> r == 1,
            *self is Stop ==> r == 0,
            *self is Reset ==> r == 2,
    {
        match self {
            StopwatchAction::Start => 1,
            StopwatchAction::Stop => 0,
            StopwatchAction::Reset => 2,
        }
    }

    /// The accepted path words.
    pub fn allowed_values() -> (r: Vec<&'static str>)
        ensures
            r@.len() == 3,
            r@[0]@ == "start"@,
            r@[1]@ == "stop"@,
            r@[2]@ == "reset"@,
    {
        let mut r: Vec<&'static str> = Vec::new();
        r.push("start");
        r.push("stop");
        r.push("reset");
        r
    }

    /// Parses the path word; exactly `start`, `stop` and `reset` are
    /// accepted.
    pub fn from_str(s: &str) -> (r: Result<StopwatchAction, ()>)
        ensures
            s@ == "start"@ ==> r == Result::<StopwatchAction, ()>::Ok(StopwatchAction::Start),
            s@ == "stop"@ ==> r == Result::<StopwatchAction, ()>::Ok(StopwatchAction::Stop),
            s@ == "reset"@ ==> r == Result::<StopwatchAction, ()>::Ok(StopwatchAction::Reset),
            s@ != "start"@ && s@ != "stop"@ && s@ != "reset"@ ==> r is Err,
    {
        proof {
            reveal_strlit("start");
            reveal_strlit("stop");
            reveal_strlit("reset");
            assert("start"@.len() == 5);
            assert("stop"@.len() == 4);
            assert("reset"@.len() == 5);
            assert("start"@ != "stop"@);
            assert("start"@[0] == 's' && "reset"@[0] == 'r');
            assert("start"@ != "reset"@);
            assert("stop"@ != "reset"@);
        }
        if crate::text::str_eq(s, "start") {
            Ok(StopwatchAction::Start)
        } else if crate::text::str_eq(s, "stop") {
            Ok(StopwatchAction::Stop)
        } else if crate::text::str_eq(s, "reset") {
            Ok(StopwatchAction::Reset)
        } else {
            Err(())
        }
    }
}

/// A sound-meter action in a route path.
#[derive(Clone, Copy, Debug, PartialEq, Eq, Structural)]
pub enum SoundmeterAction {
    Start,
    Stop,
}

impl SoundmeterAction {
    /// The status code the device expects: 1 to start, 0 to stop.
    pub fn status(&self) -> (r: u8)
        ensures
            *self is Start ==> r == 1,
            *self is Stop ==> r == 0,
    {
        match self {
            SoundmeterAction::Start => 1,
            SoundmeterAction::Stop => 0,
        }
    }

    /// The accepted path words.
    pub fn allowed_values() -> (r: Vec<&'static str>)
        ensures
            r@.len() == 2,
            r@[0]@ == "start"@,
            r@[1]@ == "stop"@,
    {
        let mut r: Vec<&'static str> = Vec::new();
        r.push("start");
        r.push("stop");
        r
    }

    /// Parses the path word; exactly `start` and `stop` are accepted.
    pub fn from_str(s: &str) -> (r: Result<SoundmeterAction, ()>)
        ensures
            s@ == "start"@ ==> r == Result::<SoundmeterAction, ()>::Ok(SoundmeterAction::Start),
            s@ == "stop"@ ==> r == Result::<SoundmeterAction, ()>::Ok(SoundmeterAction::Stop),
            s@ != "start"@ && s@ != "stop"@ ==> r is Err,
    {
        proof {
            reveal_strlit("start");
            reveal_strlit("stop");
            assert("start"@.len() == 5);
            assert("stop"@.len() == 4);
            assert("start"@ != "stop"@);
        }
        if crate::text::str_eq(s, "start") {
            Ok(SoundmeterAction::Start)
        } else if crate::text::str_eq(s, "stop") {
            Ok(SoundmeterAction::Stop)
        } else {
            Err(())
        }
    }
}

/// The timezone offsets the device accepts, whole hours from -12 to
/// 14; the error names what was wrong with the value.
pub open spec fn spec_timezone_offset(s: Seq<char>) -> Result<i8, Seq<char>> {
    let t = trim_spec(s);
    if t.len() == 0 {
        Err("offset must be provided"@)
    } else if !valid_int_str(t) || int_str_val(t) < i32::MIN || int_str_val(t) > i32::MAX {
        Err("offset must be an integer"@)
    } else if int_str_val(t) < -12 || int_str_val(t) > 14 {
        Err("offset must be between -12 and 14"@)
    } else {
        Ok(int_str_val(t) as i8)
    }
}

/// Parses a timezone offset from its path value.
pub fn parse_timezone_offset(value: &str) -> (r: Result<i8, String>)
    ensures
        match spec_timezone_offset(value@) {
            Ok(v) => r matches Ok(w) && w == v,
            Err(m) => r matches Err(s) && s@ == m,
        },
{
    let t = trim(value);
    if t.unicode_len() == 0 {
        return Err(String::from_str("offset must be provided"));
    }
    let parsed = match parse_i64(t) {
        Some(v) if v >= i32::MIN as i64 && v <= i32::MAX as i64 => v,
        _ => {
            return Err(String::from_str("offset must be an integer"));
        },
    };
    if parsed < -12 || parsed > 14 {
        return Err(String::from_str("offset must be between -12 and 14"));
    }
    Ok(parsed as i8)
}

/// The wire value of a timezone offset. The device expects the
/// opposite sign from the human reading: an offset of +3 is sent as
/// `GMT-3`.
pub open spec fn spec_timezone_wire(offset: i8) -> Seq<char> {
    if offset == 0 {
        "GMT+0"@
    } else if offset > 0 {
        "GMT-"@ + int_dec_str(offset as int)
    } else {
        "GMT+"@ + int_dec_str(-(offset as int))
    }
}

/// Renders a timezone offset as the device's wire value.
pub fn timezone_wire_value(offset: i8) -> (r: String)
    ensures
        r@ == spec_timezone_wire(offset),
{
    if offset == 0 {
        String::from_str("GMT+0")
    } else if offset > 0 {
        let mut s = String::from_str("GMT-");
        s.append(u64_to_string(offset as u64).as_str());
        s
    } else {
        let mut s = String::from_str("GMT+");
        let magnitude: u64 = if offset == i8::MIN {
            128
        } else {
            (-offset) as u64
        };
        s.append(u64_to_string(magnitude).as_str());
        s
    }
}

} // verus!
