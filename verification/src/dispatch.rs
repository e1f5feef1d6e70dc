//! Animation dispatch planning under the device's stateful picture-id
//! protocol.
//!
//! A dispatch begins with a fresh picture id from the device; then
//! each frame, in strict zero-based order, is encoded and submitted
//! with its offset, the total count, the fixed frame width and its
//! on-device duration. The network edge sends one submission at a
//! time, never concurrently within one dispatch, and aborts on the
//! first failure — the protocol has no cancel, so nothing is rolled
//! back. The plan itself — every argument of every submission — is
//! decided and verified here.

use vstd::prelude::*;

use crate::imaging::DecodedFrame;
use crate::pixels::base64_no_pad;
use crate::pixels::encode_pic_data;
use crate::pixels::spec_uniform;
use crate::pixels::uniform_pixel_buffer;
use crate::protocol::ArgValue;
use crate::protocol::CommandArg;

verus! {

/// The on-device duration of a static, single frame.
pub const SINGLE_FRAME_PIC_SPEED_MS: u32 = 9999;

/// The configured speed-scaling factor, held in thousandths: the
/// device duration of a frame with source delay `d` is
/// `round(d * permille / 1000)`.
#[derive(Clone, Copy, Debug, PartialEq, Eq, Structural)]
pub struct SpeedFactor {
    pub permille: u32,
}

impl SpeedFactor {
    /// A positive factor; the constructor refuses zero.
    pub open spec fn wf(self) -> bool {
        self.permille >= 1
    }

    pub fn new(permille: u32) -> (r: Option<SpeedFactor>)
        ensures
            permille >= 1 ==> (r matches Some(s) && s.permille == permille && s.wf()),
            permille == 0 ==> r is None,
    {
        if permille >= 1 {
            Some(SpeedFactor { permille })
        } else {
            None
        }
    }
}

impl Default for SpeedFactor {
    /// The default factor of 1.4.
    fn default() -> (r: SpeedFactor)
        ensures
            r.permille == 1400,
            r.wf(),
    {
        SpeedFactor { permille: 1400 }
    }
}

/// The on-device duration of a frame: the fixed single-frame sentinel
/// when the source delay is zero, else the scaled delay rounded half
/// up, at least one millisecond, saturating at the device's range.
pub open spec fn spec_frame_duration(delay_ms: u32, permille: u32) -> u32 {
    if delay_ms == 0 {
        9999u32
    } else {
        let scaled = (delay_ms * permille + 500) / 1000;
        if scaled > u32::MAX {
            u32::MAX
        } else if scaled < 1 {
            1u32
        } else {
            scaled as u32
        }
    }
}

/// Computes a frame's on-device duration.
pub fn frame_duration(delay_ms: u32, speed: SpeedFactor) -> (r: u32)
    ensures
        r == spec_frame_duration(delay_ms, speed.permille),
{
    if delay_ms == 0 {
        return SINGLE_FRAME_PIC_SPEED_MS;
    }
    proof {
        assert((delay_ms as int) * (speed.permille as int) <= 0xffff_ffff * 0xffff_ffff)
            by (nonlinear_arith)
            requires
                delay_ms as int <= 0xffff_ffff,
                speed.permille as int <= 0xffff_ffff,
        ;
    }
    let scaled: u64 = ((delay_ms as u64) * (speed.permille as u64) + 500) / 1000;
    if scaled > u32::MAX as u64 {
        u32::MAX
    } else if scaled < 1 {
        1
    } else {
        scaled as u32
    }
}

/// How one frame-submission argument list must read: picture id,
/// offset, total count, the fixed frame width, duration, and the
/// encoded pixel data, under the device's field names.
pub open spec fn submission_matches(
    args: Seq<CommandArg>,
    pic_id: i64,
    pic_num: u32,
    pic_offset: u32,
    pic_speed: u32,
    pic_data: Seq<char>,
) -> bool {
    &&& args.len() == 6
    &&& args[0].key@ == "PicId"@ && args[0].value == ArgValue::Int(pic_id)
    &&& args[1].key@ == "PicNum"@ && args[1].value == ArgValue::Int(pic_num as i64)
    &&& args[2].key@ == "PicOffset"@ && args[2].value == ArgValue::Int(pic_offset as i64)
    &&& args[3].key@ == "PicWidth"@ && args[3].value == ArgValue::Int(64)
    &&& args[4].key@ == "PicSpeed"@ && args[4].value == ArgValue::Int(pic_speed as i64)
    &&& args[5].key@ == "PicData"@ && (args[5].value matches ArgValue::Text(t) && t@ == pic_data)
}

/// Builds the argument list of one frame submission.
pub fn build_frame_args(
    pic_id: i64,
    pic_num: u32,
    pic_offset: u32,
    pic_speed: u32,
    pic_data: String,
) -> (args: Vec<CommandArg>)
    ensures
        submission_matches(args@, pic_id, pic_num, pic_offset, pic_speed, pic_data@),
{
    let mut args: Vec<CommandArg> = Vec::new();
    args.push(CommandArg { key: String::from_str("PicId"), value: ArgValue::Int(pic_id) });
    args.push(
        CommandArg { key: String::from_str("PicNum"), value: ArgValue::Int(pic_num as i64) },
    );
    args.push(
        CommandArg { key: String::from_str("PicOffset"), value: ArgValue::Int(pic_offset as i64) },
    );
    args.push(CommandArg { key: String::from_str("PicWidth"), value: ArgValue::Int(64) });
    args.push(
        CommandArg { key: String::from_str("PicSpeed"), value: ArgValue::Int(pic_speed as i64) },
    );
    args.push(CommandArg { key: String::from_str("PicData"), value: ArgValue::Text(pic_data) });
    args
}

/// How a planned submission relates to its source frame: offset `i`
/// of `total`, the frame's scaled duration, and its encoded raster.
pub open spec fn plan_matches(
    args: Seq<CommandArg>,
    pic_id: i64,
    total: int,
    i: int,
    frame: DecodedFrame,
    speed: SpeedFactor,
) -> bool {
    submission_matches(
        args,
        pic_id,
        total as u32,
        i as u32,
        spec_frame_duration(frame.delay_ms, speed.permille),
        base64_no_pad(frame.rgb_buffer@),
    )
}

/// Plans a whole animation dispatch: one submission per frame, in
/// strict zero-based order, all under one picture id. Succeeds exactly
/// when every frame holds a full raster; the error names the first
/// frame that does not.
pub fn plan_animation(pic_id: i64, frames: &Vec<DecodedFrame>, speed: SpeedFactor) -> (r: Result<
    Vec<Vec<CommandArg>>,
    String,
>)
    requires
        frames@.len() <= u32::MAX,
    ensures
        match r {
            Ok(plans) => {
                &&& plans@.len() == frames@.len()
                &&& forall|i: int|
                    0 <= i < frames@.len() ==> (#[trigger] frames@[i]).rgb_buffer@.len() == 12288
                &&& forall|i: int|
                    0 <= i < frames@.len() ==> plan_matches(
                        (#[trigger] plans@[i])@,
                        pic_id,
                        frames@.len() as int,
                        i,
                        frames@[i],
                        speed,
                    )
            },
            Err(_) => exists|i: int|
                0 <= i < frames@.len() && (#[trigger] frames@[i]).rgb_buffer@.len() != 12288,
        },
{
    let total = frames.len() as u32;
    let mut plans: Vec<Vec<CommandArg>> = Vec::new();
    let mut i: usize = 0;
    while i < frames.len()
        invariant
            0 <= i <= frames@.len(),
            frames@.len() <= u32::MAX,
            total == frames@.len(),
            plans@.len() == i,
            forall|j: int|
                0 <= j < i ==> (#[trigger] frames@[j]).rgb_buffer@.len() == 12288,
            forall|j: int|
                0 <= j < i ==> plan_matches(
                    (#[trigger] plans@[j])@,
                    pic_id,
                    frames@.len() as int,
                    j,
                    frames@[j],
                    speed,
                ),
        decreases frames@.len() - i,
    {
        let pic_data = match encode_pic_data(frames[i].rgb_buffer.as_slice()) {
            Ok(data) => data,
            Err(m) => {
                return Err(m);
            },
        };
        let pic_speed = frame_duration(frames[i].delay_ms, speed);
        let args = build_frame_args(pic_id, total, i as u32, pic_speed, pic_data);
        plans.push(args);
        i = i + 1;
    }
    Ok(plans)
}

/// Plans the single submission of a uniform fill: offset zero of a
/// one-frame animation, the single-frame duration, and the encoded
/// uniform raster.
pub fn fill_submission(pic_id: i64, red: u8, green: u8, blue: u8) -> (args: Vec<CommandArg>)
    ensures
        submission_matches(
            args@,
            pic_id,
            1u32,
            0u32,
            9999u32,
            base64_no_pad(spec_uniform(red, green, blue)),
        ),
{
    let buffer = uniform_pixel_buffer(red, green, blue);
    let pic_data = match encode_pic_data(buffer.as_slice()) {
        Ok(data) => data,
        Err(_) => {
            // A uniform buffer always has the frame length, so the
            // encoder cannot refuse it.
            proof {
                assert(false);
            }
            String::new()
        },
    };
    build_frame_args(pic_id, 1, 0, SINGLE_FRAME_PIC_SPEED_MS, pic_data)
}

} // verus!
