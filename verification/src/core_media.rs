use vstd::prelude::*;

use crate::error::VideoError;
use crate::text::{decimal_text, push_decimal};

verus! {

/// The flag that marks a media time as valid.
pub const K_CM_TIME_FLAGS_VALID: u32 = 1u32;

/// A media time: `value / timescale` seconds, with flags and an epoch.
#[derive(Debug, Clone, Copy, PartialEq, Eq, Structural)]
pub struct CMTime {
    pub value: i64,
    pub timescale: i32,
    pub flags: u32,
    pub epoch: i64,
}

/// The timing of one video sample.
#[derive(Debug, Clone, Copy, PartialEq, Eq, Structural)]
pub struct CMSampleTimingInfo {
    pub duration: CMTime,
    pub presentation_time_stamp: CMTime,
    pub decode_time_stamp: CMTime,
}

/// The frame rate at which samples are stamped.
pub const SAMPLE_TIMESCALE: i32 = 60i32;

/// A valid media time of `value / timescale` seconds.
pub fn cm_time(value: i64, timescale: i32) -> (t: CMTime)
    ensures
        t == (CMTime { value, timescale, flags: K_CM_TIME_FLAGS_VALID, epoch: 0 }),
{
    CMTime { value, timescale, flags: K_CM_TIME_FLAGS_VALID, epoch: 0 }
}

/// The invalid media time (no flags set).
pub fn cm_time_invalid() -> (t: CMTime)
    ensures
        t == (CMTime { value: 0, timescale: 0, flags: 0, epoch: 0 }),
{
    CMTime { value: 0, timescale: 0, flags: 0, epoch: 0 }
}

/// The timing of the sample numbered `pts`: one frame long at 60 frames a
/// second, presented at frame `pts`, with no decode time stamp.
pub fn sample_timing(pts: i64) -> (t: CMSampleTimingInfo)
    ensures
        t.duration == (CMTime { value: 1, timescale: SAMPLE_TIMESCALE, flags: K_CM_TIME_FLAGS_VALID, epoch: 0 }),
        t.presentation_time_stamp == (CMTime { value: pts, timescale: SAMPLE_TIMESCALE, flags: K_CM_TIME_FLAGS_VALID, epoch: 0 }),
        t.decode_time_stamp == (CMTime { value: 0, timescale: 0, flags: 0, epoch: 0 }),
{
    CMSampleTimingInfo {
        duration: cm_time(1, SAMPLE_TIMESCALE),
        presentation_time_stamp: cm_time(pts, SAMPLE_TIMESCALE),
        decode_time_stamp: cm_time_invalid(),
    }
}

/// The message for a failed Core Media call.
pub open spec fn status_message(action: Seq<char>, status: i32) -> Seq<char> {
    action + " failed with OSStatus "@ + decimal_text(status as int)
}

/// Turns the status of a Core Media call into a result: zero is success, any
/// other status fails `action`.
pub fn core_media_check(status: i32, action: &str) -> (res: Result<(), VideoError>)
    ensures
        status == 0 ==> res is Ok,
        status != 0 ==> (res matches Err(e) && e.message@ == status_message(action@, status)),
{
    if status == 0 {
        Ok(())
    } else {
        let mut message = String::from_str(action);
        message.append(" failed with OSStatus ");
        push_decimal(&mut message, status as i64);
        Err(VideoError::from_message(message))
    }
}

/// Refuses an empty payload, which cannot become a video sample.
pub fn check_sample_payload(payload: &[u8]) -> (res: Result<(), VideoError>)
    ensures
        payload@.len() > 0 ==> res is Ok,
        payload@.len() == 0 ==> (res matches Err(e) && e.message@ == "empty video payload"@),
{
    if payload.len() == 0 {
        Err(VideoError::new("empty video payload"))
    } else {
        Ok(())
    }
}

} // verus!
