//! Frame counts the voice activity detector works in: holds, minimum speech, partial
//! cadence and the segment ceiling, each rounded up to whole frames.
use vstd::prelude::*;

verus! {

/// Frames covering `ms` milliseconds (rounded up); no frames for a zero frame length.
pub open spec fn frames_for(ms: u32, frame_duration_ms: u32) -> int {
    if frame_duration_ms == 0 {
        0
    } else {
        (ms as int + frame_duration_ms as int - 1) / frame_duration_ms as int
    }
}

pub fn ceil_frames(ms: u32, frame_duration_ms: u32) -> (r: u32)
    ensures
        r == frames_for(ms, frame_duration_ms),
{
    if frame_duration_ms == 0 {
        return 0;
    }
    let q = (ms as u64 + frame_duration_ms as u64 - 1) / frame_duration_ms as u64;
    assert(q <= ms || q == 0) by (nonlinear_arith)
        requires
            frame_duration_ms >= 1,
            q == (ms as int + frame_duration_ms as int - 1) / frame_duration_ms as int,
    ;
    q as u32
}

pub open spec fn max_u32(a: u32, b: u32) -> u32 {
    if a >= b {
        a
    } else {
        b
    }
}

pub open spec fn at_least_one(n: int) -> int {
    if n >= 1 {
        n
    } else {
        1
    }
}

#[derive(Clone, Copy)]
pub struct VadFrameLimits {
    pub speech_attack_frames: u32,
    pub silence_hold_frames: u32,
    pub finalization_hold_frames: u32,
    pub min_speech_frames: u32,
    pub first_partial_min_speech_frames: u32,
    pub partial_interval_frames: u32,
    pub max_segment_frames: u32,
}

/// Frame limits of a VAD configuration: holds never shorter than a frame (finalization
/// never shorter than the silence hold), the first partial never before the minimum
/// speech, and at least one frame for every cadence.
pub fn vad_frame_limits(
    frame_duration_ms: u32,
    silence_hold_ms: u32,
    finalization_hold_ms: u32,
    min_speech_ms: u32,
    first_partial_min_speech_ms: u32,
    partial_emit_interval_ms: u32,
    max_segment_ms: u32,
    speech_attack_frames: u32,
) -> (r: VadFrameLimits)
    ensures
        r.speech_attack_frames == at_least_one(speech_attack_frames as int),
        r.silence_hold_frames == at_least_one(frames_for(max_u32(silence_hold_ms, frame_duration_ms), frame_duration_ms)),
        r.finalization_hold_frames == at_least_one(
            frames_for(max_u32(finalization_hold_ms, silence_hold_ms), frame_duration_ms),
        ),
        r.min_speech_frames == frames_for(min_speech_ms, frame_duration_ms),
        r.first_partial_min_speech_frames == frames_for(
            max_u32(first_partial_min_speech_ms, min_speech_ms),
            frame_duration_ms,
        ),
        r.partial_interval_frames == at_least_one(
            frames_for(max_u32(partial_emit_interval_ms, frame_duration_ms), frame_duration_ms),
        ),
        r.max_segment_frames == at_least_one(frames_for(max_u32(max_segment_ms, frame_duration_ms), frame_duration_ms)),
{
    let at_least = |n: u32| -> (m: u32)
        ensures
            m == at_least_one(n as int),
        {
            if n >= 1 {
                n
            } else {
                1
            }
        };
    let mx = |a: u32, b: u32| -> (m: u32)
        ensures
            m == max_u32(a, b),
        {
            if a >= b {
                a
            } else {
                b
            }
        };
    VadFrameLimits {
        speech_attack_frames: at_least(speech_attack_frames),
        silence_hold_frames: at_least(ceil_frames(mx(silence_hold_ms, frame_duration_ms), frame_duration_ms)),
        finalization_hold_frames: at_least(ceil_frames(mx(finalization_hold_ms, silence_hold_ms), frame_duration_ms)),
        min_speech_frames: ceil_frames(min_speech_ms, frame_duration_ms),
        first_partial_min_speech_frames: ceil_frames(mx(first_partial_min_speech_ms, min_speech_ms), frame_duration_ms),
        partial_interval_frames: at_least(ceil_frames(mx(partial_emit_interval_ms, frame_duration_ms), frame_duration_ms)),
        max_segment_frames: at_least(ceil_frames(mx(max_segment_ms, frame_duration_ms), frame_duration_ms)),
    }
}

/// Milliseconds covered by `frames` frames.
pub fn frames_duration_ms(frames: usize, frame_duration_ms: u32) -> (r: u32)
    requires
        frames * frame_duration_ms <= u32::MAX,
    ensures
        r == frames * frame_duration_ms,
{
    if frame_duration_ms == 0 {
        return 0;
    }
    assert(frames <= u32::MAX) by (nonlinear_arith)
        requires
            frames * frame_duration_ms <= u32::MAX,
            frame_duration_ms >= 1,
    ;
    (frames as u32) * frame_duration_ms
}

} // verus!
