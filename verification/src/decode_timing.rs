//! Timing of one decode: the stages this crate runs (window preparation, preprocessing)
//! against the model's own transcription time.  The shares of the total are shown as
//! percentages of `total_us` by the caller.
use vstd::prelude::*;

verus! {

/// Samples per second of the audio the model decodes.
pub const DECODE_SAMPLE_RATE: u64 = 16000;

#[derive(Clone, Copy, Debug, PartialEq, Eq)]
pub struct DecodeTimingBreakdown {
    pub audio_samples: u64,
    pub audio_ms: u32,
    /// Cumulative buffer → decode window selection and copy.
    pub prepare_us: u64,
    /// Gain / pre-emphasis / noise gate.
    pub preprocess_us: u64,
    /// The model's whole transcription call.
    pub parakeet_transcribe_us: u64,
    /// prepare + preprocess + transcription (saturating).
    pub total_us: u64,
    /// prepare + preprocess (saturating).
    pub outside_us: u64,
}

pub open spec fn sat(a: int) -> u64 {
    if a > u64::MAX {
        u64::MAX
    } else {
        a as u64
    }
}

/// Milliseconds of `samples` samples at the decode rate, truncated to `u32` as a cast does.
pub open spec fn samples_ms(samples: u64) -> u32 {
    ((samples * 1000 / DECODE_SAMPLE_RATE as int) % 0x1_0000_0000) as u32
}

impl DecodeTimingBreakdown {
    pub fn from_parts(audio_samples: u64, prepare_us: u64, preprocess_us: u64, parakeet_transcribe_us: u64) -> (r: Self)
        requires
            audio_samples * 1000 <= u64::MAX,
        ensures
            r.audio_samples == audio_samples,
            r.audio_ms == samples_ms(audio_samples),
            r.prepare_us == prepare_us,
            r.preprocess_us == preprocess_us,
            r.parakeet_transcribe_us == parakeet_transcribe_us,
            r.outside_us == sat(prepare_us + preprocess_us),
            r.total_us == sat(sat(prepare_us + preprocess_us) + parakeet_transcribe_us),
    {
        let outside_us = prepare_us.saturating_add(preprocess_us);
        let total_us = outside_us.saturating_add(parakeet_transcribe_us);
        let ms = audio_samples * 1000 / DECODE_SAMPLE_RATE;
        let audio_ms = (ms % 0x1_0000_0000) as u32;
        DecodeTimingBreakdown {
            audio_samples,
            audio_ms,
            prepare_us,
            preprocess_us,
            parakeet_transcribe_us,
            total_us,
            outside_us,
        }
    }

    /// Whole milliseconds of the total.
    pub fn total_ms(&self) -> (r: u64)
        ensures
            r == self.total_us / 1000,
    {
        self.total_us / 1000
    }
}

} // verus!
