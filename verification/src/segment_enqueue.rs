//! Delta-audio bookkeeping before ASR decode: how much new audio arrived since the last
//! decode, whether the decode timer elapsed, and which suffix of a segment is new.
use vstd::prelude::*;

use crate::clock::{instant_now, millis_since};
use crate::str_map::StrMap;
use crate::text::{trim, trim_str};

verus! {

/// Minimum buffered audio for a decode: short enough that brief trailing segments (~50 ms) still decode.
pub const DEFAULT_MIN_DECODE_BUFFER_MS: u32 = 50;

pub open spec fn samples_for(ms: u32, sample_rate: u32) -> int {
    (sample_rate as int * ms as int) / 1000
}

/// Samples in `ms` milliseconds at `sample_rate` (rounded down).
pub fn ms_to_samples(ms: u32, sample_rate: u32) -> (r: usize)
    ensures
        r == (samples_for(ms, sample_rate) as usize),
{
    assert(sample_rate as u64 * ms as u64 <= u64::MAX) by (nonlinear_arith);
    (sample_rate as u64 * ms as u64 / 1000) as usize
}

pub struct SegmentAudioEnqueue {
    delta_samples: usize,
    delta_threshold_samples: usize,
    decode_interval_ms: u64,
    last_decode: std::time::Instant,
    min_buffer_samples: usize,
}

/// Decision behind `should_decode`, given the milliseconds since the last decode.
pub open spec fn decode_wanted(
    buffer_samples: int,
    min_buffer: int,
    elapsed_ms: int,
    interval_ms: int,
    speech_active: bool,
    delta: int,
    threshold: int,
) -> bool {
    buffer_samples >= min_buffer && elapsed_ms >= interval_ms && (speech_active || delta
        >= threshold)
}

impl SegmentAudioEnqueue {
    pub closed spec fn delta(&self) -> usize {
        self.delta_samples
    }

    pub closed spec fn threshold(&self) -> usize {
        self.delta_threshold_samples
    }

    pub closed spec fn min_buffer(&self) -> usize {
        self.min_buffer_samples
    }

    pub closed spec fn interval_ms(&self) -> u64 {
        self.decode_interval_ms
    }

    /// The instant of the last decode (or of the last reset), which the timer reads.
    pub closed spec fn last_decode_at(&self) -> std::time::Instant {
        self.last_decode
    }

    pub fn new(delta_ms: u32, decode_interval_ms: u32, sample_rate: u32, min_buffer_ms: u32) -> (r:
        Self)
        ensures
            r.delta() == 0,
            r.threshold() == (samples_for(delta_ms, sample_rate) as usize),
            r.min_buffer() == (samples_for(min_buffer_ms, sample_rate) as usize),
            r.interval_ms() == decode_interval_ms,
    {
        SegmentAudioEnqueue {
            delta_samples: 0,
            delta_threshold_samples: ms_to_samples(delta_ms, sample_rate),
            decode_interval_ms: decode_interval_ms as u64,
            last_decode: instant_now(),
            min_buffer_samples: ms_to_samples(min_buffer_ms, sample_rate),
        }
    }

    pub fn reset(&mut self)
        ensures
            final(self).delta() == 0,
            final(self).threshold() == old(self).threshold(),
            final(self).min_buffer() == old(self).min_buffer(),
            final(self).interval_ms() == old(self).interval_ms(),
    {
        self.delta_samples = 0;
        self.last_decode = instant_now();
    }

    pub fn clear_after_decode(&mut self)
        ensures
            final(self).delta() == 0,
            final(self).threshold() == old(self).threshold(),
            final(self).min_buffer() == old(self).min_buffer(),
            final(self).interval_ms() == old(self).interval_ms(),
    {
        self.delta_samples = 0;
        self.last_decode = instant_now();
    }

    pub fn push_samples(&mut self, count: usize)
        ensures
            final(self).delta() == old(self).delta().saturating_add(count),
            final(self).threshold() == old(self).threshold(),
            final(self).min_buffer() == old(self).min_buffer(),
            final(self).interval_ms() == old(self).interval_ms(),
            final(self).last_decode_at() == old(self).last_decode_at(),
    {
        self.delta_samples = self.delta_samples.saturating_add(count);
    }

    pub fn delta_samples(&self) -> (r: usize)
        ensures
            r == self.delta(),
    {
        self.delta_samples
    }

    pub fn enough_new_audio(&self) -> (r: bool)
        ensures
            r == (self.delta() >= self.threshold()),
    {
        self.delta_samples >= self.delta_threshold_samples
    }

    /// Whether the decode interval has elapsed since the last decode (clock-dependent);
    /// with no interval a decode is always due.
    pub fn decode_due(&self) -> (r: bool)
        ensures
            self.interval_ms() == 0 ==> r,
    {
        millis_since(&self.last_decode) >= self.decode_interval_ms as u128
    }

    /// `should_decode` for a given time since the last decode.
    pub fn should_decode_after(&self, elapsed_ms: u128, buffer_samples: usize, speech_active: bool) -> (r: bool)
        ensures
            r == decode_wanted(
                buffer_samples as int,
                self.min_buffer() as int,
                elapsed_ms as int,
                self.interval_ms() as int,
                speech_active,
                self.delta() as int,
                self.threshold() as int,
            ),
    {
        if buffer_samples < self.min_buffer_samples {
            return false;
        }
        elapsed_ms >= self.decode_interval_ms as u128 && (speech_active || self.enough_new_audio())
    }

    /// Decode when the buffer holds the minimum, the timer elapsed, and speech is active or
    /// enough new audio arrived.
    pub fn should_decode(&self, buffer_samples: usize, speech_active: bool) -> (r: bool)
        ensures
            r ==> buffer_samples >= self.min_buffer() && (speech_active || self.delta()
                >= self.threshold()),
            buffer_samples < self.min_buffer() ==> !r,
            self.interval_ms() == 0 ==> r == (buffer_samples >= self.min_buffer() && (speech_active
                || self.delta() >= self.threshold())),
    {
        let elapsed = millis_since(&self.last_decode);
        self.should_decode_after(elapsed, buffer_samples, speech_active)
    }
}

/// Result of slicing a segment's audio: the new suffix, whether to skip it, and where the
/// tracker for the segment stands afterwards.
pub open spec fn delta_start(prev: Option<usize>, started_now: bool, total: int) -> int {
    let p: int = if started_now {
        0
    } else {
        match prev {
            Some(v) => v as int,
            None => 0,
        }
    };
    if p > total {
        0
    } else {
        p
    }
}

/// Returns only the suffix of `segment_audio` not yet enqueued for `segment_id` (trimmed),
/// and whether it is empty; records the full length as enqueued.  A blank id returns the
/// whole clip without tracking.
pub fn slice_segment_audio_delta<S: Copy>(
    segment_audio: &[S],
    segment_id: &str,
    started_now: bool,
    queued_sample_len_by_segment: &mut StrMap<usize>,
) -> (r: (Vec<S>, bool))
    requires
        old(queued_sample_len_by_segment).wf(),
    ensures
        final(queued_sample_len_by_segment).wf(),
        trim(segment_id@).len() == 0 ==> r.0@ == segment_audio@ && r.1 == (segment_audio@.len()
            == 0) && final(queued_sample_len_by_segment)@ == old(queued_sample_len_by_segment)@,
        trim(segment_id@).len() > 0 ==> ({
            let start = delta_start(
                if old(queued_sample_len_by_segment)@.dom().contains(trim(segment_id@)) {
                    Some(old(queued_sample_len_by_segment)@[trim(segment_id@)])
                } else {
                    None
                },
                started_now,
                segment_audio@.len() as int,
            );
            &&& r.0@ == segment_audio@.subrange(start, segment_audio@.len() as int)
            &&& r.1 == (start == segment_audio@.len())
            &&& final(queued_sample_len_by_segment)@ == old(queued_sample_len_by_segment)@.insert(
                trim(segment_id@),
                segment_audio@.len() as usize,
            )
        }),
{
    let key = trim_str(segment_id);
    if key.as_str().is_empty() {
        let all = copy_range(segment_audio, 0);
        let empty = segment_audio.len() == 0;
        return (all, empty);
    }
    let total = segment_audio.len();
    let previous: usize = if started_now {
        0
    } else {
        match queued_sample_len_by_segment.get(key.as_str()) {
            Some(v) => *v,
            None => 0,
        }
    };
    let start = if previous > total { 0 } else { previous };
    let delta = copy_range(segment_audio, start);
    let skip = delta.len() == 0;
    queued_sample_len_by_segment.insert(key, total);
    (delta, skip)
}

fn copy_range<S: Copy>(a: &[S], start: usize) -> (r: Vec<S>)
    requires
        start <= a@.len(),
    ensures
        r@ == a@.subrange(start as int, a@.len() as int),
{
    let mut out: Vec<S> = Vec::new();
    let mut i = start;
    while i < a.len()
        invariant
            start <= i <= a@.len(),
            out@ == a@.subrange(start as int, i as int),
        decreases a.len() - i,
    {
        out.push(a[i]);
        i = i + 1;
        assert(out@ =~= a@.subrange(start as int, i as int));
    }
    out
}

/// Forgets the enqueue tracker of one segment (trimmed id), or of all segments.
pub fn clear_segment_audio_enqueue_state(
    queued_sample_len_by_segment: &mut StrMap<usize>,
    segment_id: Option<&str>,
)
    requires
        old(queued_sample_len_by_segment).wf(),
    ensures
        final(queued_sample_len_by_segment).wf(),
        match segment_id {
            Some(id) => if trim(id@).len() > 0 {
                final(queued_sample_len_by_segment)@ == old(queued_sample_len_by_segment)@.remove(
                    trim(id@),
                )
            } else {
                final(queued_sample_len_by_segment)@ == Map::<Seq<char>, usize>::empty()
            },
            None => final(queued_sample_len_by_segment)@ == Map::<Seq<char>, usize>::empty(),
        },
{
    match segment_id {
        Some(id) => {
            let key = trim_str(id);
            if key.as_str().is_empty() {
                queued_sample_len_by_segment.clear();
            } else {
                queued_sample_len_by_segment.remove(key.as_str());
            }
        },
        None => queued_sample_len_by_segment.clear(),
    }
}

} // verus!
