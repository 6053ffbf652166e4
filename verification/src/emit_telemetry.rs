//! Live emit counters for Local ASR diagnostics.
//!
//! The counters are plain fields updated through `&mut self`; a caller that shares one
//! set between threads puts it behind a lock.  Counters wrap at `u64::MAX` as atomic
//! `fetch_add` does.
use vstd::prelude::*;

use crate::emit_policy::PipelineEmit;
use crate::text::views;

verus! {

pub struct EmitTelemetry {
    pub partial_emits: u64,
    pub final_emits: u64,
    /// Partials that revised text without adding words (same length, different tokens).
    pub revision_emits: u64,
    /// Speech duration (ms) at the first partial of the last segment that had one.
    pub last_first_partial_ms: u64,
    /// Speech duration (ms) at the last final.
    pub last_final_ms: u64,
    /// Whether the current segment already had a partial.
    pub had_partial_this_segment: bool,
}

/// Counters as reported: zero latencies read as "not observed yet".
pub struct EmitTelemetrySnapshot {
    pub partial_emits: u64,
    pub final_emits: u64,
    pub revision_emits: u64,
    pub last_first_partial_ms: Option<u32>,
    pub last_final_ms: Option<u32>,
}

/// `None` for zero, else the value saturated to `u32`.
pub open spec fn nonzero_u32_spec(value: u64) -> Option<u32> {
    if value == 0 {
        None
    } else if value > u32::MAX {
        Some(u32::MAX)
    } else {
        Some(value as u32)
    }
}

pub fn nonzero_u32(value: u64) -> (r: Option<u32>)
    ensures
        r == nonzero_u32_spec(value),
{
    if value == 0 {
        None
    } else if value > 4294967295u64 {
        Some(4294967295u32)
    } else {
        Some(value as u32)
    }
}

/// A partial that keeps the word count of a non-empty previous partial but changes a word.
pub open spec fn revision_without_growth(prev: Seq<Seq<char>>, next: Seq<Seq<char>>) -> bool {
    prev.len() > 0 && prev.len() == next.len() && prev != next
}

pub fn is_revision_without_growth(previous_words: &Vec<String>, next_words: &Vec<String>) -> (r: bool)
    ensures
        r == revision_without_growth(views(previous_words@), views(next_words@)),
{
    let ghost p = views(previous_words@);
    let ghost q = views(next_words@);
    if previous_words.len() == 0 || previous_words.len() != next_words.len() {
        return false;
    }
    let mut i: usize = 0;
    while i < previous_words.len()
        invariant
            p == views(previous_words@),
            q == views(next_words@),
            previous_words.len() == next_words.len(),
            i <= previous_words.len(),
            forall|k: int| 0 <= k < i ==> #[trigger] p[k] == q[k],
        decreases previous_words.len() - i,
    {
        let same = crate::text::str_eq(previous_words[i].as_str(), next_words[i].as_str());
        proof {
            assert(p[i as int] == previous_words@[i as int]@);
            assert(q[i as int] == next_words@[i as int]@);
        }
        if !same {
            return true;
        }
        i = i + 1;
    }
    assert(p =~= q);
    false
}

impl EmitTelemetry {
    pub fn new_shared() -> (r: Self)
        ensures
            r.partial_emits == 0,
            r.final_emits == 0,
            r.revision_emits == 0,
            r.last_first_partial_ms == 0,
            r.last_final_ms == 0,
            !r.had_partial_this_segment,
    {
        EmitTelemetry {
            partial_emits: 0,
            final_emits: 0,
            revision_emits: 0,
            last_first_partial_ms: 0,
            last_final_ms: 0,
            had_partial_this_segment: false,
        }
    }

    pub fn reset(&mut self)
        ensures
            final(self).partial_emits == 0,
            final(self).final_emits == 0,
            final(self).revision_emits == 0,
            final(self).last_first_partial_ms == 0,
            final(self).last_final_ms == 0,
            !final(self).had_partial_this_segment,
    {
        self.partial_emits = 0;
        self.final_emits = 0;
        self.revision_emits = 0;
        self.last_first_partial_ms = 0;
        self.last_final_ms = 0;
        self.had_partial_this_segment = false;
    }

    pub fn snapshot(&self) -> (r: EmitTelemetrySnapshot)
        ensures
            r.partial_emits == self.partial_emits,
            r.final_emits == self.final_emits,
            r.revision_emits == self.revision_emits,
            r.last_first_partial_ms == nonzero_u32_spec(self.last_first_partial_ms),
            r.last_final_ms == nonzero_u32_spec(self.last_final_ms),
    {
        EmitTelemetrySnapshot {
            partial_emits: self.partial_emits,
            final_emits: self.final_emits,
            revision_emits: self.revision_emits,
            last_first_partial_ms: nonzero_u32(self.last_first_partial_ms),
            last_final_ms: nonzero_u32(self.last_final_ms),
        }
    }

    /// Counts one emit.  `previous_words` and `next_words` are the words of the previous
    /// partial of the segment and of `emit.text`, as the transcript normalizer splits them.
    pub fn record_emit(
        &mut self,
        emit: &PipelineEmit,
        previous_words: &Vec<String>,
        next_words: &Vec<String>,
        segment_speech_ms: u32,
    )
        ensures
            emit.is_final ==> {
                &&& final(self).final_emits == old(self).final_emits.wrapping_add(1)
                &&& final(self).last_final_ms == if segment_speech_ms > 0 {
                    segment_speech_ms as u64
                } else {
                    old(self).last_final_ms
                }
                &&& !final(self).had_partial_this_segment
                &&& final(self).partial_emits == old(self).partial_emits
                &&& final(self).revision_emits == old(self).revision_emits
                &&& final(self).last_first_partial_ms == old(self).last_first_partial_ms
            },
            !emit.is_final ==> {
                &&& final(self).partial_emits == old(self).partial_emits.wrapping_add(1)
                &&& final(self).last_first_partial_ms == if !old(self).had_partial_this_segment && segment_speech_ms > 0 {
                    segment_speech_ms as u64
                } else {
                    old(self).last_first_partial_ms
                }
                &&& final(self).had_partial_this_segment
                &&& final(self).revision_emits == if revision_without_growth(views(previous_words@), views(next_words@)) {
                    old(self).revision_emits.wrapping_add(1)
                } else {
                    old(self).revision_emits
                }
                &&& final(self).final_emits == old(self).final_emits
                &&& final(self).last_final_ms == old(self).last_final_ms
            },
    {
        if emit.is_final {
            self.final_emits = self.final_emits.wrapping_add(1);
            if segment_speech_ms > 0 {
                self.last_final_ms = segment_speech_ms as u64;
            }
            self.had_partial_this_segment = false;
            return;
        }
        self.partial_emits = self.partial_emits.wrapping_add(1);
        let had = self.had_partial_this_segment;
        self.had_partial_this_segment = true;
        if !had && segment_speech_ms > 0 {
            self.last_first_partial_ms = segment_speech_ms as u64;
        }
        if is_revision_without_growth(previous_words, next_words) {
            self.revision_emits = self.revision_emits.wrapping_add(1);
        }
    }
}

} // verus!
