//! Decode worker bookkeeping: the cumulative audio of every segment, rebuilt from the
//! jobs the worker takes (delta jobs extend it, full jobs replace it), which is what each
//! decode re-transcribes.  The model run and the worker thread are the caller's part.
use vstd::prelude::*;

use crate::asr_segment_queue::{AsrWorkItem, AsrWorkKind};
use crate::segment_enqueue::delta_start;
use crate::str_map::StrMap;
use crate::text::to_owned_string;

verus! {

/// A segment's cumulative audio after one job: delta audio is appended, non-empty full
/// audio replaces it, an empty full job leaves it.
pub open spec fn absorbed<S>(current: Seq<S>, audio: Seq<S>, audio_is_delta: bool) -> Seq<S> {
    if audio_is_delta {
        current + audio
    } else if audio.len() > 0 {
        audio
    } else {
        current
    }
}

pub open spec fn current_of<S>(m: Map<Seq<char>, Vec<S>>, id: Seq<char>) -> Seq<S> {
    if m.dom().contains(id) {
        m[id]@
    } else {
        Seq::empty()
    }
}

pub struct CumulativeAudio<S> {
    segments: StrMap<Vec<S>>,
}

impl<S: Copy> CumulativeAudio<S> {
    /// Cumulative audio per segment id.
    pub closed spec fn audio(&self) -> Map<Seq<char>, Vec<S>> {
        self.segments@
    }

    pub closed spec fn wf(&self) -> bool {
        self.segments.wf()
    }

    pub fn new() -> (r: Self)
        ensures
            r.wf(),
            r.audio() == Map::<Seq<char>, Vec<S>>::empty(),
    {
        CumulativeAudio { segments: StrMap::new() }
    }

    /// Takes a job's audio into its segment and returns the audio to decode.
    pub fn absorb(&mut self, segment_id: &str, audio: &[S], audio_is_delta: bool) -> (r: Vec<S>)
        requires
            old(self).wf(),
        ensures
            final(self).wf(),
            r@ == absorbed(current_of(old(self).audio(), segment_id@), audio@, audio_is_delta),
            final(self).audio().dom() == old(self).audio().dom().insert(segment_id@),
            final(self).audio()[segment_id@]@ == r@,
            forall|k: Seq<char>|
                k != segment_id@ && old(self).audio().dom().contains(k) ==> final(self).audio()[k]
                    == old(self).audio()[k],
    {
        let mut current: Vec<S> = match self.segments.get(segment_id) {
            Some(v) => copy_all(v.as_slice()),
            None => Vec::new(),
        };
        let ghost c0 = current@;
        if audio_is_delta {
            let mut i: usize = 0;
            while i < audio.len()
                invariant
                    i <= audio.len(),
                    current@ == c0 + audio@.take(i as int),
                decreases audio.len() - i,
            {
                current.push(audio[i]);
                assert(audio@.take(i + 1) =~= audio@.take(i as int).push(audio@[i as int]));
                i = i + 1;
            }
            assert(audio@.take(audio.len() as int) =~= audio@);
        } else if audio.len() > 0 {
            current = copy_all(audio);
        }
        let out = copy_all(current.as_slice());
        self.segments.insert(to_owned_string(segment_id), current);
        out
    }

    /// Forgets a segment's audio (after its final decode).
    pub fn clear_segment(&mut self, segment_id: &str)
        requires
            old(self).wf(),
        ensures
            final(self).wf(),
            final(self).audio() == old(self).audio().remove(segment_id@),
    {
        self.segments.remove(segment_id);
    }

    /// The worker's step for a job: jobs of an older runtime generation are skipped
    /// (`None`); otherwise the segment's cumulative audio to decode.
    pub fn begin_job(&mut self, item: &AsrWorkItem<S>, current_generation: u64) -> (r: Option<Vec<S>>)
        requires
            old(self).wf(),
        ensures
            final(self).wf(),
            item.generation != current_generation ==> r is None && final(self).audio() == old(self).audio(),
            item.generation == current_generation ==> r is Some && r->0@ == absorbed(
                current_of(old(self).audio(), item.segment_id@),
                item.audio@,
                item.audio_is_delta,
            ) && final(self).audio()[item.segment_id@]@ == r->0@,
    {
        if item.generation != current_generation {
            return None;
        }
        Some(self.absorb(item.segment_id.as_str(), item.audio.as_slice(), item.audio_is_delta))
    }

    /// After a job's decode: a final forgets its segment.
    pub fn end_job(&mut self, item: &AsrWorkItem<S>)
        requires
            old(self).wf(),
        ensures
            final(self).wf(),
            final(self).audio() == if item.kind == AsrWorkKind::Final {
                old(self).audio().remove(item.segment_id@)
            } else {
                old(self).audio()
            },
    {
        if item.kind == AsrWorkKind::Final {
            self.clear_segment(item.segment_id.as_str());
        }
    }
}

fn copy_all<S: Copy>(a: &[S]) -> (r: Vec<S>)
    ensures
        r@ == a@,
{
    let mut out: Vec<S> = Vec::new();
    let mut i: usize = 0;
    while i < a.len()
        invariant
            i <= a.len(),
            out@ == a@.take(i as int),
        decreases a.len() - i,
    {
        out.push(a[i]);
        assert(a@.take(i + 1) =~= a@.take(i as int).push(a@[i as int]));
        i = i + 1;
    }
    assert(a@.take(a.len() as int) =~= a@);
    out
}

/// Decoded text, absent when empty.
pub fn non_empty_text(text: String) -> (r: Option<String>)
    ensures
        text@.len() == 0 ==> r is None,
        text@.len() > 0 ==> r == Some(text),
{
    if text.as_str().is_empty() {
        None
    } else {
        Some(text)
    }
}

/// Law: streaming decode loses no audio.  When the worker holds the first `k` samples of a
/// growing segment clip and the pipeline's tracker says `k` were queued, the delta the
/// pipeline slices, appended by the worker, rebuilds the whole clip.
pub proof fn law_delta_rebuilds_segment<S>(clip: Seq<S>, k: usize)
    requires
        k <= clip.len(),
    ensures
        ({
            let start = delta_start(Some(k), false, clip.len() as int);
            absorbed(clip.take(k as int), clip.subrange(start, clip.len() as int), true) == clip
        }),
{
    assert(clip.take(k as int) + clip.subrange(k as int, clip.len() as int) =~= clip);
}

} // verus!
