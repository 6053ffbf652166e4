//! Realtime pipeline decisions: VAD segments become decode jobs (paced partials, delta or
//! full audio), and decode results become partial / final emits (stale generations and
//! silence hallucinations dropped, duplicated halves collapsed, clipped finals repaired).
//!
//! Voice activity detection, audio preprocessing and the model run outside; they hand in
//! segments and decoded (normalized) text.  The decode queue and the runtime generation
//! are passed in by the caller that shares them with the decode worker.
use vstd::prelude::*;
use vstd::string::StringSliceAdditionalSpecFns;

use crate::asr_segment_queue::{after_push, AsrSegmentQueue, AsrWorkItem, AsrWorkKind, AsrWorkView, RuntimeGeneration};
use crate::config::LocalAsrConfig;
use crate::decode_pacing::{adaptive_interval, adaptive_partial_decode_interval_ms, DecodePacer, LastDecodeMs};
use crate::emit_policy::{dedupe_repeated_transcript, deduped, prefer_final_text, preferred_final, PipelineEmit};
use crate::hallucination_filter::{accepts, drops_short_hallucination, HallucinationFilter, HallucinationFilterConfig};
use crate::realtime_settings::{resolves, ResolvedRealtimeSettings};
use crate::segment_enqueue::{clear_segment_audio_enqueue_state, delta_start, slice_segment_audio_delta};
use crate::segment_state::{tracking_id, tracking_starts, SegmentStateController};
use crate::str_map::StrMap;
use crate::test_session::SAMPLE_RATE;
use crate::text::{normalize_ws, trim};

verus! {

#[derive(Debug, PartialEq, Eq, Structural, Clone, Copy)]
pub enum VadSegmentKind {
    Partial,
    Final,
}

/// A speech segment cut by voice activity detection: the whole segment audio so far.
pub struct VadSegment<S> {
    pub kind: VadSegmentKind,
    pub audio: Vec<S>,
    pub duration_ms: u32,
}

/// What became of a segment handed to the pipeline.
#[derive(Debug, PartialEq, Eq, Structural, Clone, Copy)]
pub enum EnqueueOutcome {
    /// A partial came sooner than the pacing interval allows.
    Paced,
    /// A streaming partial brought no audio beyond what was already queued.
    NoNewAudio,
    Enqueued,
}

/// A decode result that passed the filters, waiting for the partial-emit gate.
pub struct PendingEmit {
    pub segment_id: String,
    pub revision: u64,
    pub text: String,
    pub is_final: bool,
    pub is_speech: bool,
}

/// Milliseconds of audio in `samples` samples at the model rate (truncated to `u32`).
pub open spec fn duration_ms_of(samples: nat) -> u32 {
    ((samples * 1000) / (SAMPLE_RATE as nat)) as u32
}

pub fn segment_duration_ms(samples: usize) -> (r: u32)
    requires
        samples * 1000 <= u64::MAX,
    ensures
        r == duration_ms_of(samples as nat),
{
    ((samples as u64 * 1000) / (SAMPLE_RATE as u64)) as u32
}

pub open spec fn lookup(m: Map<Seq<char>, usize>, k: Seq<char>) -> Option<usize> {
    if m.dom().contains(k) {
        Some(m[k])
    } else {
        None
    }
}

/// The tracker map once a segment id is forgotten (every entry, for a blank id).
pub open spec fn forget(m: Map<Seq<char>, usize>, id: Seq<char>) -> Map<Seq<char>, usize> {
    if trim(id).len() > 0 {
        m.remove(trim(id))
    } else {
        Map::empty()
    }
}

/// `(delta audio, nothing new, tracker map)` after slicing `audio` for `id`.
pub open spec fn sliced<S>(audio: Seq<S>, id: Seq<char>, started: bool, m: Map<Seq<char>, usize>) -> (Seq<S>, bool, Map<Seq<char>, usize>) {
    if trim(id).len() == 0 {
        (audio, audio.len() == 0, m)
    } else {
        let start = delta_start(lookup(m, trim(id)), started, audio.len() as int);
        (audio.subrange(start, audio.len() as int), start == audio.len(), m.insert(trim(id), audio.len() as usize))
    }
}

pub open spec fn work_kind(kind: VadSegmentKind) -> AsrWorkKind {
    match kind {
        VadSegmentKind::Partial => AsrWorkKind::Partial,
        VadSegmentKind::Final => AsrWorkKind::Final,
    }
}

/// Text of a decode result after the transcript clean-ups: duplicated halves collapse, and a
/// final that clips the segment's last (non-empty) partial keeps the partial.
pub open spec fn cleaned_text(raw: Seq<char>, is_final: bool, last_partial: Seq<char>) -> Seq<char> {
    let d = deduped(raw);
    if is_final && last_partial.len() > 0 {
        preferred_final(
            last_partial,
            vstd::utf8::encode_utf8(last_partial).len() as usize,
            d,
            vstd::utf8::encode_utf8(d).len() as usize,
        )
    } else {
        d
    }
}

pub struct RealtimePipeline<S> {
    settings: ResolvedRealtimeSettings,
    vad_enabled: bool,
    segment_state: SegmentStateController,
    queued_sample_len: StrMap<usize>,
    hallucination: HallucinationFilter,
    disabled_vad_audio: Vec<S>,
    disabled_segment_id: String,
    decode_pacer: DecodePacer,
    last_decode_ms: LastDecodeMs,
}

impl<S: Copy> RealtimePipeline<S> {
    pub closed spec fn settings(&self) -> ResolvedRealtimeSettings {
        self.settings
    }

    pub closed spec fn vad_on(&self) -> bool {
        self.vad_enabled
    }

    pub closed spec fn state(&self) -> SegmentStateController {
        self.segment_state
    }

    /// Samples already queued per segment (streaming decode).
    pub closed spec fn queued(&self) -> Map<Seq<char>, usize> {
        self.queued_sample_len@
    }

    pub closed spec fn filter(&self) -> HallucinationFilter {
        self.hallucination
    }

    pub closed spec fn disabled_audio(&self) -> Seq<S> {
        self.disabled_vad_audio@
    }

    pub closed spec fn disabled_id(&self) -> Seq<char> {
        self.disabled_segment_id@
    }

    pub closed spec fn last_decode(&self) -> u64 {
        self.last_decode_ms.ms()
    }

    /// The interval that gated the last partial let through since the segment opened (0
    /// when none was).
    pub closed spec fn pace_interval(&self) -> u32 {
        self.decode_pacer.last_interval()
    }

    pub closed spec fn wf(&self) -> bool {
        &&& self.segment_state.wf()
        &&& self.queued_sample_len.wf()
    }

    pub fn new(config: &LocalAsrConfig) -> (r: Self)
        ensures
            r.wf(),
            resolves(*config, r.settings()),
            r.vad_on() == config.vad.enabled,
            r.state().active() is None,
            r.state().counter() == 0,
            r.state().partial_texts() == Map::<Seq<char>, String>::empty(),
            r.queued() == Map::<Seq<char>, usize>::empty(),
            r.filter().enabled() == config.recognition.hallucination_filter_enabled,
            r.filter().min_chars_when_silent() == config.recognition.hallucination_min_chars,
            r.filter().cooldown_ms() == config.recognition.hallucination_cooldown_ms,
            !r.filter().has_rejected(),
            r.disabled_audio() == Seq::<S>::empty(),
            r.disabled_id().len() == 0,
            r.last_decode() == 0,
            r.pace_interval() == 0,
    {
        let settings = ResolvedRealtimeSettings::from_config(config);
        let r = RealtimePipeline {
            settings,
            vad_enabled: config.vad.enabled,
            segment_state: SegmentStateController::default(),
            queued_sample_len: StrMap::new(),
            hallucination: HallucinationFilter::new(HallucinationFilterConfig::from_recognition(&config.recognition)),
            disabled_vad_audio: Vec::new(),
            disabled_segment_id: String::new(),
            decode_pacer: DecodePacer::default(),
            last_decode_ms: LastDecodeMs::new(),
        };
        assert(r.disabled_audio() =~= Seq::<S>::empty());
        r
    }

    pub fn chunk_window_ms(&self) -> (r: u32)
        ensures
            r == self.settings().window_ms,
    {
        self.settings.window_ms
    }

    pub fn last_decode_ms(&self) -> (r: u64)
        ensures
            r == self.last_decode(),
    {
        self.last_decode_ms.load()
    }

    /// Records the wall time of the last successful decode (it stretches partial pacing).
    pub fn store_last_decode_ms(&mut self, ms: u64)
        ensures
            final(self).last_decode() == ms,
            final(self).wf() == old(self).wf(),
            final(self).state() == old(self).state(),
            final(self).queued() == old(self).queued(),
            final(self).settings() == old(self).settings(),
    {
        self.last_decode_ms.store(ms);
    }

    /// Turns a VAD segment into a decode job.  The segment continues the active one (or
    /// starts `segment-<n>`); partials are paced by the adaptive interval, and a streaming
    /// partial carries only the audio not queued yet (nothing when there is none).  Finals
    /// are always queued and close the segment.
    pub fn enqueue_vad_capture_segment(
        &mut self,
        queue: &mut AsrSegmentQueue<S>,
        generation: &RuntimeGeneration,
        segment: VadSegment<S>,
    ) -> (r: EnqueueOutcome)
        requires
            old(self).wf(),
            old(queue).wf(),
            segment.kind == VadSegmentKind::Partial ==> old(self).settings().decode_interval_ms <= 3000,
        ensures
            final(self).wf(),
            final(queue).wf(),
            final(queue).capacity() == old(queue).capacity(),
            final(self).settings() == old(self).settings(),
            final(self).last_decode() == old(self).last_decode(),
            ({
                let st = old(self).state();
                let id = tracking_id(st.active(), st.counter(), None);
                let started = tracking_starts(st.active(), None);
                let rev = if started { 1 } else { st.revision().wrapping_add(1) };
                let is_final = segment.kind == VadSegmentKind::Final;
                let streaming = old(self).settings().streaming_decode;
                let m1 = if started { forget(old(self).queued(), id) } else { old(self).queued() };
                let (delta, nothing_new, m2) = sliced(segment.audio@, id, started, m1);
                let item = AsrWorkView {
                    kind: work_kind(segment.kind),
                    audio: if streaming { delta } else { segment.audio@ },
                    duration_ms: segment.duration_ms,
                    generation: generation.value(),
                    segment_id: id,
                    revision: rev,
                    audio_is_delta: streaming,
                };
                &&& is_final ==> r == EnqueueOutcome::Enqueued
                &&& r != EnqueueOutcome::Paced ==> r == if !is_final && streaming && nothing_new {
                    EnqueueOutcome::NoNewAudio
                } else {
                    EnqueueOutcome::Enqueued
                }
                &&& r == EnqueueOutcome::Paced ==> final(self).queued() == m1
                &&& r == EnqueueOutcome::NoNewAudio ==> final(self).queued() == m2
                &&& r == EnqueueOutcome::Enqueued ==> final(self).queued() == if is_final {
                    forget(if streaming { m2 } else { m1 }, id)
                } else if streaming {
                    m2
                } else {
                    m1
                }
                &&& r == EnqueueOutcome::Enqueued ==> final(queue).jobs() == after_push(
                    old(queue).jobs(),
                    old(queue).capacity(),
                    item,
                )
                &&& r != EnqueueOutcome::Enqueued ==> final(queue).jobs() == old(queue).jobs()
                &&& final(self).state().active() == if is_final { None } else { Some(id) }
                &&& !is_final ==> final(self).state().revision() == rev
                &&& is_final ==> final(self).pace_interval() == 0
                &&& !is_final && r != EnqueueOutcome::Paced ==> final(self).pace_interval() == adaptive_interval(
                    old(self).settings().decode_interval_ms,
                    segment.duration_ms,
                    old(self).last_decode(),
                )
                &&& r == EnqueueOutcome::Paced ==> final(self).pace_interval() == if started {
                    0
                } else {
                    old(self).pace_interval()
                }
                &&& final(self).state().partial_texts() == if started && st.active() is Some && trim(
                    st.active()->0,
                ).len() > 0 {
                    st.partial_texts().remove(st.active()->0)
                } else {
                    st.partial_texts()
                }
            }),
    {
        let is_final = segment.kind == VadSegmentKind::Final;
        let (segment_id, revision, started_now, previous) = self.segment_state.assign_segment_tracking(None);
        match &previous {
            Some(prev) => {
                self.segment_state.clear_partial_tracking_for_segment(Some(prev.as_str()));
            },
            None => {},
        }
        if started_now {
            clear_segment_audio_enqueue_state(&mut self.queued_sample_len, Some(segment_id.as_str()));
            self.decode_pacer.reset_for_new_segment();
        }
        if !is_final {
            let interval_ms = adaptive_partial_decode_interval_ms(
                self.settings.decode_interval_ms,
                segment.duration_ms,
                self.last_decode_ms.load(),
            );
            if !self.decode_pacer.allow_partial(interval_ms) {
                return EnqueueOutcome::Paced;
            }
        }
        let streaming = self.settings.streaming_decode;
        let kind = if is_final {
            AsrWorkKind::Final
        } else {
            AsrWorkKind::Partial
        };
        let duration_ms = segment.duration_ms;
        let enqueue_audio = if streaming {
            let (delta, skip) = slice_segment_audio_delta(
                segment.audio.as_slice(),
                segment_id.as_str(),
                started_now,
                &mut self.queued_sample_len,
            );
            if !is_final && skip {
                return EnqueueOutcome::NoNewAudio;
            }
            delta
        } else {
            segment.audio
        };
        let mut item = AsrWorkItem::new(
            kind,
            enqueue_audio,
            duration_ms,
            generation.current(),
            segment_id.clone(),
            revision,
        );
        item.audio_is_delta = streaming;
        queue.push(item);
        if is_final {
            clear_segment_audio_enqueue_state(&mut self.queued_sample_len, Some(segment_id.as_str()));
            self.segment_state.clear_active_segment();
            self.decode_pacer.reset_for_new_segment();
        }
        EnqueueOutcome::Enqueued
    }

    /// Appends captured audio while VAD is off; the first audio opens a segment.  An empty
    /// chunk changes nothing.
    pub fn push_samples_vad_disabled(&mut self, samples: &[S])
        requires
            old(self).wf(),
        ensures
            final(self).wf(),
            final(self).disabled_audio() == old(self).disabled_audio() + samples@,
            final(self).settings() == old(self).settings(),
            final(self).queued() == old(self).queued(),
            final(self).last_decode() == old(self).last_decode(),
            old(self).disabled_id().len() > 0 || samples@.len() == 0 ==> final(self).disabled_id() == old(
                self,
            ).disabled_id() && final(self).state() == old(self).state(),
            old(self).disabled_id().len() == 0 && samples@.len() > 0 ==> final(self).disabled_id() == tracking_id(
                old(self).state().active(),
                old(self).state().counter(),
                None,
            ) && final(self).state().active() == Some(final(self).disabled_id()),
    {
        if samples.len() == 0 {
            assert(self.disabled_vad_audio@ + samples@ =~= self.disabled_vad_audio@);
            return;
        }
        let mut i: usize = 0;
        let ghost start = self.disabled_vad_audio@;
        while i < samples.len()
            invariant
                i <= samples.len(),
                self.disabled_vad_audio@ == start + samples@.take(i as int),
                self.wf(),
                self.segment_state == old(self).segment_state,
                self.queued_sample_len == old(self).queued_sample_len,
                self.settings == old(self).settings,
                self.disabled_segment_id == old(self).disabled_segment_id,
                self.last_decode_ms == old(self).last_decode_ms,
            decreases samples.len() - i,
        {
            self.disabled_vad_audio.push(samples[i]);
            assert(samples@.take(i + 1) =~= samples@.take(i as int).push(samples@[i as int]));
            i = i + 1;
        }
        assert(samples@.take(samples.len() as int) =~= samples@);
        if self.disabled_segment_id.as_str().is_empty() {
            let (segment_id, _, _, _) = self.segment_state.assign_segment_tracking(None);
            self.disabled_segment_id = segment_id;
        }
    }

    /// Queues everything captured while VAD was off as one final job and closes the segment.
    pub fn enqueue_disabled_final(&mut self, queue: &mut AsrSegmentQueue<S>, generation: &RuntimeGeneration)
        requires
            old(self).wf(),
            old(queue).wf(),
            old(self).disabled_audio().len() * 1000 <= u64::MAX,
        ensures
            final(self).wf(),
            final(queue).wf(),
            final(queue).capacity() == old(queue).capacity(),
            ({
                let st = old(self).state();
                let pref = Some(old(self).disabled_id());
                let id = tracking_id(st.active(), st.counter(), pref);
                let rev = if tracking_starts(st.active(), pref) { 1 } else { st.revision().wrapping_add(1) };
                let item = AsrWorkView {
                    kind: AsrWorkKind::Final,
                    audio: old(self).disabled_audio(),
                    duration_ms: duration_ms_of(old(self).disabled_audio().len()),
                    generation: generation.value(),
                    segment_id: id,
                    revision: rev,
                    audio_is_delta: false,
                };
                &&& final(queue).jobs() == after_push(old(queue).jobs(), old(queue).capacity(), item)
                &&& final(self).queued() == forget(old(self).queued(), id)
            }),
            final(self).disabled_audio() == Seq::<S>::empty(),
            final(self).disabled_id().len() == 0,
            final(self).state().active() is None,
            final(self).settings() == old(self).settings(),
            final(self).last_decode() == old(self).last_decode(),
    {
        let (segment_id, revision, _, _) = self.segment_state.assign_segment_tracking(
            Some(self.disabled_segment_id.as_str()),
        );
        let mut prepared: Vec<S> = Vec::new();
        std::mem::swap(&mut prepared, &mut self.disabled_vad_audio);
        let duration_ms = segment_duration_ms(prepared.len());
        let item = AsrWorkItem::new(
            AsrWorkKind::Final,
            prepared,
            duration_ms,
            generation.current(),
            segment_id.clone(),
            revision,
        );
        queue.push(item);
        clear_segment_audio_enqueue_state(&mut self.queued_sample_len, Some(segment_id.as_str()));
        self.disabled_segment_id = String::new();
        self.segment_state.clear_active_segment();
        assert(self.disabled_vad_audio@ =~= Seq::<S>::empty());
    }

    /// On stop with VAD off: audio still buffered becomes one final job; with nothing
    /// buffered nothing is queued.  Returns whether a job was queued.
    pub fn finalize_disabled_on_stop(&mut self, queue: &mut AsrSegmentQueue<S>, generation: &RuntimeGeneration) -> (r: bool)
        requires
            old(self).wf(),
            old(queue).wf(),
            old(self).disabled_audio().len() * 1000 <= u64::MAX,
        ensures
            final(self).wf(),
            final(queue).wf(),
            r == (old(self).disabled_audio().len() > 0),
            !r ==> final(queue).jobs() == old(queue).jobs() && final(self).disabled_id() == old(self).disabled_id()
                && final(self).state() == old(self).state(),
            r ==> ({
                let st = old(self).state();
                let pref = Some(old(self).disabled_id());
                let id = tracking_id(st.active(), st.counter(), pref);
                let rev = if tracking_starts(st.active(), pref) { 1 } else { st.revision().wrapping_add(1) };
                let item = AsrWorkView {
                    kind: AsrWorkKind::Final,
                    audio: old(self).disabled_audio(),
                    duration_ms: duration_ms_of(old(self).disabled_audio().len()),
                    generation: generation.value(),
                    segment_id: id,
                    revision: rev,
                    audio_is_delta: false,
                };
                &&& final(queue).jobs() == after_push(old(queue).jobs(), old(queue).capacity(), item)
                &&& final(self).disabled_audio() == Seq::<S>::empty()
                &&& final(self).state().active() is None
            }),
            final(self).settings() == old(self).settings(),
    {
        if self.disabled_vad_audio.len() == 0 {
            return false;
        }
        self.enqueue_disabled_final(queue, generation);
        true
    }

    /// Starts a new runtime generation: queued jobs and partial buffers are dropped, and
    /// results of the old generation are ignored from now on.
    pub fn invalidate_runtime_generation(&mut self, queue: &mut AsrSegmentQueue<S>, generation: &mut RuntimeGeneration)
        requires
            old(self).wf(),
            old(queue).wf(),
        ensures
            final(self).wf(),
            final(queue).wf(),
            final(queue).capacity() == old(queue).capacity(),
            final(queue).jobs() == Seq::<AsrWorkView<S>>::empty(),
            final(generation).value() == old(generation).value().wrapping_add(1),
            final(self).queued() == Map::<Seq<char>, usize>::empty(),
            final(self).disabled_audio() == Seq::<S>::empty(),
            final(self).state() == old(self).state(),
            final(self).settings() == old(self).settings(),
            final(self).disabled_id() == old(self).disabled_id(),
            final(self).last_decode() == old(self).last_decode(),
    {
        let _ = generation.bump();
        queue.clear();
        self.queued_sample_len.clear();
        self.disabled_vad_audio.clear();
        assert(self.disabled_vad_audio@ =~= Seq::<S>::empty());
    }

    /// Filters a decode result.  Results of an older runtime generation are ignored; text
    /// that is empty once trimmed is dropped; the text's duplicated halves collapse, a
    /// final keeps a longer last partial it would clip, and the hallucination filter (with
    /// speech active for partials or while `vad_in_speech`) may drop it.  A dropped final forgets the segment's last
    /// partial.  `text` is normalized transcript text.
    pub fn process_decode_result(
        &mut self,
        item: AsrWorkItem<S>,
        text: Option<String>,
        generation: &RuntimeGeneration,
        vad_in_speech: bool,
    ) -> (r: Option<PendingEmit>)
        requires
            old(self).wf(),
        ensures
            final(self).wf(),
            final(self).settings() == old(self).settings(),
            final(self).queued() == old(self).queued(),
            final(self).state().active() == old(self).state().active(),
            final(self).state().revision() == old(self).state().revision(),
            final(self).state().counter() == old(self).state().counter(),
            final(self).filter().enabled() == old(self).filter().enabled(),
            final(self).filter().min_chars_when_silent() == old(self).filter().min_chars_when_silent(),
            final(self).filter().cooldown_ms() == old(self).filter().cooldown_ms(),
            final(self).last_decode() == old(self).last_decode(),
            item.generation != generation.value() ==> r is None && final(self).state() == old(self).state(),
            ({
                let is_final = item.kind == AsrWorkKind::Final;
                let speech_active = item.kind == AsrWorkKind::Partial;
                let id = item.segment_id@;
                let pt = old(self).state().partial_texts();
                let last = if pt.dom().contains(id) { pt[id]@ } else { Seq::<char>::empty() };
                let raw = match text {
                    Some(t) => t@,
                    None => Seq::<char>::empty(),
                };
                let t = cleaned_text(raw, is_final, last);
                let passes = trim(raw).len() > 0 && !drops_short_hallucination(t, item.duration_ms, is_final)
                    && accepts(
                    old(self).filter().enabled(),
                    old(self).filter().min_chars_when_silent(),
                    t,
                    speech_active || vad_in_speech,
                );
                item.generation == generation.value() ==> {
                    &&& (r is Some) == passes
                    &&& r matches Some(p) ==> {
                        &&& p.segment_id@ == id
                        &&& p.revision == item.revision
                        &&& p.text@ == t
                        &&& p.is_final == is_final
                        &&& p.is_speech == speech_active
                    }
                    &&& final(self).state().partial_texts() == if is_final && !passes && trim(id).len() > 0 {
                        pt.remove(id)
                    } else {
                        pt
                    }
                }
            }),
    {
        if item.generation != generation.current() {
            return None;
        }
        let speech_active = item.kind == AsrWorkKind::Partial;
        let is_final = item.kind == AsrWorkKind::Final;
        let raw = match text {
            Some(t) => t,
            None => String::new(),
        };
        if crate::text::trim_str(raw.as_str()).as_str().is_empty() {
            if is_final {
                self.segment_state.clear_partial_tracking_for_segment(Some(item.segment_id.as_str()));
            }
            return None;
        }
        let mut cleaned = dedupe_repeated_transcript(raw.as_str());
        if is_final {
            let last = self.segment_state.get_last_partial_text(item.segment_id.as_str());
            if !last.is_empty() {
                cleaned = prefer_final_text(Some(last), cleaned.as_str());
            }
        }
        if !self.hallucination.accept_transcript(
            cleaned.as_str(),
            item.duration_ms,
            is_final,
            speech_active || vad_in_speech,
        ) {
            if is_final {
                self.segment_state.clear_partial_tracking_for_segment(Some(item.segment_id.as_str()));
            }
            return None;
        }
        Some(PendingEmit {
            segment_id: item.segment_id,
            revision: item.revision,
            text: cleaned,
            is_final,
            is_speech: speech_active,
        })
    }

    /// Emits a filtered result.  A partial goes out only when the partial-emit gate
    /// allows it, and is recorded as the segment's last partial; a final always goes out
    /// and forgets the segment's last partial.
    pub fn emit_pending(&mut self, pending: PendingEmit, partial_allowed: bool) -> (r: Vec<PipelineEmit>)
        requires
            old(self).wf(),
        ensures
            final(self).wf(),
            final(self).settings() == old(self).settings(),
            final(self).queued() == old(self).queued(),
            final(self).state().active() == old(self).state().active(),
            final(self).state().revision() == old(self).state().revision(),
            final(self).last_decode() == old(self).last_decode(),
            !pending.is_final && !partial_allowed ==> r@.len() == 0 && final(self).state() == old(self).state(),
            pending.is_final || partial_allowed ==> {
                &&& r@.len() == 1
                &&& r@[0].segment_id@ == pending.segment_id@
                &&& r@[0].revision == pending.revision
                &&& r@[0].text@ == pending.text@
                &&& r@[0].is_final == pending.is_final
                &&& r@[0].is_speech == pending.is_speech
            },
            pending.is_final ==> final(self).state().partial_texts() == if trim(pending.segment_id@).len() > 0 {
                old(self).state().partial_texts().remove(pending.segment_id@)
            } else {
                old(self).state().partial_texts()
            },
            !pending.is_final && partial_allowed ==> {
                let before = old(self).state().partial_texts();
                &&& final(self).state().partial_texts()[pending.segment_id@]@ == normalize_ws(pending.text@)
                &&& final(self).state().partial_texts().dom() == before.dom().insert(pending.segment_id@)
            },
    {
        if !pending.is_final && !partial_allowed {
            return Vec::new();
        }
        if !pending.is_final {
            self.segment_state.mark_partial_emitted(pending.segment_id.as_str(), pending.text.as_str());
        } else {
            self.segment_state.clear_partial_tracking_for_segment(Some(pending.segment_id.as_str()));
        }
        let emit = PipelineEmit {
            segment_id: pending.segment_id,
            revision: pending.revision,
            text: pending.text,
            is_final: pending.is_final,
            is_speech: pending.is_speech,
        };
        vec![emit]
    }

    /// The last partial text emitted for a segment (empty when none).
    pub fn last_partial_text(&self, segment_id: &str) -> (r: &str)
        requires
            self.wf(),
        ensures
            r@ == if self.state().partial_texts().dom().contains(segment_id@) {
                self.state().partial_texts()[segment_id@]@
            } else {
                Seq::<char>::empty()
            },
    {
        self.segment_state.get_last_partial_text(segment_id)
    }

    /// When the last partial of a segment was emitted (none before its first), for the
    /// partial-emit gate's coalescing window.
    pub fn last_partial_emit_at(&self, segment_id: &str) -> (r: Option<std::time::Instant>)
        requires
            self.wf(),
        ensures
            r is Some <==> self.state().emit_times().contains(segment_id@),
    {
        self.segment_state.last_partial_emit_at(segment_id)
    }

    /// The interval that gated the last partial let through in the open segment (0 when none).
    pub fn last_pace_interval_ms(&self) -> (r: u32)
        ensures
            r == self.pace_interval(),
    {
        self.decode_pacer.interval_ms()
    }

    /// Makes the next partial bypass pacing.
    pub fn allow_next_partial(&mut self)
        ensures
            final(self).pace_interval() == old(self).pace_interval(),
            final(self).wf() == old(self).wf(),
            final(self).state() == old(self).state(),
            final(self).queued() == old(self).queued(),
            final(self).settings() == old(self).settings(),
            final(self).last_decode() == old(self).last_decode(),
    {
        self.decode_pacer.allow_next();
    }

    /// Opens (or continues) a named segment, as when a caller primes it.
    pub fn prime_active_segment(&mut self, segment_id: &str)
        requires
            old(self).wf(),
        ensures
            final(self).wf(),
            trim(segment_id@).len() > 0 ==> final(self).state().active() == Some(trim(segment_id@)),
            final(self).queued() == old(self).queued(),
            final(self).settings() == old(self).settings(),
    {
        let _ = self.segment_state.assign_segment_tracking(Some(segment_id));
    }
}

} // verus!
