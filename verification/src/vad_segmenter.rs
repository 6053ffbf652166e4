//! Voice activity segmentation: microphone PCM is cut into fixed-length frames, the WebRTC
//! detector judges each frame, and a frame state machine (attack frames, pre-roll, silence
//! and finalization holds, partial cadence, segment ceiling) turns the frames into the
//! partial and final speech segments the pipeline decodes.  The level checks on a frame
//! and the voiced-ratio check on a segment are floating point; they come in as verdicts.
use vstd::prelude::*;

use crate::pipeline::VadSegmentKind;
use crate::vad_frames::VadFrameLimits;

verus! {

#[verifier::external_type_specification]
#[verifier::external_body]
pub struct ExWebRtcVad(webrtc_vad::Vad);

/// `webrtc_vad::Vad::is_voice_segment` on a frame of samples, an invalid frame length
/// read as no voice.  The answer depends on the detector's internal history of frames,
/// so the contract leaves it open.
#[verifier::external_body]
fn webrtc_is_speech(vad: &mut webrtc_vad::Vad, samples: &[i16]) -> (r: bool)
    requires
        samples.len() > 0,
{
    vad.is_voice_segment(samples).unwrap_or(false)
}

/// The 16-bit little-endian sample made of two bytes.
pub open spec fn le_sample(lo: u8, hi: u8) -> i16 {
    (lo as u16 + (hi as u16) * 256) as i16
}

/// The samples of a frame: each pair of bytes, little-endian (a trailing odd byte unused).
pub open spec fn frame_samples(frame: Seq<u8>) -> Seq<i16> {
    Seq::new(frame.len() / 2, |i: int| le_sample(frame[2 * i], frame[2 * i + 1]))
}

/// What the level checks of the caller say of a frame and of the segment counts it leads
/// to: the frame passes the energy gate; it passes the adaptive pre-partial threshold
/// (which only applies before the first partial of a segment); and the segment's voiced
/// ratio passes at the counts the frame reaches when it is admitted as speech, or when it
/// is not (see `counts_after`).
#[derive(Clone, Copy)]
pub struct FrameVerdicts {
    pub energy_ok: bool,
    pub adaptive_ok: bool,
    pub ratio_ok_if_admitted: bool,
    pub ratio_ok_if_rejected: bool,
}

/// A speech segment: its kind, its PCM bytes and how many frames it spans.
pub struct VadEmit {
    pub kind: VadSegmentKind,
    pub audio: Vec<u8>,
    pub frames: usize,
}

pub ghost struct EmitView {
    pub kind: VadSegmentKind,
    pub audio: Seq<u8>,
    pub frames: int,
}

pub open spec fn emit_view(e: VadEmit) -> EmitView {
    EmitView { kind: e.kind, audio: e.audio@, frames: e.frames as int }
}

pub open spec fn emit_views(v: Seq<VadEmit>) -> Seq<EmitView> {
    v.map_values(|e: VadEmit| emit_view(e))
}

/// What one frame did: the detector's verdict, whether the frame was admitted as speech,
/// and the segments it completed.
pub struct FrameOutcome {
    pub speech: bool,
    pub admitted: bool,
    pub segments: Vec<VadEmit>,
}

/// The segmenter's state: bytes waiting for a whole frame, the frames consumed by the
/// current chunk, the speech frames of the segment in progress, the pre-roll kept while
/// silent, the attack frames of a possible onset, the silence run, the speech length at
/// the last partial, the segment's total and voiced frame counts, and the segments dropped.
pub ghost struct VadView {
    pub pending: Seq<u8>,
    pub usable: int,
    pub speech: Seq<Seq<u8>>,
    pub preroll: Seq<Seq<u8>>,
    pub attack: Seq<Seq<u8>>,
    pub silence: int,
    pub last_partial: int,
    pub total: int,
    pub voiced: int,
    pub dropped: int,
}

/// The frames joined into one PCM byte sequence.
pub open spec fn joined(frames: Seq<Seq<u8>>) -> Seq<u8>
    decreases frames.len(),
{
    if frames.len() == 0 {
        Seq::empty()
    } else {
        joined(frames.drop_last()) + frames.last()
    }
}

/// The segment in progress is dropped back to silence (the dropped count stays).
pub open spec fn cleared(v: VadView) -> VadView {
    VadView {
        pending: Seq::empty(),
        usable: v.usable,
        speech: Seq::empty(),
        preroll: Seq::empty(),
        attack: Seq::empty(),
        silence: 0,
        last_partial: 0,
        total: 0,
        voiced: 0,
        dropped: v.dropped,
    }
}

/// Whether the segment in progress may go out: enough speech, for a first partial enough
/// for a first partial, and a passing voiced ratio.
pub open spec fn admissible(v: VadView, lim: VadFrameLimits, partial: bool, ratio_ok: bool) -> bool {
    &&& v.speech.len() > 0
    &&& v.speech.len() >= lim.min_speech_frames
    &&& !(partial && v.last_partial == 0 && v.speech.len() < lim.first_partial_min_speech_frames)
    &&& ratio_ok
}

pub open spec fn emitted(v: VadView, kind: VadSegmentKind) -> EmitView {
    EmitView { kind, audio: joined(v.speech), frames: v.speech.len() as int }
}

/// A partial attempt: when admissible the segment goes out and the partial mark moves.
pub open spec fn partial_attempt(v: VadView, lim: VadFrameLimits, ratio_ok: bool) -> (VadView, Seq<EmitView>) {
    if admissible(v, lim, true, ratio_ok) {
        (VadView { last_partial: v.speech.len() as int, ..v }, seq![emitted(v, VadSegmentKind::Partial)])
    } else {
        (v, Seq::empty())
    }
}

/// A final: the segment goes out when admissible (else it counts as dropped), and the
/// state is cleared either way.
pub open spec fn final_attempt(v: VadView, lim: VadFrameLimits, ratio_ok: bool) -> (VadView, Seq<EmitView>) {
    if admissible(v, lim, false, ratio_ok) {
        (cleared(v), seq![emitted(v, VadSegmentKind::Final)])
    } else {
        (VadView { dropped: v.dropped + 1, ..cleared(v) }, Seq::empty())
    }
}

/// After speech grows: a partial once the cadence is reached, and a final at the ceiling.
pub open spec fn grow_step(v: VadView, lim: VadFrameLimits, ratio_ok: bool) -> (VadView, Seq<EmitView>) {
    let since = if v.speech.len() >= v.last_partial { v.speech.len() - v.last_partial } else { 0 };
    let target = if v.last_partial == 0 { lim.first_partial_min_speech_frames } else { lim.partial_interval_frames };
    let (v1, out1) = if v.speech.len() >= lim.min_speech_frames && since >= target {
        partial_attempt(v, lim, ratio_ok)
    } else {
        (v, Seq::<EmitView>::empty())
    };
    if v1.speech.len() >= lim.max_segment_frames {
        let (v2, out2) = final_attempt(v1, lim, ratio_ok);
        (v2, out1 + out2)
    } else {
        (v1, out1)
    }
}

/// After a silent frame within speech: a partial once the silence hold is reached (unless
/// the speech is unchanged since the last partial), and a final at the finalization hold.
pub open spec fn silence_step(v: VadView, lim: VadFrameLimits, ratio_ok: bool) -> (VadView, Seq<EmitView>) {
    let (v1, out1) = if v.silence >= lim.silence_hold_frames && v.speech.len() >= lim.min_speech_frames
        && v.last_partial != v.speech.len() {
        partial_attempt(v, lim, ratio_ok)
    } else {
        (v, Seq::<EmitView>::empty())
    };
    if v1.silence >= lim.finalization_hold_frames {
        let (v2, out2) = final_attempt(v1, lim, ratio_ok);
        (v2, out1 + out2)
    } else {
        (v1, out1)
    }
}

/// Speech begins: the pre-roll and the attack frames open the segment.
pub open spec fn onset(v: VadView) -> VadView {
    VadView {
        speech: v.preroll + v.attack,
        total: v.total + v.preroll.len() + v.attack.len(),
        voiced: v.voiced + v.attack.len(),
        silence: 0,
        preroll: Seq::empty(),
        attack: Seq::empty(),
        ..v
    }
}

/// A silent frame outside speech joins the pre-roll, which keeps the newest
/// `preroll_frames` frames.
pub open spec fn remember_preroll(preroll: Seq<Seq<u8>>, frame: Seq<u8>, preroll_frames: u32) -> Seq<Seq<u8>> {
    if preroll_frames == 0 {
        preroll
    } else {
        let p = preroll.push(frame);
        if p.len() > preroll_frames {
            p.subrange(p.len() - preroll_frames, p.len() as int)
        } else {
            p
        }
    }
}

/// Whether the frame is admitted as speech.
pub open spec fn admitted(v: VadView, speech: bool, verdicts: FrameVerdicts) -> bool {
    speech && verdicts.energy_ok && (v.last_partial != 0 || verdicts.adaptive_ok)
}

/// One frame through the state machine, given the detector's verdict `speech`.
pub open spec fn vad_step(
    v: VadView,
    frame: Seq<u8>,
    speech: bool,
    verdicts: FrameVerdicts,
    lim: VadFrameLimits,
    preroll_frames: u32,
) -> (VadView, Seq<EmitView>) {
    if admitted(v, speech, verdicts) {
        if v.speech.len() == 0 {
            let a = v.attack.push(frame);
            if a.len() < lim.speech_attack_frames {
                (VadView { attack: a, ..v }, Seq::empty())
            } else {
                grow_step(onset(VadView { attack: a, ..v }), lim, verdicts.ratio_ok_if_admitted)
            }
        } else {
            grow_step(
                VadView { speech: v.speech.push(frame), silence: 0, total: v.total + 1, voiced: v.voiced + 1, ..v },
                lim,
                verdicts.ratio_ok_if_admitted,
            )
        }
    } else if v.speech.len() > 0 {
        silence_step(
            VadView { total: v.total + 1, silence: v.silence + 1, ..v },
            lim,
            verdicts.ratio_ok_if_rejected,
        )
    } else {
        (
            VadView { attack: Seq::empty(), preroll: remember_preroll(v.preroll, frame, preroll_frames), ..v },
            Seq::empty(),
        )
    }
}

/// The segment counts (voiced, total) a frame leads to when it is admitted or not, where
/// a segment may go out on that frame.
pub open spec fn counts_after(v: VadView, admitted: bool) -> (int, int) {
    if admitted {
        if v.speech.len() == 0 {
            (v.voiced + v.attack.len() + 1, v.total + v.preroll.len() + v.attack.len() + 1)
        } else {
            (v.voiced + 1, v.total + 1)
        }
    } else {
        (v.voiced, v.total + 1)
    }
}

/// A chunk of PCM arrives: the bytes join the pending ones, and the whole frames they
/// make are handed out (none for an empty chunk or less than one frame).
pub open spec fn chunk_frames(pending: Seq<u8>, chunk: Seq<u8>, frame_bytes: int) -> (Seq<u8>, int, Seq<Seq<u8>>) {
    if chunk.len() == 0 {
        (pending, 0, Seq::empty())
    } else {
        let p = pending + chunk;
        if p.len() < frame_bytes {
            (p, 0, Seq::empty())
        } else {
            let n: int = p.len() as int / frame_bytes;
            (p, n * frame_bytes, Seq::new(n as nat, |i: int| p.subrange(i * frame_bytes, (i + 1) * frame_bytes)))
        }
    }
}

/// On stop: a segment in progress goes out as a final when admissible; the state is
/// cleared (a segment not admitted is not counted as dropped).
pub open spec fn force_final(v: VadView, lim: VadFrameLimits, ratio_ok: bool) -> (VadView, Seq<EmitView>) {
    if v.speech.len() == 0 {
        (v, Seq::empty())
    } else if admissible(v, lim, false, ratio_ok) {
        (cleared(v), seq![emitted(v, VadSegmentKind::Final)])
    } else {
        (cleared(v), Seq::empty())
    }
}

pub open spec fn frames_view(v: Seq<Vec<u8>>) -> Seq<Seq<u8>> {
    v.map_values(|f: Vec<u8>| f@)
}

pub struct VadSegmenter {
    limits: VadFrameLimits,
    preroll_frames: u32,
    frame_bytes: usize,
    pending: Vec<u8>,
    usable: usize,
    speech: Vec<Vec<u8>>,
    preroll: Vec<Vec<u8>>,
    attack: Vec<Vec<u8>>,
    silence: u32,
    last_partial: usize,
    total: u32,
    voiced: u32,
    dropped: u64,
}

impl View for VadSegmenter {
    type V = VadView;

    closed spec fn view(&self) -> VadView {
        VadView {
            pending: self.pending@,
            usable: self.usable as int,
            speech: frames_view(self.speech@),
            preroll: frames_view(self.preroll@),
            attack: frames_view(self.attack@),
            silence: self.silence as int,
            last_partial: self.last_partial as int,
            total: self.total as int,
            voiced: self.voiced as int,
            dropped: self.dropped as int,
        }
    }
}

impl VadSegmenter {
    pub closed spec fn limits(&self) -> VadFrameLimits {
        self.limits
    }

    pub closed spec fn preroll_limit(&self) -> u32 {
        self.preroll_frames
    }

    pub closed spec fn frame_len(&self) -> int {
        self.frame_bytes as int
    }

    /// Frames hold at least one sample, the pre-roll never more than its limit, and the
    /// voiced frames are among the segment's frames.
    pub open spec fn wf(&self) -> bool {
        &&& self.frame_len() >= 2
        &&& self@.preroll.len() <= self.preroll_limit()
        &&& self@.voiced <= self@.total
    }

    /// Room in the counters for one more frame.
    pub open spec fn has_room(&self) -> bool {
        &&& self@.total + self@.preroll.len() + self@.attack.len() + 1 <= u32::MAX
        &&& self@.silence < u32::MAX
        &&& self@.dropped < u64::MAX
    }

    pub fn new(limits: VadFrameLimits, preroll_frames: u32, frame_bytes: usize) -> (r: Self)
        requires
            frame_bytes >= 2,
        ensures
            r.wf(),
            r.limits() == limits,
            r.preroll_limit() == preroll_frames,
            r.frame_len() == frame_bytes,
            r@ == cleared(VadView { dropped: 0, usable: 0, ..r@ }),
    {
        let r = VadSegmenter {
            limits,
            preroll_frames,
            frame_bytes,
            pending: Vec::new(),
            usable: 0,
            speech: Vec::new(),
            preroll: Vec::new(),
            attack: Vec::new(),
            silence: 0,
            last_partial: 0,
            total: 0,
            voiced: 0,
            dropped: 0,
        };
        assert(frames_view(r.speech@) =~= Seq::<Seq<u8>>::empty());
        assert(frames_view(r.preroll@) =~= Seq::<Seq<u8>>::empty());
        assert(frames_view(r.attack@) =~= Seq::<Seq<u8>>::empty());
        r
    }

    /// Whether a segment is in progress.
    pub fn in_speech(&self) -> (r: bool)
        ensures
            r == (self@.speech.len() > 0),
    {
        self.speech.len() > 0
    }

    pub fn segment_dropped_count(&self) -> (r: u64)
        ensures
            r == self@.dropped,
    {
        self.dropped
    }

    /// Whether the counters have room for one more frame.
    pub fn has_room_for_frame(&self) -> (r: bool)
        ensures
            r == self.has_room(),
    {
        let p = self.preroll.len();
        let a = self.attack.len();
        if p as u64 > u32::MAX as u64 || a as u64 > u32::MAX as u64 {
            return false;
        }
        (self.total as u64) + (p as u64) + (a as u64) + 1 <= u32::MAX as u64 && self.silence < u32::MAX
            && self.dropped < u64::MAX
    }

    /// The segment's (voiced, total) frame counts.
    pub fn counts(&self) -> (r: (u64, u64))
        ensures
            r.0 == self@.voiced,
            r.1 == self@.total,
    {
        (self.voiced as u64, self.total as u64)
    }

    /// The (voiced, total) counts that the next frame leads to, admitted or not.
    pub fn counts_after(&self, admitted: bool) -> (r: (u64, u64))
        requires
            self.wf(),
            self.has_room(),
        ensures
            (r.0 as int, r.1 as int) == counts_after(self@, admitted),
    {
        proof {
            assert(self@.voiced == self.voiced);
        }
        if admitted {
            if self.speech.len() == 0 {
                let a = self.attack.len() as u64;
                (self.voiced as u64 + a + 1, self.total as u64 + self.preroll.len() as u64 + a + 1)
            } else {
                (self.voiced as u64 + 1, self.total as u64 + 1)
            }
        } else {
            (self.voiced as u64, self.total as u64 + 1)
        }
    }

    /// Drops the segment in progress, the pre-roll, the attack and the pending bytes.
    pub fn reset(&mut self)
        ensures
            final(self)@ == cleared(old(self)@),
            final(self).limits() == old(self).limits(),
            final(self).preroll_limit() == old(self).preroll_limit(),
            final(self).frame_len() == old(self).frame_len(),
            old(self).wf() ==> final(self).wf(),
    {
        self.pending.clear();
        self.speech.clear();
        self.preroll.clear();
        self.attack.clear();
        self.silence = 0;
        self.last_partial = 0;
        self.total = 0;
        self.voiced = 0;
        assert(self.pending@ =~= Seq::<u8>::empty());
        assert(frames_view(self.speech@) =~= Seq::<Seq<u8>>::empty());
        assert(frames_view(self.preroll@) =~= Seq::<Seq<u8>>::empty());
        assert(frames_view(self.attack@) =~= Seq::<Seq<u8>>::empty());
    }
}


impl VadSegmenter {
    /// The segment's PCM bytes.
    fn joined_audio(&self) -> (r: Vec<u8>)
        ensures
            r@ == joined(self@.speech),
    {
        let ghost fs = frames_view(self.speech@);
        let mut out: Vec<u8> = Vec::new();
        let mut i: usize = 0;
        assert(fs.take(0) =~= Seq::<Seq<u8>>::empty());
        while i < self.speech.len()
            invariant
                i <= self.speech.len(),
                fs == frames_view(self.speech@),
                out@ == joined(fs.take(i as int)),
            decreases self.speech.len() - i,
        {
            let f = &self.speech[i];
            let ghost before = out@;
            let mut j: usize = 0;
            while j < f.len()
                invariant
                    j <= f.len(),
                    out@ == before + f@.take(j as int),
                decreases f.len() - j,
            {
                out.push(f[j]);
                assert(f@.take(j + 1) =~= f@.take(j as int).push(f@[j as int]));
                j = j + 1;
            }
            assert(f@.take(f.len() as int) =~= f@);
            assert(fs.take(i + 1).drop_last() =~= fs.take(i as int));
            assert(fs.take(i + 1).last() == f@);
            i = i + 1;
        }
        assert(fs.take(self.speech.len() as int) =~= fs);
        out
    }

    fn admissible_exec(&self, partial: bool, ratio_ok: bool) -> (r: bool)
        ensures
            r == admissible(self@, self.limits(), partial, ratio_ok),
    {
        let n = self.speech.len();
        n > 0 && n as u64 >= self.limits.min_speech_frames as u64 && !(partial && self.last_partial == 0 && (n as u64)
            < self.limits.first_partial_min_speech_frames as u64) && ratio_ok
    }

    fn emit(&self, kind: VadSegmentKind) -> (r: VadEmit)
        ensures
            emit_view(r) == emitted(self@, kind),
    {
        VadEmit { kind, audio: self.joined_audio(), frames: self.speech.len() }
    }

    fn partial_step(&mut self, ratio_ok: bool, out: &mut Vec<VadEmit>)
        requires
            old(self).wf(),
        ensures
            final(self).wf(),
            final(self).limits() == old(self).limits(),
            final(self).preroll_limit() == old(self).preroll_limit(),
            final(self).frame_len() == old(self).frame_len(),
            final(self)@ == partial_attempt(old(self)@, old(self).limits(), ratio_ok).0,
            emit_views(final(out)@) == emit_views(old(out)@) + partial_attempt(
                old(self)@,
                old(self).limits(),
                ratio_ok,
            ).1,
    {
        if self.admissible_exec(true, ratio_ok) {
            let e = self.emit(VadSegmentKind::Partial);
            let ghost before = emit_views(out@);
            out.push(e);
            assert(emit_views(out@) =~= before + seq![emit_view(e)]);
            self.last_partial = self.speech.len();
        } else {
            assert(emit_views(out@) =~= emit_views(out@) + Seq::<EmitView>::empty());
        }
    }

    fn final_step(&mut self, ratio_ok: bool, out: &mut Vec<VadEmit>)
        requires
            old(self).wf(),
            old(self)@.dropped < u64::MAX,
        ensures
            final(self).wf(),
            final(self).limits() == old(self).limits(),
            final(self).preroll_limit() == old(self).preroll_limit(),
            final(self).frame_len() == old(self).frame_len(),
            final(self)@ == final_attempt(old(self)@, old(self).limits(), ratio_ok).0,
            emit_views(final(out)@) == emit_views(old(out)@) + final_attempt(old(self)@, old(self).limits(), ratio_ok).1,
    {
        if self.admissible_exec(false, ratio_ok) {
            let e = self.emit(VadSegmentKind::Final);
            let ghost before = emit_views(out@);
            out.push(e);
            assert(emit_views(out@) =~= before + seq![emit_view(e)]);
        } else {
            self.dropped = self.dropped + 1;
            assert(emit_views(out@) =~= emit_views(out@) + Seq::<EmitView>::empty());
        }
        self.reset();
    }

    fn grow(&mut self, ratio_ok: bool, out: &mut Vec<VadEmit>)
        requires
            old(self).wf(),
            old(self)@.dropped < u64::MAX,
        ensures
            final(self).wf(),
            final(self).limits() == old(self).limits(),
            final(self).preroll_limit() == old(self).preroll_limit(),
            final(self).frame_len() == old(self).frame_len(),
            final(self)@ == grow_step(old(self)@, old(self).limits(), ratio_ok).0,
            emit_views(final(out)@) == emit_views(old(out)@) + grow_step(old(self)@, old(self).limits(), ratio_ok).1,
    {
        let ghost v0 = self@;
        let ghost o0 = emit_views(out@);
        let n = self.speech.len();
        let since = if n >= self.last_partial { n - self.last_partial } else { 0 };
        let target = if self.last_partial == 0 {
            self.limits.first_partial_min_speech_frames
        } else {
            self.limits.partial_interval_frames
        };
        if n as u64 >= self.limits.min_speech_frames as u64 && since as u64 >= target as u64 {
            self.partial_step(ratio_ok, out);
        } else {
            assert(emit_views(out@) =~= o0 + Seq::<EmitView>::empty());
        }
        let ghost v1 = self@;
        let ghost o1 = emit_views(out@);
        if self.speech.len() as u64 >= self.limits.max_segment_frames as u64 {
            self.final_step(ratio_ok, out);
            assert(emit_views(out@) =~= o0 + (o1.subrange(o0.len() as int, o1.len() as int) + final_attempt(
                v1,
                self.limits(),
                ratio_ok,
            ).1));
        }
    }

    fn silence(&mut self, ratio_ok: bool, out: &mut Vec<VadEmit>)
        requires
            old(self).wf(),
            old(self)@.dropped < u64::MAX,
        ensures
            final(self).wf(),
            final(self).limits() == old(self).limits(),
            final(self).preroll_limit() == old(self).preroll_limit(),
            final(self).frame_len() == old(self).frame_len(),
            final(self)@ == silence_step(old(self)@, old(self).limits(), ratio_ok).0,
            emit_views(final(out)@) == emit_views(old(out)@) + silence_step(old(self)@, old(self).limits(), ratio_ok).1,
    {
        let ghost o0 = emit_views(out@);
        let n = self.speech.len();
        if self.silence >= self.limits.silence_hold_frames && n as u64 >= self.limits.min_speech_frames as u64
            && self.last_partial != n {
            self.partial_step(ratio_ok, out);
        } else {
            assert(emit_views(out@) =~= o0 + Seq::<EmitView>::empty());
        }
        let ghost v1 = self@;
        let ghost o1 = emit_views(out@);
        if self.silence >= self.limits.finalization_hold_frames {
            self.final_step(ratio_ok, out);
            assert(emit_views(out@) =~= o0 + (o1.subrange(o0.len() as int, o1.len() as int) + final_attempt(
                v1,
                self.limits(),
                ratio_ok,
            ).1));
        }
    }
}


/// The samples of a frame, each little-endian pair of bytes.
fn frame_samples_exec(frame: &Vec<u8>) -> (r: Vec<i16>)
    ensures
        r@ == frame_samples(frame@),
{
    let n = frame.len() / 2;
    let mut out: Vec<i16> = Vec::new();
    let mut i: usize = 0;
    while i < n
        invariant
            n == frame.len() / 2,
            i <= n,
            out@.len() == i,
            forall|k: int| 0 <= k < i ==> out@[k] == le_sample(frame@[2 * k], frame@[2 * k + 1]),
        decreases n - i,
    {
        let lo = frame[2 * i];
        let hi = frame[2 * i + 1];
        let sample = ((lo as u16) + (hi as u16) * 256) as i16;
        out.push(sample);
        i = i + 1;
    }
    assert(out@ =~= frame_samples(frame@));
    out
}

impl VadSegmenter {
    /// One frame through the state machine, for the detector's verdict `speech`; returns
    /// whether the frame was admitted.
    pub fn vad_step_after(
        &mut self,
        frame: Vec<u8>,
        speech: bool,
        verdicts: FrameVerdicts,
        out: &mut Vec<VadEmit>,
    ) -> (admitted_frame: bool)
        requires
            old(self).wf(),
            old(self).has_room(),
        ensures
            final(self).wf(),
            final(self).limits() == old(self).limits(),
            final(self).preroll_limit() == old(self).preroll_limit(),
            final(self).frame_len() == old(self).frame_len(),
            admitted_frame == admitted(old(self)@, speech, verdicts),
            ({
                let (v, e) = vad_step(old(self)@, frame@, speech, verdicts, old(self).limits(), old(self).preroll_limit());
                &&& final(self)@ == v
                &&& emit_views(final(out)@) == emit_views(old(out)@) + e
            }),
    {
        let ghost v0 = self@;
        let ghost o0 = emit_views(out@);
        let ghost f = frame@;
        let accepted = speech && verdicts.energy_ok && (self.last_partial != 0 || verdicts.adaptive_ok);
        if accepted {
            if self.speech.len() == 0 {
                self.attack.push(frame);
                assert(frames_view(self.attack@) =~= v0.attack.push(f));
                if (self.attack.len() as u64) < self.limits.speech_attack_frames as u64 {
                    assert(emit_views(out@) =~= o0 + Seq::<EmitView>::empty());
                    return true;
                }
                self.onset();
                self.grow(verdicts.ratio_ok_if_admitted, out);
            } else {
                self.speech.push(frame);
                assert(frames_view(self.speech@) =~= v0.speech.push(f));
                self.silence = 0;
                self.total = self.total + 1;
                self.voiced = self.voiced + 1;
                self.grow(verdicts.ratio_ok_if_admitted, out);
            }
        } else if self.speech.len() > 0 {
            self.total = self.total + 1;
            self.silence = self.silence + 1;
            self.silence(verdicts.ratio_ok_if_rejected, out);
        } else {
            self.attack.clear();
            assert(frames_view(self.attack@) =~= Seq::<Seq<u8>>::empty());
            self.remember(frame);
            assert(emit_views(out@) =~= o0 + Seq::<EmitView>::empty());
        }
        accepted
    }

    /// The pre-roll and attack frames open the segment.
    fn onset(&mut self)
        requires
            old(self).wf(),
            old(self)@.speech.len() == 0,
            old(self)@.total + old(self)@.preroll.len() + old(self)@.attack.len() <= u32::MAX,
        ensures
            final(self).wf(),
            final(self).limits() == old(self).limits(),
            final(self).preroll_limit() == old(self).preroll_limit(),
            final(self).frame_len() == old(self).frame_len(),
            final(self)@ == onset(old(self)@),
    {
        let ghost v0 = self@;
        let p = self.preroll.len() as u32;
        let a = self.attack.len() as u32;
        let mut speech: Vec<Vec<u8>> = Vec::new();
        std::mem::swap(&mut speech, &mut self.preroll);
        let mut attack: Vec<Vec<u8>> = Vec::new();
        std::mem::swap(&mut attack, &mut self.attack);
        let ghost sp = speech@;
        let ghost at = attack@;
        speech.append(&mut attack);
        assert(speech@ == sp + at);
        assert(frames_view(speech@) =~= v0.preroll + v0.attack);
        self.speech = speech;
        self.total = self.total + p + a;
        self.voiced = self.voiced + a;
        self.silence = 0;
        assert(frames_view(self.preroll@) =~= Seq::<Seq<u8>>::empty());
        assert(frames_view(self.attack@) =~= Seq::<Seq<u8>>::empty());
    }

    /// A silent frame outside speech joins the pre-roll.
    fn remember(&mut self, frame: Vec<u8>)
        requires
            old(self).wf(),
        ensures
            final(self).wf(),
            final(self).limits() == old(self).limits(),
            final(self).preroll_limit() == old(self).preroll_limit(),
            final(self).frame_len() == old(self).frame_len(),
            final(self)@ == (VadView {
                preroll: remember_preroll(old(self)@.preroll, frame@, old(self).preroll_limit()),
                ..old(self)@
            }),
    {
        if self.preroll_frames == 0 {
            return;
        }
        let ghost p0 = self@.preroll;
        let ghost f = frame@;
        self.preroll.push(frame);
        assert(frames_view(self.preroll@) =~= p0.push(f));
        if self.preroll.len() as u64 > self.preroll_frames as u64 {
            let ghost p1 = frames_view(self.preroll@);
            self.preroll.remove(0);
            assert(frames_view(self.preroll@) =~= p1.subrange(p1.len() - self.preroll_frames, p1.len() as int));
        }
    }

    /// Judges a frame with the detector: a frame of the wrong length, or of more than 960
    /// samples, is not speech.
    fn detect(&self, vad: &mut webrtc_vad::Vad, frame: &Vec<u8>) -> (r: bool)
        requires
            self.wf(),
        ensures
            frame.len() != self.frame_len() || frame.len() / 2 > 960 ==> !r,
    {
        if frame.len() != self.frame_bytes {
            return false;
        }
        if frame.len() / 2 > 960 {
            return false;
        }
        let samples = frame_samples_exec(frame);
        webrtc_is_speech(vad, samples.as_slice())
    }

    /// One frame: the detector judges it (`speech` in the outcome) and the state machine
    /// takes it with the caller's level verdicts.
    pub fn push_frame(&mut self, vad: &mut webrtc_vad::Vad, frame: Vec<u8>, verdicts: FrameVerdicts) -> (r: FrameOutcome)
        requires
            old(self).wf(),
            old(self).has_room(),
        ensures
            final(self).wf(),
            final(self).limits() == old(self).limits(),
            final(self).preroll_limit() == old(self).preroll_limit(),
            final(self).frame_len() == old(self).frame_len(),
            frame.len() != old(self).frame_len() || frame.len() / 2 > 960 ==> !r.speech,
            r.admitted == admitted(old(self)@, r.speech, verdicts),
            ({
                let (v, e) = vad_step(old(self)@, frame@, r.speech, verdicts, old(self).limits(), old(self).preroll_limit());
                &&& final(self)@ == v
                &&& emit_views(r.segments@) == e
            }),
    {
        let speech = self.detect(vad, &frame);
        let mut segments: Vec<VadEmit> = Vec::new();
        assert(emit_views(segments@) =~= Seq::<EmitView>::empty());
        let admitted = self.vad_step_after(frame, speech, verdicts, &mut segments);
        assert(emit_views(segments@) =~= Seq::<EmitView>::empty() + emit_views(segments@));
        FrameOutcome { speech, admitted, segments }
    }
}


impl VadSegmenter {
    /// A chunk of PCM arrives: returns the whole frames it completes (see `chunk_frames`);
    /// the consumed bytes leave the pending buffer at `end_chunk`.
    pub fn begin_chunk(&mut self, chunk: &[u8]) -> (r: Vec<Vec<u8>>)
        requires
            old(self).wf(),
            old(self)@.pending.len() + chunk@.len() <= usize::MAX,
        ensures
            final(self).wf(),
            final(self).limits() == old(self).limits(),
            final(self).preroll_limit() == old(self).preroll_limit(),
            final(self).frame_len() == old(self).frame_len(),
            ({
                let (p, u, fs) = chunk_frames(old(self)@.pending, chunk@, old(self).frame_len());
                &&& final(self)@ == (VadView { pending: p, usable: u, ..old(self)@ })
                &&& frames_view(r@) == fs
            }),
    {
        let mut frames: Vec<Vec<u8>> = Vec::new();
        if chunk.len() == 0 {
            self.usable = 0;
            assert(frames_view(frames@) =~= Seq::<Seq<u8>>::empty());
            return frames;
        }
        let ghost p0 = self.pending@;
        let mut k: usize = 0;
        while k < chunk.len()
            invariant
                k <= chunk.len(),
                self.pending@ == p0 + chunk@.take(k as int),
                self.wf(),
                self.speech == old(self).speech,
                self.preroll == old(self).preroll,
                self.attack == old(self).attack,
                self.limits == old(self).limits,
                self.preroll_frames == old(self).preroll_frames,
                self.frame_bytes == old(self).frame_bytes,
                self.silence == old(self).silence,
                self.last_partial == old(self).last_partial,
                self.total == old(self).total,
                self.voiced == old(self).voiced,
                self.dropped == old(self).dropped,
                self.usable == old(self).usable,
            decreases chunk.len() - k,
        {
            self.pending.push(chunk[k]);
            assert(chunk@.take(k + 1) =~= chunk@.take(k as int).push(chunk@[k as int]));
            k = k + 1;
        }
        assert(chunk@.take(chunk.len() as int) =~= chunk@);
        let len = self.pending.len();
        let fb = self.frame_bytes;
        if len < fb {
            self.usable = 0;
            assert(frames_view(frames@) =~= Seq::<Seq<u8>>::empty());
            return frames;
        }
        let n = len / fb;
        assert(n * fb <= len) by (nonlinear_arith)
            requires
                n == len / fb,
                fb > 0,
        ;
        let ghost p = self.pending@;
        let ghost fs = Seq::new(n as nat, |i: int| p.subrange(i * fb, (i + 1) * fb));
        let mut i: usize = 0;
        while i < n
            invariant
                i <= n,
                n * fb <= len,
                len == self.pending@.len(),
                p == self.pending@,
                fb == self.frame_bytes,
                fb > 0,
                fs == Seq::new(n as nat, |i: int| p.subrange(i * fb, (i + 1) * fb)),
                frames_view(frames@) == fs.take(i as int),
            decreases n - i,
        {
            assert((i + 1) * fb <= n * fb) by (nonlinear_arith)
                requires
                    i < n,
                    fb > 0,
            ;
            assert((i + 1) * fb == i * fb + fb) by (nonlinear_arith);
            let start = i * fb;
            let mut frame: Vec<u8> = Vec::new();
            let mut j: usize = 0;
            while j < fb
                invariant
                    j <= fb,
                    start == i * fb,
                    start + fb <= len,
                    len == self.pending@.len(),
                    frame@ == self.pending@.subrange(start as int, start + j),
                decreases fb - j,
            {
                frame.push(self.pending[start + j]);
                assert(self.pending@.subrange(start as int, start + j + 1) =~= self.pending@.subrange(
                    start as int,
                    start + j,
                ).push(self.pending@[start + j]));
                j = j + 1;
            }
            let ghost before = frames_view(frames@);
            frames.push(frame);
            assert(frames_view(frames@) =~= before.push(frame@));
            assert(fs.take(i + 1) =~= fs.take(i as int).push(fs[i as int]));
            i = i + 1;
        }
        assert(fs.take(n as int) =~= fs);
        self.usable = n * fb;
        frames
    }

    /// After the frames of a chunk: the consumed bytes leave the pending buffer (unless a
    /// cleared segment emptied it meanwhile).
    pub fn end_chunk(&mut self)
        requires
            old(self).wf(),
        ensures
            final(self).wf(),
            final(self).limits() == old(self).limits(),
            final(self).preroll_limit() == old(self).preroll_limit(),
            final(self).frame_len() == old(self).frame_len(),
            final(self)@ == (VadView {
                pending: if old(self)@.pending.len() >= old(self)@.usable {
                    old(self)@.pending.subrange(old(self)@.usable, old(self)@.pending.len() as int)
                } else {
                    old(self)@.pending
                },
                ..old(self)@
            }),
    {
        let len = self.pending.len();
        if len >= self.usable {
            let mut rest: Vec<u8> = Vec::new();
            let mut k = self.usable;
            while k < len
                invariant
                    self.usable <= k <= len,
                    len == self.pending@.len(),
                    rest@ == self.pending@.subrange(self.usable as int, k as int),
                decreases len - k,
            {
                rest.push(self.pending[k]);
                assert(self.pending@.subrange(self.usable as int, k + 1) =~= self.pending@.subrange(
                    self.usable as int,
                    k as int,
                ).push(self.pending@[k as int]));
                k = k + 1;
            }
            self.pending = rest;
        }
    }

    /// On stop: the segment in progress goes out as a final when admissible (the caller's
    /// voiced-ratio verdict at the current counts), and the state is cleared.
    pub fn force_finalize(&mut self, ratio_ok: bool) -> (r: Vec<VadEmit>)
        requires
            old(self).wf(),
        ensures
            final(self).wf(),
            final(self).limits() == old(self).limits(),
            final(self).preroll_limit() == old(self).preroll_limit(),
            final(self).frame_len() == old(self).frame_len(),
            final(self)@ == force_final(old(self)@, old(self).limits(), ratio_ok).0,
            emit_views(r@) == force_final(old(self)@, old(self).limits(), ratio_ok).1,
    {
        let mut out: Vec<VadEmit> = Vec::new();
        if self.speech.len() == 0 {
            assert(emit_views(out@) =~= Seq::<EmitView>::empty());
            return out;
        }
        if self.admissible_exec(false, ratio_ok) {
            let e = self.emit(VadSegmentKind::Final);
            out.push(e);
            assert(emit_views(out@) =~= seq![emit_view(e)]);
        } else {
            assert(emit_views(out@) =~= Seq::<EmitView>::empty());
        }
        self.reset();
        out
    }

    /// New limits and pre-roll length; the pre-roll keeps its newest frames.
    pub fn configure(&mut self, limits: VadFrameLimits, preroll_frames: u32)
        requires
            old(self).wf(),
        ensures
            final(self).wf(),
            final(self).limits() == limits,
            final(self).preroll_limit() == preroll_frames,
            final(self).frame_len() == old(self).frame_len(),
            final(self)@ == (VadView {
                preroll: if old(self)@.preroll.len() > preroll_frames {
                    old(self)@.preroll.subrange(
                        old(self)@.preroll.len() - preroll_frames,
                        old(self)@.preroll.len() as int,
                    )
                } else {
                    old(self)@.preroll
                },
                ..old(self)@
            }),
    {
        self.limits = limits;
        self.preroll_frames = preroll_frames;
        let mut pr: Vec<Vec<u8>> = Vec::new();
        std::mem::swap(&mut pr, &mut self.preroll);
        let ghost p0 = frames_view(pr@);
        let ghost n0 = p0.len();
        while pr.len() as u64 > preroll_frames as u64
            invariant
                n0 == p0.len(),
                pr@.len() <= n0,
                pr@.len() >= if n0 > preroll_frames as nat { preroll_frames as nat } else { n0 },
                frames_view(pr@) == p0.subrange(n0 - pr@.len(), n0 as int),
            decreases pr.len(),
        {
            let ghost before = frames_view(pr@);
            let ghost old_pr = pr@;
            pr.remove(0);
            assert(pr@ == old_pr.remove(0));
            assert forall|k: int| 0 <= k < pr@.len() implies #[trigger] frames_view(pr@)[k] == p0[n0 - pr@.len() + k] by {
                assert(pr@[k] == old_pr[k + 1]);
                assert(before == p0.subrange(n0 - old_pr.len(), n0 as int));
                assert(p0.subrange(n0 - old_pr.len(), n0 as int)[k + 1] == p0[n0 - old_pr.len() + k + 1]);
                assert(frames_view(pr@)[k] == pr@[k]@);
                assert(before[k + 1] == old_pr[k + 1]@);
            }
            assert(frames_view(pr@) =~= p0.subrange(n0 - pr@.len(), n0 as int));
        }
        proof {
            if n0 <= preroll_frames as nat {
                assert(p0.subrange(0, n0 as int) =~= p0);
            }
        }
        self.preroll = pr;
    }
}

} // verus!
