use voicesub::pipeline::VadSegmentKind;
use voicesub::vad_frames::{vad_frame_limits, VadFrameLimits};
use voicesub::vad_segmenter::{FrameVerdicts, VadEmit, VadSegmenter};
use webrtc_vad::{SampleRate, Vad, VadMode};

const FRAME_BYTES: usize = 960;

fn default_limits(attack: u32) -> VadFrameLimits {
    vad_frame_limits(30, 180, 350, 180, 180, 280, 5_500, attack)
}

fn all_pass() -> FrameVerdicts {
    FrameVerdicts { energy_ok: true, adaptive_ok: true, ratio_ok_if_admitted: true, ratio_ok_if_rejected: true }
}

fn frame(tag: u8) -> Vec<u8> {
    vec![tag; FRAME_BYTES]
}

fn step(seg: &mut VadSegmenter, f: Vec<u8>, speech: bool) -> Vec<VadEmit> {
    let mut out = Vec::new();
    seg.vad_step_after(f, speech, all_pass(), &mut out);
    out
}

fn sine_pcm(freq: f32, samples: usize) -> Vec<u8> {
    let mut out = Vec::new();
    for idx in 0..samples {
        let v = (2.0 * std::f32::consts::PI * freq * idx as f32 / 16_000.0).sin() * 0.35;
        out.extend_from_slice(&((v.clamp(-1.0, 1.0) * 32767.0) as i16).to_le_bytes());
    }
    out
}

#[test]
fn silence_produces_no_segments() {
    let mut vad = Vad::new_with_rate_and_mode(SampleRate::Rate16kHz, VadMode::Aggressive);
    let mut seg = VadSegmenter::new(default_limits(2), 5, FRAME_BYTES);
    let silence = vec![0u8; 960];
    for _ in 0..50 {
        for f in seg.begin_chunk(&silence) {
            let outcome = seg.push_frame(&mut vad, f, all_pass());
            assert!(!outcome.speech);
            assert!(outcome.segments.is_empty());
        }
        seg.end_chunk();
    }
    assert!(!seg.in_speech());
}

#[test]
fn force_finalize_after_speech_chunks() {
    let mut vad = Vad::new_with_rate_and_mode(SampleRate::Rate16kHz, VadMode::Aggressive);
    let mut seg = VadSegmenter::new(default_limits(1), 0, FRAME_BYTES);
    let tone = sine_pcm(300.0, 480);
    for _ in 0..12 {
        for f in seg.begin_chunk(&tone) {
            let _ = seg.push_frame(&mut vad, f, all_pass());
        }
        seg.end_chunk();
    }
    let finals = seg.force_finalize(true);
    assert!(!finals.is_empty());
    assert_eq!(finals[0].kind, VadSegmentKind::Final);
}

#[test]
fn chunks_are_cut_into_whole_frames() {
    let mut seg = VadSegmenter::new(default_limits(2), 5, FRAME_BYTES);
    assert!(seg.begin_chunk(&[]).is_empty());
    assert!(seg.begin_chunk(&vec![1u8; 500]).is_empty());
    seg.end_chunk();
    let frames = seg.begin_chunk(&vec![2u8; 1_500]);
    assert_eq!(frames.len(), 2);
    assert_eq!(frames[0][..500], vec![1u8; 500][..]);
    assert_eq!(frames[0][500..], vec![2u8; 460][..]);
    seg.end_chunk();
    // 2000 bytes arrived, 1920 consumed: 80 wait for the next frame.
    let frames = seg.begin_chunk(&vec![3u8; 880]);
    assert_eq!(frames.len(), 1);
    assert_eq!(frames[0][..80], vec![2u8; 80][..]);
}

#[test]
fn onset_waits_for_attack_frames_and_takes_preroll() {
    let mut seg = VadSegmenter::new(default_limits(2), 2, FRAME_BYTES);
    for tag in 0..3 {
        assert!(step(&mut seg, frame(tag), false).is_empty());
    }
    assert!(step(&mut seg, frame(10), true).is_empty());
    assert!(!seg.in_speech());
    assert!(step(&mut seg, frame(11), true).is_empty());
    assert!(seg.in_speech());
    // Pre-roll keeps the newest two silent frames; both attack frames are voiced.
    assert_eq!(seg.counts(), (2, 4));
}

#[test]
fn first_partial_then_final_after_silence_hold() {
    let mut seg = VadSegmenter::new(default_limits(1), 0, FRAME_BYTES);
    let mut emitted = Vec::new();
    for i in 0..6 {
        emitted.extend(step(&mut seg, frame(i), true));
    }
    // Six frames of 30 ms reach the 180 ms first-partial mark.
    assert_eq!(emitted.len(), 1);
    assert_eq!(emitted[0].kind, VadSegmentKind::Partial);
    assert_eq!(emitted[0].frames, 6);
    assert_eq!(emitted[0].audio.len(), 6 * FRAME_BYTES);
    let mut tail = Vec::new();
    for i in 0..12 {
        tail.extend(step(&mut seg, frame(100 + i), false));
    }
    // 350 ms of silence finalizes the segment of six speech frames.
    assert_eq!(tail.len(), 1);
    assert_eq!(tail[0].kind, VadSegmentKind::Final);
    assert_eq!(tail[0].frames, 6);
    assert!(!seg.in_speech());
}

#[test]
fn short_burst_is_dropped_on_finalization() {
    let mut seg = VadSegmenter::new(default_limits(1), 0, FRAME_BYTES);
    step(&mut seg, frame(1), true);
    let mut out = Vec::new();
    for i in 0..12 {
        out.extend(step(&mut seg, frame(i), false));
    }
    assert!(out.is_empty());
    assert_eq!(seg.segment_dropped_count(), 1);
}

#[test]
fn rejected_voiced_ratio_blocks_the_partial() {
    let mut seg = VadSegmenter::new(default_limits(1), 0, FRAME_BYTES);
    let verdicts = FrameVerdicts { ratio_ok_if_admitted: false, ..all_pass() };
    let mut out = Vec::new();
    for i in 0..6 {
        seg.vad_step_after(frame(i), true, verdicts, &mut out);
    }
    assert!(out.is_empty());
    assert!(seg.in_speech());
}

#[test]
fn energy_gate_keeps_frame_out() {
    let mut seg = VadSegmenter::new(default_limits(1), 0, FRAME_BYTES);
    let verdicts = FrameVerdicts { energy_ok: false, ..all_pass() };
    let mut out = Vec::new();
    let admitted = seg.vad_step_after(frame(1), true, verdicts, &mut out);
    assert!(!admitted);
    assert!(!seg.in_speech());
}
