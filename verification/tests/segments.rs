use voicesub::asr_segment_queue::{AsrSegmentQueue, AsrWorkItem, AsrWorkKind, RuntimeGeneration};
use voicesub::segment_enqueue::{
    clear_segment_audio_enqueue_state, ms_to_samples, slice_segment_audio_delta, SegmentAudioEnqueue,
};
use voicesub::segment_state::SegmentStateController;
use voicesub::str_map::StrMap;

#[test]
fn waits_for_delta_threshold() {
    let mut queue = SegmentAudioEnqueue::new(280, 400, 16_000, 200);
    queue.push_samples(1000);
    assert!(!queue.enough_new_audio());
    queue.push_samples(4000);
    assert!(queue.enough_new_audio());
}

#[test]
fn should_decode_requires_min_buffer() {
    let queue = SegmentAudioEnqueue::new(280, 400, 16_000, 200);
    assert!(!queue.should_decode(1000, true));
}

#[test]
fn should_decode_after_interval_with_speech() {
    let queue = SegmentAudioEnqueue::new(280, 400, 16_000, 200);
    assert!(queue.should_decode_after(400, 3_200, true));
    assert!(!queue.should_decode_after(399, 3_200, true));
    assert!(!queue.should_decode_after(400, 3_200, false));
}

#[test]
fn ms_to_samples_rounds_down() {
    assert_eq!(ms_to_samples(280, 16_000), 4_480);
    assert_eq!(ms_to_samples(1, 999), 0);
}

#[test]
fn slice_delta_rewinds_when_tracker_ahead_of_shorter_clip() {
    let mut queued = StrMap::new();
    let partial_buffer = vec![0.0f32; 16_000];
    let (_, _) = slice_segment_audio_delta(&partial_buffer, "segment-1", true, &mut queued);

    let shorter_vad_clip = vec![0.0f32; 12_000];
    let (final_delta, final_skip) = slice_segment_audio_delta(&shorter_vad_clip, "segment-1", false, &mut queued);
    assert!(!final_skip);
    assert_eq!(final_delta.len(), shorter_vad_clip.len());
}

#[test]
fn slice_delta_returns_only_new_suffix() {
    let mut queued = StrMap::new();
    let a = vec![1u8; 10];
    let (d1, s1) = slice_segment_audio_delta(&a, "s", true, &mut queued);
    assert_eq!((d1.len(), s1), (10, false));
    let mut b = a.clone();
    b.extend([2u8; 5]);
    let (d2, s2) = slice_segment_audio_delta(&b, "s", false, &mut queued);
    assert_eq!(d2, vec![2u8; 5]);
    assert!(!s2);
    let (d3, s3) = slice_segment_audio_delta(&b, "s", false, &mut queued);
    assert!(d3.is_empty() && s3);
    clear_segment_audio_enqueue_state(&mut queued, Some("s"));
    let (d4, _) = slice_segment_audio_delta(&b, "s", false, &mut queued);
    assert_eq!(d4.len(), 15);
}

#[test]
fn assign_segment_tracking_bumps_revision() {
    let mut state = SegmentStateController::default();
    let (id, rev, started, _) = state.assign_segment_tracking(None);
    assert!(started);
    assert_eq!(rev, 1);
    let (_, rev2, started2, _) = state.assign_segment_tracking(Some(&id));
    assert!(!started2);
    assert_eq!(rev2, 2);
}

#[test]
fn new_preferred_segment_restarts_and_reports_previous() {
    let mut state = SegmentStateController::default();
    let (id, _, _, _) = state.assign_segment_tracking(None);
    assert_eq!(id, "segment-1");
    let (id2, rev, started, previous) = state.assign_segment_tracking(Some("  other "));
    assert_eq!(id2, "other");
    assert_eq!(rev, 1);
    assert!(started);
    assert_eq!(previous.as_deref(), Some("segment-1"));
}

#[test]
fn partial_text_is_whitespace_normalized() {
    let mut state = SegmentStateController::default();
    state.mark_partial_emitted("s", "  hello   world ");
    assert_eq!(state.get_last_partial_text("s"), "hello world");
    assert!(state.last_partial_emit_at("s").is_some());
    state.clear_partial_tracking_for_segment(Some("s"));
    assert_eq!(state.get_last_partial_text("s"), "");
}

fn item(kind: AsrWorkKind, audio: Vec<f32>, duration_ms: u32, segment: &str, revision: u64) -> AsrWorkItem<f32> {
    AsrWorkItem::new(kind, audio, duration_ms, 1, segment.into(), revision)
}

#[test]
fn coalesces_partials_for_same_segment() {
    let mut queue = AsrSegmentQueue::new(64);
    queue.push(item(AsrWorkKind::Partial, vec![0.1; 100], 100, "seg-1", 1));
    queue.push(item(AsrWorkKind::Partial, vec![0.2; 200], 200, "seg-1", 2));
    assert_eq!(queue.len(), 1);
    assert_eq!(queue.partial_jobs_coalesced(), 1);
}

#[test]
fn coalesced_delta_partials_merge_audio() {
    let mut queue = AsrSegmentQueue::new(64);
    let mut first = item(AsrWorkKind::Partial, vec![0.1; 100], 100, "seg-1", 1);
    first.audio_is_delta = true;
    queue.push(first);
    let mut second = item(AsrWorkKind::Partial, vec![0.2; 50], 150, "seg-1", 2);
    second.audio_is_delta = true;
    queue.push(second);
    assert_eq!(queue.len(), 1);
    let merged = queue.pop_next().expect("merged partial");
    assert!(merged.audio_is_delta);
    assert_eq!(merged.audio.len(), 150);
    assert!(merged.audio[..100].iter().all(|s| (*s - 0.1).abs() < f32::EPSILON));
    assert!(merged.audio[100..].iter().all(|s| (*s - 0.2).abs() < f32::EPSILON));
}

#[test]
fn prioritizes_final_over_partial() {
    let mut queue = AsrSegmentQueue::new(64);
    queue.push(item(AsrWorkKind::Partial, vec![0.1; 100], 100, "seg-1", 1));
    queue.push(item(AsrWorkKind::Final, vec![0.2; 200], 200, "seg-1", 2));
    let next = queue.pop_next().expect("item");
    assert_eq!(next.kind, AsrWorkKind::Final);
}

#[test]
fn full_queue_drops_oldest_partial() {
    let mut queue = AsrSegmentQueue::new(1);
    queue.push(item(AsrWorkKind::Partial, vec![0.1; 10], 10, "a", 1));
    queue.push(item(AsrWorkKind::Final, vec![0.1; 10], 10, "b", 1));
    assert_eq!(queue.len(), 1);
    assert_eq!(queue.partial_jobs_dropped(), 1);
    assert_eq!(queue.pop_next().expect("final").kind, AsrWorkKind::Final);
    assert!(queue.pop_next().is_none());
}

#[test]
fn runtime_generation_bumps() {
    let mut generation = RuntimeGeneration::new(1);
    assert_eq!(generation.current(), 1);
    assert_eq!(generation.bump(), 2);
    assert_eq!(generation.current(), 2);
}

#[test]
fn golden_segment_audio_delta_slice() {
    let mut tracker = StrMap::new();
    let full = vec![1.0f32, 2.0, 3.0, 4.0];
    let (delta, skip) = slice_segment_audio_delta(&full, "seg-1", true, &mut tracker);
    assert!(!skip);
    assert_eq!(delta, full);
    let (delta2, skip2) = slice_segment_audio_delta(&full, "seg-1", false, &mut tracker);
    assert!(skip2);
    assert!(delta2.is_empty());
    let extended = vec![1.0f32, 2.0, 3.0, 4.0, 5.0];
    let (delta3, skip3) = slice_segment_audio_delta(&extended, "seg-1", false, &mut tracker);
    assert!(!skip3);
    assert_eq!(delta3, vec![5.0]);
}
