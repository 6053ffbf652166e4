use voicesub::asr_segment_queue::{AsrSegmentQueue, AsrWorkItem, AsrWorkKind, RuntimeGeneration};
use voicesub::config::LocalAsrConfig;
use voicesub::pipeline::{segment_duration_ms, EnqueueOutcome, RealtimePipeline, VadSegment, VadSegmentKind};
use voicesub::transfer::{TransferPhase, TransferProgress};

fn vad_partial(audio: Vec<f32>, duration_ms: u32) -> VadSegment<f32> {
    VadSegment { kind: VadSegmentKind::Partial, audio, duration_ms }
}

/// Runs a decode result through the filters and the (permissive) partial-emit gate.
fn process(pipeline: &mut RealtimePipeline<f32>, generation: &RuntimeGeneration, item: AsrWorkItem<f32>, text: &str) -> Vec<voicesub::emit_policy::PipelineEmit> {
    match pipeline.process_decode_result(item, Some(text.to_string()), generation, false) {
        Some(pending) => pipeline.emit_pending(pending, true),
        None => Vec::new(),
    }
}

#[test]
fn streaming_decode_off_still_enqueues_partials_with_full_buffer() {
    let mut queue = AsrSegmentQueue::new(64);
    let generation = RuntimeGeneration::new(1);
    let mut config = LocalAsrConfig::default();
    config.realtime.streaming_decode = false;
    let mut pipeline = RealtimePipeline::new(&config);
    pipeline.allow_next_partial();
    let outcome = pipeline.enqueue_vad_capture_segment(&mut queue, &generation, vad_partial(vec![0.1; 3_200], 200));
    assert_eq!(outcome, EnqueueOutcome::Enqueued);
    assert_eq!(queue.queue_depth(), 1);
    let item = queue.pop_next().expect("partial job");
    assert_eq!(item.kind, AsrWorkKind::Partial);
    assert!(!item.audio_is_delta);
    assert_eq!(item.audio.len(), 3_200);
}

#[test]
fn streaming_decode_on_enqueues_audio_delta() {
    let mut queue = AsrSegmentQueue::new(64);
    let generation = RuntimeGeneration::new(1);
    let mut config = LocalAsrConfig::default();
    config.realtime.streaming_decode = true;
    let mut pipeline = RealtimePipeline::new(&config);
    let audio_a = vec![0.1; 1_600];
    let mut audio_b = audio_a.clone();
    audio_b.extend(std::iter::repeat_n(0.2, 1_600));
    pipeline.allow_next_partial();
    pipeline.enqueue_vad_capture_segment(&mut queue, &generation, vad_partial(audio_a, 100));
    let first = queue.pop_next().expect("first partial");
    assert!(first.audio_is_delta);
    assert_eq!(first.audio.len(), 1_600);
    pipeline.allow_next_partial();
    pipeline.enqueue_vad_capture_segment(&mut queue, &generation, vad_partial(audio_b, 200));
    let second = queue.pop_next().expect("second partial delta");
    assert!(second.audio_is_delta);
    assert_eq!(second.audio.len(), 1_600);
    assert!(second.audio.iter().all(|s| (*s - 0.2).abs() < f32::EPSILON));
}

#[test]
fn adaptive_pacing_skips_rapid_partials_without_advancing_delta() {
    let mut queue = AsrSegmentQueue::new(64);
    let generation = RuntimeGeneration::new(1);
    let mut config = LocalAsrConfig::default();
    config.realtime.streaming_decode = true;
    config.realtime.decode_interval_ms = Some(500);
    let mut pipeline = RealtimePipeline::new(&config);
    let audio_a = vec![0.1; 1_600];
    let mut audio_b = audio_a.clone();
    audio_b.extend(std::iter::repeat_n(0.2, 1_600));

    pipeline.enqueue_vad_capture_segment(&mut queue, &generation, vad_partial(audio_a.clone(), 100));
    assert_eq!(queue.queue_depth(), 1);
    let _ = queue.pop_next();

    let outcome = pipeline.enqueue_vad_capture_segment(&mut queue, &generation, vad_partial(audio_b.clone(), 2_500));
    assert_eq!(outcome, EnqueueOutcome::Paced);
    assert_eq!(queue.queue_depth(), 0);

    pipeline.allow_next_partial();
    pipeline.enqueue_vad_capture_segment(&mut queue, &generation, vad_partial(audio_b, 2_500));
    let item = queue.pop_next().expect("paced partial eventually enqueued");
    assert_eq!(item.audio.len(), 1_600);
    assert!(item.audio.iter().all(|s| (*s - 0.2).abs() < f32::EPSILON));
}

#[test]
fn final_segment_is_never_paced_and_closes_segment() {
    let mut queue = AsrSegmentQueue::new(64);
    let generation = RuntimeGeneration::new(7);
    let mut pipeline = RealtimePipeline::new(&LocalAsrConfig::default());
    pipeline.enqueue_vad_capture_segment(&mut queue, &generation, vad_partial(vec![0.1; 10], 10));
    let outcome = pipeline.enqueue_vad_capture_segment(
        &mut queue,
        &generation,
        VadSegment { kind: VadSegmentKind::Final, audio: vec![0.1; 20], duration_ms: 20 },
    );
    assert_eq!(outcome, EnqueueOutcome::Enqueued);
    let job = queue.pop_next().expect("final");
    assert_eq!(job.kind, AsrWorkKind::Final);
    assert_eq!(job.generation, 7);
    assert_eq!(job.segment_id, "segment-1");
    pipeline.enqueue_vad_capture_segment(&mut queue, &generation, vad_partial(vec![0.1; 10], 10));
    assert_eq!(queue.pop_next().expect("next segment").segment_id, "segment-2");
}

#[test]
fn disabled_vad_buffers_audio_until_final() {
    let mut queue = AsrSegmentQueue::new(64);
    let generation = RuntimeGeneration::new(1);
    let mut config = LocalAsrConfig::default();
    config.vad.enabled = false;
    let mut pipeline = RealtimePipeline::new(&config);
    pipeline.push_samples_vad_disabled(&[]);
    pipeline.push_samples_vad_disabled(&[0.5f32; 8_000]);
    pipeline.push_samples_vad_disabled(&[0.5f32; 8_000]);
    pipeline.enqueue_disabled_final(&mut queue, &generation);
    let job = queue.pop_next().expect("final job");
    assert_eq!(job.audio.len(), 16_000);
    assert_eq!(job.duration_ms, 1_000);
    assert_eq!(job.kind, AsrWorkKind::Final);
}

#[test]
fn segment_duration_counts_model_rate() {
    assert_eq!(segment_duration_ms(16_000), 1_000);
    assert_eq!(segment_duration_ms(8), 0);
}

#[test]
fn partial_survives_while_final_decode_is_pending() {
    let generation = RuntimeGeneration::new(1);
    let mut pipeline = RealtimePipeline::new(&LocalAsrConfig::default());
    pipeline.prime_active_segment("segment-1");
    let partial_item = AsrWorkItem::new(AsrWorkKind::Partial, vec![0.1; 100], 100, 1, "segment-1".into(), 1);
    assert!(!process(&mut pipeline, &generation, partial_item, "hello").is_empty());
    let late_partial = AsrWorkItem::new(AsrWorkKind::Partial, vec![0.1; 150], 150, 1, "segment-1".into(), 3);
    assert!(!process(&mut pipeline, &generation, late_partial, "hello world").is_empty());
    let final_item = AsrWorkItem::new(AsrWorkKind::Final, vec![0.1; 200], 200, 1, "segment-1".into(), 2);
    assert!(!process(&mut pipeline, &generation, final_item, "hello world").is_empty());
}

#[test]
fn stale_partial_after_final_still_emits() {
    let generation = RuntimeGeneration::new(1);
    let mut pipeline = RealtimePipeline::new(&LocalAsrConfig::default());
    let final_item = AsrWorkItem::new(AsrWorkKind::Final, vec![0.1; 100], 100, 1, "segment-1".into(), 2);
    assert!(!process(&mut pipeline, &generation, final_item, "done").is_empty());
    let stale_partial = AsrWorkItem::new(AsrWorkKind::Partial, vec![0.1; 100], 100, 1, "segment-1".into(), 1);
    assert!(!process(&mut pipeline, &generation, stale_partial, "done").is_empty());
}

#[test]
fn process_decode_grows_partial_like_typed_text() {
    let generation = RuntimeGeneration::new(1);
    let mut pipeline = RealtimePipeline::new(&LocalAsrConfig::default());
    pipeline.prime_active_segment("seg-grow");
    let first = process(&mut pipeline, &generation, AsrWorkItem::new(AsrWorkKind::Partial, vec![0.1; 100], 100, 1, "seg-grow".into(), 1), "hello");
    assert_eq!(first.len(), 1);
    assert!(!first[0].is_final);
    assert_eq!(first[0].text, "hello");
    let second = process(&mut pipeline, &generation, AsrWorkItem::new(AsrWorkKind::Partial, vec![0.1; 200], 200, 1, "seg-grow".into(), 2), "hello world");
    assert_eq!(second.len(), 1);
    assert_eq!(second[0].text, "hello world");
    let final_emit = process(&mut pipeline, &generation, AsrWorkItem::new(AsrWorkKind::Final, vec![0.1; 200], 200, 1, "seg-grow".into(), 3), "hello world hello world");
    assert_eq!(final_emit.len(), 1);
    assert!(final_emit[0].is_final);
    assert_eq!(final_emit[0].text, "hello world");
}

#[test]
fn stale_generation_results_are_ignored() {
    let mut queue = AsrSegmentQueue::new(64);
    let mut generation = RuntimeGeneration::new(1);
    let mut pipeline = RealtimePipeline::new(&LocalAsrConfig::default());
    pipeline.invalidate_runtime_generation(&mut queue, &mut generation);
    let item = AsrWorkItem::new(AsrWorkKind::Partial, vec![0.1; 100], 100, 1, "segment-1".into(), 1);
    assert!(pipeline.process_decode_result(item, Some("hello".into()), &generation, false).is_none());
}

#[test]
fn final_keeps_longer_last_partial() {
    let generation = RuntimeGeneration::new(1);
    let mut pipeline = RealtimePipeline::new(&LocalAsrConfig::default());
    let _ = process(&mut pipeline, &generation, AsrWorkItem::new(AsrWorkKind::Partial, vec![0.1; 10], 1500, 1, "s".into(), 1), "hello world");
    assert_eq!(pipeline.last_partial_text("s"), "hello world");
    let out = process(&mut pipeline, &generation, AsrWorkItem::new(AsrWorkKind::Final, vec![0.1; 10], 1500, 1, "s".into(), 2), "hello wor");
    assert_eq!(out[0].text, "hello world");
    assert_eq!(pipeline.last_partial_text("s"), "");
}

#[test]
fn silence_token_final_is_dropped() {
    let generation = RuntimeGeneration::new(1);
    let mut pipeline = RealtimePipeline::new(&LocalAsrConfig::default());
    let item = AsrWorkItem::new(AsrWorkKind::Final, vec![0.1; 10], 300, 1, "s".into(), 1);
    assert!(pipeline.process_decode_result(item, Some("yeah".into()), &generation, false).is_none());
    let gated = AsrWorkItem::new(AsrWorkKind::Partial, vec![0.1; 10], 3000, 1, "s".into(), 2);
    let pending = pipeline.process_decode_result(gated, Some("hello there".into()), &generation, false).expect("passes filters");
    assert!(pipeline.emit_pending(pending, false).is_empty());
}

#[test]
fn transfer_progress_grows_total_and_ignores_zero() {
    let mut p = TransferProgress::default();
    p.begin("cuda_redist".into(), "CUDA runtime".into());
    assert!(p.active);
    assert_eq!(p.phase, TransferPhase::Downloading);
    p.set_total(Some(0));
    assert_eq!(p.total_bytes, None);
    p.set_total(Some(100));
    p.add_bytes(150);
    assert_eq!(p.total_bytes, Some(150));
    p.finish_ok();
    assert!(!p.active);
    assert_eq!(p.phase, TransferPhase::Idle);
    p.finish_err("boom".into());
    assert_eq!(p.error.as_deref(), Some("boom"));
    p.finish_cancelled();
    assert!(p.cancelled && p.error.is_none());
}

fn percent(p: &TransferProgress) -> Option<f32> {
    p.percent.map(|(done, total)| done as f32 / total as f32 * 100.0)
}

#[test]
fn reporter_grows_total_when_received_exceeds_estimate() {
    let mut p = TransferProgress::default();
    p.begin("cuda_redist".into(), "CUDA runtime".into());
    p.set_total(Some(100));
    p.add_bytes(150);
    assert_eq!(p.total_bytes, Some(150));
    assert_eq!(percent(&p), Some(100.0));
}

#[test]
fn set_total_ignores_zero() {
    let mut p = TransferProgress::default();
    p.begin("ort_cpu".into(), "ONNX Runtime (CPU)".into());
    p.set_total(Some(0));
    assert_eq!(p.total_bytes, None);
    p.set_total(Some(200));
    p.add_bytes(50);
    assert_eq!(percent(&p), Some(25.0));
}

#[test]
fn reporter_tracks_percent() {
    let mut p = TransferProgress::default();
    p.begin("ort_cpu".into(), "ONNX Runtime CPU".into());
    p.set_total(Some(100));
    p.add_bytes(25);
    assert!(p.active);
    assert_eq!(p.received_bytes, 25);
    assert_eq!(percent(&p), Some(25.0));
    p.finish_ok();
    assert!(!p.active);
}

#[test]
fn percent_never_passes_whole_when_total_shrinks() {
    let mut p = TransferProgress::default();
    p.begin("model".into(), "Parakeet".into());
    p.add_bytes(100);
    p.set_total(Some(50));
    assert_eq!(p.percent, Some((50, 50)));
    assert_eq!(percent(&p), Some(100.0));
}

#[test]
fn percent_is_unknown_without_total() {
    let mut p = TransferProgress::default();
    p.begin("model".into(), "Model".into());
    p.add_bytes(10);
    assert_eq!(p.percent, None);
    p.set_total(Some(8));
    assert_eq!(p.percent, Some((8, 8)));
    p.set_total(Some(40));
    assert_eq!(p.percent, Some((10, 40)));
    p.finish_ok();
    assert_eq!(percent(&p), Some(100.0));
}

#[test]
fn disabled_vad_does_not_panic_on_empty_push() {
    let mut config = LocalAsrConfig::default();
    config.vad.enabled = false;
    let mut pipeline: RealtimePipeline<f32> = RealtimePipeline::new(&config);
    pipeline.push_samples_vad_disabled(&[]);
    let mut queue = AsrSegmentQueue::new(64);
    let generation = RuntimeGeneration::new(1);
    assert!(!pipeline.finalize_disabled_on_stop(&mut queue, &generation));
    assert_eq!(queue.len(), 0);
    pipeline.push_samples_vad_disabled(&[0.25f32; 1_600]);
    assert!(pipeline.finalize_disabled_on_stop(&mut queue, &generation));
    let job = queue.pop_next().expect("final job");
    assert_eq!((job.kind, job.audio.len(), job.duration_ms), (AsrWorkKind::Final, 1_600, 100));
}

fn pct(part: u64, total: u64) -> f64 {
    if total == 0 { 0.0 } else { part as f64 * 100.0 / total as f64 }
}

#[test]
fn outside_pct_when_parakeet_dominates() {
    let t = voicesub::decode_timing::DecodeTimingBreakdown::from_parts(16_000, 500, 500, 99_000);
    assert_eq!(t.outside_us, 1_000);
    assert_eq!(t.total_us, 100_000);
    assert!((pct(t.outside_us, t.total_us) - 1.0).abs() < 0.01);
    assert!((pct(t.parakeet_transcribe_us, t.total_us) - 99.0).abs() < 0.01);
    assert_eq!(t.audio_ms, 1000);
    assert_eq!(t.total_ms(), 100);
}

#[test]
fn zero_total_yields_zero_pct() {
    let t = voicesub::decode_timing::DecodeTimingBreakdown::from_parts(0, 0, 0, 0);
    assert_eq!(t.total_us, 0);
    assert_eq!(pct(t.outside_us, t.total_us), 0.0);
    assert_eq!(pct(t.parakeet_transcribe_us, t.total_us), 0.0);
}

#[test]
fn decode_timing_saturates() {
    let t = voicesub::decode_timing::DecodeTimingBreakdown::from_parts(8, u64::MAX, 1, 1);
    assert_eq!((t.outside_us, t.total_us, t.audio_ms), (u64::MAX, u64::MAX, 0));
}

#[test]
fn whitespace_only_text_is_dropped_even_with_filter_off() {
    let generation = RuntimeGeneration::new(1);
    let mut config = LocalAsrConfig::default();
    config.recognition.hallucination_filter_enabled = false;
    let mut pipeline = RealtimePipeline::new(&config);
    let _ = process(&mut pipeline, &generation, AsrWorkItem::new(AsrWorkKind::Partial, vec![0.1; 10], 1500, 1, "s".into(), 1), "hello");
    assert_eq!(pipeline.last_partial_text("s"), "hello");
    let blank = AsrWorkItem::new(AsrWorkKind::Partial, vec![0.1; 10], 1500, 1, "s".into(), 2);
    assert!(pipeline.process_decode_result(blank, Some("   \t ".into()), &generation, false).is_none());
    let blank_final = AsrWorkItem::new(AsrWorkKind::Final, vec![0.1; 10], 1500, 1, "s".into(), 3);
    assert!(pipeline.process_decode_result(blank_final, Some(" \n ".into()), &generation, false).is_none());
    assert_eq!(pipeline.last_partial_text("s"), "");
}

#[test]
fn refused_partial_gate_emits_nothing_and_keeps_last_partial() {
    let generation = RuntimeGeneration::new(1);
    let mut pipeline = RealtimePipeline::new(&LocalAsrConfig::default());
    pipeline.prime_active_segment("seg-grow");
    let first = process(&mut pipeline, &generation, AsrWorkItem::new(AsrWorkKind::Partial, vec![0.1; 100], 100, 1, "seg-grow".into(), 1), "hello");
    assert_eq!(first.len(), 1);
    let pending = pipeline
        .process_decode_result(AsrWorkItem::new(AsrWorkKind::Partial, vec![0.1; 150], 150, 1, "seg-grow".into(), 2), Some("hello there".into()), &generation, false)
        .expect("passes filters");
    assert!(pipeline.emit_pending(pending, false).is_empty());
    assert_eq!(pipeline.last_partial_text("seg-grow"), "hello");
    let pending = pipeline
        .process_decode_result(AsrWorkItem::new(AsrWorkKind::Partial, vec![0.1; 200], 200, 1, "seg-grow".into(), 3), Some("hello there friend".into()), &generation, false)
        .expect("passes filters");
    let out = pipeline.emit_pending(pending, true);
    assert_eq!(out.len(), 1);
    assert_eq!(out[0].text, "hello there friend");
    assert_eq!(pipeline.last_partial_text("seg-grow"), "hello there friend");
}

#[test]
fn partial_is_paced_by_the_adaptive_interval() {
    let mut queue = AsrSegmentQueue::new(64);
    let generation = RuntimeGeneration::new(1);
    let mut config = LocalAsrConfig::default();
    config.realtime.decode_interval_ms = Some(500);
    let mut pipeline = RealtimePipeline::new(&config);
    assert_eq!(pipeline.last_pace_interval_ms(), 0);
    let outcome = pipeline.enqueue_vad_capture_segment(&mut queue, &generation, vad_partial(vec![0.1; 1_600], 100));
    assert_eq!(outcome, EnqueueOutcome::Enqueued);
    assert_eq!(pipeline.last_pace_interval_ms(), 500);
    pipeline.store_last_decode_ms(1_000);
    pipeline.allow_next_partial();
    let outcome = pipeline.enqueue_vad_capture_segment(&mut queue, &generation, vad_partial(vec![0.1; 40_000], 2_500));
    assert_eq!(outcome, EnqueueOutcome::Enqueued);
    assert_eq!(pipeline.last_pace_interval_ms(), 1_250);
    let final_segment = VadSegment { kind: VadSegmentKind::Final, audio: vec![0.1; 40_000], duration_ms: 2_500 };
    pipeline.enqueue_vad_capture_segment(&mut queue, &generation, final_segment);
    assert_eq!(pipeline.last_pace_interval_ms(), 0);
}
