use voicesub::decode::{left_context_ms, prepare_decode_window, select_partial_window, DecodePass};
use voicesub::decode_pacing::{adaptive_partial_decode_interval_ms, max_segment_ms_for_preset, pacing_allows, DecodePacer, LastDecodeMs};
use voicesub::segment_enqueue::ms_to_samples;

#[test]
fn short_audio_keeps_base_interval() {
    assert_eq!(adaptive_partial_decode_interval_ms(280, 800, 0), 280);
    assert_eq!(adaptive_partial_decode_interval_ms(200, 1_000, 0), 200);
}

#[test]
fn longer_audio_stretches_interval() {
    let at_3s = adaptive_partial_decode_interval_ms(280, 3_000, 0);
    assert_eq!(at_3s, 560);
    let at_5s = adaptive_partial_decode_interval_ms(280, 5_000, 0);
    assert_eq!(at_5s, 840);
    let at_15s = adaptive_partial_decode_interval_ms(280, 15_000, 0);
    assert_eq!(at_15s, 1_400);
}

#[test]
fn last_decode_cost_raises_floor() {
    let interval = adaptive_partial_decode_interval_ms(280, 800, 250);
    assert_eq!(interval, 313);
}

#[test]
fn pacer_blocks_until_interval_elapses() {
    let mut pacer = DecodePacer::default();
    assert!(pacer.allow_partial(50));
    assert!(!pacer.allow_partial(50));
    let start = std::time::Instant::now();
    while start.elapsed() < std::time::Duration::from_millis(60) {}
    assert!(pacer.allow_partial(50));
}

#[test]
fn preset_max_segment_force_finals_like_ui() {
    assert_eq!(max_segment_ms_for_preset("low"), 5_500);
    assert_eq!(max_segment_ms_for_preset("balanced"), 5_500);
    assert_eq!(max_segment_ms_for_preset("quality"), 5_500);
}

#[test]
fn interval_is_capped_at_three_seconds() {
    assert_eq!(adaptive_partial_decode_interval_ms(2_000, 20_000, 0), 3_000);
    assert_eq!(adaptive_partial_decode_interval_ms(280, 800, 10_000), 3_000);
    assert_eq!(adaptive_partial_decode_interval_ms(0, 0, 0), 1);
}

#[test]
fn pacing_allows_after_interval() {
    assert!(pacing_allows(280, 280));
    assert!(!pacing_allows(279, 280));
    assert!(pacing_allows(1, 0));
}

#[test]
fn last_decode_ms_stores_and_loads() {
    let mut last = LastDecodeMs::new();
    assert_eq!(last.load(), 0);
    last.store(123);
    assert_eq!(last.load(), 123);
}

#[test]
fn left_context_is_clamped() {
    assert_eq!(left_context_ms(100), 1_800);
    assert_eq!(left_context_ms(1_000), 3_000);
    assert_eq!(left_context_ms(u32::MAX), 6_000);
}

#[test]
fn optional_tail_window_selects_left_context_for_long_audio() {
    let sample_rate = 16_000;
    let cumulative = vec![0.0f32; sample_rate as usize * 10];
    let (_, window) = select_partial_window(&cumulative, 640, sample_rate);
    assert!(window.len() < cumulative.len());
    assert!(window.len() >= ms_to_samples(1800, sample_rate));
}

#[test]
fn short_audio_keeps_whole_window() {
    let cumulative = vec![1u8; 100];
    let (start, window) = select_partial_window(&cumulative, 640, 16_000);
    assert_eq!(start, 0);
    assert_eq!(window.len(), 100);
}

/// The sample before `index` that pre-emphasis continues from (0.0 at the segment start).
fn preemphasis_prev_before_index(segment: &[f32], index: usize) -> f32 {
    if index == 0 { 0.0 } else { segment[index - 1] }
}

#[test]
fn partial_and_final_use_full_cumulative_buffer() {
    let cumulative = vec![0.5f32; 16_000 * 4];
    let (p_start, partial) = prepare_decode_window(&cumulative, 640, DecodePass::Partial);
    let (f_start, final_pass) = prepare_decode_window(&cumulative, 640, DecodePass::Final);
    assert_eq!(partial.len(), cumulative.len());
    assert_eq!(final_pass.len(), cumulative.len());
    assert_eq!(preemphasis_prev_before_index(&cumulative, p_start), 0.0);
    assert_eq!(preemphasis_prev_before_index(&cumulative, f_start), 0.0);
}

#[test]
fn partial_tail_helper_keeps_preemph_prev() {
    let mut cumulative = vec![0.5f32; 16_000 * 4];
    let (start, _) = select_partial_window(&cumulative, 640, 16_000);
    cumulative[start.saturating_sub(1)] = 0.1;
    let (start, samples) = select_partial_window(&cumulative, 640, 16_000);
    assert_eq!(preemphasis_prev_before_index(&cumulative, start), 0.1);
    assert!(samples.len() < cumulative.len());
}

#[test]
fn partial_tail_is_bounded_for_long_segments() {
    let cumulative = vec![1.0f32; 16_000 * 10];
    let (start, window) = select_partial_window(&cumulative, 640, 16_000);
    assert!(window.len() < cumulative.len());
    assert_eq!(window.len(), cumulative.len() - start);
}

#[test]
fn prepare_decode_window_keeps_full_buffer_for_partials() {
    let cumulative = vec![1.0f32; 16_000 * 10];
    let (_, samples) = prepare_decode_window(&cumulative, 640, DecodePass::Partial);
    assert_eq!(samples.len(), cumulative.len());
}
