use voicesub::config::{
    normalize_execution_provider, normalize_inference_session_options, LocalAsrConfig,
    LocalAsrInferenceConfig, LocalAsrMicrophoneConfig,
};
use voicesub::realtime_settings::{
    apply_latency_preset_to_config, realtime_overrides_for_preset, resolved_chunk_window_ms,
    vad_config_for_preset, ResolvedRealtimeSettings,
};

const EXECUTION_PROVIDER_CPU: &str = "cpu";
const EXECUTION_PROVIDER_CUDA: &str = "cuda";

#[test]
fn normalizes_session_thread_bounds() {
    let mut inf = LocalAsrInferenceConfig::default();
    inf.intra_op_threads = 0;
    inf.inter_op_threads = 99;
    inf.graph_optimization_level = 9;
    normalize_inference_session_options(&mut inf);
    assert_eq!(inf.intra_op_threads, 1);
    assert_eq!(inf.inter_op_threads, 64);
    assert_eq!(inf.graph_optimization_level, 3);
}

#[test]
fn normalizes_execution_provider() {
    assert_eq!(normalize_execution_provider("CUDA"), EXECUTION_PROVIDER_CUDA);
    assert_eq!(normalize_execution_provider("unknown"), EXECUTION_PROVIDER_CPU);
}

#[test]
fn merge_from_applies_cpu_downgrade() {
    let mut base = LocalAsrConfig::default();
    base.inference.execution_provider = EXECUTION_PROVIDER_CUDA.into();
    let patch = LocalAsrConfig { inference: LocalAsrInferenceConfig::default(), ..LocalAsrConfig::default() };
    base.merge_from(&patch);
    assert_eq!(base.inference.execution_provider, EXECUTION_PROVIDER_CPU);
}

#[test]
fn merge_from_preserves_inference_when_patch_only_microphone() {
    let mut base = LocalAsrConfig::default();
    base.model.path = "/models/parakeet".into();
    base.inference.execution_provider = EXECUTION_PROVIDER_CUDA.into();
    let patch = LocalAsrConfig {
        microphone: LocalAsrMicrophoneConfig {
            device_id: "mic-1".into(),
            ..LocalAsrMicrophoneConfig::default()
        },
        ..LocalAsrConfig::default()
    };
    base.merge_from(&patch);
    assert_eq!(base.model.path, "/models/parakeet");
    assert_eq!(base.inference.execution_provider, EXECUTION_PROVIDER_CUDA);
    assert_eq!(base.microphone.device_id, "mic-1");
}

#[test]
fn apply_tunable_from_writes_default_realtime_over_custom() {
    let mut base = LocalAsrConfig::default();
    base.realtime.latency_preset = "quality".into();
    base.realtime.window_ms = Some(6000);
    let patch = LocalAsrConfig::default();
    base.apply_tunable_from(&patch);
    assert_eq!(base.realtime.latency_preset, "balanced");
    assert_eq!(base.realtime.window_ms, None);
}

#[test]
fn low_preset_resolves_fast_decode() {
    let mut config = LocalAsrConfig::default();
    config.realtime.latency_preset = "low".into();
    let resolved = ResolvedRealtimeSettings::from_config(&config);
    assert_eq!(resolved.decode_interval_ms, 200);
    assert_eq!(resolved.first_partial_min_speech_ms, 140);
    assert!(resolved.streaming_decode);
    assert_eq!(resolved.partial_emit_mode, "word_growth");
    assert_eq!(resolved.partial_min_new_words, 1);
}

#[test]
fn balanced_preset_matches_expected_defaults() {
    let mut config = LocalAsrConfig::default();
    config.realtime.latency_preset = "balanced".into();
    let resolved = ResolvedRealtimeSettings::from_config(&config);
    assert_eq!(resolved.decode_interval_ms, 280);
    assert_eq!(resolved.first_partial_min_speech_ms, 180);
    assert_eq!(resolved.window_ms, 640);
    assert_eq!(resolved.segment_enqueue_delta_ms, 280);
}

#[test]
fn quality_preset_applies_coalescing_defaults() {
    let mut config = LocalAsrConfig::default();
    config.realtime.latency_preset = "quality".into();
    let resolved = ResolvedRealtimeSettings::from_config(&config);
    assert_eq!(resolved.partial_min_delta_chars, 1);
    assert_eq!(resolved.partial_coalescing_ms, 80);
}

#[test]
fn advanced_override_wins_over_preset() {
    let mut config = LocalAsrConfig::default();
    config.realtime.latency_preset = "low".into();
    config.realtime.decode_interval_ms = Some(750);
    let resolved = ResolvedRealtimeSettings::from_config(&config);
    assert_eq!(resolved.decode_interval_ms, 750);
}

#[test]
fn chunk_window_formula_matches_expected_defaults() {
    assert_eq!(resolved_chunk_window_ms(280), 640);
    assert_eq!(resolved_chunk_window_ms(200), 640);
    assert_eq!(resolved_chunk_window_ms(650), 1040);
}

#[test]
fn preset_helpers_match_balanced_vad() {
    let vad = vad_config_for_preset("balanced");
    assert_eq!(vad.min_speech_ms, 180);
    assert_eq!(vad.min_silence_ms, 400);
    assert_eq!(vad.silence_hold_ms, 180);
    assert_eq!(vad.max_segment_ms, 120_000);
    let rt = realtime_overrides_for_preset("balanced");
    assert_eq!(rt.latency_preset, "balanced");
    assert_eq!(rt.first_partial_min_speech_ms, Some(180));
}

#[test]
fn apply_latency_preset_writes_vad_holds() {
    let mut config = LocalAsrConfig::default();
    config.realtime.latency_preset = "quality".into();
    apply_latency_preset_to_config(&mut config);
    assert_eq!(config.vad.silence_hold_ms, 260);
    assert_eq!(config.vad.min_silence_ms, 520);
    assert_eq!(config.realtime.partial_coalescing_ms, 80);
    let resolved = ResolvedRealtimeSettings::from_config(&config);
    assert_eq!(resolved.silence_hold_ms, 260);
    assert_eq!(resolved.finalization_hold_ms, 520);
}

#[test]
fn execution_provider_ignores_case_and_spaces() {
    assert_eq!(normalize_execution_provider("  Cuda "), EXECUTION_PROVIDER_CUDA);
    assert_eq!(normalize_execution_provider(""), EXECUTION_PROVIDER_CPU);
}

#[test]
fn merge_from_keeps_everything_for_an_all_default_patch() {
    let mut base = LocalAsrConfig::default();
    base.model.path = "/models/x".into();
    base.realtime.latency_preset = "quality".into();
    base.merge_from(&LocalAsrConfig::default());
    assert_eq!(base.model.path, "/models/x");
    assert_eq!(base.realtime.latency_preset, "quality");
}
