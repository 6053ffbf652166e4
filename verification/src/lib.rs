//! VoiceSub subtitle engine: launch policy for the browser speech worker, local ASR
//! segment/emit/pacing logic, dependency and model readiness decisions.
pub mod text;
pub mod asr_segment_queue;
pub mod chrome_flags;
pub mod operational_fsm;
pub mod webview_power;
pub mod orphan_guard;
pub mod launch_stability;
pub mod webview2_messages;
pub mod clock;
pub mod str_map;
pub mod decode_pacing;
pub mod segment_enqueue;
pub mod segment_state;
pub mod config;
pub mod realtime_settings;
pub mod emit_policy;
pub mod emit_telemetry;
pub mod hallucination_filter;
pub mod deps;
pub mod test_session;
pub mod setup;
pub mod model_manager;
pub mod status;
pub mod pipeline;
pub mod device_names;
pub mod process_stats;
pub mod decode;
pub mod webview2_runtime;
pub mod transfer;
pub mod diagnostics;
pub mod vad_frames;
pub mod gateway;
pub mod gateway_status;
pub mod browser_service;
pub mod process_affinity;
pub mod decode_worker;
pub mod module_service;
pub mod launch_config;
pub mod decode_timing;
pub mod audio_error;
pub mod playback_control;
pub mod output_routing;
pub mod vad_segmenter;
