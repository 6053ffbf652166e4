use voicesub::config::LocalAsrConfig;
use voicesub::deps::{
    check_cuda_toolkit_13_in, check_group, cuda_redist_dlls, env_check, ort_cpu_dlls, ort_gpu_dlls, vcruntime_dlls,
    DllGroupStatus, LocalAsrEnvCheck, CUDA_DOWNLOAD_MB, ORT_CPU_DOWNLOAD_MB, ORT_GPU_DOWNLOAD_MB,
};
use voicesub::diagnostics::{assemble_local_asr_diagnostics, diagnostics_message, phase_name};
use voicesub::emit_telemetry::EmitTelemetrySnapshot;
use voicesub::module_service::{
    diagnostics_counts, heal_model_path, test_start_precondition, forget_deleted_model, plan_model_selection, prepare_config_save, runtime_start_precondition,
    session_options_fingerprint, setup_changed,
};
use voicesub::status::{InferenceSnapshot, LocalAsrModulePhase};
use voicesub::test_session::{TestBenchPhase, TestBenchSnapshot};

fn group(names: Vec<&str>, present: bool, mb: u64) -> DllGroupStatus {
    let paths = names.iter().map(|n| if present { Some(format!("/rt/{n}")) } else { None }).collect();
    check_group(&names, &paths, mb)
}

/// Empty module folder: only the system VC++ runtime is present.
fn empty_env() -> LocalAsrEnvCheck {
    env_check(
        group(vcruntime_dlls(), true, 1),
        group(ort_cpu_dlls(), false, ORT_CPU_DOWNLOAD_MB),
        group(ort_gpu_dlls(), false, ORT_GPU_DOWNLOAD_MB),
        group(cuda_redist_dlls(), false, CUDA_DOWNLOAD_MB),
        check_cuda_toolkit_13_in(&Vec::new(), true),
    )
}

fn loaded_cpu() -> InferenceSnapshot {
    InferenceSnapshot {
        model_loaded: true,
        active_execution_provider: "cpu".into(),
        last_error: None,
        model_load_ms: None,
        probe_cpu_ok: None,
        probe_cuda_ok: None,
        ort_profiling_active: false,
        ort_profiling_decode_count: 0,
        ort_profiling_max_decodes: 3,
        ort_profiling_stopped_budget: false,
        last_ort_profile_path: None,
    }
}

#[test]
fn diagnostics_include_streaming_fields() {
    let config = LocalAsrConfig::default();
    let tel = EmitTelemetrySnapshot {
        partial_emits: 4,
        final_emits: 1,
        revision_emits: 1,
        last_first_partial_ms: Some(180),
        last_final_ms: Some(1200),
    };
    let env = empty_env();
    let body = assemble_local_asr_diagnostics(
        &config,
        &env,
        &loaded_cpu(),
        LocalAsrModulePhase::Ready,
        true,
        3,
        1,
        Some(&tel),
        0,
        0,
    );
    assert!(body.realtime.streaming_decode);
    assert_eq!(body.realtime.partial_emit_mode, "word_growth");
    assert_eq!(body.decode_count, 3);
    assert_eq!(body.last_first_partial_ms, Some(180));
    assert_eq!(body.revision_emits, 1);
    assert_eq!(body.partial_emits, 4);
    assert_eq!(body.provider_phase, "ready");
    assert_eq!(body.selected_execution_provider, "cpu");
    assert!(body.runtime_initialized);
    assert!(!body.degraded_mode);
}

#[test]
fn diagnostics_without_telemetry_fall_back_to_decode_counts() {
    let config = LocalAsrConfig::default();
    let mut inference = loaded_cpu();
    inference.model_loaded = false;
    inference.last_error = Some("boom".into());
    let env = empty_env();
    let body = assemble_local_asr_diagnostics(&config, &env, &inference, LocalAsrModulePhase::DepsMissing, false, 7, 2, None, 5, 9);
    assert_eq!((body.partial_emits, body.final_emits, body.revision_emits), (7, 2, 0));
    assert_eq!(body.selected_execution_provider, "cpu");
    assert!(body.degraded_mode);
    assert_eq!(body.provider_phase, "depsmissing");
    assert_eq!(body.provider_message, "Download ONNX Runtime (CPU or GPU).");
    assert_eq!((body.last_paced_decode_interval_ms, body.last_decode_wall_ms), (5, 9));
}

#[test]
fn diagnostics_message_names_the_missing_step() {
    let config = LocalAsrConfig::default();
    let mut env = empty_env();
    assert_eq!(diagnostics_message(&config, &env, &loaded_cpu()), "Download ONNX Runtime (CPU or GPU).");
    env.vcruntime.ok = false;
    assert_eq!(diagnostics_message(&config, &env, &loaded_cpu()), "Install VC++ runtime.");
    assert_eq!(phase_name(LocalAsrModulePhase::ModelMissing), "modelmissing");
}

#[test]
fn test_bench_defaults_idle() {
    let snap = TestBenchSnapshot::default();
    assert_eq!(snap.phase, TestBenchPhase::Idle);
    assert!(!snap.running);
}

#[test]
fn config_save_with_new_provider_clears_setup_and_unloads() {
    let mut previous = LocalAsrConfig::default();
    previous.setup.setup_complete = true;
    previous.setup.mic_test_passed = true;
    let mut patch = LocalAsrConfig::default();
    patch.inference.execution_provider = " CUDA ".into();
    patch.inference.intra_op_threads = 500;
    let saved = prepare_config_save(previous, &patch);
    assert_eq!(saved.config.inference.execution_provider, "cuda");
    assert_eq!(saved.config.inference.intra_op_threads, 64);
    assert!(saved.setup_cleared);
    assert!(saved.unload_model);
    assert!(!saved.preset_applied);
    assert!(!saved.config.setup.setup_complete && !saved.config.setup.mic_test_passed);
}

#[test]
fn config_save_of_same_settings_keeps_model_and_setup() {
    let mut previous = LocalAsrConfig::default();
    previous.setup.setup_complete = true;
    let patch = LocalAsrConfig::default();
    let saved = prepare_config_save(previous, &patch);
    assert!(!saved.setup_cleared);
    assert!(!saved.unload_model);
    assert!(saved.config.setup.setup_complete);
}

#[test]
fn config_save_of_session_option_unloads_without_clearing_setup() {
    let previous = LocalAsrConfig::default();
    let mut patch = LocalAsrConfig::default();
    patch.inference.graph_optimization_level = 9;
    let saved = prepare_config_save(previous, &patch);
    assert_eq!(saved.config.inference.graph_optimization_level, 3);
    assert!(!saved.setup_cleared);
    assert!(saved.unload_model);
    assert!(session_options_fingerprint(&saved.config.inference) != session_options_fingerprint(&LocalAsrConfig::default().inference));
}

#[test]
fn config_save_with_new_preset_applies_its_holds() {
    let previous = LocalAsrConfig::default();
    let mut patch = LocalAsrConfig::default();
    patch.realtime.latency_preset = "low_latency".into();
    let saved = prepare_config_save(previous, &patch);
    assert!(saved.preset_applied);
    assert_eq!(saved.config.realtime.latency_preset, "low");
}

#[test]
fn selecting_other_variant_resets_setup_and_records_install() {
    let mut config = LocalAsrConfig::default();
    config.setup.setup_complete = true;
    let sel = plan_model_selection(config, "parakeet_tdt", "fp32", true, "/models/fp32", Some("abc"));
    assert!(sel.selection_changed);
    assert!(sel.save);
    assert_eq!(sel.config.model.variant, "fp32");
    assert_eq!(sel.config.model.path, "/models/fp32");
    assert_eq!(sel.config.model.manifest_sha256, "abc");
    assert!(!sel.config.setup.setup_complete);
}

#[test]
fn reselecting_uninstalled_current_variant_clears_stale_path() {
    let mut config = LocalAsrConfig::default();
    let family = config.model.family.clone();
    let variant = config.model.variant.to_uppercase();
    config.model.path = "/old".into();
    config.setup.setup_complete = true;
    let sel = plan_model_selection(config, &family, &variant, false, "/ignored", None);
    assert!(!sel.selection_changed);
    assert!(sel.save);
    assert_eq!(sel.config.model.path, "");
    assert!(sel.config.setup.setup_complete);
}

#[test]
fn deleting_active_model_forgets_it() {
    let mut config = LocalAsrConfig::default();
    config.model.path = "/models/int8".into();
    config.setup.setup_complete = true;
    let family = config.model.family.clone();
    let variant = config.model.variant.clone();
    assert!(!forget_deleted_model(&mut config, &family, "other"));
    assert_eq!(config.model.path, "/models/int8");
    assert!(forget_deleted_model(&mut config, &family, &variant));
    assert_eq!(config.model.path, "");
    assert!(!config.setup.setup_complete);
}

#[test]
fn runtime_start_reports_first_missing_condition() {
    assert_eq!(
        runtime_start_precondition(true, false, false, "x"),
        Err("stop the module test bench before starting runtime capture".to_string())
    );
    assert_eq!(
        runtime_start_precondition(false, false, true, "x"),
        Err("load the model before starting runtime capture".to_string())
    );
    assert_eq!(
        runtime_start_precondition(false, true, false, "deps missing"),
        Err("local ASR module is not ready: deps missing".to_string())
    );
    assert_eq!(runtime_start_precondition(false, true, true, ""), Ok(()));
}

#[test]
fn setup_changed_compares_every_field() {
    let a = LocalAsrConfig::default().setup;
    let mut b = LocalAsrConfig::default().setup;
    assert!(!setup_changed(&a, &b));
    b.completed_at = "now".into();
    assert!(setup_changed(&a, &b));
}

#[test]
fn module_url_uses_localhost_for_local_binds() {
    assert_eq!(voicesub::module_service::build_local_asr_module_url(true, "0.0.0.0", 8765), "http://localhost:8765/local-asr");
    assert_eq!(
        voicesub::module_service::build_local_asr_module_url(false, "192.168.1.5", 80),
        "http://192.168.1.5:80/local-asr"
    );
}

#[test]
fn test_bench_start_needs_idle_runtime_and_loaded_model() {
    assert_eq!(test_start_precondition(true, true), Err("stop runtime capture before running the test bench".to_string()));
    assert_eq!(test_start_precondition(false, false), Err("load the model before running the test bench".to_string()));
    assert_eq!(test_start_precondition(false, true), Ok(()));
}

fn tel(partial: u64, finals: u64) -> EmitTelemetrySnapshot {
    EmitTelemetrySnapshot { partial_emits: partial, final_emits: finals, revision_emits: 0, last_first_partial_ms: None, last_final_ms: None }
}

#[test]
fn diagnostics_prefer_live_runtime_counts() {
    let idle = diagnostics_counts(LocalAsrModulePhase::Ready, false, 2, 1, false, &tel(0, 0), &tel(5, 0));
    assert!(!idle.use_runtime_telemetry);
    assert_eq!(idle.phase, LocalAsrModulePhase::Ready);
    assert_eq!((idle.decode_count, idle.finalized_segments), (5, 1));
    let live = diagnostics_counts(LocalAsrModulePhase::Ready, false, 0, 0, true, &tel(3, 2), &tel(9, 9));
    assert!(live.use_runtime_telemetry && live.is_runtime_running);
    assert_eq!(live.phase, LocalAsrModulePhase::Running);
    assert_eq!((live.decode_count, live.finalized_segments), (3, 2));
}

#[test]
fn heal_model_path_follows_the_install() {
    let mut config = LocalAsrConfig::default();
    config.model.path = "/m/fp32".into();
    heal_model_path(&mut config, "/m/int8", true, Some("abc"), false);
    assert_eq!((config.model.path.as_str(), config.model.manifest_sha256.as_str()), ("/m/int8", "abc"));
    heal_model_path(&mut config, "/m/int8", true, Some("def"), false);
    assert_eq!(config.model.manifest_sha256, "abc");
    heal_model_path(&mut config, "/m/int8", false, None, true);
    assert_eq!(config.model.path, "/m/int8");
    heal_model_path(&mut config, "/m/int8", false, None, false);
    assert_eq!((config.model.path.as_str(), config.model.manifest_sha256.as_str()), ("", ""));
}
