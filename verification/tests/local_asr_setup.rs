use voicesub::config::LocalAsrConfig;
use voicesub::deps::{
    check_cuda_toolkit_13_in, check_group, cuda13_version_from_components, cuda_redist_dlls,
    env_check, ort_cpu_dlls, ort_dll_path_for_provider, ort_gpu_dlls, pending_delete_name,
    archive_dll_target, is_cuda13_env_key, is_cuda13_folder, missing_dlls, plan_cuda_redist_total, preferred_ort_dll, resolve_wheel_bytes, validate_deps_for_provider, vcruntime_dlls,
    CudaToolkitStatus, DepDownloadKind, DepError, DllGroupStatus, LocalAsrEnvCheck, OrtPackage,
    CUDA_TOOLKIT_URL, CUDART_WHEEL_BYTES, CUDNN_WHEEL_BYTES, CUDA_DOWNLOAD_MB, ORT_CPU_DOWNLOAD_MB, ORT_GPU_DOWNLOAD_MB,
};
use voicesub::setup::{
    apply_test_bench_progress, clear_setup, deps_ready_for_provider, setup_is_valid,
    test_received_parakeet_final, try_finalize_setup,
};
use voicesub::status::{build_status, deps_missing_detail, InferenceSnapshot, LocalAsrModulePhase};
use voicesub::test_session::{budget_reached_snapshot, capture_should_stop, TestBenchPhase, TestBenchSnapshot};

fn group(names: Vec<&str>, present: bool, mb: u64) -> DllGroupStatus {
    let paths = names.iter().map(|n| if present { Some(format!("/rt/{n}")) } else { None }).collect();
    check_group(&names, &paths, mb)
}

fn toolkit(ok: bool) -> CudaToolkitStatus {
    if ok {
        check_cuda_toolkit_13_in(&vec![Some(vec!["v13.0".to_string(), "bin".to_string(), "cudart64_13.dll".to_string()])], true)
    } else {
        check_cuda_toolkit_13_in(&Vec::new(), true)
    }
}

/// Environment of an empty module folder on a machine with the VC++ runtime installed.
fn env(vc: bool, cpu: bool, gpu: bool, cuda: bool, tk: bool) -> LocalAsrEnvCheck {
    env_check(
        group(vcruntime_dlls(), vc, 1),
        group(ort_cpu_dlls(), cpu, ORT_CPU_DOWNLOAD_MB),
        group(ort_gpu_dlls(), gpu, ORT_GPU_DOWNLOAD_MB),
        group(cuda_redist_dlls(), cuda, CUDA_DOWNLOAD_MB),
        toolkit(tk),
    )
}

fn inference() -> InferenceSnapshot {
    InferenceSnapshot {
        model_loaded: false,
        active_execution_provider: String::new(),
        last_error: None,
        model_load_ms: None,
        probe_cpu_ok: None,
        probe_cuda_ok: None,
        ort_profiling_active: false,
        ort_profiling_decode_count: 0,
        ort_profiling_max_decodes: 3,
        ort_profiling_stopped_budget: false,
        last_ort_profile_path: None,
    }
}

#[test]
fn dep_kind_parse() {
    assert_eq!(DepDownloadKind::parse("ort_cpu"), Some(DepDownloadKind::OrtCpu));
    assert_eq!(DepDownloadKind::parse("cuda_redist"), Some(DepDownloadKind::CudaRedist));
    assert_eq!(DepDownloadKind::parse("nope"), None);
}

#[test]
fn dep_kind_parse_accepts_aliases_in_any_case() {
    assert_eq!(DepDownloadKind::parse(" ONNXRUNTIME_GPU "), Some(DepDownloadKind::OrtGpu));
    assert_eq!(DepDownloadKind::parse("Cuda"), Some(DepDownloadKind::CudaRedist));
}

#[test]
fn resolve_wheel_bytes_uses_fallback_for_zero_or_error() {
    assert_eq!(resolve_wheel_bytes(Ok(0), CUDNN_WHEEL_BYTES), CUDNN_WHEEL_BYTES);
    assert_eq!(
        resolve_wheel_bytes(Err(DepError::Download("missing".into())), CUDNN_WHEEL_BYTES),
        CUDNN_WHEEL_BYTES
    );
    assert_eq!(resolve_wheel_bytes(Ok(123), CUDNN_WHEEL_BYTES), 123);
}

#[test]
fn check_cuda_toolkit_13_rejects_empty_bins() {
    let status = check_cuda_toolkit_13_in(&Vec::new(), true);
    assert!(!status.ok);
    assert_eq!(status.message.as_deref(), Some("CUDA Toolkit 13 not found"));
}

#[test]
fn check_cuda_toolkit_13_detects_marker_dll() {
    let marker = vec!["tmp".to_string(), "v13.3".to_string(), "bin".to_string(), "cudart64_13.dll".to_string()];
    let status = check_cuda_toolkit_13_in(&vec![None, Some(marker)], true);
    assert!(status.ok);
    assert_eq!(status.version.as_deref(), Some("v13.3"));
    assert_eq!(status.message.as_deref(), Some("CUDA Toolkit 13 found"));
}

#[test]
fn cuda_version_ignores_other_components() {
    let c = vec!["V13.1".to_string(), "x64".to_string(), "cudart64_13.dll".to_string()];
    assert_eq!(cuda13_version_from_components(&c).as_deref(), Some("v13.1"));
    let c = vec!["v12.4".to_string(), "bin".to_string()];
    assert_eq!(cuda13_version_from_components(&c), None);
}

#[test]
fn cuda_toolkit_url_targets_cuda_13() {
    assert!(CUDA_TOOLKIT_URL.contains("cuda-13"));
    assert!(CUDA_TOOLKIT_URL.contains("Windows"));
}

#[test]
fn env_check_empty_module_dir() {
    let check = env(true, false, false, false, false);
    assert!(!check.ort_cpu.ok);
    assert!(!check.cpu_deps_ready);
    assert!(!check.cuda_deps_ready);
}

#[test]
fn env_check_gpu_requires_cuda_provider_dlls() {
    let names = ort_gpu_dlls();
    let paths = vec![Some("/rt/gpu/onnxruntime.dll".to_string()), None, None];
    let status = check_group(&names, &paths, ORT_GPU_DOWNLOAD_MB);
    assert!(!status.ok);
    assert!(status.missing.iter().any(|name| name.contains("providers_cuda")));
    assert_eq!(status.found.len(), 1);
}

#[test]
fn validate_cpu_requires_ort_cpu() {
    let check = env(true, false, false, false, false);
    let err = validate_deps_for_provider(&check, "cpu").unwrap_err();
    assert!(err.message().contains("ONNX Runtime"));
}

#[test]
fn validate_cpu_accepts_gpu_ort_package() {
    let check = env(true, false, true, false, false);
    assert!(validate_deps_for_provider(&check, "cpu").is_ok());
}

#[test]
fn cuda_deps_ready_without_cpu_ort_when_gpu_stack_complete() {
    let check = env(true, false, true, true, false);
    assert!(!check.cuda_deps_ready);
    let err = validate_deps_for_provider(&check, "cuda").unwrap_err();
    assert!(err.message().contains("CUDA Toolkit 13"));
    let check = env(true, false, true, true, true);
    assert!(check.cuda_deps_ready);
    assert!(validate_deps_for_provider(&check, "CUDA").is_ok());
}

#[test]
fn preferred_ort_dll_chooses_gpu_when_complete() {
    let check = env(true, true, true, false, false);
    assert_eq!(preferred_ort_dll(&check), Some(OrtPackage::Gpu));
    let check = env(true, false, false, false, false);
    assert_eq!(preferred_ort_dll(&check), None);
    assert_eq!(ort_dll_path_for_provider(&check, "cuda").subdir(), "gpu");
    assert_eq!(ort_dll_path_for_provider(&check, "cpu").subdir(), "cpu");
}

#[test]
fn pending_delete_sibling_name() {
    assert_eq!(pending_delete_name(Some("gpu")), "gpu.pending_delete");
    assert_eq!(pending_delete_name(None), "runtime.pending_delete");
}

#[test]
fn parakeet_final_detects_transcript_or_segments() {
    let mut snap = TestBenchSnapshot::default();
    assert!(!test_received_parakeet_final(&snap));
    snap.transcript = "hello".into();
    assert!(test_received_parakeet_final(&snap));
}

#[test]
fn apply_test_progress_marks_mic_and_final() {
    let mut config = LocalAsrConfig::default();
    let snap = TestBenchSnapshot {
        phase: TestBenchPhase::Done,
        transcript: "test".into(),
        finalized_segments: 1,
        ..TestBenchSnapshot::default()
    };
    apply_test_bench_progress(&mut config, &snap);
    assert!(config.setup.mic_test_passed);
    assert!(config.setup.parakeet_final_received);
}

#[test]
fn unfinished_test_bench_changes_nothing() {
    let mut config = LocalAsrConfig::default();
    let snap = TestBenchSnapshot { phase: TestBenchPhase::Listening, finalized_segments: 3, ..TestBenchSnapshot::default() };
    apply_test_bench_progress(&mut config, &snap);
    assert!(!config.setup.mic_test_passed);
}

#[test]
fn finalize_setup_completes_once() {
    let mut config = LocalAsrConfig::default();
    config.setup.mic_test_passed = true;
    config.setup.parakeet_final_received = true;
    let check = env(true, true, false, false, false);
    assert!(deps_ready_for_provider(&check, "cpu"));
    assert!(!try_finalize_setup(&mut config, &check, false, "100"));
    assert!(try_finalize_setup(&mut config, &check, true, "100"));
    assert!(setup_is_valid(&config, "cpu"));
    assert_eq!(config.setup.completed_at, "100");
    assert!(!try_finalize_setup(&mut config, &check, true, "200"));
    assert_eq!(config.setup.completed_at, "100");
    clear_setup(&mut config);
    assert!(!setup_is_valid(&config, "cpu"));
}

#[test]
fn deps_missing_detail_lists_gpu_stack_gaps() {
    let check = env(true, false, false, false, false);
    let detail = deps_missing_detail(&check, true).expect("detail");
    assert!(detail.contains("providers_cuda") || detail.contains("CUDA Toolkit"));
}

#[test]
fn deps_missing_when_no_ort() {
    let config = LocalAsrConfig::default();
    let status = build_status(&config, env(true, false, false, false, false), &inference(), false, Vec::new());
    assert_eq!(status.phase, LocalAsrModulePhase::DepsMissing);
    assert!(!status.ready);
    assert_eq!(status.message, "Download ONNX Runtime (CPU or GPU)");
}

#[test]
fn setup_pending_when_model_on_disk_but_checklist_incomplete() {
    let config = LocalAsrConfig::default();
    let status = build_status(&config, env(true, true, false, false, false), &inference(), true, Vec::new());
    assert!(!status.setup.setup_complete);
    assert!(!status.ready);
    assert_eq!(status.phase, LocalAsrModulePhase::ModelReady);
    assert_eq!(status.message, "Warm-load the model, run the mic test, and receive a final transcript");
}

#[test]
fn missing_vcruntime_is_reported_first() {
    let config = LocalAsrConfig::default();
    let status = build_status(&config, env(false, true, true, true, true), &inference(), true, Vec::new());
    assert_eq!(status.phase, LocalAsrModulePhase::DepsMissing);
    assert!(status.last_error.unwrap().starts_with("missing: MSVCP140.dll, VCRUNTIME140.dll"));
}

#[test]
fn completed_setup_is_ready() {
    let mut config = LocalAsrConfig::default();
    config.setup.mic_test_passed = true;
    config.setup.parakeet_final_received = true;
    config.setup.setup_complete = true;
    config.setup.validated_execution_provider = "cpu".into();
    let status = build_status(&config, env(true, true, false, false, false), &inference(), true, Vec::new());
    assert_eq!(status.phase, LocalAsrModulePhase::Ready);
    assert!(status.ready);
    assert_eq!(status.message, "Local ASR configured (cpu EP) — model loads on Live Start");
}

#[test]
fn cuda_redist_total_sums_needed_wheels() {
    assert_eq!(plan_cuda_redist_total(None, None, None), 0);
    assert_eq!(
        plan_cuda_redist_total(Some(Ok(100)), None, Some(Err(DepError::Download("offline".into())))),
        100 + CUDNN_WHEEL_BYTES
    );
    assert_eq!(plan_cuda_redist_total(Some(Ok(0)), None, None), CUDART_WHEEL_BYTES);
    assert_eq!(plan_cuda_redist_total(None, Some(Ok(u64::MAX)), Some(Ok(5))), u64::MAX);
}

#[test]
fn archive_entries_map_to_requested_dlls() {
    let cpu = ort_cpu_dlls();
    assert_eq!(
        archive_dll_target("onnxruntime-win-x64-1.24.2\\lib\\OnnxRuntime.dll", &cpu, true),
        Some("onnxruntime.dll".to_string())
    );
    assert_eq!(archive_dll_target("onnxruntime-win-x64-1.24.2/include/onnxruntime.dll", &cpu, true), None);
    assert_eq!(archive_dll_target("pkg/lib/other.dll", &cpu, true), None);
    assert_eq!(
        archive_dll_target("nvidia/cu13/bin/cudart64_13.dll", &vec!["cudart64_13.dll"], false),
        Some("cudart64_13.dll".to_string())
    );
    assert_eq!(
        missing_dlls(&ort_gpu_dlls(), &vec!["onnxruntime.dll".to_string()]),
        vec!["onnxruntime_providers_cuda.dll".to_string(), "onnxruntime_providers_shared.dll".to_string()]
    );
}

#[test]
fn cuda13_toolkit_locations_are_recognized() {
    assert!(is_cuda13_env_key("CUDA_PATH"));
    assert!(is_cuda13_env_key("cuda_path_v13_0"));
    assert!(!is_cuda13_env_key("CUDA_PATH_V12_4"));
    assert!(!is_cuda13_env_key("PATH"));
    assert!(is_cuda13_folder("V13.1"));
    assert!(!is_cuda13_folder("v12.4"));
}

#[test]
fn test_bench_stops_on_request_or_duration_and_budget_ends_done() {
    assert!(capture_should_stop(true, 0, 0));
    assert!(!capture_should_stop(false, 0, 1_000_000));
    assert!(!capture_should_stop(false, 5_000, 4_999));
    assert!(capture_should_stop(false, 5_000, 5_000));
    let mut snap = TestBenchSnapshot::default();
    snap.running = true;
    snap.phase = TestBenchPhase::Listening;
    snap.transcript = "hello".to_string();
    snap.error = Some("old".to_string());
    budget_reached_snapshot(&mut snap);
    assert!(!snap.running);
    assert_eq!(snap.phase, TestBenchPhase::Done);
    assert_eq!(snap.error, None);
    assert_eq!(snap.transcript, "hello");
}
