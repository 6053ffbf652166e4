//! Local ASR module service decisions: what a config save, a model selection or a model
//! deletion changes, and when runtime capture may start.  Loading and storing the config,
//! the model folders and the inference engine are the caller's part.
use vstd::prelude::*;

use crate::config::{
    clamp_u32, normalize_execution_provider, normalize_inference_session_options, normalized_provider,
    patch_has_model, LocalAsrConfig, LocalAsrInferenceConfig, LocalAsrSetupConfig,
};
use crate::realtime_settings::{apply_latency_preset_to_config, normalize_latency_preset, preset_name, preset_table};
use crate::emit_telemetry::EmitTelemetrySnapshot;
use crate::setup::clear_setup;
use crate::status::LocalAsrModulePhase;
use crate::text::{append_str, decimal, lower, lower_str, push_decimal, str_eq, to_owned_string, trim, trim_str};

verus! {

/// The ORT session options whose change needs a fresh session.
#[derive(PartialEq, Eq, Structural, Clone, Copy)]
pub struct SessionFingerprint {
    pub graph_optimization_level: u8,
    pub intra_op_threads: u32,
    pub inter_op_threads: u32,
    pub parallel_execution: bool,
    pub enable_memory_pattern: bool,
    pub ort_profiling: bool,
    pub ort_profiling_max_decodes: u32,
}

pub open spec fn fingerprint_of(inf: LocalAsrInferenceConfig) -> SessionFingerprint {
    SessionFingerprint {
        graph_optimization_level: inf.graph_optimization_level,
        intra_op_threads: inf.intra_op_threads,
        inter_op_threads: inf.inter_op_threads,
        parallel_execution: inf.parallel_execution,
        enable_memory_pattern: inf.enable_memory_pattern,
        ort_profiling: inf.ort_profiling,
        ort_profiling_max_decodes: inf.ort_profiling_max_decodes,
    }
}

pub fn session_options_fingerprint(inf: &LocalAsrInferenceConfig) -> (r: SessionFingerprint)
    ensures
        r == fingerprint_of(*inf),
{
    SessionFingerprint {
        graph_optimization_level: inf.graph_optimization_level,
        intra_op_threads: inf.intra_op_threads,
        inter_op_threads: inf.inter_op_threads,
        parallel_execution: inf.parallel_execution,
        enable_memory_pattern: inf.enable_memory_pattern,
        ort_profiling: inf.ort_profiling,
        ort_profiling_max_decodes: inf.ort_profiling_max_decodes,
    }
}

/// A config save: the config to store and what else has to happen.
pub struct ConfigSave {
    pub config: LocalAsrConfig,
    /// The warm model session must be unloaded (provider or session options changed).
    pub unload_model: bool,
    /// The latency preset changed, so its defaults were applied.
    pub preset_applied: bool,
    /// The execution provider changed, so the setup checklist starts over.
    pub setup_cleared: bool,
}

/// Merges a module UI save into the stored config: every tunable is taken, the provider and
/// session options are normalized, a changed latency preset applies its defaults, and a
/// changed provider clears the setup checklist.  The model session is unloaded when the
/// provider or the session options changed.
pub fn prepare_config_save(previous: LocalAsrConfig, patch: &LocalAsrConfig) -> (r: ConfigSave)
    ensures
        r.config.model == if patch_has_model(*patch) { patch.model } else { previous.model },
        r.config.inference.execution_provider@ == normalized_provider(patch.inference.execution_provider@),
        r.config.inference.graph_optimization_level == if patch.inference.graph_optimization_level > 3 {
            3
        } else {
            patch.inference.graph_optimization_level
        },
        r.config.inference.intra_op_threads == clamp_u32(patch.inference.intra_op_threads, 1, 64),
        r.config.inference.inter_op_threads == clamp_u32(patch.inference.inter_op_threads, 1, 64),
        r.config.inference.ort_profiling_max_decodes == clamp_u32(patch.inference.ort_profiling_max_decodes, 1, 50),
        r.config.inference.keep_model_loaded == patch.inference.keep_model_loaded,
        r.config.inference.cuda_fallback_to_cpu == patch.inference.cuda_fallback_to_cpu,
        r.config.recognition == patch.recognition,
        r.config.microphone == patch.microphone,
        r.config.deps == previous.deps,
        r.preset_applied == (preset_name(patch.realtime.latency_preset@) != preset_name(
            previous.realtime.latency_preset@,
        )),
        !r.preset_applied ==> r.config.realtime == patch.realtime && r.config.vad == patch.vad,
        r.preset_applied ==> {
            let p = preset_name(patch.realtime.latency_preset@);
            &&& r.config.realtime.latency_preset@ == p
            &&& r.config.vad.min_speech_ms == preset_table(p).min_speech_ms
            &&& r.config.vad.silence_hold_ms == preset_table(p).silence_hold_ms
            &&& r.config.vad.min_silence_ms == preset_table(p).finalization_hold_ms
        },
        r.setup_cleared == (r.config.inference.execution_provider@ != previous.inference.execution_provider@),
        r.setup_cleared ==> !r.config.setup.setup_complete && !r.config.setup.mic_test_passed
            && !r.config.setup.parakeet_final_received,
        !r.setup_cleared ==> r.config.setup == previous.setup,
        r.unload_model == (r.setup_cleared || fingerprint_of(r.config.inference) != fingerprint_of(
            previous.inference,
        )),
{
    let previous_provider = previous.inference.execution_provider.clone();
    let previous_session = session_options_fingerprint(&previous.inference);
    let previous_preset = previous.realtime.latency_preset.clone();
    let mut merged = previous;
    merged.apply_tunable_from(patch);
    merged.inference.execution_provider = normalize_execution_provider(merged.inference.execution_provider.as_str());
    normalize_inference_session_options(&mut merged.inference);
    let next_preset = normalize_latency_preset(merged.realtime.latency_preset.as_str());
    let prior_preset = normalize_latency_preset(previous_preset.as_str());
    let preset_applied = !str_eq(next_preset.as_str(), prior_preset.as_str());
    if preset_applied {
        apply_latency_preset_to_config(&mut merged);
    }
    let setup_cleared = !str_eq(merged.inference.execution_provider.as_str(), previous_provider.as_str());
    let unload_model = if setup_cleared {
        clear_setup(&mut merged);
        true
    } else {
        session_options_fingerprint(&merged.inference) != previous_session
    };
    ConfigSave { config: merged, unload_model, preset_applied, setup_cleared }
}

/// `str::eq_ignore_ascii_case`.
pub open spec fn same_ignoring_case(a: Seq<char>, b: Seq<char>) -> bool {
    lower(a) == lower(b)
}

fn eq_ignore_case(a: &str, b: &str) -> (r: bool)
    ensures
        r == same_ignoring_case(a@, b@),
{
    let la = lower_str(a);
    let lb = lower_str(b);
    str_eq(la.as_str(), lb.as_str())
}

/// A model selection: the config to store and what else has to happen.
pub struct ModelSelection {
    pub config: LocalAsrConfig,
    /// Family or variant changed: the warm session goes and the setup starts over.
    pub selection_changed: bool,
    /// Anything changed, so the config is stored.
    pub save: bool,
}

/// Selects `family` / `variant` (their canonical names).  When the variant is installed
/// its folder `model_dir` and manifest fingerprint are recorded, otherwise both are
/// cleared.
pub fn plan_model_selection(
    config: LocalAsrConfig,
    family: &str,
    variant: &str,
    installed: bool,
    model_dir: &str,
    manifest_sha256: Option<&str>,
) -> (r: ModelSelection)
    ensures
        r.selection_changed == !(same_ignoring_case(config.model.family@, family@) && same_ignoring_case(
            config.model.variant@,
            variant@,
        )),
        r.config.model.family@ == family@,
        r.config.model.variant@ == variant@,
        r.config.model.path@ == if installed { model_dir@ } else { Seq::<char>::empty() },
        r.config.model.manifest_sha256@ == if installed {
            match manifest_sha256 {
                Some(s) => s@,
                None => Seq::<char>::empty(),
            }
        } else {
            Seq::<char>::empty()
        },
        r.save == (r.selection_changed || r.config.model.path@ != config.model.path@
            || r.config.model.manifest_sha256@ != config.model.manifest_sha256@),
        r.selection_changed ==> !r.config.setup.setup_complete && !r.config.setup.mic_test_passed
            && !r.config.setup.parakeet_final_received,
        !r.selection_changed ==> r.config.setup == config.setup,
        r.config.inference == config.inference,
        r.config.realtime == config.realtime,
        r.config.vad == config.vad,
        r.config.recognition == config.recognition,
        r.config.microphone == config.microphone,
        r.config.deps == config.deps,
{
    let selection_changed = !(eq_ignore_case(config.model.family.as_str(), family) && eq_ignore_case(
        config.model.variant.as_str(),
        variant,
    ));
    let (next_path, next_sha) = if installed {
        (
            to_owned_string(model_dir),
            match manifest_sha256 {
                Some(s) => to_owned_string(s),
                None => String::new(),
            },
        )
    } else {
        (String::new(), String::new())
    };
    let path_healed = !str_eq(config.model.path.as_str(), next_path.as_str()) || !str_eq(
        config.model.manifest_sha256.as_str(),
        next_sha.as_str(),
    );
    let mut config = config;
    config.model.family = to_owned_string(family);
    config.model.variant = to_owned_string(variant);
    config.model.path = next_path;
    config.model.manifest_sha256 = next_sha;
    if selection_changed {
        clear_setup(&mut config);
    }
    ModelSelection { config, selection_changed, save: selection_changed || path_healed }
}

/// After deleting a model: when it was the active selection its path and fingerprint are
/// cleared and the setup starts over.  Returns whether it was active.
pub fn forget_deleted_model(config: &mut LocalAsrConfig, family: &str, variant: &str) -> (r: bool)
    ensures
        r == (same_ignoring_case(old(config).model.family@, family@) && same_ignoring_case(
            old(config).model.variant@,
            variant@,
        )),
        !r ==> *final(config) == *old(config),
        r ==> {
            &&& final(config).model.path@.len() == 0
            &&& final(config).model.manifest_sha256@.len() == 0
            &&& final(config).model.family == old(config).model.family
            &&& final(config).model.variant == old(config).model.variant
            &&& !final(config).setup.setup_complete
            &&& !final(config).setup.mic_test_passed
            &&& !final(config).setup.parakeet_final_received
            &&& final(config).inference == old(config).inference
        },
{
    let deleted_active = eq_ignore_case(config.model.family.as_str(), family) && eq_ignore_case(
        config.model.variant.as_str(),
        variant,
    );
    if deleted_active {
        config.model.path = String::new();
        config.model.manifest_sha256 = String::new();
        clear_setup(config);
    }
    deleted_active
}

/// Why runtime capture may not start: the test bench is running, the model is not loaded,
/// or the module is not ready (with its status message).
pub open spec fn start_refusal(test_running: bool, model_loaded: bool, ready: bool, status_message: Seq<char>) -> Option<Seq<char>> {
    if test_running {
        Some("stop the module test bench before starting runtime capture"@)
    } else if !model_loaded {
        Some("load the model before starting runtime capture"@)
    } else if !ready {
        Some("local ASR module is not ready: "@ + status_message)
    } else {
        None
    }
}

pub fn runtime_start_precondition(test_running: bool, model_loaded: bool, ready: bool, status_message: &str) -> (r: Result<(), String>)
    ensures
        match r {
            Ok(()) => start_refusal(test_running, model_loaded, ready, status_message@) is None,
            Err(m) => start_refusal(test_running, model_loaded, ready, status_message@) == Some(m@),
        },
{
    if test_running {
        return Err(to_owned_string("stop the module test bench before starting runtime capture"));
    }
    if !model_loaded {
        return Err(to_owned_string("load the model before starting runtime capture"));
    }
    if !ready {
        let mut m = to_owned_string("local ASR module is not ready: ");
        append_str(&mut m, status_message);
        return Err(m);
    }
    Ok(())
}

/// The setup checklist changed (so the config is stored again).
pub fn setup_changed(a: &LocalAsrSetupConfig, b: &LocalAsrSetupConfig) -> (r: bool)
    ensures
        r == !(a.setup_complete == b.setup_complete && a.mic_test_passed == b.mic_test_passed
            && a.parakeet_final_received == b.parakeet_final_received && a.validated_execution_provider@
            == b.validated_execution_provider@ && a.completed_at@ == b.completed_at@),
{
    !(a.setup_complete == b.setup_complete && a.mic_test_passed == b.mic_test_passed
        && a.parakeet_final_received == b.parakeet_final_received && str_eq(
        a.validated_execution_provider.as_str(),
        b.validated_execution_provider.as_str(),
    ) && str_eq(a.completed_at.as_str(), b.completed_at.as_str()))
}

/// Label of the module's own window.
pub const LOCAL_ASR_WINDOW_LABEL: &'static str = "local-asr";

/// The module page's URL for the server bound at `host:port`: `localhost` when the bind
/// address is a loopback or unspecified one (`local_host`), else the address as written.
pub open spec fn module_url(local_host: bool, host: Seq<char>, port: u16) -> Seq<char> {
    "http://"@ + (if local_host { "localhost"@ } else { host }) + ":"@ + decimal(port as nat) + "/local-asr"@
}

pub fn build_local_asr_module_url(local_host: bool, host: &str, port: u16) -> (r: String)
    ensures
        r@ == module_url(local_host, host@, port),
{
    let mut out = to_owned_string("http://");
    if local_host {
        append_str(&mut out, "localhost");
    } else {
        append_str(&mut out, host);
    }
    append_str(&mut out, ":");
    push_decimal(&mut out, port as u64);
    append_str(&mut out, "/local-asr");
    out
}

/// Why the test bench may not start: runtime capture is running, or the model is not loaded.
pub open spec fn test_start_refusal(runtime_running: bool, model_loaded: bool) -> Option<Seq<char>> {
    if runtime_running {
        Some("stop runtime capture before running the test bench"@)
    } else if !model_loaded {
        Some("load the model before running the test bench"@)
    } else {
        None
    }
}

pub fn test_start_precondition(runtime_running: bool, model_loaded: bool) -> (r: Result<(), String>)
    ensures
        match r {
            Ok(()) => test_start_refusal(runtime_running, model_loaded) is None,
            Err(m) => test_start_refusal(runtime_running, model_loaded) == Some(m@),
        },
{
    if runtime_running {
        return Err(to_owned_string("stop runtime capture before running the test bench"));
    }
    if !model_loaded {
        return Err(to_owned_string("load the model before running the test bench"));
    }
    Ok(())
}

/// What the diagnostics report of the capture sessions.
pub struct DiagnosticsCounts {
    pub phase: LocalAsrModulePhase,
    pub is_runtime_running: bool,
    pub decode_count: u64,
    pub finalized_segments: u64,
    /// The live runtime's telemetry is reported (else the test bench's).
    pub use_runtime_telemetry: bool,
}

/// Diagnostics while capture may be running: the live runtime's telemetry when it runs or
/// has emitted, else the test bench's; the phase reads `Running` while either runs; the
/// counts are the larger of the bench's and the telemetry's.
pub fn diagnostics_counts(
    status_phase: LocalAsrModulePhase,
    test_running: bool,
    test_decode_count: u32,
    test_finalized_segments: u32,
    runtime_running: bool,
    runtime_telemetry: &EmitTelemetrySnapshot,
    test_telemetry: &EmitTelemetrySnapshot,
) -> (r: DiagnosticsCounts)
    ensures
        r.use_runtime_telemetry == (runtime_running || runtime_telemetry.partial_emits > 0),
        r.is_runtime_running == (test_running || runtime_running),
        r.phase == if test_running || runtime_running { LocalAsrModulePhase::Running } else { status_phase },
        ({
            let tel = if r.use_runtime_telemetry { *runtime_telemetry } else { *test_telemetry };
            &&& r.decode_count == if test_decode_count >= tel.partial_emits {
                test_decode_count as u64
            } else {
                tel.partial_emits
            }
            &&& r.finalized_segments == if test_finalized_segments >= tel.final_emits {
                test_finalized_segments as u64
            } else {
                tel.final_emits
            }
        }),
{
    let use_runtime = runtime_running || runtime_telemetry.partial_emits > 0;
    let (partial, finals) = if use_runtime {
        (runtime_telemetry.partial_emits, runtime_telemetry.final_emits)
    } else {
        (test_telemetry.partial_emits, test_telemetry.final_emits)
    };
    let running = test_running || runtime_running;
    DiagnosticsCounts {
        phase: if running { LocalAsrModulePhase::Running } else { status_phase },
        is_runtime_running: running,
        decode_count: if test_decode_count as u64 >= partial { test_decode_count as u64 } else { partial },
        finalized_segments: if test_finalized_segments as u64 >= finals { test_finalized_segments as u64 } else { finals },
        use_runtime_telemetry: use_runtime,
    }
}

/// Keeps `model.path` on the selected variant's install: when the canonical folder holds
/// an install the path points there (and an empty fingerprint takes the stored
/// manifest's); when it does not, a configured path that holds no install of the variant
/// is cleared with its fingerprint.  `canonical_manifest_sha256` is the stored manifest's
/// folder fingerprint (where one can be read); `configured_installed` is the install check
/// of the trimmed configured path.
pub fn heal_model_path(
    config: &mut LocalAsrConfig,
    canonical_dir: &str,
    canonical_installed: bool,
    canonical_manifest_sha256: Option<&str>,
    configured_installed: bool,
)
    ensures
        canonical_installed ==> final(config).model.path@ == canonical_dir@,
        canonical_installed && old(config).model.manifest_sha256@.len() == 0 ==> final(config).model.manifest_sha256@
            == match canonical_manifest_sha256 {
            Some(s) => s@,
            None => old(config).model.manifest_sha256@,
        },
        canonical_installed && old(config).model.manifest_sha256@.len() > 0 ==> final(config).model.manifest_sha256
            == old(config).model.manifest_sha256,
        !canonical_installed && trim(old(config).model.path@).len() > 0 && !configured_installed
            ==> final(config).model.path@.len() == 0 && final(config).model.manifest_sha256@.len() == 0,
        !canonical_installed && (trim(old(config).model.path@).len() == 0 || configured_installed)
            ==> final(config).model.path == old(config).model.path && final(config).model.manifest_sha256
            == old(config).model.manifest_sha256,
        final(config).model.family == old(config).model.family,
        final(config).model.variant == old(config).model.variant,
        final(config).inference == old(config).inference,
        final(config).setup == old(config).setup,
{
    if canonical_installed {
        config.model.path = to_owned_string(canonical_dir);
        if config.model.manifest_sha256.as_str().is_empty() {
            if let Some(sha) = canonical_manifest_sha256 {
                config.model.manifest_sha256 = to_owned_string(sha);
            }
        }
    } else {
        let t = trim_str(config.model.path.as_str());
        if !t.as_str().is_empty() && !configured_installed {
            config.model.path = String::new();
            config.model.manifest_sha256 = String::new();
        }
    }
}

} // verus!
